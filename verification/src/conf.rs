//! What a launch is given: the configuration, the companion node's
//! connection parameters and the environment.

use crate::text::{clone_opt, opt_text};
use crate::versions::Compat;
use vstd::prelude::*;

verus! {

/// Electrs configuration parameters, with a convenient [`Default`] for the
/// most common use.
#[derive(Debug, PartialEq, Eq)]
#[non_exhaustive]
pub struct Conf<'a> {
    /// Command line arguments handed to the daemon before the ones that the
    /// harness derives (`db-dir`, `network`, `cookie`, `cookie-file`,
    /// `daemon-rpc-addr`, `jsonrpc-import`, `daemon-p2p-addr`,
    /// `electrum-rpc-addr`, `monitoring-addr`, `http-addr`).
    pub args: Vec<&'a str>,
    /// If `true` the daemon's log output is not suppressed.
    pub view_stderr: bool,
    /// If `true` the daemon exposes an HTTP endpoint.
    pub http_enabled: bool,
    /// Must match the companion node's network.
    pub network: &'a str,
    /// Root under which a temporary work directory is created.
    ///
    /// With `staticdir` also set the launch is refused. With neither set the
    /// temporary directory is created under the environment's root, or in
    /// the system's default place.
    pub tmpdir: Option<String>,
    /// Persistent work directory.
    pub staticdir: Option<String>,
    /// The daemon build that is driven.
    pub compat: Compat,
    /// How many times a launch is tried again after the daemon exited early.
    ///
    /// The ports handed to the daemon are free when they are chosen but not
    /// reserved; trying again with other ports makes a clash negligible.
    pub attempts: u8,
}

/// The mathematical value of a [`Conf`].
pub struct ConfView {
    pub args: Seq<Seq<char>>,
    pub view_stderr: bool,
    pub http_enabled: bool,
    pub network: Seq<char>,
    pub tmpdir: Option<Seq<char>>,
    pub staticdir: Option<Seq<char>>,
    pub compat: Compat,
    pub attempts: u8,
}

impl ConfView {
    /// The configuration that [`Conf::for_compat`] gives.
    pub open spec fn standard(compat: Compat) -> ConfView {
        ConfView {
            args: if compat.import_mode() {
                seq!["-vvv"@]
            } else {
                Seq::empty()
            },
            view_stderr: false,
            http_enabled: false,
            network: "dev"@,
            tmpdir: None,
            staticdir: None,
            compat,
            attempts: 3,
        }
    }

    /// Whether both kinds of work directory are asked for at once.
    pub open spec fn dirs_conflict(self) -> bool {
        self.tmpdir is Some && self.staticdir is Some
    }
}

impl<'a> View for Conf<'a> {
    type V = ConfView;

    open spec fn view(&self) -> ConfView {
        ConfView {
            args: self.args.deep_view(),
            view_stderr: self.view_stderr,
            http_enabled: self.http_enabled,
            network: self.network@,
            tmpdir: opt_text(self.tmpdir),
            staticdir: opt_text(self.staticdir),
            compat: self.compat,
            attempts: self.attempts,
        }
    }
}

impl<'a> Conf<'a> {
    /// The usual configuration for a daemon of the given build: verbose
    /// logging for a build that imports over JSON-RPC, network `dev`, a
    /// temporary work directory, no HTTP endpoint, three further tries.
    pub fn for_compat(compat: Compat) -> (conf: Conf<'a>)
        ensures
            conf@ == ConfView::standard(compat),
    {
        let mut args: Vec<&'a str> = Vec::new();
        if compat.import_mode() {
            args.push("-vvv");
        }
        let conf = Conf {
            args,
            view_stderr: false,
            http_enabled: false,
            network: "dev",
            tmpdir: None,
            staticdir: None,
            compat,
            attempts: 3,
        };
        assert(conf@.args =~= ConfView::standard(compat).args);
        conf
    }

    /// The same configuration with another number of further tries.
    pub(crate) fn with_attempts(&self, attempts: u8) -> (conf: Conf<'a>)
        ensures
            conf@ == (ConfView { attempts, ..self@ }),
    {
        let conf = Conf {
            args: copy_args(&self.args),
            view_stderr: self.view_stderr,
            http_enabled: self.http_enabled,
            network: self.network,
            tmpdir: clone_opt(&self.tmpdir),
            staticdir: clone_opt(&self.staticdir),
            compat: self.compat,
            attempts,
        };
        conf
    }
}

/// A copy of a list of borrowed strings.
fn copy_args<'a>(args: &Vec<&'a str>) -> (copy: Vec<&'a str>)
    ensures
        copy@ == args@,
{
    let mut copy: Vec<&'a str> = Vec::new();
    let mut i: usize = 0;
    while i < args.len()
        invariant
            i <= args.len(),
            copy@ == args@.take(i as int),
        decreases args.len() - i,
    {
        copy.push(args[i]);
        i += 1;
        assert(copy@ =~= args@.take(i as int));
    }
    assert(args@.take(args.len() as int) =~= args@);
    copy
}

impl<'a> Clone for Conf<'a> {
    fn clone(&self) -> (conf: Conf<'a>)
        ensures
            conf@ == self@,
    {
        self.with_attempts(self.attempts)
    }
}

impl<'a> Default for Conf<'a> {
    fn default() -> (conf: Conf<'a>)
        ensures
            conf@ == ConfView::standard(Compat::current()),
    {
        Conf::for_compat(Compat { release: None, legacy: false })
    }
}

/// How to reach the companion node that the daemon indexes.
#[derive(Debug, PartialEq, Eq)]
pub struct Upstream {
    /// Path of the node's cookie file.
    pub cookie_file: String,
    /// Address of the node's RPC port, as `host:port`.
    pub rpc_socket: String,
    /// Address of the node's peer-to-peer port, if it listens on one.
    pub p2p_socket: Option<String>,
}

/// The mathematical value of an [`Upstream`].
pub struct UpstreamView {
    pub cookie_file: Seq<char>,
    pub rpc_socket: Seq<char>,
    pub p2p_socket: Option<Seq<char>>,
}

impl View for Upstream {
    type V = UpstreamView;

    open spec fn view(&self) -> UpstreamView {
        UpstreamView {
            cookie_file: self.cookie_file@,
            rpc_socket: self.rpc_socket@,
            p2p_socket: opt_text(self.p2p_socket),
        }
    }
}

impl Clone for Upstream {
    fn clone(&self) -> (r: Upstream)
        ensures
            r == *self,
    {
        Upstream {
            cookie_file: self.cookie_file.clone(),
            rpc_socket: self.rpc_socket.clone(),
            p2p_socket: clone_opt(&self.p2p_socket),
        }
    }
}

/// What the process environment says, read once by the embedding program.
#[derive(Debug, PartialEq, Eq)]
pub struct Environment {
    /// The value of `ELECTRS_EXEC`, a path of the daemon executable.
    pub electrs_exec: Option<String>,
    /// The value of `ELECTRS_EXE`, a path of the daemon executable.
    pub electrs_exe: Option<String>,
    /// Whether `ELECTRSD_SKIP_DOWNLOAD` is set.
    pub skip_download: bool,
    /// The value of `TEMPDIR_ROOT`, under which temporary work directories
    /// are created when the configuration names no directory.
    pub tempdir_root: Option<String>,
}

/// The mathematical value of an [`Environment`].
pub struct EnvironmentView {
    pub electrs_exec: Option<Seq<char>>,
    pub electrs_exe: Option<Seq<char>>,
    pub skip_download: bool,
    pub tempdir_root: Option<Seq<char>>,
}

impl EnvironmentView {
    /// The environment in which none of the variables is set.
    pub open spec fn empty() -> EnvironmentView {
        EnvironmentView {
            electrs_exec: None,
            electrs_exe: None,
            skip_download: false,
            tempdir_root: None,
        }
    }
}

impl View for Environment {
    type V = EnvironmentView;

    open spec fn view(&self) -> EnvironmentView {
        EnvironmentView {
            electrs_exec: opt_text(self.electrs_exec),
            electrs_exe: opt_text(self.electrs_exe),
            skip_download: self.skip_download,
            tempdir_root: opt_text(self.tempdir_root),
        }
    }
}

impl Default for Environment {
    fn default() -> (env: Environment)
        ensures
            env@ == EnvironmentView::empty(),
    {
        Environment { electrs_exec: None, electrs_exe: None, skip_download: false, tempdir_root: None }
    }
}

/// The kind of work directory the daemon uses, with its path.
#[derive(Debug, PartialEq, Eq)]
pub enum DataDir {
    /// A directory of the caller, which outlives the daemon.
    Persistent(String),
    /// A directory of the harness, removed when the daemon is disposed of.
    Temporary(String),
}

/// The mathematical value of a [`DataDir`].
pub enum DataDirView {
    Persistent(Seq<char>),
    Temporary(Seq<char>),
}

impl DataDirView {
    /// The path of the directory.
    pub open spec fn path(self) -> Seq<char> {
        match self {
            DataDirView::Persistent(p) => p,
            DataDirView::Temporary(p) => p,
        }
    }
}

impl View for DataDir {
    type V = DataDirView;

    open spec fn view(&self) -> DataDirView {
        match self {
            DataDir::Persistent(p) => DataDirView::Persistent(p@),
            DataDir::Temporary(p) => DataDirView::Temporary(p@),
        }
    }
}

impl DataDir {
    /// The path of the directory.
    pub fn path(&self) -> (p: String)
        ensures
            p@ == self@.path(),
    {
        match self {
            DataDir::Persistent(path) => path.clone(),
            DataDir::Temporary(path) => path.clone(),
        }
    }
}

impl Clone for DataDir {
    fn clone(&self) -> (r: DataDir)
        ensures
            r == *self,
    {
        match self {
            DataDir::Persistent(path) => DataDir::Persistent(path.clone()),
            DataDir::Temporary(path) => DataDir::Temporary(path.clone()),
        }
    }
}

} // verus!
