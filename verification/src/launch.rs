//! Launching the daemon: one function from the state of a launch and an
//! event to the next state and the next request.
//!
//! The embedding program carries each request out and reports what came of
//! it. A launch queries the companion node, resolves the work directory,
//! learns the ports, starts the process and probes the indexing port until
//! a connection succeeds or the process is found to have exited. After an
//! early exit the whole sequence starts afresh while tries remain.

use crate::args::{
    build_args, command_line, listen_addr, listen_url, upstream_serves, Credential,
    CredentialView, Ports,
};
use crate::conf::{Conf, ConfView, DataDir, DataDirView, Environment, Upstream, UpstreamView};
use crate::daemon::{ElectrsD, ElectrsDView};
use crate::error::{Error, ErrorView, ExitStatus};
use crate::text::{clone_opt, opt_text};
use vstd::prelude::*;

verus! {

/// Milliseconds between two probes of the indexing port.
pub const READY_POLL_MILLIS: u64 = 500;

/// What the embedding program reports to a launch.
#[derive(Debug, PartialEq, Eq)]
pub enum LaunchEvent {
    /// The companion node answered `getblockchaininfo`; the field is its
    /// `initialblockdownload` entry, where that is a boolean.
    UpstreamInfo { initial_block_download: Option<bool> },
    /// The companion node mined a block to a new address of its own.
    Nudged,
    /// The persistent work directory exists.
    DirCreated,
    /// A temporary work directory was created at this path.
    TempDirCreated(String),
    /// The cookie file holds this value.
    CookieRead(String),
    /// The system handed out this free port.
    PortAllocated(u16),
    /// The process was started.
    Spawned,
    /// A client connected to the indexing port.
    Connected,
    /// No client could connect to the indexing port.
    ConnectFailed,
    /// The process has not exited.
    StillRunning,
    /// The process has exited.
    Exited(ExitStatus),
    /// The pause is over.
    Slept,
    /// The request failed; the text says how.
    Failed(String),
}

/// The mathematical value of a [`LaunchEvent`].
pub enum LaunchEventView {
    UpstreamInfo { initial_block_download: Option<bool> },
    Nudged,
    DirCreated,
    TempDirCreated(Seq<char>),
    CookieRead(Seq<char>),
    PortAllocated(u16),
    Spawned,
    Connected,
    ConnectFailed,
    StillRunning,
    Exited(ExitStatus),
    Slept,
    Failed(Seq<char>),
}

impl View for LaunchEvent {
    type V = LaunchEventView;

    open spec fn view(&self) -> LaunchEventView {
        match self {
            LaunchEvent::UpstreamInfo { initial_block_download } => LaunchEventView::UpstreamInfo {
                initial_block_download: *initial_block_download,
            },
            LaunchEvent::Nudged => LaunchEventView::Nudged,
            LaunchEvent::DirCreated => LaunchEventView::DirCreated,
            LaunchEvent::TempDirCreated(p) => LaunchEventView::TempDirCreated(p@),
            LaunchEvent::CookieRead(v) => LaunchEventView::CookieRead(v@),
            LaunchEvent::PortAllocated(p) => LaunchEventView::PortAllocated(*p),
            LaunchEvent::Spawned => LaunchEventView::Spawned,
            LaunchEvent::Connected => LaunchEventView::Connected,
            LaunchEvent::ConnectFailed => LaunchEventView::ConnectFailed,
            LaunchEvent::StillRunning => LaunchEventView::StillRunning,
            LaunchEvent::Exited(s) => LaunchEventView::Exited(*s),
            LaunchEvent::Slept => LaunchEventView::Slept,
            LaunchEvent::Failed(m) => LaunchEventView::Failed(m@),
        }
    }
}

/// What a launch asks the embedding program to do next.
#[derive(Debug, PartialEq, Eq)]
pub enum LaunchAction {
    /// Call `getblockchaininfo` on the companion node.
    QueryUpstream,
    /// Have the companion node mine one block to a new address of its own,
    /// so that it leaves its initial block download.
    NudgeUpstream,
    /// Create a temporary directory under `root`, or in the system's
    /// default place where there is none.
    CreateTempDir { root: Option<String> },
    /// Create the directory at `path` with its parents, unless it exists.
    CreateDir { path: String },
    /// Read the cookie file at `path`.
    ReadCookie { path: String },
    /// Ask the system for a free port.
    AllocatePort,
    /// Start `exe` with `args`, its error output shown or discarded.
    Spawn { exe: String, args: Vec<String>, view_stderr: bool },
    /// Try to connect a client to `url`.
    Connect { url: String },
    /// Find out whether the process has exited, without waiting for it.
    PollExit,
    /// Pause for `millis` milliseconds.
    Sleep { millis: u64 },
    /// The launch is over: the daemon runs and is reachable.
    Ready(ElectrsD),
    /// The launch is over: it failed.
    Fail(Error),
    /// The launch is over, and it is the caller who is at fault: the daemon
    /// build connects to the companion node's peer-to-peer port, and the
    /// node has none open.
    MissingP2p,
    /// The event answered nothing; the request made before still stands.
    Pending,
    /// The launch was over before the event came.
    Finished,
}

/// The mathematical value of a [`LaunchAction`].
pub enum LaunchActionView {
    QueryUpstream,
    NudgeUpstream,
    CreateTempDir { root: Option<Seq<char>> },
    CreateDir { path: Seq<char> },
    ReadCookie { path: Seq<char> },
    AllocatePort,
    Spawn { exe: Seq<char>, args: Seq<Seq<char>>, view_stderr: bool },
    Connect { url: Seq<char> },
    PollExit,
    Sleep { millis: u64 },
    Ready(ElectrsDView),
    Fail(ErrorView),
    MissingP2p,
    Pending,
    Finished,
}

impl View for LaunchAction {
    type V = LaunchActionView;

    open spec fn view(&self) -> LaunchActionView {
        match self {
            LaunchAction::QueryUpstream => LaunchActionView::QueryUpstream,
            LaunchAction::NudgeUpstream => LaunchActionView::NudgeUpstream,
            LaunchAction::CreateTempDir { root } => LaunchActionView::CreateTempDir {
                root: opt_text(*root),
            },
            LaunchAction::CreateDir { path } => LaunchActionView::CreateDir { path: path@ },
            LaunchAction::ReadCookie { path } => LaunchActionView::ReadCookie { path: path@ },
            LaunchAction::AllocatePort => LaunchActionView::AllocatePort,
            LaunchAction::Spawn { exe, args, view_stderr } => LaunchActionView::Spawn {
                exe: exe@,
                args: args.deep_view(),
                view_stderr: *view_stderr,
            },
            LaunchAction::Connect { url } => LaunchActionView::Connect { url: url@ },
            LaunchAction::PollExit => LaunchActionView::PollExit,
            LaunchAction::Sleep { millis } => LaunchActionView::Sleep { millis: *millis },
            LaunchAction::Ready(d) => LaunchActionView::Ready(d@),
            LaunchAction::Fail(e) => LaunchActionView::Fail(e@),
            LaunchAction::MissingP2p => LaunchActionView::MissingP2p,
            LaunchAction::Pending => LaunchActionView::Pending,
            LaunchAction::Finished => LaunchActionView::Finished,
        }
    }
}

/// What a launch waits for.
enum Stage {
    Upstream,
    Nudge,
    WorkDir,
    Cookie { dir: DataDir },
    ElectrumPort { dir: DataDir, credential: Credential },
    MonitoringPort { dir: DataDir, credential: Credential, electrum: u16 },
    HttpPort { dir: DataDir, credential: Credential, electrum: u16, monitoring: u16 },
    Spawn { daemon: ElectrsD },
    Connect { daemon: ElectrsD },
    Exit { daemon: ElectrsD },
    Sleep { daemon: ElectrsD },
    Finished,
}

/// What a launch waits for, with what the current try has learnt so far.
pub enum StageView {
    /// The companion node's answer to `getblockchaininfo`.
    Upstream,
    /// The companion node's new block.
    Nudge,
    /// The work directory.
    WorkDir,
    /// The cookie value.
    Cookie { dir: DataDirView },
    /// The port of the indexing protocol.
    ElectrumPort { dir: DataDirView, credential: CredentialView },
    /// The port of the monitoring endpoint.
    MonitoringPort { dir: DataDirView, credential: CredentialView, electrum: u16 },
    /// The port of the HTTP endpoint.
    HttpPort { dir: DataDirView, credential: CredentialView, electrum: u16, monitoring: u16 },
    /// The start of the process.
    Spawn { daemon: ElectrsDView },
    /// The outcome of a connection attempt.
    Connect { daemon: ElectrsDView },
    /// Whether the process has exited.
    Exit { daemon: ElectrsDView },
    /// The end of the pause between two attempts.
    Sleep { daemon: ElectrsDView },
    /// Nothing: the launch is over.
    Finished,
}

impl Stage {
    /// Whether the stage is one that only a launch for a companion node
    /// that serves the daemon build comes to.
    spec fn needs_service(self) -> bool {
        self is Cookie || self is ElectrumPort || self is MonitoringPort || self is HttpPort
    }
}

impl View for Stage {
    type V = StageView;

    closed spec fn view(&self) -> StageView {
        match self {
            Stage::Upstream => StageView::Upstream,
            Stage::Nudge => StageView::Nudge,
            Stage::WorkDir => StageView::WorkDir,
            Stage::Cookie { dir } => StageView::Cookie { dir: dir@ },
            Stage::ElectrumPort { dir, credential } => StageView::ElectrumPort {
                dir: dir@,
                credential: credential@,
            },
            Stage::MonitoringPort { dir, credential, electrum } => StageView::MonitoringPort {
                dir: dir@,
                credential: credential@,
                electrum: *electrum,
            },
            Stage::HttpPort { dir, credential, electrum, monitoring } => StageView::HttpPort {
                dir: dir@,
                credential: credential@,
                electrum: *electrum,
                monitoring: *monitoring,
            },
            Stage::Spawn { daemon } => StageView::Spawn { daemon: daemon@ },
            Stage::Connect { daemon } => StageView::Connect { daemon: daemon@ },
            Stage::Exit { daemon } => StageView::Exit { daemon: daemon@ },
            Stage::Sleep { daemon } => StageView::Sleep { daemon: daemon@ },
            Stage::Finished => StageView::Finished,
        }
    }
}

/// A launch in progress.
pub struct Launch<'a> {
    conf: Conf<'a>,
    upstream: Upstream,
    tempdir_root: Option<String>,
    exe: String,
    stage: Stage,
}

/// The mathematical value of a [`Launch`]. The tries that remain are
/// `conf.attempts`.
pub struct LaunchView {
    pub conf: ConfView,
    pub upstream: UpstreamView,
    pub tempdir_root: Option<Seq<char>>,
    pub exe: Seq<char>,
    pub stage: StageView,
}

impl LaunchView {
    /// The launch at the start of a try, and its first request.
    pub open spec fn start(
        conf: ConfView,
        upstream: UpstreamView,
        tempdir_root: Option<Seq<char>>,
        exe: Seq<char>,
    ) -> (LaunchView, LaunchActionView) {
        (
            LaunchView { conf, upstream, tempdir_root, exe, stage: StageView::Upstream },
            LaunchActionView::QueryUpstream,
        )
    }

    /// The launch in another stage.
    pub open spec fn at(self, stage: StageView) -> LaunchView {
        LaunchView { stage, ..self }
    }

    /// The end of the launch with a failure.
    pub open spec fn fail(self, error: ErrorView) -> (LaunchView, LaunchActionView) {
        (self.at(StageView::Finished), LaunchActionView::Fail(error))
    }

    /// The launch unchanged by an event that answers nothing.
    pub open spec fn pending(self) -> (LaunchView, LaunchActionView) {
        (self, LaunchActionView::Pending)
    }

    /// Resolves the work directory: a conflict between the two kinds is
    /// a failure, otherwise the directory of the configured kind is asked
    /// for.
    pub open spec fn resolve_dir(self) -> (LaunchView, LaunchActionView) {
        match (self.conf.tmpdir, self.conf.staticdir) {
            (Some(_), Some(_)) => self.fail(ErrorView::BothDirsSpecified),
            (Some(root), None) => (
                self.at(StageView::WorkDir),
                LaunchActionView::CreateTempDir { root: Some(root) },
            ),
            (None, Some(path)) => (self.at(StageView::WorkDir), LaunchActionView::CreateDir { path }),
            (None, None) => (
                self.at(StageView::WorkDir),
                LaunchActionView::CreateTempDir { root: self.tempdir_root },
            ),
        }
    }

    /// Goes on once the work directory is there: a legacy daemon needs the
    /// cookie's value, any other is told where the cookie file is. A launch
    /// for a companion node that does not offer what the daemon build needs
    /// ends here, before any port is asked for.
    pub open spec fn with_dir(self, dir: DataDirView) -> (LaunchView, LaunchActionView) {
        if self.conf.compat.legacy {
            (
                self.at(StageView::Cookie { dir }),
                LaunchActionView::ReadCookie { path: self.upstream.cookie_file },
            )
        } else if !upstream_serves(self.conf.compat, self.upstream) {
            (self.at(StageView::Finished), LaunchActionView::MissingP2p)
        } else {
            (
                self.at(
                    StageView::ElectrumPort {
                        dir,
                        credential: CredentialView::CookieFile(self.upstream.cookie_file),
                    },
                ),
                LaunchActionView::AllocatePort,
            )
        }
    }

    /// The daemon that a try with these ports in this directory starts.
    pub open spec fn daemon(dir: DataDirView, ports: Ports) -> ElectrsDView {
        ElectrsDView {
            work_dir: dir,
            electrum_url: listen_addr(ports.electrum),
            esplora_url: match ports.http {
                Some(p) => Some(listen_addr(p)),
                None => None,
            },
        }
    }

    /// Asks for the process to be started once all ports are known.
    pub open spec fn spawn(self, dir: DataDirView, credential: CredentialView, ports: Ports) -> (
        LaunchView,
        LaunchActionView,
    ) {
        (
            self.at(StageView::Spawn { daemon: Self::daemon(dir, ports) }),
            LaunchActionView::Spawn {
                exe: self.exe,
                args: command_line(self.conf, self.upstream, dir.path(), credential, ports),
                view_stderr: self.conf.view_stderr,
            },
        )
    }

    /// What follows an early exit: a fresh try with one try fewer left,
    /// which keeps nothing of the try that failed, or the failure of the
    /// launch where no try is left.
    pub open spec fn after_exit(self, status: ExitStatus) -> (LaunchView, LaunchActionView) {
        if self.conf.attempts > 0 {
            Self::start(
                ConfView { attempts: (self.conf.attempts - 1) as u8, ..self.conf },
                self.upstream,
                self.tempdir_root,
                self.exe,
            )
        } else {
            self.fail(ErrorView::EarlyExit(status))
        }
    }

    /// The next state and request after `event`.
    pub open spec fn next(self, event: LaunchEventView) -> (LaunchView, LaunchActionView) {
        match self.stage {
            StageView::Upstream => match event {
                LaunchEventView::UpstreamInfo { initial_block_download } => {
                    if initial_block_download == Some(true) {
                        (self.at(StageView::Nudge), LaunchActionView::NudgeUpstream)
                    } else {
                        self.resolve_dir()
                    }
                },
                LaunchEventView::Failed(m) => self.fail(ErrorView::TapyrusCoreRpc(m)),
                _ => self.pending(),
            },
            StageView::Nudge => match event {
                LaunchEventView::Nudged => self.resolve_dir(),
                LaunchEventView::Failed(m) => self.fail(ErrorView::TapyrusCoreRpc(m)),
                _ => self.pending(),
            },
            StageView::WorkDir => match event {
                LaunchEventView::DirCreated => match self.conf.staticdir {
                    Some(path) => self.with_dir(DataDirView::Persistent(path)),
                    None => self.pending(),
                },
                LaunchEventView::TempDirCreated(path) => match self.conf.staticdir {
                    Some(_) => self.pending(),
                    None => self.with_dir(DataDirView::Temporary(path)),
                },
                LaunchEventView::Failed(m) => self.fail(ErrorView::Io(m)),
                _ => self.pending(),
            },
            StageView::Cookie { dir } => match event {
                LaunchEventView::CookieRead(value) => (
                    self.at(
                        StageView::ElectrumPort { dir, credential: CredentialView::Cookie(value) },
                    ),
                    LaunchActionView::AllocatePort,
                ),
                LaunchEventView::Failed(m) => self.fail(ErrorView::Io(m)),
                _ => self.pending(),
            },
            StageView::ElectrumPort { dir, credential } => match event {
                LaunchEventView::PortAllocated(port) => (
                    self.at(StageView::MonitoringPort { dir, credential, electrum: port }),
                    LaunchActionView::AllocatePort,
                ),
                LaunchEventView::Failed(m) => self.fail(ErrorView::Io(m)),
                _ => self.pending(),
            },
            StageView::MonitoringPort { dir, credential, electrum } => match event {
                LaunchEventView::PortAllocated(port) => {
                    if self.conf.http_enabled {
                        (
                            self.at(
                                StageView::HttpPort { dir, credential, electrum, monitoring: port },
                            ),
                            LaunchActionView::AllocatePort,
                        )
                    } else {
                        self.spawn(
                            dir,
                            credential,
                            Ports { electrum, monitoring: port, http: None },
                        )
                    }
                },
                LaunchEventView::Failed(m) => self.fail(ErrorView::Io(m)),
                _ => self.pending(),
            },
            StageView::HttpPort { dir, credential, electrum, monitoring } => match event {
                LaunchEventView::PortAllocated(port) => self.spawn(
                    dir,
                    credential,
                    Ports { electrum, monitoring, http: Some(port) },
                ),
                LaunchEventView::Failed(m) => self.fail(ErrorView::Io(m)),
                _ => self.pending(),
            },
            StageView::Spawn { daemon } => match event {
                LaunchEventView::Spawned => (
                    self.at(StageView::Connect { daemon }),
                    LaunchActionView::Connect { url: daemon.electrum_url },
                ),
                LaunchEventView::Failed(m) => self.fail(ErrorView::Io(m)),
                _ => self.pending(),
            },
            StageView::Connect { daemon } => match event {
                LaunchEventView::Connected => (
                    self.at(StageView::Finished),
                    LaunchActionView::Ready(daemon),
                ),
                LaunchEventView::ConnectFailed => (
                    self.at(StageView::Exit { daemon }),
                    LaunchActionView::PollExit,
                ),
                _ => self.pending(),
            },
            StageView::Exit { daemon } => match event {
                LaunchEventView::Exited(status) => self.after_exit(status),
                LaunchEventView::StillRunning => (
                    self.at(StageView::Sleep { daemon }),
                    LaunchActionView::Sleep { millis: READY_POLL_MILLIS },
                ),
                LaunchEventView::Failed(m) => self.fail(ErrorView::Io(m)),
                _ => self.pending(),
            },
            StageView::Sleep { daemon } => match event {
                LaunchEventView::Slept => (
                    self.at(StageView::Connect { daemon }),
                    LaunchActionView::Connect { url: daemon.electrum_url },
                ),
                _ => self.pending(),
            },
            StageView::Finished => (self, LaunchActionView::Finished),
        }
    }
}

impl<'a> View for Launch<'a> {
    type V = LaunchView;

    closed spec fn view(&self) -> LaunchView {
        LaunchView {
            conf: self.conf@,
            upstream: self.upstream@,
            tempdir_root: opt_text(self.tempdir_root),
            exe: self.exe@,
            stage: self.stage@,
        }
    }
}

impl ElectrsD {
    /// Begins the launch of a daemon connected with the given companion
    /// node, with the default configuration. Returns the launch and its
    /// first request.
    pub fn new<'a>(exe: &str, upstream: &Upstream, env: &Environment) -> (r: (
        Launch<'a>,
        LaunchAction,
    ))
        ensures
            (r.0@, r.1@) == LaunchView::start(
                ConfView::standard(crate::versions::Compat::current()),
                upstream@,
                env@.tempdir_root,
                exe@,
            ),
    {
        let conf = Conf::default();
        ElectrsD::with_conf(exe, upstream, env, &conf)
    }

    /// Begins the launch of a daemon connected with the given companion
    /// node, with the given configuration. Returns the launch and its first
    /// request.
    ///
    /// A daemon build that does not import over JSON-RPC connects to the
    /// companion node's peer-to-peer port. For a node that has none open
    /// the launch ends with [`LaunchAction::MissingP2p`] once the work
    /// directory is there, before any port is asked for.
    pub fn with_conf<'a>(
        exe: &str,
        upstream: &Upstream,
        env: &Environment,
        conf: &Conf<'a>,
    ) -> (r: (Launch<'a>, LaunchAction))
        ensures
            (r.0@, r.1@) == LaunchView::start(conf@, upstream@, env@.tempdir_root, exe@),
    {
        let launch = Launch {
            conf: conf.clone(),
            upstream: upstream.clone(),
            tempdir_root: clone_opt(&env.tempdir_root),
            exe: exe.to_owned(),
            stage: Stage::Upstream,
        };
        (launch, LaunchAction::QueryUpstream)
    }
}

impl<'a> Launch<'a> {
    /// A launch that has come to ask for the cookie or for ports is one
    /// for a companion node that offers what the daemon build needs.
    #[verifier::type_invariant]
    spec fn served(self) -> bool {
        self.stage.needs_service() ==> upstream_serves(self.conf.compat, self.upstream@)
    }

    /// Whether the launch is over.
    pub fn is_finished(&self) -> (b: bool)
        ensures
            b == (self@.stage is Finished),
    {
        match self.stage {
            Stage::Finished => true,
            _ => false,
        }
    }

    /// The tries that remain after the current one.
    pub fn attempts(&self) -> (n: u8)
        ensures
            n == self@.conf.attempts,
    {
        self.conf.attempts
    }

    /// The launch in another stage.
    fn at(self, stage: Stage) -> (r: Launch<'a>)
        requires
            stage.needs_service() ==> upstream_serves(self.conf.compat, self.upstream@),
        ensures
            r@ == self@.at(stage@),
            r.conf == self.conf,
            r.upstream == self.upstream,
    {
        Launch {
            conf: self.conf,
            upstream: self.upstream,
            tempdir_root: self.tempdir_root,
            exe: self.exe,
            stage,
        }
    }

    /// The end of the launch with a failure.
    fn fail(self, error: Error) -> (r: (Launch<'a>, LaunchAction))
        ensures
            (r.0@, r.1@) == self@.fail(error@),
    {
        (self.at(Stage::Finished), LaunchAction::Fail(error))
    }

    /// Resolves the work directory of a try.
    fn resolve_dir(self) -> (r: (Launch<'a>, LaunchAction))
        ensures
            (r.0@, r.1@) == self@.resolve_dir(),
    {
        let tmpdir = clone_opt(&self.conf.tmpdir);
        let staticdir = clone_opt(&self.conf.staticdir);
        match (tmpdir, staticdir) {
            (Some(_), Some(_)) => self.fail(Error::BothDirsSpecified),
            (Some(root), None) => (
                self.at(Stage::WorkDir),
                LaunchAction::CreateTempDir { root: Some(root) },
            ),
            (None, Some(path)) => (self.at(Stage::WorkDir), LaunchAction::CreateDir { path }),
            (None, None) => {
                let root = clone_opt(&self.tempdir_root);
                (self.at(Stage::WorkDir), LaunchAction::CreateTempDir { root })
            },
        }
    }

    /// Goes on once the work directory is there.
    fn with_dir(self, dir: DataDir) -> (r: (Launch<'a>, LaunchAction))
        ensures
            (r.0@, r.1@) == self@.with_dir(dir@),
    {
        let path = self.upstream.cookie_file.clone();
        if self.conf.compat.legacy {
            (self.at(Stage::Cookie { dir }), LaunchAction::ReadCookie { path })
        } else if !self.conf.compat.import_mode() && self.upstream.p2p_socket.is_none() {
            (self.at(Stage::Finished), LaunchAction::MissingP2p)
        } else {
            (
                self.at(Stage::ElectrumPort { dir, credential: Credential::CookieFile(path) }),
                LaunchAction::AllocatePort,
            )
        }
    }

    /// Asks for the process to be started once all ports are known.
    fn spawn(self, dir: DataDir, credential: Credential, ports: Ports) -> (r: (
        Launch<'a>,
        LaunchAction,
    ))
        requires
            upstream_serves(self.conf.compat, self.upstream@),
        ensures
            (r.0@, r.1@) == self@.spawn(dir@, credential@, ports),
    {
        let db_dir = dir.path();
        let args = build_args(&self.conf, &self.upstream, db_dir.as_str(), &credential, ports);
        let daemon = ElectrsD {
            work_dir: dir,
            electrum_url: listen_url(ports.electrum),
            esplora_url: match ports.http {
                Some(port) => Some(listen_url(port)),
                None => None,
            },
        };
        let action = LaunchAction::Spawn {
            exe: self.exe.clone(),
            args,
            view_stderr: self.conf.view_stderr,
        };
        (self.at(Stage::Spawn { daemon }), action)
    }

    /// What follows an early exit.
    fn after_exit(self, status: ExitStatus) -> (r: (Launch<'a>, LaunchAction))
        ensures
            (r.0@, r.1@) == self@.after_exit(status),
    {
        if self.conf.attempts > 0 {
            let again = Launch {
                conf: self.conf.with_attempts(self.conf.attempts - 1),
                upstream: self.upstream,
                tempdir_root: self.tempdir_root,
                exe: self.exe,
                stage: Stage::Upstream,
            };
            (again, LaunchAction::QueryUpstream)
        } else {
            self.fail(Error::EarlyExit(status))
        }
    }

    /// Takes the outcome of the last request and says what to do next.
    pub fn step(self, event: LaunchEvent) -> (r: (Launch<'a>, LaunchAction))
        ensures
            (r.0@, r.1@) == self@.next(event@),
    {
        proof {
            use_type_invariant(&self);
        }
        let Launch { conf, upstream, tempdir_root, exe, stage } = self;
        let this = Launch { conf, upstream, tempdir_root, exe, stage: Stage::Finished };
        assert(this@ == self@.at(StageView::Finished));
        assert(stage.needs_service() ==> upstream_serves(this.conf.compat, this.upstream@));
        match stage {
            Stage::Upstream => match event {
                LaunchEvent::UpstreamInfo { initial_block_download: Some(true) } => (
                    this.at(Stage::Nudge),
                    LaunchAction::NudgeUpstream,
                ),
                LaunchEvent::UpstreamInfo { .. } => this.resolve_dir(),
                LaunchEvent::Failed(m) => this.fail(Error::TapyrusCoreRpc(m)),
                _ => (this.at(Stage::Upstream), LaunchAction::Pending),
            },
            Stage::Nudge => match event {
                LaunchEvent::Nudged => this.resolve_dir(),
                LaunchEvent::Failed(m) => this.fail(Error::TapyrusCoreRpc(m)),
                _ => (this.at(Stage::Nudge), LaunchAction::Pending),
            },
            Stage::WorkDir => match event {
                LaunchEvent::DirCreated => match clone_opt(&this.conf.staticdir) {
                    Some(path) => this.with_dir(DataDir::Persistent(path)),
                    None => (this.at(Stage::WorkDir), LaunchAction::Pending),
                },
                LaunchEvent::TempDirCreated(path) => {
                    if this.conf.staticdir.is_some() {
                        (this.at(Stage::WorkDir), LaunchAction::Pending)
                    } else {
                        this.with_dir(DataDir::Temporary(path))
                    }
                },
                LaunchEvent::Failed(m) => this.fail(Error::Io(m)),
                _ => (this.at(Stage::WorkDir), LaunchAction::Pending),
            },
            Stage::Cookie { dir } => match event {
                LaunchEvent::CookieRead(value) => (
                    this.at(Stage::ElectrumPort { dir, credential: Credential::Cookie(value) }),
                    LaunchAction::AllocatePort,
                ),
                LaunchEvent::Failed(m) => this.fail(Error::Io(m)),
                _ => (this.at(Stage::Cookie { dir }), LaunchAction::Pending),
            },
            Stage::ElectrumPort { dir, credential } => match event {
                LaunchEvent::PortAllocated(port) => (
                    this.at(Stage::MonitoringPort { dir, credential, electrum: port }),
                    LaunchAction::AllocatePort,
                ),
                LaunchEvent::Failed(m) => this.fail(Error::Io(m)),
                _ => (this.at(Stage::ElectrumPort { dir, credential }), LaunchAction::Pending),
            },
            Stage::MonitoringPort { dir, credential, electrum } => match event {
                LaunchEvent::PortAllocated(port) => {
                    if this.conf.http_enabled {
                        (
                            this.at(
                                Stage::HttpPort { dir, credential, electrum, monitoring: port },
                            ),
                            LaunchAction::AllocatePort,
                        )
                    } else {
                        this.spawn(
                            dir,
                            credential,
                            Ports { electrum, monitoring: port, http: None },
                        )
                    }
                },
                LaunchEvent::Failed(m) => this.fail(Error::Io(m)),
                _ => (
                    this.at(Stage::MonitoringPort { dir, credential, electrum }),
                    LaunchAction::Pending,
                ),
            },
            Stage::HttpPort { dir, credential, electrum, monitoring } => match event {
                LaunchEvent::PortAllocated(port) => this.spawn(
                    dir,
                    credential,
                    Ports { electrum, monitoring, http: Some(port) },
                ),
                LaunchEvent::Failed(m) => this.fail(Error::Io(m)),
                _ => (
                    this.at(Stage::HttpPort { dir, credential, electrum, monitoring }),
                    LaunchAction::Pending,
                ),
            },
            Stage::Spawn { daemon } => match event {
                LaunchEvent::Spawned => {
                    let url = daemon.electrum_url.clone();
                    (this.at(Stage::Connect { daemon }), LaunchAction::Connect { url })
                },
                LaunchEvent::Failed(m) => this.fail(Error::Io(m)),
                _ => (this.at(Stage::Spawn { daemon }), LaunchAction::Pending),
            },
            Stage::Connect { daemon } => match event {
                LaunchEvent::Connected => (this.at(Stage::Finished), LaunchAction::Ready(daemon)),
                LaunchEvent::ConnectFailed => (
                    this.at(Stage::Exit { daemon }),
                    LaunchAction::PollExit,
                ),
                _ => (this.at(Stage::Connect { daemon }), LaunchAction::Pending),
            },
            Stage::Exit { daemon } => match event {
                LaunchEvent::Exited(status) => this.after_exit(status),
                LaunchEvent::StillRunning => (
                    this.at(Stage::Sleep { daemon }),
                    LaunchAction::Sleep { millis: READY_POLL_MILLIS },
                ),
                LaunchEvent::Failed(m) => this.fail(Error::Io(m)),
                _ => (this.at(Stage::Exit { daemon }), LaunchAction::Pending),
            },
            Stage::Sleep { daemon } => match event {
                LaunchEvent::Slept => {
                    let url = daemon.electrum_url.clone();
                    (this.at(Stage::Connect { daemon }), LaunchAction::Connect { url })
                },
                _ => (this.at(Stage::Sleep { daemon }), LaunchAction::Pending),
            },
            Stage::Finished => (this, LaunchAction::Finished),
        }
    }
}

} // verus!
