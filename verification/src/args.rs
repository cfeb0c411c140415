//! The command line of the daemon.

use crate::conf::{Conf, ConfView, Upstream, UpstreamView};
use crate::text::{decimal, push_decimal};
use crate::versions::Compat;
use vstd::prelude::*;
use vstd::string::StringExecFns;

verus! {

/// The ports the daemon is told to listen on.
#[derive(Clone, Copy, Debug, PartialEq, Eq, Structural)]
pub struct Ports {
    /// Port of the indexing protocol.
    pub electrum: u16,
    /// Port of the monitoring endpoint, which the harness never contacts.
    pub monitoring: u16,
    /// Port of the HTTP endpoint, where one is asked for.
    pub http: Option<u16>,
}

/// How the daemon authenticates to the companion node.
#[derive(Debug, PartialEq, Eq)]
pub enum Credential {
    /// By reading the cookie file at this path.
    CookieFile(String),
    /// By this cookie value, handed over on the command line.
    Cookie(String),
}

/// The mathematical value of a [`Credential`].
pub enum CredentialView {
    CookieFile(Seq<char>),
    Cookie(Seq<char>),
}

impl View for Credential {
    type V = CredentialView;

    open spec fn view(&self) -> CredentialView {
        match self {
            Credential::CookieFile(p) => CredentialView::CookieFile(p@),
            Credential::Cookie(v) => CredentialView::Cookie(v@),
        }
    }
}

/// The address on every interface at `port`, as the daemon's flags take it.
pub open spec fn listen_addr(port: u16) -> Seq<char> {
    "0.0.0.0:"@ + decimal(port as nat)
}

/// The flags that hand over the credential.
pub open spec fn credential_args(credential: CredentialView) -> Seq<Seq<char>> {
    match credential {
        CredentialView::CookieFile(path) => seq!["--cookie-file"@, path],
        CredentialView::Cookie(value) => seq!["--cookie"@, value],
    }
}

/// The flags that say where the daemon gets its blocks from.
pub open spec fn link_args(compat: Compat, upstream: UpstreamView) -> Seq<Seq<char>> {
    if compat.import_mode() {
        seq!["--jsonrpc-import"@]
    } else {
        match upstream.p2p_socket {
            Some(addr) => seq!["--daemon-p2p-addr"@, addr],
            None => seq!["--daemon-p2p-addr"@],
        }
    }
}

/// The flags of the HTTP endpoint.
pub open spec fn http_args(port: Option<u16>) -> Seq<Seq<char>> {
    match port {
        Some(p) => seq!["--http-addr"@, listen_addr(p)],
        None => Seq::empty(),
    }
}

/// The whole command line: the caller's arguments first, then the flags
/// that the harness derives, in the order in which the daemon is given them.
pub open spec fn command_line(
    conf: ConfView,
    upstream: UpstreamView,
    db_dir: Seq<char>,
    credential: CredentialView,
    ports: Ports,
) -> Seq<Seq<char>> {
    conf.args + seq!["--db-dir"@, db_dir, "--network"@, conf.network] + credential_args(credential)
        + seq!["--daemon-rpc-addr"@, upstream.rpc_socket] + link_args(conf.compat, upstream)
        + seq![
        "--electrum-rpc-addr"@,
        listen_addr(ports.electrum),
        "--monitoring-addr"@,
        listen_addr(ports.monitoring),
    ] + http_args(ports.http)
}

/// Whether the companion node offers what the daemon build needs: a build
/// that does not import over JSON-RPC connects to the peer-to-peer port.
pub open spec fn upstream_serves(compat: Compat, upstream: UpstreamView) -> bool {
    !compat.import_mode() ==> upstream.p2p_socket is Some
}

/// The address on every interface at `port`.
pub fn listen_url(port: u16) -> (url: String)
    ensures
        url@ == listen_addr(port),
{
    let mut url = String::from_str("0.0.0.0:");
    push_decimal(&mut url, port);
    url
}

/// Appends one argument.
fn push_arg(args: &mut Vec<String>, arg: &str)
    ensures
        final(args).deep_view() == old(args).deep_view().push(arg@),
{
    args.push(String::from_str(arg));
    assert(args.deep_view() =~= old(args).deep_view().push(arg@));
}

/// Builds the daemon's command line.
pub fn build_args(
    conf: &Conf,
    upstream: &Upstream,
    db_dir: &str,
    credential: &Credential,
    ports: Ports,
) -> (args: Vec<String>)
    requires
        upstream_serves(conf.compat, upstream@),
    ensures
        args.deep_view() == command_line(conf@, upstream@, db_dir@, credential@, ports),
{
    let mut args: Vec<String> = Vec::new();
    let mut i: usize = 0;
    assert(args.deep_view() =~= conf@.args.take(0));
    while i < conf.args.len()
        invariant
            i <= conf.args.len(),
            args.deep_view() == conf@.args.take(i as int),
        decreases conf.args.len() - i,
    {
        push_arg(&mut args, conf.args[i]);
        i += 1;
        assert(args.deep_view() =~= conf@.args.take(i as int));
    }
    assert(conf@.args.take(i as int) =~= conf@.args);
    push_arg(&mut args, "--db-dir");
    push_arg(&mut args, db_dir);
    push_arg(&mut args, "--network");
    push_arg(&mut args, conf.network);
    match credential {
        Credential::CookieFile(path) => {
            push_arg(&mut args, "--cookie-file");
            push_arg(&mut args, path.as_str());
        },
        Credential::Cookie(value) => {
            push_arg(&mut args, "--cookie");
            push_arg(&mut args, value.as_str());
        },
    }
    push_arg(&mut args, "--daemon-rpc-addr");
    push_arg(&mut args, upstream.rpc_socket.as_str());
    if conf.compat.import_mode() {
        push_arg(&mut args, "--jsonrpc-import");
    } else {
        push_arg(&mut args, "--daemon-p2p-addr");
        match &upstream.p2p_socket {
            Some(addr) => {
                push_arg(&mut args, addr.as_str());
            },
            None => {},
        }
    }
    let electrum_url = listen_url(ports.electrum);
    push_arg(&mut args, "--electrum-rpc-addr");
    push_arg(&mut args, electrum_url.as_str());
    let monitoring = listen_url(ports.monitoring);
    push_arg(&mut args, "--monitoring-addr");
    push_arg(&mut args, monitoring.as_str());
    match ports.http {
        Some(port) => {
            let esplora_url = listen_url(port);
            push_arg(&mut args, "--http-addr");
            push_arg(&mut args, esplora_url.as_str());
        },
        None => {},
    }
    assert(args.deep_view() =~= command_line(conf@, upstream@, db_dir@, credential@, ports));
    args
}

} // verus!
