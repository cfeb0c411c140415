//! What holds of every launch, whatever the embedding program reports.

use crate::args::{command_line, listen_addr, upstream_serves, CredentialView, Ports};
use crate::conf::{ConfView, DataDirView, UpstreamView};
use crate::daemon::ElectrsDView;
use crate::error::ErrorView;
use crate::launch::{LaunchActionView, LaunchEventView, LaunchView, StageView};
use vstd::prelude::*;

verus! {

impl LaunchView {
    /// The state after a sequence of events, with the requests that the
    /// events were answered with, in order.
    pub open spec fn run(self, events: Seq<LaunchEventView>) -> (
        LaunchView,
        Seq<LaunchActionView>,
    )
        decreases events.len(),
    {
        if events.len() == 0 {
            (self, Seq::empty())
        } else {
            let (before, trace) = self.run(events.drop_last());
            let (after, action) = before.next(events.last());
            (after, trace.push(action))
        }
    }

    /// How many times, on the way through `events`, the process was found
    /// to have exited before it became reachable.
    pub open spec fn early_exits(self, events: Seq<LaunchEventView>) -> nat
        decreases events.len(),
    {
        if events.len() == 0 {
            0
        } else {
            let before = self.run(events.drop_last()).0;
            let earlier = self.early_exits(events.drop_last());
            if before.stage is Exit && events.last() is Exited {
                earlier + 1
            } else {
                earlier
            }
        }
    }
}

/// Whether a request touches neither the file system, nor a port, nor a
/// process, and does not end the launch in success.
pub open spec fn touches_nothing(action: LaunchActionView) -> bool {
    match action {
        LaunchActionView::QueryUpstream => true,
        LaunchActionView::NudgeUpstream => true,
        LaunchActionView::Pending => true,
        LaunchActionView::Finished => true,
        LaunchActionView::Fail(ErrorView::BothDirsSpecified) => true,
        LaunchActionView::Fail(ErrorView::TapyrusCoreRpc(_)) => true,
        _ => false,
    }
}

/// The trace of a run is as long as the run.
pub proof fn lemma_run_len(s: LaunchView, events: Seq<LaunchEventView>)
    ensures
        s.run(events).1.len() == events.len(),
    decreases events.len(),
{
    if events.len() > 0 {
        lemma_run_len(s, events.drop_last());
    }
}

/// The run over a prefix of the events is the beginning of the run.
pub proof fn lemma_run_prefix(s: LaunchView, events: Seq<LaunchEventView>, i: int)
    requires
        0 <= i < events.len(),
    ensures
        s.run(events).1.len() == events.len(),
        s.run(events).1[i] == s.run(events.take(i)).0.next(events[i]).1,
    decreases events.len(),
{
    lemma_run_len(s, events);
    lemma_run_len(s, events.drop_last());
    if i == events.len() - 1 {
        assert(events.take(i) =~= events.drop_last());
    } else {
        lemma_run_prefix(s, events.drop_last(), i);
        assert(events.drop_last().take(i) =~= events.take(i));
    }
}

/// A configuration that names both a temporary root and a persistent
/// directory never gets a directory, a port or a process: whatever is
/// reported, the launch asks for nothing but the companion node's state, and
/// once the node has answered it fails with the directory conflict.
pub proof fn law_dir_conflict(s: LaunchView, events: Seq<LaunchEventView>, i: int)
    requires
        s.stage is Upstream,
        s.conf.dirs_conflict(),
        0 <= i < events.len(),
    ensures
        touches_nothing(s.run(events).1[i]),
        s.run(events.take(i)).0.stage is Upstream && (events[i] matches LaunchEventView::UpstreamInfo {
            initial_block_download,
        } && initial_block_download != Some(true)) ==> s.run(events).1[i]
            == LaunchActionView::Fail(ErrorView::BothDirsSpecified),
        s.run(events.take(i)).0.stage is Nudge && events[i] is Nudged ==> s.run(events).1[i]
            == LaunchActionView::Fail(ErrorView::BothDirsSpecified),
{
    lemma_run_prefix(s, events, i);
    lemma_conflict_stays_early(s, events.take(i));
}

/// With conflicting directories a launch never leaves its first two stages
/// but to finish.
proof fn lemma_conflict_stays_early(s: LaunchView, events: Seq<LaunchEventView>)
    requires
        s.conf.dirs_conflict(),
        s.stage is Upstream || s.stage is Nudge || s.stage is Finished,
    ensures
        s.run(events).0.conf.dirs_conflict(),
        s.run(events).0.stage is Upstream || s.run(events).0.stage is Nudge || s.run(
            events,
        ).0.stage is Finished,
    decreases events.len(),
{
    if events.len() > 0 {
        lemma_conflict_stays_early(s, events.drop_last());
    }
}

/// Whether a work directory is the one the configuration asks for: the
/// persistent directory itself where one is named, else a temporary one.
pub open spec fn dir_fits(conf: ConfView, dir: DataDirView) -> bool {
    match conf.staticdir {
        Some(path) => dir == DataDirView::Persistent(path),
        None => dir is Temporary,
    }
}

/// Whether a daemon is one that a try under the configuration starts: its
/// work directory fits, its indexing address is a port on every interface,
/// and it has an HTTP address, of the same form, exactly if the
/// configuration asks for the HTTP endpoint.
pub open spec fn daemon_fits(conf: ConfView, daemon: ElectrsDView) -> bool {
    &&& dir_fits(conf, daemon.work_dir)
    &&& exists|port: u16| daemon.electrum_url == listen_addr(port)
    &&& daemon.esplora_url is Some <==> conf.http_enabled
    &&& daemon.esplora_url matches Some(url) ==> exists|port: u16| url == listen_addr(port)
}

/// What holds of a launch in every stage.
spec fn stage_fits(s: LaunchView) -> bool {
    match s.stage {
        StageView::Cookie { dir } => dir_fits(s.conf, dir),
        StageView::ElectrumPort { dir, .. } => dir_fits(s.conf, dir),
        StageView::MonitoringPort { dir, .. } => dir_fits(s.conf, dir),
        StageView::HttpPort { dir, .. } => dir_fits(s.conf, dir) && s.conf.http_enabled,
        StageView::Spawn { daemon } => daemon_fits(s.conf, daemon),
        StageView::Connect { daemon } => daemon_fits(s.conf, daemon),
        StageView::Exit { daemon } => daemon_fits(s.conf, daemon),
        StageView::Sleep { daemon } => daemon_fits(s.conf, daemon),
        _ => true,
    }
}

proof fn lemma_daemon_fits(conf: ConfView, dir: DataDirView, ports: Ports)
    requires
        dir_fits(conf, dir),
        ports.http is Some <==> conf.http_enabled,
    ensures
        daemon_fits(conf, LaunchView::daemon(dir, ports)),
{
    let d = LaunchView::daemon(dir, ports);
    assert(d.electrum_url == listen_addr(ports.electrum));
    if let Some(p) = ports.http {
        assert(d.esplora_url->0 == listen_addr(p));
    }
}

proof fn lemma_step_fits(s: LaunchView, event: LaunchEventView)
    requires
        stage_fits(s),
    ensures
        stage_fits(s.next(event).0),
        s.next(event).0.conf.staticdir == s.conf.staticdir,
        s.next(event).0.conf.http_enabled == s.conf.http_enabled,
{
    match s.stage {
        StageView::MonitoringPort { dir, credential, electrum } => {
            if let LaunchEventView::PortAllocated(port) = event {
                if !s.conf.http_enabled {
                    lemma_daemon_fits(s.conf, dir, Ports { electrum, monitoring: port, http: None });
                }
            }
        },
        StageView::HttpPort { dir, credential, electrum, monitoring } => {
            if let LaunchEventView::PortAllocated(port) = event {
                lemma_daemon_fits(s.conf, dir, Ports { electrum, monitoring, http: Some(port) });
            }
        },
        _ => {},
    }
}

proof fn lemma_run_fits(s: LaunchView, events: Seq<LaunchEventView>)
    requires
        stage_fits(s),
    ensures
        stage_fits(s.run(events).0),
        s.run(events).0.conf.staticdir == s.conf.staticdir,
        s.run(events).0.conf.http_enabled == s.conf.http_enabled,
    decreases events.len(),
{
    if events.len() > 0 {
        lemma_run_fits(s, events.drop_last());
        lemma_step_fits(s.run(events.drop_last()).0, events.last());
    }
}

/// A launch reports a daemon as ready only in answer to a successful
/// connection to that daemon's indexing address, and the daemon is one that
/// the configuration asks for: in the persistent directory where one is
/// named, with an HTTP address exactly if the HTTP endpoint is enabled.
pub proof fn law_ready(s: LaunchView, events: Seq<LaunchEventView>, i: int)
    requires
        s.stage is Upstream,
        0 <= i < events.len(),
    ensures
        s.run(events).1[i] matches LaunchActionView::Ready(daemon) ==> {
            &&& events[i] is Connected
            &&& s.run(events.take(i)).0.stage == (StageView::Connect { daemon })
            &&& daemon_fits(s.conf, daemon)
        },
{
    lemma_run_prefix(s, events, i);
    lemma_run_fits(s, events.take(i));
}

/// How the tries of a launch are spent: `conf` is the configuration at the
/// start, `n` the number of early exits so far.
spec fn budget_holds(conf: ConfView, s: LaunchView, n: nat) -> bool {
    &&& n <= conf.attempts + 1
    &&& n <= conf.attempts ==> s.conf == (ConfView {
        attempts: (conf.attempts - n) as u8,
        ..conf
    })
    &&& n == conf.attempts + 1 ==> s.stage is Finished
    &&& s.upstream_fixed(conf)
}

impl LaunchView {
    /// Whether the launch still has the configuration `conf` but for the
    /// number of tries.
    spec fn upstream_fixed(self, conf: ConfView) -> bool {
        self.conf == (ConfView { attempts: self.conf.attempts, ..conf })
    }
}

proof fn lemma_run_budget(s: LaunchView, events: Seq<LaunchEventView>)
    requires
        s.stage is Upstream,
    ensures
        budget_holds(s.conf, s.run(events).0, s.early_exits(events)),
        s.run(events).0.upstream == s.upstream,
        s.run(events).0.tempdir_root == s.tempdir_root,
        s.run(events).0.exe == s.exe,
    decreases events.len(),
{
    if events.len() > 0 {
        lemma_run_budget(s, events.drop_last());
    }
}

/// A launch is tried again after every early exit while tries remain, from
/// the very start and with nothing kept of the try that failed; it fails
/// with the exit status at the early exit that finds no try left, and at
/// no other. With `attempts` further tries configured the process is thus
/// started up to `attempts + 1` times.
pub proof fn law_retry(s: LaunchView, events: Seq<LaunchEventView>, i: int)
    requires
        s.stage is Upstream,
        0 <= i < events.len(),
    ensures
        s.early_exits(events) <= s.conf.attempts + 1,
        s.early_exits(events) <= s.conf.attempts ==> s.run(events).0.conf.attempts
            == s.conf.attempts - s.early_exits(events),
        s.run(events.take(i)).0.stage is Exit && events[i] is Exited && s.early_exits(
            events.take(i),
        ) < s.conf.attempts ==> (s.run(events.take(i + 1)).0, s.run(events).1[i])
            == LaunchView::start(
            ConfView {
                attempts: (s.conf.attempts - s.early_exits(events.take(i)) - 1) as u8,
                ..s.conf
            },
            s.upstream,
            s.tempdir_root,
            s.exe,
        ),
        s.run(events).1[i] matches LaunchActionView::Fail(ErrorView::EarlyExit(status)) <==> {
            &&& s.run(events.take(i)).0.stage is Exit
            &&& events[i] is Exited
            &&& s.early_exits(events.take(i)) == s.conf.attempts
        },
        s.run(events).1[i] matches LaunchActionView::Fail(ErrorView::EarlyExit(status))
            ==> events[i] == LaunchEventView::Exited(status),
{
    lemma_run_budget(s, events);
    lemma_run_prefix(s, events, i);
    lemma_run_budget(s, events.take(i));
    assert(events.take(i + 1).drop_last() =~= events.take(i));
    assert(events.take(i + 1).last() == events[i]);
}

/// A run over two sequences of events, one after the other, is the run over
/// the first followed by the run over the second from where the first ended.
pub proof fn lemma_run_split(s: LaunchView, first: Seq<LaunchEventView>, rest: Seq<LaunchEventView>)
    ensures
        s.run(first + rest).0 == s.run(first).0.run(rest).0,
        s.run(first + rest).1 == s.run(first).1 + s.run(first).0.run(rest).1,
    decreases rest.len(),
{
    if rest.len() == 0 {
        assert(first + rest =~= first);
        assert(s.run(first).1 + Seq::<LaunchActionView>::empty() =~= s.run(first).1);
    } else {
        lemma_run_split(s, first, rest.drop_last());
        assert((first + rest).drop_last() =~= first + rest.drop_last());
        assert((first + rest).last() == rest.last());
        let mid = s.run(first).0;
        let (before, trace) = mid.run(rest.drop_last());
        assert(s.run(first).1 + trace.push(before.next(rest.last()).1) =~= (s.run(first).1
            + trace).push(before.next(rest.last()).1));
    }
}

/// After an early exit that leaves a try, the launch goes on exactly as a
/// launch begun anew with one try fewer: the directory, the credential and
/// the ports of the try that failed play no part in what follows.
pub proof fn law_retry_starts_afresh(s: LaunchView, events: Seq<LaunchEventView>, i: int)
    requires
        s.stage is Upstream,
        0 <= i < events.len(),
        s.run(events.take(i)).0.stage is Exit,
        events[i] is Exited,
        s.early_exits(events.take(i)) < s.conf.attempts,
    ensures
        ({
            let anew = LaunchView::start(
                ConfView {
                    attempts: (s.conf.attempts - s.early_exits(events.take(i)) - 1) as u8,
                    ..s.conf
                },
                s.upstream,
                s.tempdir_root,
                s.exe,
            ).0;
            &&& s.run(events).0 == anew.run(events.skip(i + 1)).0
            &&& s.run(events).1.skip(i + 1) == anew.run(events.skip(i + 1)).1
        }),
{
    law_retry(s, events, i);
    lemma_run_split(s, events.take(i + 1), events.skip(i + 1));
    assert(events.take(i + 1) + events.skip(i + 1) =~= events);
    lemma_run_len(s, events.take(i + 1));
    let anew = s.run(events.take(i + 1)).0;
    assert((s.run(events.take(i + 1)).1 + anew.run(events.skip(i + 1)).1).skip(i + 1)
        =~= anew.run(events.skip(i + 1)).1);
}

/// What a system in working order answers with: the directory it creates,
/// the cookie it reads, the port it hands out and the status with which a
/// failing process exits.
pub struct World {
    pub dir: Seq<char>,
    pub cookie: Seq<char>,
    pub port: u16,
    pub status: crate::error::ExitStatus,
}

/// The answer of a system in working order to a request. The process
/// either exits before it can be reached (`exits`) or is reachable at the
/// first attempt.
pub open spec fn reply(action: LaunchActionView, exits: bool, world: World) -> LaunchEventView {
    match action {
        LaunchActionView::QueryUpstream => LaunchEventView::UpstreamInfo {
            initial_block_download: Some(false),
        },
        LaunchActionView::NudgeUpstream => LaunchEventView::Nudged,
        LaunchActionView::CreateTempDir { .. } => LaunchEventView::TempDirCreated(world.dir),
        LaunchActionView::CreateDir { .. } => LaunchEventView::DirCreated,
        LaunchActionView::ReadCookie { .. } => LaunchEventView::CookieRead(world.cookie),
        LaunchActionView::AllocatePort => LaunchEventView::PortAllocated(world.port),
        LaunchActionView::Spawn { .. } => LaunchEventView::Spawned,
        LaunchActionView::Connect { .. } => if exits {
            LaunchEventView::ConnectFailed
        } else {
            LaunchEventView::Connected
        },
        LaunchActionView::PollExit => if exits {
            LaunchEventView::Exited(world.status)
        } else {
            LaunchEventView::StillRunning
        },
        _ => LaunchEventView::Slept,
    }
}

/// The request with which a launch ends when every request is carried out
/// and answered by a system in working order, on which the process exits
/// early in the next `failures` tries and is reachable in the one after
/// them. At most `steps` requests are answered.
pub open spec fn drive(
    s: LaunchView,
    action: LaunchActionView,
    failures: nat,
    world: World,
    steps: nat,
) -> LaunchActionView
    decreases steps,
{
    if action is Ready || action is Fail || action is MissingP2p || steps == 0 {
        action
    } else {
        let (after, then) = s.next(reply(action, failures > 0, world));
        let left = if action is PollExit && failures > 0 {
            (failures - 1) as nat
        } else {
            failures
        };
        drive(after, then, left, world, (steps - 1) as nat)
    }
}

/// The work directory of a try on a system in working order.
pub open spec fn dir_in(conf: ConfView, world: World) -> DataDirView {
    match conf.staticdir {
        Some(path) => DataDirView::Persistent(path),
        None => DataDirView::Temporary(world.dir),
    }
}

/// The ports of a try on a system in working order.
pub open spec fn ports_in(conf: ConfView, world: World) -> Ports {
    Ports {
        electrum: world.port,
        monitoring: world.port,
        http: if conf.http_enabled {
            Some(world.port)
        } else {
            None
        },
    }
}

/// One try on a system in working order, from its first request to the
/// outcome of the first connection attempt.
proof fn lemma_drive_try(s: LaunchView, failures: nat, world: World, steps: nat) -> (used: nat)
    requires
        s.stage is Upstream,
        !s.conf.dirs_conflict(),
        upstream_serves(s.conf.compat, s.upstream),
        steps >= 10,
    ensures
        1 <= used <= 8,
        drive(s, LaunchActionView::QueryUpstream, failures, world, steps) == drive(
            s.at(
                StageView::Connect {
                    daemon: LaunchView::daemon(dir_in(s.conf, world), ports_in(s.conf, world)),
                },
            ),
            LaunchActionView::Connect { url: listen_addr(world.port) },
            failures,
            world,
            (steps - used) as nat,
        ),
{
    reveal_with_fuel(drive, 9);
    let used: nat = if s.conf.compat.legacy {
        if s.conf.http_enabled {
            7
        } else {
            6
        }
    } else {
        if s.conf.http_enabled {
            6
        } else {
            5
        }
    };
    used
}

/// On a system in working order, where the process exits early in the
/// first `failures` tries and is reachable in the next, a launch with a
/// sound configuration, for a companion node that serves the daemon build,
/// ends with the daemon ready if the configuration allows as many further
/// tries as there are failures, and else with the early exit. The daemon is
/// the one of the last try.
pub proof fn law_retry_until_ready(s: LaunchView, failures: nat, world: World, steps: nat)
    requires
        s.stage is Upstream,
        !s.conf.dirs_conflict(),
        upstream_serves(s.conf.compat, s.upstream),
        steps >= 10 * (failures + 1),
    ensures
        failures <= s.conf.attempts ==> drive(
            s,
            LaunchActionView::QueryUpstream,
            failures,
            world,
            steps,
        ) == LaunchActionView::Ready(
            LaunchView::daemon(dir_in(s.conf, world), ports_in(s.conf, world)),
        ),
        failures > s.conf.attempts ==> drive(
            s,
            LaunchActionView::QueryUpstream,
            failures,
            world,
            steps,
        ) == LaunchActionView::Fail(ErrorView::EarlyExit(world.status)),
    decreases failures,
{
    let used = lemma_drive_try(s, failures, world, steps);
    let target = s.at(
        StageView::Connect {
            daemon: LaunchView::daemon(dir_in(s.conf, world), ports_in(s.conf, world)),
        },
    );
    let connect = LaunchActionView::Connect { url: listen_addr(world.port) };
    let rest = (steps - used) as nat;
    reveal_with_fuel(drive, 3);
    if failures == 0 {
        assert(drive(target, connect, failures, world, rest) == LaunchActionView::Ready(
            LaunchView::daemon(dir_in(s.conf, world), ports_in(s.conf, world)),
        ));
    } else if s.conf.attempts == 0 {
        assert(drive(target, connect, failures, world, rest) == LaunchActionView::Fail(
            ErrorView::EarlyExit(world.status),
        ));
    } else {
        let anew = LaunchView::start(
            ConfView { attempts: (s.conf.attempts - 1) as u8, ..s.conf },
            s.upstream,
            s.tempdir_root,
            s.exe,
        ).0;
        assert(drive(target, connect, failures, world, rest) == drive(
            anew,
            LaunchActionView::QueryUpstream,
            (failures - 1) as nat,
            world,
            (rest - 2) as nat,
        ));
        law_retry_until_ready(anew, (failures - 1) as nat, world, (rest - 2) as nat);
    }
}

/// The work directory follows the configuration in every try of a launch.
/// Where a persistent directory is named, that very directory is asked for
/// and no temporary one, the daemon that becomes ready works in it, and its
/// termination begins with the interrupt that lets it close its index, so
/// that a later launch finds the directory as the daemon left it. Where
/// none is named, only temporary directories are asked for, and the daemon
/// that becomes ready is one that will be killed.
pub proof fn law_work_dir(s: LaunchView, events: Seq<LaunchEventView>, i: int)
    requires
        s.stage is Upstream,
        !s.conf.dirs_conflict(),
        0 <= i < events.len(),
    ensures
        ({
            let action = s.run(events).1[i];
            match s.conf.staticdir {
                Some(path) => {
                    &&& !(action is CreateTempDir)
                    &&& action matches LaunchActionView::CreateDir { path: asked } ==> asked == path
                    &&& action matches LaunchActionView::Ready(daemon) ==> daemon.work_dir
                        == DataDirView::Persistent(path) && crate::daemon::Shutdown::start(
                        daemon.work_dir,
                    ).1 == crate::daemon::ShutdownActionView::Send(
                        crate::daemon::Signal::Interrupt,
                    )
                },
                None => {
                    &&& !(action is CreateDir)
                    &&& action matches LaunchActionView::CreateTempDir { root } ==> root == (
                    match s.conf.tmpdir {
                        Some(root) => Some(root),
                        None => s.tempdir_root,
                    })
                    &&& action matches LaunchActionView::Ready(daemon) ==> daemon.work_dir is Temporary
                        && crate::daemon::Shutdown::start(daemon.work_dir).1 is Kill
                },
            }
        }),
{
    lemma_run_prefix(s, events, i);
    lemma_run_fits(s, events.take(i));
    lemma_run_budget(s, events.take(i));
}

/// On a system in working order a launch with both a temporary root and a
/// persistent directory ends with the directory conflict, as soon as the
/// companion node has answered.
pub proof fn law_dir_conflict_fails(s: LaunchView, failures: nat, world: World, steps: nat)
    requires
        s.stage is Upstream,
        s.conf.dirs_conflict(),
        steps >= 1,
    ensures
        drive(s, LaunchActionView::QueryUpstream, failures, world, steps)
            == LaunchActionView::Fail(ErrorView::BothDirsSpecified),
{
    reveal_with_fuel(drive, 2);
}

/// Whether a request asks for a port or a process, or ends the launch in
/// success.
pub open spec fn needs_ports(action: LaunchActionView) -> bool {
    action is AllocatePort || action is Spawn || action is Connect || action is PollExit
        || action is Sleep || action is Ready
}

proof fn lemma_unserved_stays_early(s: LaunchView, events: Seq<LaunchEventView>)
    requires
        !upstream_serves(s.conf.compat, s.upstream),
        s.stage is Upstream || s.stage is Nudge || s.stage is WorkDir || s.stage is Finished,
    ensures
        !upstream_serves(s.run(events).0.conf.compat, s.run(events).0.upstream),
        s.run(events).0.stage is Upstream || s.run(events).0.stage is Nudge || s.run(
            events,
        ).0.stage is WorkDir || s.run(events).0.stage is Finished,
    decreases events.len(),
{
    if events.len() > 0 {
        lemma_unserved_stays_early(s, events.drop_last());
    }
}

/// A launch of a daemon build that connects to the peer-to-peer port, for a
/// companion node that has none open, never asks for a port or a process,
/// whatever is reported. It ends as a fault of the caller exactly when the
/// work directory is there, and on a system in working order it does end
/// so, unless the directories conflict, which is found first.
pub proof fn law_missing_p2p(
    s: LaunchView,
    events: Seq<LaunchEventView>,
    i: int,
    world: World,
    steps: nat,
)
    requires
        s.stage is Upstream,
        !upstream_serves(s.conf.compat, s.upstream),
        0 <= i < events.len(),
        steps >= 2,
    ensures
        !needs_ports(s.run(events).1[i]),
        s.run(events).1[i] is MissingP2p <==> s.run(events.take(i)).0.stage is WorkDir && (
        match s.conf.staticdir {
            Some(_) => events[i] is DirCreated,
            None => events[i] is TempDirCreated,
        }),
        drive(s, LaunchActionView::QueryUpstream, 0, world, steps) == (if s.conf.dirs_conflict() {
            LaunchActionView::Fail(ErrorView::BothDirsSpecified)
        } else {
            LaunchActionView::MissingP2p
        }),
{
    lemma_run_prefix(s, events, i);
    lemma_unserved_stays_early(s, events.take(i));
    lemma_run_budget(s, events.take(i));
    reveal_with_fuel(drive, 3);
}

/// What the embedding program has reported to the current try of a launch,
/// and the command line that the try has asked to be started.
pub struct TryRecord {
    /// The path of the temporary directory that was created.
    pub temp_dir: Option<Seq<char>>,
    /// The value of the cookie that was read.
    pub cookie: Option<Seq<char>>,
    /// The ports that were handed out, in order.
    pub ports: Seq<u16>,
    /// The arguments of the process that was asked for.
    pub args: Option<Seq<Seq<char>>>,
}

impl TryRecord {
    /// The record of a try that has been told nothing yet.
    pub open spec fn empty() -> TryRecord {
        TryRecord { temp_dir: None, cookie: None, ports: Seq::empty(), args: None }
    }

    /// The work directory of the try under a configuration.
    pub open spec fn dir(self, conf: ConfView) -> DataDirView {
        match conf.staticdir {
            Some(path) => DataDirView::Persistent(path),
            None => DataDirView::Temporary(self.temp_dir->0),
        }
    }

    /// The credential of the try.
    pub open spec fn credential(self, conf: ConfView, upstream: UpstreamView) -> CredentialView {
        if conf.compat.legacy {
            CredentialView::Cookie(self.cookie->0)
        } else {
            CredentialView::CookieFile(upstream.cookie_file)
        }
    }

    /// The ports of the try: the first that was handed out for the indexing
    /// protocol, the second for monitoring, the third, where the HTTP
    /// endpoint is asked for, for that.
    pub open spec fn ports_for(self, conf: ConfView) -> Ports {
        Ports {
            electrum: self.ports[0],
            monitoring: self.ports[1],
            http: if conf.http_enabled {
                Some(self.ports[2])
            } else {
                None
            },
        }
    }

    /// Whether the try has been told all that a process needs.
    pub open spec fn complete(self, conf: ConfView) -> bool {
        &&& conf.staticdir is None ==> self.temp_dir is Some
        &&& conf.compat.legacy ==> self.cookie is Some
        &&& self.ports.len() == (if conf.http_enabled {
            3nat
        } else {
            2nat
        })
    }
}

impl LaunchView {
    /// The record of the current try after a sequence of events. A try
    /// begins with the launch and after every early exit that leaves one;
    /// an event that answers nothing is not recorded.
    pub open spec fn record(self, events: Seq<LaunchEventView>) -> TryRecord
        decreases events.len(),
    {
        if events.len() == 0 {
            TryRecord::empty()
        } else {
            let before = self.run(events.drop_last()).0;
            let earlier = self.record(events.drop_last());
            let action = before.next(events.last()).1;
            if action is QueryUpstream {
                TryRecord::empty()
            } else if action is Pending || action is Finished {
                earlier
            } else {
                let told = match events.last() {
                    LaunchEventView::TempDirCreated(path) => TryRecord {
                        temp_dir: Some(path),
                        ..earlier
                    },
                    LaunchEventView::CookieRead(value) => TryRecord {
                        cookie: Some(value),
                        ..earlier
                    },
                    LaunchEventView::PortAllocated(port) => TryRecord {
                        ports: earlier.ports.push(port),
                        ..earlier
                    },
                    _ => earlier,
                };
                match action {
                    LaunchActionView::Spawn { args, .. } => TryRecord { args: Some(args), ..told },
                    _ => told,
                }
            }
        }
    }
}

/// How the stage of a launch hangs together with the record of its try.
spec fn stage_records(s: LaunchView, r: TryRecord) -> bool {
    match s.stage {
        StageView::Upstream => r == TryRecord::empty(),
        StageView::Nudge => r == TryRecord::empty(),
        StageView::WorkDir => r == TryRecord::empty(),
        StageView::Cookie { dir } => {
            &&& s.conf.compat.legacy
            &&& s.conf.staticdir is None ==> r.temp_dir is Some
            &&& dir == r.dir(s.conf)
            &&& r.ports.len() == 0
            &&& r.args is None
        },
        StageView::ElectrumPort { dir, credential } => {
            &&& s.conf.staticdir is None ==> r.temp_dir is Some
            &&& s.conf.compat.legacy ==> r.cookie is Some
            &&& dir == r.dir(s.conf)
            &&& credential == r.credential(s.conf, s.upstream)
            &&& r.ports.len() == 0
            &&& r.args is None
        },
        StageView::MonitoringPort { dir, credential, electrum } => {
            &&& s.conf.staticdir is None ==> r.temp_dir is Some
            &&& s.conf.compat.legacy ==> r.cookie is Some
            &&& dir == r.dir(s.conf)
            &&& credential == r.credential(s.conf, s.upstream)
            &&& r.ports =~= seq![electrum]
            &&& r.args is None
        },
        StageView::HttpPort { dir, credential, electrum, monitoring } => {
            &&& s.conf.staticdir is None ==> r.temp_dir is Some
            &&& s.conf.compat.legacy ==> r.cookie is Some
            &&& s.conf.http_enabled
            &&& dir == r.dir(s.conf)
            &&& credential == r.credential(s.conf, s.upstream)
            &&& r.ports =~= seq![electrum, monitoring]
            &&& r.args is None
        },
        StageView::Spawn { daemon } => started(s, r, daemon),
        StageView::Connect { daemon } => started(s, r, daemon),
        StageView::Exit { daemon } => started(s, r, daemon),
        StageView::Sleep { daemon } => started(s, r, daemon),
        StageView::Finished => true,
    }
}

/// Whether `daemon` is the daemon of the try with record `r`, and the
/// process that the try asked for is its process.
spec fn started(s: LaunchView, r: TryRecord, daemon: ElectrsDView) -> bool {
    &&& r.complete(s.conf)
    &&& daemon == LaunchView::daemon(r.dir(s.conf), r.ports_for(s.conf))
    &&& r.args == Some(
        command_line(
            s.conf,
            s.upstream,
            daemon.work_dir.path(),
            r.credential(s.conf, s.upstream),
            r.ports_for(s.conf),
        ),
    )
}

proof fn lemma_run_records(s: LaunchView, events: Seq<LaunchEventView>)
    requires
        s.stage is Upstream,
    ensures
        stage_records(s.run(events).0, s.record(events)),
    decreases events.len(),
{
    if events.len() > 0 {
        lemma_run_records(s, events.drop_last());
        let before = s.run(events.drop_last()).0;
        let earlier = s.record(events.drop_last());
        let (after, action) = before.next(events.last());
        let r = s.record(events);
        match before.stage {
            StageView::ElectrumPort { dir, credential } => {
                if let LaunchEventView::PortAllocated(port) = events.last() {
                    assert(r.ports =~= seq![port]);
                }
            },
            StageView::MonitoringPort { dir, credential, electrum } => {
                if let LaunchEventView::PortAllocated(port) = events.last() {
                    assert(r.ports =~= seq![electrum, port]);
                }
            },
            StageView::HttpPort { dir, credential, electrum, monitoring } => {
                if let LaunchEventView::PortAllocated(port) = events.last() {
                    assert(r.ports =~= seq![electrum, monitoring, port]);
                }
            },
            _ => {},
        }
    }
}

/// The daemon that a launch reports as ready is the one of its last try,
/// made of what that try was told and of nothing else: it works in the
/// persistent directory that the configuration names, or in the temporary
/// directory that was created in the try; its indexing address is the
/// first port that was handed out in the try, its HTTP address the third.
/// The process of the try was asked to be started with those very values:
/// the directory after `--db-dir`, the addresses after
/// `--electrum-rpc-addr` and `--http-addr`. Every process is asked to be
/// started with the executable of the launch and with the command line
/// made of what its own try was told.
pub proof fn law_ready_is_what_was_started(s: LaunchView, events: Seq<LaunchEventView>, i: int)
    requires
        s.stage is Upstream,
        0 <= i < events.len(),
    ensures
        s.run(events).1[i] matches LaunchActionView::Ready(daemon) ==> ({
            let r = s.record(events.take(i));
            &&& r.complete(s.conf)
            &&& daemon == LaunchView::daemon(r.dir(s.conf), r.ports_for(s.conf))
            &&& daemon.electrum_url == listen_addr(r.ports[0])
            &&& r.args == Some(
                command_line(
                    s.conf,
                    s.upstream,
                    daemon.work_dir.path(),
                    r.credential(s.conf, s.upstream),
                    r.ports_for(s.conf),
                ),
            )
        }),
        s.run(events).1[i] matches LaunchActionView::Spawn { exe, args, view_stderr } ==> ({
            let r = s.record(events.take(i + 1));
            &&& exe == s.exe
            &&& view_stderr == s.conf.view_stderr
            &&& r.complete(s.conf)
            &&& args == command_line(
                s.conf,
                s.upstream,
                r.dir(s.conf).path(),
                r.credential(s.conf, s.upstream),
                r.ports_for(s.conf),
            )
        }),
{
    lemma_run_prefix(s, events, i);
    lemma_run_records(s, events.take(i));
    lemma_run_records(s, events.take(i + 1));
    lemma_run_budget(s, events.take(i));
    lemma_run_budget(s, events.take(i + 1));
    assert(events.take(i + 1).drop_last() =~= events.take(i));
    assert(events.take(i + 1).last() == events[i]);
}

} // verus!
