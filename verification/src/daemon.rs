//! The handle of a running daemon.

use crate::conf::{DataDir, DataDirView};
use crate::error::{Error, ErrorView};
use crate::text::{clone_opt, opt_text};
use vstd::prelude::*;

verus! {

/// What the harness knows of a daemon that it started and found reachable.
#[derive(Debug, PartialEq, Eq)]
pub struct ElectrsD {
    /// Work directory, where the daemon stores its index.
    pub work_dir: DataDir,
    /// Address of the indexing protocol (TCP).
    pub electrum_url: String,
    /// Address of the HTTP endpoint, where one was asked for.
    pub esplora_url: Option<String>,
}

/// The mathematical value of an [`ElectrsD`].
pub struct ElectrsDView {
    pub work_dir: DataDirView,
    pub electrum_url: Seq<char>,
    pub esplora_url: Option<Seq<char>>,
}

impl View for ElectrsD {
    type V = ElectrsDView;

    open spec fn view(&self) -> ElectrsDView {
        ElectrsDView {
            work_dir: self.work_dir@,
            electrum_url: self.electrum_url@,
            esplora_url: opt_text(self.esplora_url),
        }
    }
}

impl Clone for ElectrsD {
    fn clone(&self) -> (r: ElectrsD)
        ensures
            r == *self,
    {
        ElectrsD {
            work_dir: self.work_dir.clone(),
            electrum_url: self.electrum_url.clone(),
            esplora_url: clone_opt(&self.esplora_url),
        }
    }
}

impl ElectrsD {
    /// The path of the work directory of the running daemon.
    pub fn workdir(&self) -> (path: String)
        ensures
            path@ == self@.work_dir.path(),
    {
        self.work_dir.path()
    }
}

/// A signal that the daemon acts on.
#[derive(Clone, Copy, Debug, PartialEq, Eq, Structural)]
pub enum Signal {
    /// `SIGINT`: close the index and exit.
    Interrupt,
    /// `SIGUSR1`: look for new blocks now.
    User1,
}

/// What a termination waits for.
#[derive(Clone, Copy, Debug, PartialEq, Eq, Structural)]
pub enum Shutdown {
    /// The delivery of the interrupt signal.
    Interrupt,
    /// The exit of the process.
    Exit,
    /// The forced kill of the process.
    Kill,
    /// Nothing: the termination is over.
    Finished,
}

/// What the embedding program reports to a termination.
#[derive(Debug, PartialEq, Eq)]
pub enum ShutdownEvent {
    /// The signal was delivered.
    SignalSent,
    /// The signal could not be delivered; the number is the system's error.
    SignalFailed(i32),
    /// The process has exited and was reaped.
    Exited,
    /// The process was killed.
    Killed,
    /// Waiting for the process, or killing it, failed; the text says how.
    Failed(String),
}

/// The mathematical value of a [`ShutdownEvent`].
pub enum ShutdownEventView {
    SignalSent,
    SignalFailed(i32),
    Exited,
    Killed,
    Failed(Seq<char>),
}

impl View for ShutdownEvent {
    type V = ShutdownEventView;

    open spec fn view(&self) -> ShutdownEventView {
        match self {
            ShutdownEvent::SignalSent => ShutdownEventView::SignalSent,
            ShutdownEvent::SignalFailed(n) => ShutdownEventView::SignalFailed(*n),
            ShutdownEvent::Exited => ShutdownEventView::Exited,
            ShutdownEvent::Killed => ShutdownEventView::Killed,
            ShutdownEvent::Failed(m) => ShutdownEventView::Failed(m@),
        }
    }
}

/// What a termination asks the embedding program to do next.
#[derive(Debug, PartialEq, Eq)]
pub enum ShutdownAction {
    /// Send the process this signal.
    Send(Signal),
    /// Block until the process has exited.
    AwaitExit,
    /// Kill the process at once, without waiting for it.
    Kill,
    /// The termination is over: the process was stopped.
    Done,
    /// The termination is over: it failed.
    Fail(Error),
    /// The event answered nothing; the request made before still stands.
    Pending,
    /// The termination was over before the event came.
    Finished,
}

/// The mathematical value of a [`ShutdownAction`].
pub enum ShutdownActionView {
    Send(Signal),
    AwaitExit,
    Kill,
    Done,
    Fail(ErrorView),
    Pending,
    Finished,
}

impl View for ShutdownAction {
    type V = ShutdownActionView;

    open spec fn view(&self) -> ShutdownActionView {
        match self {
            ShutdownAction::Send(signal) => ShutdownActionView::Send(*signal),
            ShutdownAction::AwaitExit => ShutdownActionView::AwaitExit,
            ShutdownAction::Kill => ShutdownActionView::Kill,
            ShutdownAction::Done => ShutdownActionView::Done,
            ShutdownAction::Fail(e) => ShutdownActionView::Fail(e@),
            ShutdownAction::Pending => ShutdownActionView::Pending,
            ShutdownAction::Finished => ShutdownActionView::Finished,
        }
    }
}

impl Shutdown {
    /// How the termination of a daemon begins. A daemon with a persistent
    /// work directory is asked to stop and then waited for, so that its
    /// index is closed before the directory is used again; one with a
    /// temporary directory, which is discarded anyway, is killed.
    pub open spec fn start(work_dir: DataDirView) -> (Shutdown, ShutdownActionView) {
        match work_dir {
            DataDirView::Persistent(_) => (
                Shutdown::Interrupt,
                ShutdownActionView::Send(Signal::Interrupt),
            ),
            DataDirView::Temporary(_) => (Shutdown::Kill, ShutdownActionView::Kill),
        }
    }

    /// The next state and request after `event`.
    pub open spec fn next(self, event: ShutdownEventView) -> (Shutdown, ShutdownActionView) {
        match (self, event) {
            (Shutdown::Interrupt, ShutdownEventView::SignalSent) => (
                Shutdown::Exit,
                ShutdownActionView::AwaitExit,
            ),
            (Shutdown::Interrupt, ShutdownEventView::SignalFailed(errno)) => (
                Shutdown::Finished,
                ShutdownActionView::Fail(ErrorView::Nix(errno)),
            ),
            (Shutdown::Exit, ShutdownEventView::Exited) => (
                Shutdown::Finished,
                ShutdownActionView::Done,
            ),
            (Shutdown::Exit, ShutdownEventView::Failed(m)) => (
                Shutdown::Finished,
                ShutdownActionView::Fail(ErrorView::Io(m)),
            ),
            (Shutdown::Kill, ShutdownEventView::Killed) => (
                Shutdown::Finished,
                ShutdownActionView::Done,
            ),
            (Shutdown::Kill, ShutdownEventView::Failed(m)) => (
                Shutdown::Finished,
                ShutdownActionView::Fail(ErrorView::Io(m)),
            ),
            (Shutdown::Finished, _) => (Shutdown::Finished, ShutdownActionView::Finished),
            _ => (self, ShutdownActionView::Pending),
        }
    }

    /// The state after a sequence of events, with the requests that the
    /// events were answered with, in order.
    pub open spec fn run(self, events: Seq<ShutdownEventView>) -> (
        Shutdown,
        Seq<ShutdownActionView>,
    )
        decreases events.len(),
    {
        if events.len() == 0 {
            (self, Seq::empty())
        } else {
            let (before, trace) = self.run(events.drop_last());
            let (after, action) = before.next(events.last());
            (after, trace.push(action))
        }
    }

    /// Takes the outcome of the last request and says what to do next.
    pub fn step(self, event: ShutdownEvent) -> (r: (Shutdown, ShutdownAction))
        ensures
            (r.0, r.1@) == self.next(event@),
    {
        match self {
            Shutdown::Interrupt => match event {
                ShutdownEvent::SignalSent => (Shutdown::Exit, ShutdownAction::AwaitExit),
                ShutdownEvent::SignalFailed(errno) => (
                    Shutdown::Finished,
                    ShutdownAction::Fail(Error::Nix(errno)),
                ),
                _ => (self, ShutdownAction::Pending),
            },
            Shutdown::Exit => match event {
                ShutdownEvent::Exited => (Shutdown::Finished, ShutdownAction::Done),
                ShutdownEvent::Failed(m) => (Shutdown::Finished, ShutdownAction::Fail(Error::Io(m))),
                _ => (self, ShutdownAction::Pending),
            },
            Shutdown::Kill => match event {
                ShutdownEvent::Killed => (Shutdown::Finished, ShutdownAction::Done),
                ShutdownEvent::Failed(m) => (Shutdown::Finished, ShutdownAction::Fail(Error::Io(m))),
                _ => (self, ShutdownAction::Pending),
            },
            Shutdown::Finished => (Shutdown::Finished, ShutdownAction::Finished),
        }
    }
}

impl ElectrsD {
    /// The signal that makes the daemon look for new blocks at once, useful
    /// after the companion node has mined one.
    pub fn trigger(&self) -> (signal: Signal)
        ensures
            signal == Signal::User1,
    {
        Signal::User1
    }

    /// Begins the termination of the daemon. Returns the termination and
    /// its first request.
    pub fn kill(&self) -> (r: (Shutdown, ShutdownAction))
        ensures
            (r.0, r.1@) == Shutdown::start(self@.work_dir),
    {
        match self.work_dir {
            DataDir::Persistent(_) => (Shutdown::Interrupt, ShutdownAction::Send(Signal::Interrupt)),
            DataDir::Temporary(_) => (Shutdown::Kill, ShutdownAction::Kill),
        }
    }
}

/// How many of the requests act on the process.
pub open spec fn process_requests(trace: Seq<ShutdownActionView>) -> nat
    decreases trace.len(),
{
    if trace.len() == 0 {
        0
    } else if trace.last() is Send || trace.last() is AwaitExit || trace.last() is Kill {
        process_requests(trace.drop_last()) + 1
    } else {
        process_requests(trace.drop_last())
    }
}

proof fn lemma_shutdown_len(s: Shutdown, events: Seq<ShutdownEventView>)
    ensures
        s.run(events).1.len() == events.len(),
    decreases events.len(),
{
    if events.len() > 0 {
        lemma_shutdown_len(s, events.drop_last());
    }
}

proof fn lemma_shutdown_prefix(s: Shutdown, events: Seq<ShutdownEventView>, i: int)
    requires
        0 <= i < events.len(),
    ensures
        s.run(events).1.len() == events.len(),
        s.run(events).1[i] == s.run(events.take(i)).0.next(events[i]).1,
    decreases events.len(),
{
    lemma_shutdown_len(s, events);
    lemma_shutdown_len(s, events.drop_last());
    if i == events.len() - 1 {
        assert(events.take(i) =~= events.drop_last());
    } else {
        lemma_shutdown_prefix(s, events.drop_last(), i);
        assert(events.drop_last().take(i) =~= events.take(i));
    }
}

/// How far a termination is from its end.
spec fn distance(s: Shutdown) -> nat {
    match s {
        Shutdown::Interrupt => 1,
        Shutdown::Exit => 0,
        Shutdown::Kill => 0,
        Shutdown::Finished => 0,
    }
}

proof fn lemma_shutdown_bound(s: Shutdown, events: Seq<ShutdownEventView>)
    ensures
        process_requests(s.run(events).1) + distance(s.run(events).0) <= distance(s),
        s is Interrupt || s is Exit ==> !(s.run(events).0 is Kill),
        s is Kill ==> !(s.run(events).0 is Interrupt) && !(s.run(events).0 is Exit),
        s is Finished ==> s.run(events).0 is Finished,
    decreases events.len(),
{
    if events.len() > 0 {
        lemma_shutdown_bound(s, events.drop_last());
        let (before, trace) = s.run(events.drop_last());
        assert(s.run(events).1.drop_last() =~= trace);
    }
}

/// The termination of a daemon, whatever is reported and however often it
/// is begun on one handle: a daemon with a persistent work directory is
/// never killed, and its termination succeeds only once the process has
/// exited; a daemon with a temporary one is killed and never waited for.
/// The exit is waited for only after the signal was delivered, so a
/// termination begun after the process is gone ends with the delivery's
/// failure and waits for nothing. Beyond its first request a termination
/// makes at most one more.
pub proof fn law_kill(work_dir: DataDirView, events: Seq<ShutdownEventView>, i: int)
    requires
        0 <= i < events.len(),
    ensures
        ({
            let (s, first) = Shutdown::start(work_dir);
            let before = s.run(events.take(i)).0;
            let action = s.run(events).1[i];
            &&& first == ShutdownActionView::Send(Signal::Interrupt) <==> work_dir is Persistent
            &&& first is Kill <==> work_dir is Temporary
            &&& !(action is Kill) && !(action is Send)
            &&& action is AwaitExit <==> work_dir is Persistent && before is Interrupt
                && events[i] is SignalSent
            &&& action is Done <==> (before is Exit && events[i] is Exited) || (before is Kill
                && events[i] is Killed)
            &&& action is Done && work_dir is Persistent ==> events[i] is Exited
            &&& action matches ShutdownActionView::Fail(e) ==> (e matches ErrorView::Nix(errno)
                && events[i] == ShutdownEventView::SignalFailed(errno)) || (e matches ErrorView::Io(
                m,
            ) && events[i] == ShutdownEventView::Failed(m))
            &&& process_requests(s.run(events).1) <= 1
        }),
{
    let s = Shutdown::start(work_dir).0;
    lemma_shutdown_prefix(s, events, i);
    lemma_shutdown_bound(s, events);
    lemma_shutdown_bound(s, events.take(i));
}

} // verus!
