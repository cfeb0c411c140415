//! Waiting until the daemon has indexed a block height or a transaction.
//!
//! Both waits poll at most [`WAIT_POLLS`] times and pause
//! [`WAIT_POLL_MILLIS`] milliseconds after a poll that found nothing, so
//! they give up after about a minute. The embedding program makes the calls
//! to the daemon and the pauses, and reports their outcome.

use crate::daemon::ElectrsD;
use vstd::prelude::*;

verus! {

/// How many times a wait polls the daemon before it gives up.
pub const WAIT_POLLS: u16 = 600;

/// Milliseconds between two polls of a wait.
pub const WAIT_POLL_MILLIS: u64 = 100;

/// What a wait waits for.
#[derive(Clone, Copy, Debug, PartialEq, Eq, Structural)]
pub enum HeightStage {
    /// The outcome of fetching the header.
    Header,
    /// The end of the pause after a header that was not there.
    Sleep,
    /// Nothing: the wait is over.
    Finished,
}

/// A wait for a block height, in progress.
#[derive(Clone, Copy, Debug, PartialEq, Eq, Structural)]
pub struct HeightWait {
    /// The height waited for.
    pub height: usize,
    /// The polls that may still be made.
    pub polls_left: u16,
    /// What the wait waits for.
    pub stage: HeightStage,
}

/// What the embedding program reports to a wait for a height.
#[derive(Clone, Copy, Debug, PartialEq, Eq, Structural)]
pub enum HeightEvent {
    /// The daemon returned the header at the height.
    Found,
    /// The daemon returned no header at the height.
    Missing,
    /// The pause is over.
    Slept,
}

/// What a wait for a height asks the embedding program to do next.
#[derive(Clone, Copy, Debug, PartialEq, Eq, Structural)]
pub enum HeightAction {
    /// Fetch the block header at `height`.
    FetchHeader { height: usize },
    /// Pause for `millis` milliseconds.
    Sleep { millis: u64 },
    /// The wait is over; `reached` says whether the header was there.
    Done { reached: bool },
    /// The event answered nothing; the request made before still stands.
    Pending,
    /// The wait was over before the event came.
    Finished,
}

impl HeightWait {
    /// The wait at its start, and its first request.
    pub open spec fn start(height: usize) -> (HeightWait, HeightAction) {
        (
            HeightWait {
                height,
                polls_left: (WAIT_POLLS - 1) as u16,
                stage: HeightStage::Header,
            },
            HeightAction::FetchHeader { height },
        )
    }

    /// The next poll, or the end of the wait where none is left.
    pub open spec fn poll_again(self) -> (HeightWait, HeightAction) {
        if self.polls_left > 0 {
            (
                HeightWait {
                    polls_left: (self.polls_left - 1) as u16,
                    stage: HeightStage::Header,
                    ..self
                },
                HeightAction::FetchHeader { height: self.height },
            )
        } else {
            (
                HeightWait { stage: HeightStage::Finished, ..self },
                HeightAction::Done { reached: false },
            )
        }
    }

    /// The next state and request after `event`.
    pub open spec fn next(self, event: HeightEvent) -> (HeightWait, HeightAction) {
        match (self.stage, event) {
            (HeightStage::Header, HeightEvent::Found) => (
                HeightWait { stage: HeightStage::Finished, ..self },
                HeightAction::Done { reached: true },
            ),
            (HeightStage::Header, HeightEvent::Missing) => (
                HeightWait { stage: HeightStage::Sleep, ..self },
                HeightAction::Sleep { millis: WAIT_POLL_MILLIS },
            ),
            (HeightStage::Sleep, HeightEvent::Slept) => self.poll_again(),
            (HeightStage::Finished, _) => (self, HeightAction::Finished),
            _ => (self, HeightAction::Pending),
        }
    }

    /// The state after a sequence of events, with the requests that the
    /// events were answered with, in order.
    pub open spec fn run(self, events: Seq<HeightEvent>) -> (HeightWait, Seq<HeightAction>)
        decreases events.len(),
    {
        if events.len() == 0 {
            (self, Seq::empty())
        } else {
            let (before, trace) = self.run(events.drop_last());
            let (after, action) = before.next(events.last());
            (after, trace.push(action))
        }
    }

    /// Takes the outcome of the last request and says what to do next.
    pub fn step(self, event: HeightEvent) -> (r: (HeightWait, HeightAction))
        ensures
            r == self.next(event),
    {
        match (self.stage, event) {
            (HeightStage::Header, HeightEvent::Found) => (
                HeightWait { height: self.height, polls_left: self.polls_left, stage: HeightStage::Finished },
                HeightAction::Done { reached: true },
            ),
            (HeightStage::Header, HeightEvent::Missing) => (
                HeightWait { height: self.height, polls_left: self.polls_left, stage: HeightStage::Sleep },
                HeightAction::Sleep { millis: WAIT_POLL_MILLIS },
            ),
            (HeightStage::Sleep, HeightEvent::Slept) => {
                if self.polls_left > 0 {
                    (
                        HeightWait {
                            height: self.height,
                            polls_left: self.polls_left - 1,
                            stage: HeightStage::Header,
                        },
                        HeightAction::FetchHeader { height: self.height },
                    )
                } else {
                    (
                        HeightWait { height: self.height, polls_left: 0, stage: HeightStage::Finished },
                        HeightAction::Done { reached: false },
                    )
                }
            },
            (HeightStage::Finished, _) => (self, HeightAction::Finished),
            _ => (self, HeightAction::Pending),
        }
    }
}

impl ElectrsD {
    /// Begins a wait of up to a minute until the daemon has indexed up to
    /// the given height. Returns the wait and its first request.
    pub fn wait_height(&self, height: usize) -> (r: (HeightWait, HeightAction))
        ensures
            r == HeightWait::start(height),
    {
        (
            HeightWait { height, polls_left: WAIT_POLLS - 1, stage: HeightStage::Header },
            HeightAction::FetchHeader { height },
        )
    }
}

/// The identifier of a transaction: the 32 bytes of its hash.
#[derive(Clone, Copy, Debug, PartialEq, Eq)]
pub struct Txid {
    /// The bytes of the hash.
    pub bytes: [u8; 32],
}

impl View for Txid {
    type V = Seq<u8>;

    open spec fn view(&self) -> Seq<u8> {
        self.bytes@
    }
}

impl DeepView for Txid {
    type V = Seq<u8>;

    open spec fn deep_view(&self) -> Seq<u8> {
        self.bytes@
    }
}

impl Txid {
    /// Whether two identifiers are the same.
    pub fn same(&self, other: &Txid) -> (b: bool)
        ensures
            b == (self@ == other@),
    {
        let mut i: usize = 0;
        while i < 32
            invariant
                i <= 32,
                forall|j: int| 0 <= j < i ==> self.bytes@[j] == other.bytes@[j],
            decreases 32 - i,
        {
            if self.bytes[i] != other.bytes[i] {
                return false;
            }
            i += 1;
        }
        assert(self.bytes@ =~= other.bytes@);
        true
    }
}

/// Whether `txid` is among the transactions of a script's history.
pub fn history_has(history: &Vec<Txid>, txid: &Txid) -> (b: bool)
    ensures
        b == history.deep_view().contains(txid@),
{
    let mut i: usize = 0;
    while i < history.len()
        invariant
            i <= history.len(),
            forall|j: int| 0 <= j < i ==> history.deep_view()[j] != txid@,
        decreases history.len() - i,
    {
        if history[i].same(txid) {
            assert(history.deep_view()[i as int] == txid@);
            return true;
        }
        i += 1;
    }
    false
}

/// What a wait for a transaction waits for.
#[derive(Clone, Copy, Debug, PartialEq, Eq)]
pub enum TxStage {
    /// The outcome of fetching the transaction.
    Tx,
    /// The history of the script of the first output of the transaction
    /// that was fetched, whose identifier this is.
    History { txid: Txid },
    /// The end of the pause after a poll that did not find the transaction
    /// indexed.
    Sleep,
    /// Nothing: the wait is over.
    Finished,
}

/// The mathematical value of a [`TxStage`].
pub enum TxStageView {
    Tx,
    History { txid: Seq<u8> },
    Sleep,
    Finished,
}

impl View for TxStage {
    type V = TxStageView;

    open spec fn view(&self) -> TxStageView {
        match self {
            TxStage::Tx => TxStageView::Tx,
            TxStage::History { txid } => TxStageView::History { txid: txid@ },
            TxStage::Sleep => TxStageView::Sleep,
            TxStage::Finished => TxStageView::Finished,
        }
    }
}

/// A wait for a transaction, in progress.
#[derive(Clone, Copy, Debug, PartialEq, Eq)]
pub struct TxWait {
    /// The transaction waited for.
    pub txid: Txid,
    /// The polls that may still be made.
    pub polls_left: u16,
    /// What the wait waits for.
    pub stage: TxStage,
}

/// The mathematical value of a [`TxWait`].
pub struct TxWaitView {
    pub txid: Seq<u8>,
    pub polls_left: u16,
    pub stage: TxStageView,
}

impl View for TxWait {
    type V = TxWaitView;

    open spec fn view(&self) -> TxWaitView {
        TxWaitView { txid: self.txid@, polls_left: self.polls_left, stage: self.stage@ }
    }
}

/// What the embedding program reports to a wait for a transaction.
#[derive(Debug, PartialEq, Eq)]
pub enum TxEvent {
    /// The daemon returned the transaction: `txid` is the identifier
    /// computed from it, `outputs` the scripts of its outputs, in order.
    Fetched { txid: Txid, outputs: Vec<Vec<u8>> },
    /// The daemon returned no such transaction.
    Missing,
    /// The daemon returned the history of the script: the identifiers of
    /// the transactions that touch it.
    History(Vec<Txid>),
    /// The pause is over.
    Slept,
}

/// The mathematical value of a [`TxEvent`].
pub enum TxEventView {
    Fetched { txid: Seq<u8>, outputs: Seq<Seq<u8>> },
    Missing,
    History(Seq<Seq<u8>>),
    Slept,
}

impl View for TxEvent {
    type V = TxEventView;

    open spec fn view(&self) -> TxEventView {
        match self {
            TxEvent::Fetched { txid, outputs } => TxEventView::Fetched {
                txid: txid@,
                outputs: outputs.deep_view(),
            },
            TxEvent::Missing => TxEventView::Missing,
            TxEvent::History(h) => TxEventView::History(h.deep_view()),
            TxEvent::Slept => TxEventView::Slept,
        }
    }
}

/// What a wait for a transaction asks the embedding program to do next.
#[derive(Debug, PartialEq, Eq)]
pub enum TxAction {
    /// Fetch the transaction with this identifier.
    FetchTx { txid: Txid },
    /// Fetch the history of this script.
    FetchHistory { script: Vec<u8> },
    /// Pause for `millis` milliseconds.
    Sleep { millis: u64 },
    /// The wait is over; `indexed` says whether the transaction was found
    /// fully indexed.
    Done { indexed: bool },
    /// The event answered nothing; the request made before still stands.
    Pending,
    /// The wait was over before the event came.
    Finished,
}

/// The mathematical value of a [`TxAction`].
pub enum TxActionView {
    FetchTx { txid: Seq<u8> },
    FetchHistory { script: Seq<u8> },
    Sleep { millis: u64 },
    Done { indexed: bool },
    Pending,
    Finished,
}

impl View for TxAction {
    type V = TxActionView;

    open spec fn view(&self) -> TxActionView {
        match self {
            TxAction::FetchTx { txid } => TxActionView::FetchTx { txid: txid@ },
            TxAction::FetchHistory { script } => TxActionView::FetchHistory { script: script@ },
            TxAction::Sleep { millis } => TxActionView::Sleep { millis: *millis },
            TxAction::Done { indexed } => TxActionView::Done { indexed: *indexed },
            TxAction::Pending => TxActionView::Pending,
            TxAction::Finished => TxActionView::Finished,
        }
    }
}

impl TxWaitView {
    /// The wait at its start, and its first request.
    pub open spec fn start(txid: Seq<u8>) -> (TxWaitView, TxActionView) {
        (
            TxWaitView { txid, polls_left: (WAIT_POLLS - 1) as u16, stage: TxStageView::Tx },
            TxActionView::FetchTx { txid },
        )
    }

    /// The pause that follows a poll that did not find the transaction
    /// indexed.
    pub open spec fn pause(self) -> (TxWaitView, TxActionView) {
        (
            TxWaitView { stage: TxStageView::Sleep, ..self },
            TxActionView::Sleep { millis: WAIT_POLL_MILLIS },
        )
    }

    /// The end of the wait.
    pub open spec fn done(self, indexed: bool) -> (TxWaitView, TxActionView) {
        (TxWaitView { stage: TxStageView::Finished, ..self }, TxActionView::Done { indexed })
    }

    /// The next poll, or the end of the wait where none is left.
    pub open spec fn poll_again(self) -> (TxWaitView, TxActionView) {
        if self.polls_left > 0 {
            (
                TxWaitView {
                    polls_left: (self.polls_left - 1) as u16,
                    stage: TxStageView::Tx,
                    ..self
                },
                TxActionView::FetchTx { txid: self.txid },
            )
        } else {
            self.done(false)
        }
    }

    /// The next state and request after `event`.
    ///
    /// To have the transaction is not to have it indexed: once it is
    /// fetched, the history of its first output's script must hold it. One
    /// entry is enough, since a transaction is indexed as a whole. A
    /// transaction without outputs has no script to look up. A poll that
    /// did not find the transaction indexed, because the transaction or its
    /// entry in the history is missing, is followed by a pause.
    pub open spec fn next(self, event: TxEventView) -> (TxWaitView, TxActionView) {
        match (self.stage, event) {
            (TxStageView::Tx, TxEventView::Fetched { txid, outputs }) => {
                if outputs.len() > 0 {
                    (
                        TxWaitView { stage: TxStageView::History { txid }, ..self },
                        TxActionView::FetchHistory { script: outputs.first() },
                    )
                } else {
                    self.done(true)
                }
            },
            (TxStageView::Tx, TxEventView::Missing) => self.pause(),
            (TxStageView::History { txid }, TxEventView::History(history)) => {
                if history.contains(txid) {
                    self.done(true)
                } else {
                    self.pause()
                }
            },
            (TxStageView::Sleep, TxEventView::Slept) => self.poll_again(),
            (TxStageView::Finished, _) => (self, TxActionView::Finished),
            _ => (self, TxActionView::Pending),
        }
    }

    /// The state after a sequence of events, with the requests that the
    /// events were answered with, in order.
    pub open spec fn run(self, events: Seq<TxEventView>) -> (TxWaitView, Seq<TxActionView>)
        decreases events.len(),
    {
        if events.len() == 0 {
            (self, Seq::empty())
        } else {
            let (before, trace) = self.run(events.drop_last());
            let (after, action) = before.next(events.last());
            (after, trace.push(action))
        }
    }
}

impl TxWait {
    /// The next poll, or the end of the wait where none is left.
    fn poll_again(self) -> (r: (TxWait, TxAction))
        ensures
            (r.0@, r.1@) == self@.poll_again(),
    {
        if self.polls_left > 0 {
            (
                TxWait { txid: self.txid, polls_left: self.polls_left - 1, stage: TxStage::Tx },
                TxAction::FetchTx { txid: self.txid },
            )
        } else {
            (
                TxWait { txid: self.txid, polls_left: 0, stage: TxStage::Finished },
                TxAction::Done { indexed: false },
            )
        }
    }

    /// Takes the outcome of the last request and says what to do next.
    pub fn step(self, event: TxEvent) -> (r: (TxWait, TxAction))
        ensures
            (r.0@, r.1@) == self@.next(event@),
    {
        let finished = TxWait { txid: self.txid, polls_left: self.polls_left, stage: TxStage::Finished };
        let paused = TxWait { txid: self.txid, polls_left: self.polls_left, stage: TxStage::Sleep };
        match self.stage {
            TxStage::Tx => match event {
                TxEvent::Fetched { txid, outputs } => {
                    let mut outputs = outputs;
                    if outputs.len() > 0 {
                        let ghost all = outputs.deep_view();
                        assert(all[0] == outputs[0]@);
                        let script = outputs.remove(0);
                        assert(script@ == all.first());
                        (
                            TxWait {
                                txid: self.txid,
                                polls_left: self.polls_left,
                                stage: TxStage::History { txid },
                            },
                            TxAction::FetchHistory { script },
                        )
                    } else {
                        (finished, TxAction::Done { indexed: true })
                    }
                },
                TxEvent::Missing => (paused, TxAction::Sleep { millis: WAIT_POLL_MILLIS }),
                _ => (self, TxAction::Pending),
            },
            TxStage::History { txid } => match event {
                TxEvent::History(history) => {
                    if history_has(&history, &txid) {
                        (finished, TxAction::Done { indexed: true })
                    } else {
                        (paused, TxAction::Sleep { millis: WAIT_POLL_MILLIS })
                    }
                },
                _ => (self, TxAction::Pending),
            },
            TxStage::Sleep => match event {
                TxEvent::Slept => self.poll_again(),
                _ => (self, TxAction::Pending),
            },
            TxStage::Finished => (self, TxAction::Finished),
        }
    }
}

impl ElectrsD {
    /// Begins a wait of up to a minute until the daemon has indexed the
    /// given transaction. Returns the wait and its first request.
    pub fn wait_tx(&self, txid: &Txid) -> (r: (TxWait, TxAction))
        ensures
            (r.0@, r.1@) == TxWaitView::start(txid@),
    {
        (
            TxWait { txid: *txid, polls_left: WAIT_POLLS - 1, stage: TxStage::Tx },
            TxAction::FetchTx { txid: *txid },
        )
    }
}

} // verus!
