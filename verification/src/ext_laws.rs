//! What holds of every wait, whatever the embedding program reports.

use crate::ext::{
    HeightAction, HeightEvent, HeightStage, HeightWait, TxActionView, TxEventView, TxStageView,
    TxWaitView, WAIT_POLLS, WAIT_POLL_MILLIS,
};
use vstd::prelude::*;

verus! {

/// How many of the requests ask for the header.
pub open spec fn header_fetches(trace: Seq<HeightAction>) -> nat
    decreases trace.len(),
{
    if trace.len() == 0 {
        0
    } else if trace.last() is FetchHeader {
        header_fetches(trace.drop_last()) + 1
    } else {
        header_fetches(trace.drop_last())
    }
}

/// How many of the requests ask for the transaction.
pub open spec fn tx_fetches(trace: Seq<TxActionView>) -> nat
    decreases trace.len(),
{
    if trace.len() == 0 {
        0
    } else if trace.last() is FetchTx {
        tx_fetches(trace.drop_last()) + 1
    } else {
        tx_fetches(trace.drop_last())
    }
}

/// How many of the requests ask for a pause.
pub open spec fn header_pauses(trace: Seq<HeightAction>) -> nat
    decreases trace.len(),
{
    if trace.len() == 0 {
        0
    } else if trace.last() is Sleep {
        header_pauses(trace.drop_last()) + 1
    } else {
        header_pauses(trace.drop_last())
    }
}

/// How many of the requests ask for a pause.
pub open spec fn tx_pauses(trace: Seq<TxActionView>) -> nat
    decreases trace.len(),
{
    if trace.len() == 0 {
        0
    } else if trace.last() is Sleep {
        tx_pauses(trace.drop_last()) + 1
    } else {
        tx_pauses(trace.drop_last())
    }
}

proof fn lemma_height_prefix(s: HeightWait, events: Seq<HeightEvent>, i: int)
    requires
        0 <= i < events.len(),
    ensures
        s.run(events).1.len() == events.len(),
        s.run(events).1[i] == s.run(events.take(i)).0.next(events[i]).1,
    decreases events.len(),
{
    lemma_height_len(s, events);
    lemma_height_len(s, events.drop_last());
    if i == events.len() - 1 {
        assert(events.take(i) =~= events.drop_last());
    } else {
        lemma_height_prefix(s, events.drop_last(), i);
        assert(events.drop_last().take(i) =~= events.take(i));
    }
}

proof fn lemma_height_len(s: HeightWait, events: Seq<HeightEvent>)
    ensures
        s.run(events).1.len() == events.len(),
    decreases events.len(),
{
    if events.len() > 0 {
        lemma_height_len(s, events.drop_last());
    }
}

proof fn lemma_height_polls(s: HeightWait, events: Seq<HeightEvent>)
    ensures
        header_fetches(s.run(events).1) + s.run(events).0.polls_left == s.polls_left,
        s.run(events).0.height == s.height,
    decreases events.len(),
{
    if events.len() > 0 {
        lemma_height_polls(s, events.drop_last());
        let (before, trace) = s.run(events.drop_last());
        let (after, action) = before.next(events.last());
        assert(s.run(events).1.drop_last() =~= trace);
    }
}

proof fn lemma_height_pauses(height: usize, events: Seq<HeightEvent>)
    ensures
        ({
            let (s, trace) = HeightWait::start(height).0.run(events);
            match s.stage {
                HeightStage::Header => header_pauses(trace) == header_fetches(trace),
                HeightStage::Sleep => header_pauses(trace) == header_fetches(trace) + 1,
                HeightStage::Finished => true,
            }
        }),
    decreases events.len(),
{
    if events.len() > 0 {
        lemma_height_pauses(height, events.drop_last());
        let (before, trace) = HeightWait::start(height).0.run(events.drop_last());
        assert(HeightWait::start(height).0.run(events).1.drop_last() =~= trace);
    }
}

/// A wait for a height reports the height as reached exactly in answer to
/// a header that was fetched, asks for no other height than the one waited
/// for, pauses exactly after a header that was not there, polls again only
/// after a pause, and asks for the header at most [`WAIT_POLLS`] times, the
/// first request counted: it gives up only when all of them have been made,
/// each followed by its pause, [`WAIT_POLLS`] pauses in all.
pub proof fn law_wait_height(height: usize, events: Seq<HeightEvent>, i: int)
    requires
        0 <= i < events.len(),
    ensures
        ({
            let s = HeightWait::start(height).0;
            let before = s.run(events.take(i)).0;
            let action = s.run(events).1[i];
            &&& action == (HeightAction::Done { reached: true }) <==> before.stage is Header
                && events[i] is Found
            &&& action matches HeightAction::FetchHeader { height: h } ==> h == height
                && before.stage is Sleep && events[i] is Slept
            &&& action is Sleep <==> before.stage is Header && events[i] is Missing
            &&& action matches HeightAction::Sleep { millis } ==> millis == WAIT_POLL_MILLIS
            &&& 1 + header_fetches(s.run(events).1) <= WAIT_POLLS
            &&& action == (HeightAction::Done { reached: false }) ==> 1 + header_fetches(
                s.run(events.take(i)).1,
            ) == WAIT_POLLS && header_pauses(s.run(events.take(i)).1) == WAIT_POLLS
                && before.stage is Sleep && events[i] is Slept
        }),
{
    let s = HeightWait::start(height).0;
    lemma_height_prefix(s, events, i);
    lemma_height_polls(s, events);
    lemma_height_polls(s, events.take(i));
    lemma_height_pauses(height, events.take(i));
}

proof fn lemma_tx_len(s: TxWaitView, events: Seq<TxEventView>)
    ensures
        s.run(events).1.len() == events.len(),
    decreases events.len(),
{
    if events.len() > 0 {
        lemma_tx_len(s, events.drop_last());
    }
}

proof fn lemma_tx_prefix(s: TxWaitView, events: Seq<TxEventView>, i: int)
    requires
        0 <= i < events.len(),
    ensures
        s.run(events).1.len() == events.len(),
        s.run(events).1[i] == s.run(events.take(i)).0.next(events[i]).1,
    decreases events.len(),
{
    lemma_tx_len(s, events);
    lemma_tx_len(s, events.drop_last());
    if i == events.len() - 1 {
        assert(events.take(i) =~= events.drop_last());
    } else {
        lemma_tx_prefix(s, events.drop_last(), i);
        assert(events.drop_last().take(i) =~= events.take(i));
    }
}

proof fn lemma_tx_polls(s: TxWaitView, events: Seq<TxEventView>)
    ensures
        tx_fetches(s.run(events).1) + s.run(events).0.polls_left == s.polls_left,
        s.run(events).0.txid == s.txid,
    decreases events.len(),
{
    if events.len() > 0 {
        lemma_tx_polls(s, events.drop_last());
        let (before, trace) = s.run(events.drop_last());
        assert(s.run(events).1.drop_last() =~= trace);
    }
}

proof fn lemma_tx_pauses(txid: Seq<u8>, events: Seq<TxEventView>)
    ensures
        ({
            let (s, trace) = TxWaitView::start(txid).0.run(events);
            match s.stage {
                TxStageView::Tx => tx_pauses(trace) == tx_fetches(trace),
                TxStageView::History { .. } => tx_pauses(trace) == tx_fetches(trace),
                TxStageView::Sleep => tx_pauses(trace) == tx_fetches(trace) + 1,
                TxStageView::Finished => true,
            }
        }),
    decreases events.len(),
{
    if events.len() > 0 {
        lemma_tx_pauses(txid, events.drop_last());
        let (before, trace) = TxWaitView::start(txid).0.run(events.drop_last());
        assert(TxWaitView::start(txid).0.run(events).1.drop_last() =~= trace);
    }
}

/// A wait for a transaction reports it as indexed in two cases only: the
/// transaction was fetched and has no output, or the history of its first
/// output's script was fetched and holds the transaction. It asks for the
/// history of no other script than the one reported with the transaction.
/// It pauses exactly after a poll that did not find the transaction
/// indexed, be it that the transaction was missing or that the history
/// lacks it, and polls again only after a pause. It asks for the
/// transaction at most [`WAIT_POLLS`] times, the first request counted: it
/// gives up only when all of them have been made, each followed by its
/// pause, [`WAIT_POLLS`] pauses in all.
pub proof fn law_wait_tx(txid: Seq<u8>, events: Seq<TxEventView>, i: int)
    requires
        0 <= i < events.len(),
    ensures
        ({
            let s = TxWaitView::start(txid).0;
            let before = s.run(events.take(i)).0;
            let action = s.run(events).1[i];
            &&& action == (TxActionView::Done { indexed: true }) <==> {
                ||| before.stage is Tx && (events[i] matches TxEventView::Fetched {
                    outputs,
                    ..
                } && outputs.len() == 0)
                ||| (before.stage matches TxStageView::History { txid: fetched }
                    && events[i] matches TxEventView::History(history) && history.contains(
                    fetched,
                ))
            }
            &&& action matches TxActionView::FetchHistory { script } ==> before.stage is Tx
                && (events[i] matches TxEventView::Fetched { txid: fetched, outputs }
                && outputs.len() > 0 && script == outputs[0] && s.run(events.take(i + 1)).0.stage
                == (TxStageView::History { txid: fetched }))
            &&& action matches TxActionView::FetchTx { txid: t } ==> t == txid
                && before.stage is Sleep && events[i] is Slept
            &&& action is Sleep <==> {
                ||| before.stage is Tx && events[i] is Missing
                ||| (before.stage matches TxStageView::History { txid: fetched }
                    && events[i] matches TxEventView::History(history) && !history.contains(
                    fetched,
                ))
            }
            &&& action matches TxActionView::Sleep { millis } ==> millis == WAIT_POLL_MILLIS
            &&& 1 + tx_fetches(s.run(events).1) <= WAIT_POLLS
            &&& action == (TxActionView::Done { indexed: false }) ==> 1 + tx_fetches(
                s.run(events.take(i)).1,
            ) == WAIT_POLLS && tx_pauses(s.run(events.take(i)).1) == WAIT_POLLS
                && before.stage is Sleep && events[i] is Slept
        }),
{
    let s = TxWaitView::start(txid).0;
    lemma_tx_prefix(s, events, i);
    lemma_tx_polls(s, events);
    lemma_tx_polls(s, events.take(i));
    lemma_tx_pauses(txid, events.take(i));
    assert(events.take(i + 1).drop_last() =~= events.take(i));
    assert(events.take(i + 1).last() == events[i]);
}

} // verus!
