//! Laws of the scan, stated over its model: which blocks and transactions a
//! scan asks for, in what order, and what it records, whatever the replies.

use crate::hash::TxHash;
use crate::prefix::any_prefix_of;
use crate::scanner::{initial_state, Fetched, OutcomeView, Phase, Request, ScanState};
use vstd::prelude::*;

verus! {

/// A reply that a driver hands to the scanner.
pub enum Event {
    /// The reply to a block request.
    Block(Fetched<Seq<TxHash>>),
    /// The reply to a transaction request, a found hash in its canonical text.
    Transaction(Fetched<Seq<char>>),
}

/// The event answers the request that is pending in `s`.
pub open spec fn accepted(s: ScanState, event: Event) -> bool {
    match event {
        Event::Block(_) => s.phase == Phase::AwaitBlock,
        Event::Transaction(_) => s.phase == Phase::AwaitTransaction,
    }
}

/// The state after one event. An event that answers no pending request is
/// refused and changes nothing.
pub open spec fn step(s: ScanState, event: Event) -> ScanState {
    if accepted(s, event) {
        match event {
            Event::Block(reply) => s.after_block(reply),
            Event::Transaction(_) => s.after_transaction(),
        }
    } else {
        s
    }
}

/// What an accepted event leads to.
pub open spec fn outcome(s: ScanState, event: Event) -> OutcomeView {
    match event {
        Event::Block(reply) => s.block_outcome(reply),
        Event::Transaction(reply) => s.transaction_outcome(reply),
    }
}

/// The state after a sequence of events.
pub open spec fn run(s: ScanState, events: Seq<Event>) -> ScanState
    decreases events.len(),
{
    if events.len() == 0 {
        s
    } else {
        step(run(s, events.drop_last()), events.last())
    }
}

/// The block numbers that are asked for from state `s` on, in the order of
/// asking: the one pending in `s`, if any, then the one that each accepted
/// event leads to, if it leads to one.
pub open spec fn blocks_asked(s: ScanState, events: Seq<Event>) -> Seq<u64>
    decreases events.len(),
{
    if events.len() == 0 {
        match s.request() {
            Request::Block(number) => seq![number],
            _ => Seq::empty(),
        }
    } else {
        let before = run(s, events.drop_last());
        let earlier = blocks_asked(s, events.drop_last());
        if accepted(before, events.last()) {
            match outcome(before, events.last()).next {
                Request::Block(number) => earlier.push(number),
                _ => earlier,
            }
        } else {
            earlier
        }
    }
}

/// The lines that are written from state `s` on, in the order of writing.
pub open spec fn lines_written(s: ScanState, events: Seq<Event>) -> Seq<Seq<char>>
    decreases events.len(),
{
    if events.len() == 0 {
        Seq::empty()
    } else {
        let before = run(s, events.drop_last());
        let earlier = lines_written(s, events.drop_last());
        if accepted(before, events.last()) {
            match outcome(before, events.last()).line {
                Some(line) => earlier.push(line),
                None => earlier,
            }
        } else {
            earlier
        }
    }
}

/// The block numbers `first ..= last`, ascending.
pub open spec fn ascending(first: u64, last: u64) -> Seq<u64> {
    Seq::new((last - first + 1) as nat, |i: int| (first + i) as u64)
}

/// Every step keeps a valid state valid, and keeps the range and the prefixes.
pub proof fn law_step_preserves_validity(s: ScanState, event: Event)
    requires
        s.wf(),
    ensures
        step(s, event).wf(),
        step(s, event).start == s.start,
        step(s, event).end == s.end,
        step(s, event).prefixes == s.prefixes,
{
}

/// Every run keeps a valid state valid, and keeps the prefixes.
pub proof fn law_run_preserves_validity(s: ScanState, events: Seq<Event>)
    requires
        s.wf(),
    ensures
        run(s, events).wf(),
        run(s, events).prefixes == s.prefixes,
    decreases events.len(),
{
    if events.len() > 0 {
        law_run_preserves_validity(s, events.drop_last());
        law_step_preserves_validity(run(s, events.drop_last()), events.last());
    }
}

/// A hash text is written exactly when some configured prefix is a prefix of
/// it, and then it is written as it stands.
pub proof fn law_written_iff_prefix(s: ScanState, text: Seq<char>)
    requires
        s.wf(),
        s.phase == Phase::AwaitTransaction,
    ensures
        any_prefix_of(s.prefixes, text) ==> s.transaction_outcome(Fetched::Found(text)).line
            == Some(text),
        !any_prefix_of(s.prefixes, text) ==> s.transaction_outcome(Fetched::Found(text)).line
            == None::<Seq<char>>,
        s.transaction_outcome(Fetched::Missing).line == None::<Seq<char>>,
        s.transaction_outcome(Fetched::Failed).line == None::<Seq<char>>,
{
}

/// Whatever the replies, a scan of `start ..= end` asks for the blocks
/// `start`, `start + 1`, and so on up to the block it has reached, each once
/// and in ascending order; and a scan that has finished has reached `end`.
pub proof fn law_blocks_asked_in_ascending_order(
    start: u64,
    end: u64,
    prefixes: Seq<Seq<char>>,
    events: Seq<Event>,
)
    requires
        start <= end,
    ensures
        run(initial_state(start, end, prefixes), events).wf(),
        run(initial_state(start, end, prefixes), events).start == start,
        run(initial_state(start, end, prefixes), events).end == end,
        blocks_asked(initial_state(start, end, prefixes), events) == ascending(
            start,
            run(initial_state(start, end, prefixes), events).block,
        ),
        run(initial_state(start, end, prefixes), events).phase == Phase::Finished ==> blocks_asked(
            initial_state(start, end, prefixes),
            events,
        ) == ascending(start, end),
    decreases events.len(),
{
    let s = initial_state(start, end, prefixes);
    if events.len() == 0 {
        assert(blocks_asked(s, events) =~= ascending(start, start));
    } else {
        law_blocks_asked_in_ascending_order(start, end, prefixes, events.drop_last());
        let before = run(s, events.drop_last());
        law_step_preserves_validity(before, events.last());
        assert(blocks_asked(s, events) =~= ascending(start, run(s, events).block));
    }
}

/// After a block is found with the identifiers `ids`, and whatever the replies
/// to the transaction requests so far, the next transaction asked for is the
/// next that the block lists: after `k` replies, `ids[k]`.
pub proof fn law_transactions_asked_in_listed_order(
    s: ScanState,
    ids: Seq<TxHash>,
    replies: Seq<Event>,
)
    requires
        s.wf(),
        s.phase == Phase::AwaitBlock,
        replies.len() < ids.len(),
        forall|i: int| 0 <= i < replies.len() ==> replies[i] is Transaction,
    ensures
        run(s.after_block(Fetched::Found(ids)), replies).request() == Request::Transaction(
            ids[replies.len() as int],
        ),
        run(s.after_block(Fetched::Found(ids)), replies) == (ScanState {
            cursor: replies.len() as int,
            ..s.after_block(Fetched::Found(ids))
        }),
    decreases replies.len(),
{
    if replies.len() > 0 {
        law_transactions_asked_in_listed_order(s, ids, replies.drop_last());
    }
}

/// A block that is missing, or whose fetch failed, does not stop the scan:
/// the next block is asked for, and none of the skipped block's transactions.
pub proof fn law_skipped_block_is_followed_by_next(s: ScanState)
    requires
        s.wf(),
        s.phase == Phase::AwaitBlock,
        s.block < s.end,
    ensures
        s.block_outcome(Fetched::Missing).next == Request::Block((s.block + 1) as u64),
        s.block_outcome(Fetched::Failed).next == Request::Block((s.block + 1) as u64),
{
}

/// A transaction that is missing, or whose fetch failed, does not stop the
/// scan: the step after it is the step after a found transaction, which asks
/// for the block's next transaction, or for the next block after the block's
/// last transaction.
pub proof fn law_skipped_transaction_is_followed_by_next(s: ScanState, text: Seq<char>)
    requires
        s.wf(),
        s.phase == Phase::AwaitTransaction,
    ensures
        s.transaction_outcome(Fetched::Missing).next == s.transaction_outcome(
            Fetched::Found(text),
        ).next,
        s.transaction_outcome(Fetched::Failed).next == s.transaction_outcome(
            Fetched::Found(text),
        ).next,
        s.cursor + 1 < s.pending.len() ==> s.transaction_outcome(Fetched::Failed).next
            == Request::Transaction(s.pending[s.cursor + 1]),
        s.cursor + 1 == s.pending.len() && s.block < s.end ==> s.transaction_outcome(
            Fetched::Failed,
        ).next == Request::Block((s.block + 1) as u64),
        s.cursor + 1 == s.pending.len() && s.block == s.end ==> s.transaction_outcome(
            Fetched::Failed,
        ).next == Request::Finished,
{
}

/// Nothing is remembered of what was written, and no line is suppressed: a
/// matching text is written whenever it comes, whatever was written before it,
/// so that a text that comes twice is written twice.
pub proof fn law_no_line_is_suppressed(s: ScanState, events: Seq<Event>, text: Seq<char>)
    requires
        s.wf(),
        run(s, events).phase == Phase::AwaitTransaction,
        any_prefix_of(s.prefixes, text),
    ensures
        lines_written(s, events.push(Event::Transaction(Fetched::Found(text)))) == lines_written(
            s,
            events,
        ).push(text),
{
    law_run_preserves_validity(s, events);
    let longer = events.push(Event::Transaction(Fetched::Found(text)));
    assert(longer.drop_last() =~= events);
}

/// Only matching texts are written: every line that a run writes starts with
/// one of the configured prefixes.
pub proof fn law_every_written_line_matches(s: ScanState, events: Seq<Event>, i: int)
    requires
        s.wf(),
        0 <= i < lines_written(s, events).len(),
    ensures
        any_prefix_of(s.prefixes, lines_written(s, events)[i]),
    decreases events.len(),
{
    if events.len() > 0 {
        law_run_preserves_validity(s, events.drop_last());
        if i < lines_written(s, events.drop_last()).len() {
            law_every_written_line_matches(s, events.drop_last(), i);
        }
    }
}

} // verus!
