//! What the reliable queue guarantees: no record is lost, the two lists
//! hold exactly what was enqueued and not acknowledged, and a recovery
//! puts back what the dequeues took.

use vstd::prelude::*;
use vstd::multiset::Multiset;
use vstd::seq_lib::{lemma_multiset_commutative, to_multiset_insert, to_multiset_remove};
use crate::broker::{broker_step, remove_first, BrokerReplyView, QueueStateView};
use crate::memory_queue::{ack_spec, dequeue_spec, enqueue_spec, nack_spec, recover_spec};
use crate::queue::{job_of_record, nack_command, reads_back, JobView, NackStage};

verus! {

/// One operation on a queue, by the record it is about.
pub enum QueueEvent {
    Enqueue(Seq<char>),
    Dequeue,
    Ack(Seq<char>),
    Nack(Seq<char>),
    Recover,
}

/// The lists after one operation.
pub open spec fn apply_event(state: QueueStateView, event: QueueEvent) -> QueueStateView {
    match event {
        QueueEvent::Enqueue(record) => enqueue_spec(state, record),
        QueueEvent::Dequeue => dequeue_spec(state),
        QueueEvent::Ack(record) => ack_spec(state, record),
        QueueEvent::Nack(record) => nack_spec(state, record),
        QueueEvent::Recover => recover_spec(state),
    }
}

/// The lists of a queue that started empty, after the operations of
/// `events` in their order.
pub open spec fn run(events: Seq<QueueEvent>) -> QueueStateView
    decreases events.len(),
{
    if events.len() == 0 {
        QueueStateView { pending: Seq::empty(), processing: Seq::empty() }
    } else {
        apply_event(run(events.drop_last()), events.last())
    }
}

/// Every record that `events` enqueued, as often as it was enqueued.
pub open spec fn enqueued(events: Seq<QueueEvent>) -> Multiset<Seq<char>>
    decreases events.len(),
{
    if events.len() == 0 {
        Multiset::empty()
    } else {
        match events.last() {
            QueueEvent::Enqueue(record) => enqueued(events.drop_last()).insert(record),
            _ => enqueued(events.drop_last()),
        }
    }
}

/// Every record that an acknowledgement of `events` took out of the
/// processing list, as often as one did.
pub open spec fn acked(events: Seq<QueueEvent>) -> Multiset<Seq<char>>
    decreases events.len(),
{
    if events.len() == 0 {
        Multiset::empty()
    } else {
        match events.last() {
            QueueEvent::Ack(record) => if run(events.drop_last()).processing.contains(record) {
                acked(events.drop_last()).insert(record)
            } else {
                acked(events.drop_last())
            },
            _ => acked(events.drop_last()),
        }
    }
}

/// The pending list with its tail moved to its head.
pub open spec fn tail_first(records: Seq<Seq<char>>) -> Seq<Seq<char>> {
    if records.len() == 0 {
        records
    } else {
        seq![records.last()] + records.drop_last()
    }
}

/// A record pushed at the head of a list is one more record of the list.
pub proof fn lemma_push_head_multiset(records: Seq<Seq<char>>, record: Seq<char>)
    ensures
        (seq![record] + records).to_multiset() == records.to_multiset().insert(record),
{
    assert(seq![record] + records =~= records.insert(0, record));
    to_multiset_insert(records, 0, record);
}

/// The tail popped off a list is one record less of the list.
pub proof fn lemma_pop_tail_multiset(records: Seq<Seq<char>>)
    requires
        records.len() > 0,
    ensures
        records.drop_last().to_multiset() == records.to_multiset().remove(records.last()),
        records.to_multiset().count(records.last()) > 0,
{
    broadcast use vstd::seq_lib::group_to_multiset_ensures;

    assert(records.drop_last() =~= records.remove(records.len() - 1));
    to_multiset_remove(records, records.len() - 1);
    assert(records.contains(records.last()));
}

/// Removing a record that a list holds takes one copy of it out.
pub proof fn lemma_remove_first_multiset(records: Seq<Seq<char>>, record: Seq<char>)
    requires
        records.contains(record),
    ensures
        remove_first(records, record).to_multiset() == records.to_multiset().remove(record),
        records.to_multiset().count(record) > 0,
    decreases records.len(),
{
    broadcast use vstd::seq_lib::group_to_multiset_ensures;

    let rest = records.drop_first();
    assert(records =~= seq![records[0]] + rest);
    lemma_push_head_multiset(rest, records[0]);
    if records[0] == record {
        assert(records.to_multiset().remove(record) =~= rest.to_multiset());
    } else {
        let i = choose|i: int| 0 <= i < records.len() && records[i] == record;
        assert(rest[i - 1] == record);
        lemma_remove_first_multiset(rest, record);
        lemma_push_head_multiset(remove_first(rest, record), records[0]);
        assert(rest.to_multiset().remove(record).insert(records[0]) =~= rest.to_multiset().insert(
            records[0],
        ).remove(record));
    }
}

/// An enqueue adds its record to what the queue holds.
pub proof fn lemma_enqueue_contents(state: QueueStateView, record: Seq<char>)
    ensures
        enqueue_spec(state, record).contents() == state.contents().insert(record),
{
    lemma_push_head_multiset(state.pending, record);
    assert(enqueue_spec(state, record).contents() =~= state.contents().insert(record));
}

/// A dequeue moves a record and leaves what the queue holds as it is.
pub proof fn lemma_dequeue_contents(state: QueueStateView)
    ensures
        dequeue_spec(state).contents() == state.contents(),
{
    if state.pending.len() > 0 {
        lemma_pop_tail_multiset(state.pending);
        lemma_push_head_multiset(state.processing, state.pending.last());
        assert(dequeue_spec(state).contents() =~= state.contents());
    }
}

/// An acknowledgement takes one copy of its record out of the queue where
/// the record is in flight, and nothing where it is not.
pub proof fn lemma_ack_contents(state: QueueStateView, record: Seq<char>)
    ensures
        state.processing.contains(record) ==> ack_spec(state, record).contents()
            == state.contents().remove(record) && state.contents().count(record) > 0,
        !state.processing.contains(record) ==> ack_spec(state, record) == state,
{
    if state.processing.contains(record) {
        lemma_remove_first_multiset(state.processing, record);
        assert(ack_spec(state, record).contents() =~= state.contents().remove(record));
    } else {
        crate::broker::lemma_remove_first_absent(state.processing, record);
    }
}

/// A rejection moves a record and leaves what the queue holds as it is.
pub proof fn lemma_nack_contents(state: QueueStateView, record: Seq<char>)
    ensures
        nack_spec(state, record).contents() == state.contents(),
{
    if state.processing.contains(record) {
        lemma_remove_first_multiset(state.processing, record);
        lemma_push_head_multiset(state.pending, record);
        assert(nack_spec(state, record).contents() =~= state.contents());
    }
}

/// A recovery moves records and leaves what the queue holds as it is.
pub proof fn lemma_recover_contents(state: QueueStateView)
    ensures
        recover_spec(state).contents() == state.contents(),
{
    lemma_multiset_commutative(state.processing, state.pending);
    assert(Seq::<Seq<char>>::empty().to_multiset() =~= Multiset::empty()) by {
        broadcast use vstd::seq_lib::group_to_multiset_ensures;

    }
    assert(recover_spec(state).contents() =~= state.contents());
}

/// No record is lost: after any operations on a queue that started empty,
/// every record was enqueued exactly as often as it was acknowledged, is
/// pending or is in flight, taken together.
pub proof fn lemma_conservation(events: Seq<QueueEvent>)
    ensures
        enqueued(events) == acked(events).add(run(events).contents()),
    decreases events.len(),
{
    if events.len() == 0 {
        assert(Seq::<Seq<char>>::empty().to_multiset() =~= Multiset::empty()) by {
            broadcast use vstd::seq_lib::group_to_multiset_ensures;

        }
        assert(enqueued(events) =~= acked(events).add(run(events).contents()));
    } else {
        let before = events.drop_last();
        let state = run(before);
        lemma_conservation(before);
        match events.last() {
            QueueEvent::Enqueue(record) => {
                lemma_enqueue_contents(state, record);
            },
            QueueEvent::Dequeue => {
                lemma_dequeue_contents(state);
            },
            QueueEvent::Ack(record) => {
                lemma_ack_contents(state, record);
            },
            QueueEvent::Nack(record) => {
                lemma_nack_contents(state, record);
            },
            QueueEvent::Recover => {
                lemma_recover_contents(state);
            },
        }
        assert(enqueued(events) =~= acked(events).add(run(events).contents()));
    }
}

/// At every instant the pending and the processing list together hold
/// the records that were enqueued, less those that were acknowledged.
pub proof fn lemma_contents_are_enqueued_less_acked(events: Seq<QueueEvent>)
    ensures
        run(events).contents() == enqueued(events).sub(acked(events)),
{
    lemma_conservation(events);
    assert(run(events).contents() =~= enqueued(events).sub(acked(events)));
}

/// A record that was enqueued has been acknowledged, or is pending, or is
/// in flight.
pub proof fn lemma_never_lost(events: Seq<QueueEvent>, record: Seq<char>)
    requires
        enqueued(events).count(record) > 0,
    ensures
        acked(events).count(record) > 0 || run(events).pending.contains(record) || run(
            events,
        ).processing.contains(record),
        enqueued(events).count(record) == acked(events).count(record) + run(
            events,
        ).pending.to_multiset().count(record) + run(events).processing.to_multiset().count(
            record,
        ),
{
    broadcast use vstd::seq_lib::group_to_multiset_ensures;

    lemma_conservation(events);
}

/// A recovery leaves nothing in flight, so a second one right after it
/// moves nothing and changes nothing.
pub proof fn lemma_recover_idempotent(state: QueueStateView)
    ensures
        recover_spec(state).processing.len() == 0,
        recover_spec(recover_spec(state)) == recover_spec(state),
{
    assert(recover_spec(recover_spec(state)).pending =~= recover_spec(state).pending);
}

/// A recovery after a dequeue, with nothing else in flight, puts the
/// record back: the queue holds what it held, nothing is in flight, and
/// the record that was taken from the tail is now at the head.
pub proof fn lemma_recover_after_dequeue(state: QueueStateView)
    requires
        state.processing.len() == 0,
    ensures
        recover_spec(dequeue_spec(state)).pending == tail_first(state.pending),
        recover_spec(dequeue_spec(state)).processing.len() == 0,
        recover_spec(dequeue_spec(state)).contents() == state.contents(),
{
    lemma_dequeue_contents(state);
    lemma_recover_contents(dequeue_spec(state));
    assert(recover_spec(dequeue_spec(state)).pending =~= tail_first(state.pending));
}

/// A recovery undoes a dequeue exactly where nothing else is in flight
/// and moving the tail of the pending list to its head leaves the list as
/// it is, as with at most one pending record.
pub proof fn lemma_recover_inverts_dequeue(state: QueueStateView)
    requires
        state.processing.len() == 0,
        tail_first(state.pending) == state.pending,
    ensures
        recover_spec(dequeue_spec(state)) == state,
{
    lemma_recover_after_dequeue(state);
    assert(recover_spec(dequeue_spec(state)).processing =~= state.processing);
}

/// Jobs leave in the order in which they came: a dequeue takes the record
/// that has been pending longest, so that it makes no difference to what
/// it takes whether a new record is enqueued before it or after.
pub proof fn lemma_first_in_first_out(state: QueueStateView, record: Seq<char>)
    requires
        state.pending.len() > 0,
    ensures
        dequeue_spec(enqueue_spec(state, record)) == enqueue_spec(dequeue_spec(state), record),
        dequeue_spec(enqueue_spec(state, record)).processing[0] == state.pending.last(),
{
    let both = enqueue_spec(state, record);
    assert(both.pending.last() == state.pending.last());
    assert(both.pending.drop_last() =~= seq![record] + state.pending.drop_last());
}

/// A job that is enqueued while nothing is pending is the job that the next
/// dequeue hands out, field by field, whatever its strings hold, wherever
/// the JSON reader finds in the record the fields that were written into
/// it.
pub proof fn lemma_enqueue_then_dequeue(state: QueueStateView, job: JobView, record: Seq<char>)
    requires
        state.pending.len() == 0,
    ensures
        enqueue_spec(state, record).pending.last() == record,
        dequeue_spec(enqueue_spec(state, record)).pending.len() == 0,
        dequeue_spec(enqueue_spec(state, record)).processing == seq![record] + state.processing,
        reads_back(record, job) ==> job_of_record(enqueue_spec(state, record).pending.last())
            == Some(job),
{
    let after = enqueue_spec(state, record);
    assert(after.pending =~= seq![record]);
    assert(after.pending.drop_last() =~= Seq::<Seq<char>>::empty());
}

/// The lists after the command of `stage` of the rejection of `record`.
pub open spec fn after_nack_stage(state: QueueStateView, stage: NackStage, record: Seq<char>)
    -> QueueStateView {
    broker_step(state, nack_command(stage, record)).0
}

/// What the broker answers to the command of `stage` of the rejection of
/// `record`.
pub open spec fn nack_stage_reply(state: QueueStateView, stage: NackStage, record: Seq<char>)
    -> BrokerReplyView {
    broker_step(state, nack_command(stage, record)).1
}

/// A rejection never loses the record, at whichever of its commands it
/// stops. After the push the record is pending. After the removal it is
/// still pending, and where it was in flight the lists are those of a
/// rejection and hold what they held before. Where it was not in flight
/// the removal says so, and after the pushed record is taken back the
/// lists are as they were before the rejection.
pub proof fn lemma_rejection_keeps_the_record(state: QueueStateView, record: Seq<char>)
    ensures
        ({
            let pushed = after_nack_stage(state, NackStage::Requeue, record);
            let removed = after_nack_stage(pushed, NackStage::Remove, record);
            let taken_back = after_nack_stage(removed, NackStage::TakeBack, record);
            &&& pushed.pending.contains(record)
            &&& pushed.contents() == state.contents().insert(record)
            &&& removed.pending.contains(record)
            &&& state.processing.contains(record) ==> {
                &&& nack_stage_reply(pushed, NackStage::Remove, record) == BrokerReplyView::Count(
                    1,
                )
                &&& removed == nack_spec(state, record)
                &&& removed.contents() == state.contents()
            }
            &&& !state.processing.contains(record) ==> {
                &&& nack_stage_reply(pushed, NackStage::Remove, record) == BrokerReplyView::Count(
                    0,
                )
                &&& removed == pushed
                &&& nack_stage_reply(removed, NackStage::TakeBack, record)
                    == BrokerReplyView::Count(1)
                &&& taken_back == state
                &&& taken_back == nack_spec(state, record)
            }
        }),
{
    let pushed = after_nack_stage(state, NackStage::Requeue, record);
    let removed = after_nack_stage(pushed, NackStage::Remove, record);
    assert(pushed.pending == seq![record] + state.pending);
    assert(pushed.pending[0] == record);
    assert(removed.pending[0] == record);
    lemma_enqueue_contents(state, record);
    assert(pushed == enqueue_spec(state, record));
    if state.processing.contains(record) {
        lemma_nack_contents(state, record);
    } else {
        assert(pushed.pending.drop_first() =~= state.pending);
    }
}

/// While a rejection runs, every record that the queue held is still in
/// it, and as often: the push adds one record, the removal takes out the
/// one that the push put back, and the pushed record is taken back only
/// where nothing was removed.
pub proof fn lemma_rejection_loses_nothing(
    state: QueueStateView,
    record: Seq<char>,
    other: Seq<char>,
)
    ensures
        ({
            let pushed = after_nack_stage(state, NackStage::Requeue, record);
            let removed = after_nack_stage(pushed, NackStage::Remove, record);
            let taken_back = after_nack_stage(removed, NackStage::TakeBack, record);
            &&& pushed.contents().count(other) >= state.contents().count(other)
            &&& removed.contents().count(other) >= state.contents().count(other)
            &&& !state.processing.contains(record) ==> taken_back.contents().count(other)
                == state.contents().count(other)
        }),
{
    lemma_rejection_keeps_the_record(state, record);
}

/// The lists after `count` dequeues in a row.
pub open spec fn dequeues(state: QueueStateView, count: nat) -> QueueStateView
    decreases count,
{
    if count == 0 {
        state
    } else {
        dequeue_spec(dequeues(state, (count - 1) as nat))
    }
}

/// Dequeues take the records that have waited longest, in their order,
/// and keep that order in flight; a recovery after them puts those
/// records, and what else was in flight, back ahead of the records that
/// still wait. What the queue holds is what it held.
pub proof fn lemma_recover_after_dequeues(state: QueueStateView, count: nat)
    requires
        count <= state.pending.len(),
    ensures
        dequeues(state, count).pending == state.pending.take(state.pending.len() - count),
        dequeues(state, count).processing == state.pending.skip(state.pending.len() - count)
            + state.processing,
        recover_spec(dequeues(state, count)).pending == state.pending.skip(
            state.pending.len() - count,
        ) + state.processing + state.pending.take(state.pending.len() - count),
        recover_spec(dequeues(state, count)).processing.len() == 0,
        recover_spec(dequeues(state, count)).contents() == state.contents(),
        state.processing.len() == 0 ==> recover_spec(dequeues(state, count)).pending.len()
            == state.pending.len(),
    decreases count,
{
    let n = state.pending.len() as int;
    if count == 0 {
        assert(state.pending.take(n) =~= state.pending);
        assert(state.pending.skip(n) + state.processing =~= state.processing);
    } else {
        let before = dequeues(state, (count - 1) as nat);
        lemma_recover_after_dequeues(state, (count - 1) as nat);
        assert(before.pending.len() == n - count + 1);
        assert(before.pending.last() == state.pending[n - count]);
        assert(before.pending.drop_last() =~= state.pending.take(n - count));
        assert(seq![state.pending[n - count]] + (state.pending.skip(n - count + 1)
            + state.processing) =~= state.pending.skip(n - count) + state.processing);
        lemma_recover_contents(before);
        lemma_dequeue_contents(before);
    }
    lemma_recover_contents(dequeues(state, count));
}

} // verus!
