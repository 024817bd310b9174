//! The list broker as the queue sees it: the commands the queue sends, the
//! replies it gets, and a model of the two lists that those commands act on.

use vstd::prelude::*;

verus! {

/// The two lists of one queue.
#[derive(Debug, Clone, Copy, PartialEq, Eq, Structural)]
pub enum QueueList {
    /// Records waiting for a worker. New records enter at the head and
    /// leave at the tail.
    Pending,
    /// Records handed to a worker and not yet acknowledged.
    Processing,
}

/// A command for the broker.
#[derive(Debug, PartialEq, Eq)]
pub enum BrokerCommand {
    /// Push `record` at the head of `list`.
    PushHead { list: QueueList, record: String },
    /// Pop the tail of `source` and push it at the head of `destination`,
    /// in one atomic move. With a timeout the broker waits that many
    /// seconds for a record to arrive before it answers with nothing.
    MoveTail { source: QueueList, destination: QueueList, timeout_seconds: Option<u64> },
    /// Remove the record nearest the head of `list` that equals `record`.
    RemoveFirst { list: QueueList, record: String },
    /// Read the tail of `list` and leave it in place.
    ReadTail { list: QueueList },
    /// Count the records of `list`.
    Length { list: QueueList },
}

/// The mathematical value of a [`BrokerCommand`].
pub enum BrokerCommandView {
    PushHead { list: QueueList, record: Seq<char> },
    MoveTail { source: QueueList, destination: QueueList, timeout_seconds: Option<u64> },
    RemoveFirst { list: QueueList, record: Seq<char> },
    ReadTail { list: QueueList },
    Length { list: QueueList },
}

impl View for BrokerCommand {
    type V = BrokerCommandView;

    open spec fn view(&self) -> BrokerCommandView {
        match self {
            BrokerCommand::PushHead { list, record } => BrokerCommandView::PushHead {
                list: *list,
                record: record@,
            },
            BrokerCommand::MoveTail {
                source,
                destination,
                timeout_seconds,
            } => BrokerCommandView::MoveTail {
                source: *source,
                destination: *destination,
                timeout_seconds: *timeout_seconds,
            },
            BrokerCommand::RemoveFirst { list, record } => BrokerCommandView::RemoveFirst {
                list: *list,
                record: record@,
            },
            BrokerCommand::ReadTail { list } => BrokerCommandView::ReadTail { list: *list },
            BrokerCommand::Length { list } => BrokerCommandView::Length { list: *list },
        }
    }
}

/// What the broker answered.
#[derive(Debug, PartialEq, Eq)]
pub enum BrokerReply {
    /// The push was done.
    Pushed,
    /// The record that was moved or read, if there was one.
    Record(Option<String>),
    /// How many records were removed, or how many the list holds.
    Count(usize),
    /// The broker could not be reached or refused the command.
    Failed(String),
}

/// The mathematical value of a [`BrokerReply`].
pub enum BrokerReplyView {
    Pushed,
    Record(Option<Seq<char>>),
    Count(usize),
    Failed(Seq<char>),
}

impl View for BrokerReply {
    type V = BrokerReplyView;

    open spec fn view(&self) -> BrokerReplyView {
        match self {
            BrokerReply::Pushed => BrokerReplyView::Pushed,
            BrokerReply::Record(record) => BrokerReplyView::Record(
                match record {
                    Some(r) => Some(r@),
                    None => None,
                },
            ),
            BrokerReply::Count(n) => BrokerReplyView::Count(*n),
            BrokerReply::Failed(reason) => BrokerReplyView::Failed(reason@),
        }
    }
}

/// The two lists of a queue as sequences of records, head first.
pub struct QueueStateView {
    pub pending: Seq<Seq<char>>,
    pub processing: Seq<Seq<char>>,
}

impl QueueStateView {
    /// The records of one list.
    pub open spec fn list(self, list: QueueList) -> Seq<Seq<char>> {
        match list {
            QueueList::Pending => self.pending,
            QueueList::Processing => self.processing,
        }
    }

    /// The state with one list replaced.
    pub open spec fn with_list(self, list: QueueList, records: Seq<Seq<char>>) -> QueueStateView {
        match list {
            QueueList::Pending => QueueStateView { pending: records, processing: self.processing },
            QueueList::Processing => QueueStateView { pending: self.pending, processing: records },
        }
    }

    /// Every record that the queue holds, pending or in flight.
    pub open spec fn contents(self) -> vstd::multiset::Multiset<Seq<char>> {
        self.pending.to_multiset().add(self.processing.to_multiset())
    }
}

/// `records` without the record nearest its head that equals `record`.
pub open spec fn remove_first(records: Seq<Seq<char>>, record: Seq<char>) -> Seq<Seq<char>>
    decreases records.len(),
{
    if records.len() == 0 {
        records
    } else if records[0] == record {
        records.drop_first()
    } else {
        seq![records[0]] + remove_first(records.drop_first(), record)
    }
}

/// What the broker does with a command: the lists afterwards and the reply.
/// A move from an empty list answers with nothing, whatever the timeout.
pub open spec fn broker_step(state: QueueStateView, command: BrokerCommandView) -> (
    QueueStateView,
    BrokerReplyView,
) {
    match command {
        BrokerCommandView::PushHead { list, record } => (
            state.with_list(list, seq![record] + state.list(list)),
            BrokerReplyView::Pushed,
        ),
        BrokerCommandView::MoveTail { source, destination, timeout_seconds } => {
            if state.list(source).len() == 0 {
                (state, BrokerReplyView::Record(None))
            } else {
                let record = state.list(source).last();
                let popped = state.with_list(source, state.list(source).drop_last());
                (
                    popped.with_list(destination, seq![record] + popped.list(destination)),
                    BrokerReplyView::Record(Some(record)),
                )
            }
        },
        BrokerCommandView::RemoveFirst { list, record } => {
            if state.list(list).contains(record) {
                (
                    state.with_list(list, remove_first(state.list(list), record)),
                    BrokerReplyView::Count(1),
                )
            } else {
                (state, BrokerReplyView::Count(0))
            }
        },
        BrokerCommandView::ReadTail { list } => (
            state,
            BrokerReplyView::Record(
                if state.list(list).len() == 0 {
                    None
                } else {
                    Some(state.list(list).last())
                },
            ),
        ),
        BrokerCommandView::Length { list } => (
            state,
            BrokerReplyView::Count(state.list(list).len() as usize),
        ),
    }
}

/// The records of a list, by view.
pub open spec fn records_view(records: Seq<String>) -> Seq<Seq<char>> {
    Seq::new(records.len(), |i: int| records[i]@)
}

/// A queue's two lists held in memory, head first.
#[derive(Debug)]
pub struct QueueState {
    pending: Vec<String>,
    processing: Vec<String>,
}

impl View for QueueState {
    type V = QueueStateView;

    closed spec fn view(&self) -> QueueStateView {
        QueueStateView {
            pending: records_view(self.pending@),
            processing: records_view(self.processing@),
        }
    }
}

/// Pushes `record` at the head of `records`.
fn push_head(records: &mut Vec<String>, record: String)
    ensures
        records_view(final(records)@) == seq![record@] + records_view(old(records)@),
{
    records.insert(0, record);
    assert(records_view(records@) =~= seq![record@] + records_view(old(records)@));
}

/// Pops the tail of `records`.
fn pop_tail(records: &mut Vec<String>) -> (record: Option<String>)
    ensures
        old(records)@.len() == 0 ==> record is None && final(records)@ == old(records)@,
        old(records)@.len() > 0 ==> record is Some && record->0@ == records_view(
            old(records)@,
        ).last() && records_view(final(records)@) == records_view(old(records)@).drop_last(),
{
    let record = records.pop();
    assert(old(records)@.len() > 0 ==> records_view(records@) =~= records_view(
        old(records)@,
    ).drop_last());
    record
}

/// Removes the record nearest the head that equals `record`; tells whether
/// there was one.
fn remove_one(records: &mut Vec<String>, record: &String) -> (removed: bool)
    ensures
        removed == records_view(old(records)@).contains(record@),
        records_view(final(records)@) == remove_first(records_view(old(records)@), record@),
{
    let ghost all = records_view(records@);
    let mut i: usize = 0;
    assert(all.skip(0) =~= all);
    assert(all.take(0) + remove_first(all.skip(0), record@) =~= remove_first(all, record@));
    while i < records.len()
        invariant
            i <= records.len(),
            records@ == old(records)@,
            all == records_view(records@),
            forall|j: int| 0 <= j < i ==> all[j] != record@,
            remove_first(all, record@) == all.take(i as int) + remove_first(
                all.skip(i as int),
                record@,
            ),
        decreases records.len() - i,
    {
        let ghost rest = all.skip(i as int);
        assert(rest[0] == records@[i as int]@);
        assert(rest.drop_first() =~= all.skip(i + 1));
        if records[i] == *record {
            records.remove(i);
            assert(all[i as int] == record@);
            assert(records_view(records@) =~= all.take(i as int) + all.skip(i + 1));
            return true;
        }
        assert(all.take(i + 1) =~= all.take(i as int) + seq![all[i as int]]);
        assert(all.take(i as int) + (seq![rest[0]] + remove_first(all.skip(i + 1), record@))
            =~= all.take(i + 1) + remove_first(all.skip(i + 1), record@));
        i += 1;
    }
    assert(all.skip(all.len() as int) =~= Seq::<Seq<char>>::empty());
    assert(all.take(all.len() as int) =~= all);
    assert(remove_first(all, record@) =~= all);
    assert(!all.contains(record@));
    false
}

impl QueueState {
    /// A queue that holds nothing.
    pub fn new() -> (state: QueueState)
        ensures
            state@.pending.len() == 0,
            state@.processing.len() == 0,
    {
        QueueState { pending: Vec::new(), processing: Vec::new() }
    }

    /// Both lists are held in memory, so their lengths are machine numbers.
    pub proof fn lemma_lengths_fit(&self)
        ensures
            self@.pending.len() <= usize::MAX,
            self@.processing.len() <= usize::MAX,
    {
        assert(self.pending.len() == self.pending@.len());
        assert(self.processing.len() == self.processing@.len());
    }

    /// Does to the lists what the broker does on `command`, and answers as
    /// the broker does.
    pub fn execute(&mut self, command: &BrokerCommand) -> (reply: BrokerReply)
        ensures
            final(self)@ == broker_step(old(self)@, command@).0,
            reply@ == broker_step(old(self)@, command@).1,
    {
        match command {
            BrokerCommand::PushHead { list, record } => {
                match list {
                    QueueList::Pending => push_head(&mut self.pending, record.clone()),
                    QueueList::Processing => push_head(&mut self.processing, record.clone()),
                }
                BrokerReply::Pushed
            },
            BrokerCommand::MoveTail { source, destination, timeout_seconds: _ } => {
                let moved = match source {
                    QueueList::Pending => pop_tail(&mut self.pending),
                    QueueList::Processing => pop_tail(&mut self.processing),
                };
                match moved {
                    None => BrokerReply::Record(None),
                    Some(record) => {
                        match destination {
                            QueueList::Pending => push_head(&mut self.pending, record.clone()),
                            QueueList::Processing => push_head(
                                &mut self.processing,
                                record.clone(),
                            ),
                        }
                        BrokerReply::Record(Some(record))
                    },
                }
            },
            BrokerCommand::RemoveFirst { list, record } => {
                let removed = match list {
                    QueueList::Pending => remove_one(&mut self.pending, record),
                    QueueList::Processing => remove_one(&mut self.processing, record),
                };
                proof {
                    if !removed {
                        lemma_remove_first_absent(old(self)@.list(*list), record@);
                    }
                }
                if removed {
                    BrokerReply::Count(1)
                } else {
                    BrokerReply::Count(0)
                }
            },
            BrokerCommand::ReadTail { list } => {
                let records = match list {
                    QueueList::Pending => &self.pending,
                    QueueList::Processing => &self.processing,
                };
                if records.len() == 0 {
                    BrokerReply::Record(None)
                } else {
                    BrokerReply::Record(Some(records[records.len() - 1].clone()))
                }
            },
            BrokerCommand::Length { list } => {
                match list {
                    QueueList::Pending => BrokerReply::Count(self.pending.len()),
                    QueueList::Processing => BrokerReply::Count(self.processing.len()),
                }
            },
        }
    }
}

/// Removing a record that a list does not hold leaves the list as it is.
pub proof fn lemma_remove_first_absent(records: Seq<Seq<char>>, record: Seq<char>)
    requires
        !records.contains(record),
    ensures
        remove_first(records, record) == records,
    decreases records.len(),
{
    if records.len() > 0 {
        assert(records[0] != record);
        assert forall|r: Seq<char>| records.drop_first().contains(r) implies records.contains(
            r,
        ) by {
            let i = choose|i: int| 0 <= i < records.drop_first().len() && records.drop_first()[i] == r;
            assert(records[i + 1] == r);
        }
        lemma_remove_first_absent(records.drop_first(), record);
        assert(seq![records[0]] + records.drop_first() =~= records);
    }
}

} // verus!
