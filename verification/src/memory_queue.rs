//! The reliable queue run against the in-memory model of the broker, and
//! the laws of delivery that hold of it.

use vstd::prelude::*;
use crate::broker::{remove_first, QueueState, QueueStateView};
use crate::queue::{
    job_of_record, job_record, Job, NackStage, NackStep, QueueError, RecoverStep, ReliableQueue,
    Settlement,
};

verus! {

/// The lists after `record` was enqueued.
pub open spec fn enqueue_spec(state: QueueStateView, record: Seq<char>) -> QueueStateView {
    QueueStateView { pending: seq![record] + state.pending, processing: state.processing }
}

/// The lists after a dequeue: the tail of the pending list is at the head
/// of the processing list. Nothing moves where nothing is pending.
pub open spec fn dequeue_spec(state: QueueStateView) -> QueueStateView {
    if state.pending.len() == 0 {
        state
    } else {
        QueueStateView {
            pending: state.pending.drop_last(),
            processing: seq![state.pending.last()] + state.processing,
        }
    }
}

/// The lists after `record` was acknowledged.
pub open spec fn ack_spec(state: QueueStateView, record: Seq<char>) -> QueueStateView {
    QueueStateView {
        pending: state.pending,
        processing: remove_first(state.processing, record),
    }
}

/// The lists after `record` was rejected: where it was in flight it is at
/// the head of the pending list; where it was not, nothing changes.
pub open spec fn nack_spec(state: QueueStateView, record: Seq<char>) -> QueueStateView {
    if state.processing.contains(record) {
        QueueStateView {
            pending: seq![record] + state.pending,
            processing: remove_first(state.processing, record),
        }
    } else {
        state
    }
}

/// The lists after a recovery: every record in flight is pending again,
/// ahead of what was pending, in the order in which it was in flight.
pub open spec fn recover_spec(state: QueueStateView) -> QueueStateView {
    QueueStateView { pending: state.processing + state.pending, processing: Seq::empty() }
}

/// A reliable queue over lists held in memory.
#[derive(Debug)]
pub struct MemoryQueue {
    queue: ReliableQueue,
    state: QueueState,
}

impl View for MemoryQueue {
    type V = QueueStateView;

    closed spec fn view(&self) -> QueueStateView {
        self.state@
    }
}

impl MemoryQueue {
    /// An empty queue.
    pub fn new(queue_name: &str, timeout_seconds: u64) -> (queue: MemoryQueue)
        ensures
            queue@.pending.len() == 0,
            queue@.processing.len() == 0,
    {
        MemoryQueue {
            queue: ReliableQueue::new(queue_name, timeout_seconds),
            state: QueueState::new(),
        }
    }

    /// Both lists are held in memory, so their lengths are machine numbers
    /// and every count is the length itself.
    pub proof fn lemma_lengths_fit(&self)
        ensures
            self@.pending.len() <= usize::MAX,
            self@.processing.len() <= usize::MAX,
    {
        self.state.lemma_lengths_fit();
    }

    /// Enqueues `job`, which always succeeds.
    pub fn enqueue(&mut self, job: &Job) -> (outcome: Result<(), QueueError>)
        ensures
            outcome is Ok,
            final(self)@ == enqueue_spec(old(self)@, job_record(job@)),
    {
        let command = self.queue.enqueue(job);
        let reply = self.state.execute(&command);
        ReliableQueue::enqueue_reply(reply)
    }

    /// Dequeues the next job, if one is pending. A poison record is an
    /// error, and is in flight afterwards like any other.
    pub fn dequeue(&mut self) -> (outcome: Result<Option<Job>, QueueError>)
        ensures
            final(self)@ == dequeue_spec(old(self)@),
            old(self)@.pending.len() == 0 ==> outcome matches Ok(None),
            old(self)@.pending.len() > 0 ==> match job_of_record(old(self)@.pending.last()) {
                Some(j) => outcome matches Ok(Some(job)) && job@ == j,
                None => outcome matches Err(QueueError::Deserialize),
            },
    {
        let command = self.queue.dequeue();
        let reply = self.state.execute(&command);
        ReliableQueue::dequeue_reply(reply)
    }

    /// Acknowledges `job`: one record of it leaves the processing list.
    pub fn ack(&mut self, job: &Job) -> (outcome: Result<Settlement, QueueError>)
        ensures
            final(self)@ == ack_spec(old(self)@, job_record(job@)),
            outcome == Ok::<Settlement, QueueError>(
                if old(self)@.processing.contains(job_record(job@)) {
                    Settlement::Settled
                } else {
                    Settlement::NotInFlight
                },
            ),
    {
        let command = self.queue.ack(job);
        let reply = self.state.execute(&command);
        proof {
            if !old(self)@.processing.contains(job_record(job@)) {
                crate::broker::lemma_remove_first_absent(
                    old(self)@.processing,
                    job_record(job@),
                );
            }
        }
        ReliableQueue::ack_reply(reply)
    }

    /// Rejects `job`: one record of it goes from the processing list back
    /// to the head of the pending list. Where none is in flight, nothing
    /// changes.
    pub fn nack(&mut self, job: &Job) -> (outcome: Result<Settlement, QueueError>)
        ensures
            final(self)@ == nack_spec(old(self)@, job_record(job@)),
            outcome == Ok::<Settlement, QueueError>(
                if old(self)@.processing.contains(job_record(job@)) {
                    Settlement::Settled
                } else {
                    Settlement::NotInFlight
                },
            ),
    {
        let ghost record = job_record(job@);
        let push = self.queue.nack(job);
        let pushed = self.state.execute(&push);
        let remove = match self.queue.nack_reply(job, NackStage::Requeue, pushed)? {
            NackStep::Send(_, command) => command,
            NackStep::Finished(settlement) => {
                return Ok(settlement);
            },
        };
        let removed = self.state.execute(&remove);
        let take_back = match self.queue.nack_reply(job, NackStage::Remove, removed)? {
            NackStep::Send(_, command) => command,
            NackStep::Finished(settlement) => {
                return Ok(settlement);
            },
        };
        proof {
            crate::delivery::lemma_rejection_keeps_the_record(old(self)@, record);
        }
        let taken = self.state.execute(&take_back);
        match self.queue.nack_reply(job, NackStage::TakeBack, taken)? {
            NackStep::Finished(settlement) => Ok(settlement),
            NackStep::Send(_, _) => Err(QueueError::UnexpectedReply),
        }
    }

    /// Moves every record in flight back to the pending list and says how
    /// many there were.
    pub fn recover_stalled_jobs(&mut self) -> (outcome: Result<usize, QueueError>)
        ensures
            final(self)@ == recover_spec(old(self)@),
            old(self)@.processing.len() <= usize::MAX,
            outcome == Ok::<usize, QueueError>(old(self)@.processing.len() as usize),
    {
        let mut recovered: usize = 0;
        let ghost before = self@;
        proof {
            self.state.lemma_lengths_fit();
        }
        loop
            invariant
                self@.processing + self@.pending == before.processing + before.pending,
                self@.processing.len() + recovered == before.processing.len(),
                before.processing.len() <= usize::MAX,
            ensures
                self@ == recover_spec(before),
                recovered == before.processing.len(),
            decreases self@.processing.len(),
        {
            let ghost now = self@;
            if recovered == usize::MAX {
                proof {
                    assert(now.processing =~= Seq::<Seq<char>>::empty());
                    assert(now.pending =~= before.processing + before.pending);
                }
                break ;
            }
            let command = self.queue.recover_stalled_jobs();
            let reply = self.state.execute(&command);
            proof {
                if now.processing.len() == 0 {
                    assert(self@.pending =~= before.processing + before.pending);
                    assert(self@.processing =~= Seq::<Seq<char>>::empty());
                } else {
                    assert(self@.processing + self@.pending =~= now.processing + now.pending);
                }
            }
            match ReliableQueue::recover_reply(recovered, reply) {
                Ok(RecoverStep::Again(so_far)) => {
                    recovered = so_far;
                },
                _ => {
                    break ;
                },
            }
        }
        Ok(recovered)
    }

    /// Reads the next job and leaves it pending.
    pub fn peek(&mut self) -> (outcome: Result<Option<Job>, QueueError>)
        ensures
            final(self)@ == old(self)@,
            old(self)@.pending.len() == 0 ==> outcome matches Ok(None),
            old(self)@.pending.len() > 0 ==> match job_of_record(old(self)@.pending.last()) {
                Some(j) => outcome matches Ok(Some(job)) && job@ == j,
                None => outcome matches Err(QueueError::Deserialize),
            },
    {
        let command = self.queue.peek();
        let reply = self.state.execute(&command);
        ReliableQueue::peek_reply(reply)
    }

    /// How many jobs are pending.
    pub fn len(&mut self) -> (outcome: Result<usize, QueueError>)
        ensures
            final(self)@ == old(self)@,
            old(self)@.pending.len() <= usize::MAX,
            outcome == Ok::<usize, QueueError>(old(self)@.pending.len() as usize),
    {
        proof {
            self.state.lemma_lengths_fit();
        }
        let command = self.queue.len();
        let reply = self.state.execute(&command);
        ReliableQueue::len_reply(reply)
    }

    /// How many jobs are in flight.
    pub fn processing_len(&mut self) -> (outcome: Result<usize, QueueError>)
        ensures
            final(self)@ == old(self)@,
            old(self)@.processing.len() <= usize::MAX,
            outcome == Ok::<usize, QueueError>(old(self)@.processing.len() as usize),
    {
        proof {
            self.state.lemma_lengths_fit();
        }
        let command = self.queue.processing_len();
        let reply = self.state.execute(&command);
        ReliableQueue::len_reply(reply)
    }
}

} // verus!
