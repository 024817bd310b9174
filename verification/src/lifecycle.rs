//! The life of a job as a whole: whatever the outcomes of its steps, a job
//! comes to its end, is decided once on its way, and gives its lease back
//! once if it got one.

use vstd::prelude::*;
use crate::worker::{successor_spec, EventKind, JobStep};

verus! {

/// Where a job stands after some outcomes, and what was asked for on the
/// way there.
pub struct Progress {
    /// The step that the job waits at.
    pub step: JobStep,
    /// Whether the job holds a lease.
    pub holds_lease: bool,
    /// How often an acknowledgement or a rejection was asked for.
    pub decisions: nat,
    /// How often the return of the lease was asked for.
    pub returns: nat,
    /// Whether the acknowledgement was asked for.
    pub acknowledged: bool,
    /// Whether a step of the job failed.
    pub failed: bool,
}

impl Progress {
    /// Whether the job is acknowledged and nothing failed.
    pub open spec fn succeeded(self) -> bool {
        self.acknowledged && !self.failed
    }
}

/// A job that was just dequeued.
pub open spec fn begin() -> Progress {
    Progress {
        step: JobStep::Borrow,
        holds_lease: false,
        decisions: 0,
        returns: 0,
        acknowledged: false,
        failed: false,
    }
}

/// Whether the outcome `kind` of `step`, which leads to `next`, is a
/// failure of the job: an action that failed or an agent that did not
/// succeed, or any outcome that leads to the rejection. What fails once
/// the decision is asked for and answered, the return of the lease or the
/// removal of the workspace, is no failure of the job.
pub open spec fn fails(step: JobStep, kind: EventKind, next: JobStep) -> bool {
    step.rank() < 12 && (kind == EventKind::Failed || kind == EventKind::AgentFailed || next
        == JobStep::Nack)
}

/// Where a job stands after one more outcome. The job holds a lease from
/// a borrow that succeeded until the lease's return is asked for.
pub open spec fn after(progress: Progress, kind: EventKind) -> Progress {
    let next = successor_spec(progress.step, kind, progress.holds_lease);
    Progress {
        acknowledged: progress.acknowledged || next == JobStep::Ack,
        failed: progress.failed || fails(progress.step, kind, next),
        step: next,
        holds_lease: if progress.step == JobStep::Borrow {
            kind == EventKind::Borrowed
        } else if next.rank() >= 12 {
            false
        } else {
            progress.holds_lease
        },
        decisions: progress.decisions + if progress.step != next && (next == JobStep::Ack || next
            == JobStep::Nack) {
            1nat
        } else {
            0nat
        },
        returns: progress.returns + if next == JobStep::ReturnLease {
            1nat
        } else {
            0nat
        },
    }
}

/// Where a job stands after the outcomes `kinds`, in their order.
pub open spec fn after_all(kinds: Seq<EventKind>) -> Progress
    decreases kinds.len(),
{
    if kinds.len() == 0 {
        begin()
    } else {
        after(after_all(kinds.drop_last()), kinds.last())
    }
}

/// Whether the first outcome is an instance.
pub open spec fn borrowed(kinds: Seq<EventKind>) -> bool {
    kinds.len() > 0 && kinds[0] == EventKind::Borrowed
}

/// What holds of a job after any outcomes: it has come as far as the
/// number of outcomes at least; it is decided exactly if it has reached
/// the acknowledgement or the rejection; it holds a lease exactly from the
/// borrow that succeeded to the decision; and the lease's return was
/// asked for exactly if the job got a lease and is past the decision.
pub open spec fn on_course(kinds: Seq<EventKind>) -> bool {
    let progress = after_all(kinds);
    let rank = progress.step.rank();
    &&& rank >= kinds.len() || rank == 14
    &&& rank == 0 <==> kinds.len() == 0
    &&& progress.decisions == if rank >= 10 {
        1nat
    } else {
        0nat
    }
    &&& progress.holds_lease <==> borrowed(kinds) && 1 <= rank <= 11
    &&& progress.returns == if rank >= 12 && borrowed(kinds) {
        1nat
    } else {
        0nat
    }
}

/// Every job stays on course.
pub proof fn lemma_on_course(kinds: Seq<EventKind>)
    ensures
        on_course(kinds),
    decreases kinds.len(),
{
    if kinds.len() > 0 {
        let before = kinds.drop_last();
        lemma_on_course(before);
        if before.len() > 0 {
            assert(before[0] == kinds[0]);
        }
    }
}

/// Whatever the outcomes of its steps, a job is done after fourteen of
/// them; by then an acknowledgement or a rejection was asked for exactly
/// once, and the return of the lease exactly once if the borrow gave one
/// and never if it did not. At no time was more than one decision asked
/// for or more than one return, and no return before the decision.
pub proof fn lemma_settled_and_released_once(kinds: Seq<EventKind>)
    ensures
        after_all(kinds).decisions <= 1,
        after_all(kinds).returns <= 1,
        after_all(kinds).returns <= after_all(kinds).decisions,
        after_all(kinds).returns == 1 ==> borrowed(kinds),
        kinds.len() >= 14 ==> after_all(kinds).step == JobStep::Done && after_all(kinds).decisions
            == 1 && after_all(kinds).returns == (if borrowed(kinds) {
            1nat
        } else {
            0nat
        }) && !after_all(kinds).holds_lease,
{
    lemma_on_course(kinds);
}

/// Where a job stands whose work all succeeded, with changes in the
/// workspace or without: the instance was borrowed, the workspace cleared,
/// the repository cloned, fetched and checked out, the agent ran to its
/// end, and what it changed, if anything, was staged, committed and
/// pushed.
pub open spec fn after_work(changed: bool) -> Progress {
    let borrowed = after(begin(), EventKind::Borrowed);
    let cleared = after(borrowed, EventKind::Succeeded);
    let cloned = after(cleared, EventKind::Succeeded);
    let fetched = after(cloned, EventKind::Succeeded);
    let checked_out = after(fetched, EventKind::Succeeded);
    let executed = after(checked_out, EventKind::AgentSucceeded);
    if changed {
        let detected = after(executed, EventKind::Changed);
        let staged = after(detected, EventKind::Succeeded);
        let committed = after(staged, EventKind::Succeeded);
        after(committed, EventKind::Succeeded)
    } else {
        after(executed, EventKind::Unchanged)
    }
}

/// A job whose work all succeeded is acknowledged, with changes or
/// without; and once its acknowledgement went through it counts as
/// succeeded whatever comes of the return of its lease and of the removal
/// of its workspace: it is done, acknowledged and never rejected, nothing
/// counts as failed, and its lease was handed out for return once.
pub proof fn lemma_work_that_succeeded_is_acknowledged(
    changed: bool,
    returned: EventKind,
    removed: EventKind,
)
    ensures
        after_work(changed).step == JobStep::Ack,
        after_work(changed).decisions == 1,
        after_work(changed).acknowledged,
        !after_work(changed).failed,
        ({
            let acked = after(after_work(changed), EventKind::Succeeded);
            let released = after(acked, returned);
            let done = after(released, removed);
            &&& acked.step == JobStep::ReturnLease
            &&& released.step == JobStep::RemoveWorkspace
            &&& done.step == JobStep::Done
            &&& done.succeeded()
            &&& done.decisions == 1
            &&& done.returns == 1
            &&& !done.holds_lease
        }),
{
}

/// What fails after the decision changes nothing of the job's verdict.
pub proof fn lemma_cleanup_keeps_the_verdict(progress: Progress, kind: EventKind)
    requires
        progress.step.rank() >= 12,
    ensures
        after(progress, kind).failed == progress.failed,
        after(progress, kind).acknowledged == progress.acknowledged,
        after(progress, kind).decisions == progress.decisions,
{
}

} // verus!
