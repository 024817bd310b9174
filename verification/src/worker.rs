//! The orchestrator: the life of one job from lease to release, and the
//! loop that feeds it.

use vstd::prelude::*;
use crate::agent::{AgentConfig, AgentExecutor, AgentResult};
use crate::broker::{BrokerCommand, BrokerReply};
use crate::instance::{Instance, InstanceAllocator, InstanceGuard, InstanceView};
use crate::queue::{Job, JobView, QueueError, ReliableQueue};

verus! {

/// What a worker is set up with.
#[derive(Debug, PartialEq, Eq)]
pub struct WorkerConfig {
    pub redis_url: String,
    pub queue_name: String,
    pub queue_timeout: u64,
    pub allocator_api_url: String,
    pub work_dir: String,
}

/// How many jobs wait and how many are in flight.
#[derive(Debug, Clone, Copy, PartialEq, Eq, Structural)]
pub struct WorkerStats {
    pub queue_length: usize,
    pub processing_length: usize,
}

/// The steps of a job, in the order in which a job takes them. A job
/// waits at a step for the outcome of that step's action.
#[derive(Debug, Clone, Copy, PartialEq, Eq, Structural)]
pub enum JobStep {
    /// Borrowing an instance.
    Borrow,
    /// Removing what is left of an earlier workspace.
    ClearWorkspace,
    /// Cloning the repository.
    Clone,
    /// Fetching the remote's branches.
    Fetch,
    /// Checking the job's branch out.
    Checkout,
    /// Running the agent in its sandbox.
    Execute,
    /// Looking for changes in the workspace.
    DetectChanges,
    /// Staging the changes.
    Stage,
    /// Committing them.
    Commit,
    /// Pushing the commit.
    Push,
    /// Acknowledging the job.
    Ack,
    /// Rejecting the job.
    Nack,
    /// Returning the lease.
    ReturnLease,
    /// Removing the workspace.
    RemoveWorkspace,
    /// Nothing is left to do.
    Done,
}

/// What the outcome of a step's action says, without what it carries.
#[derive(Debug, Clone, Copy, PartialEq, Eq, Structural)]
pub enum EventKind {
    /// The action was done.
    Succeeded,
    /// An instance was borrowed.
    Borrowed,
    /// The agent ran to its end.
    AgentSucceeded,
    /// The agent ran and did not succeed.
    AgentFailed,
    /// The workspace differs from HEAD.
    Changed,
    /// The workspace is as HEAD has it.
    Unchanged,
    /// The action failed.
    Failed,
}

/// The outcome of a step's action.
#[derive(Debug, PartialEq, Eq)]
pub enum JobEvent {
    Succeeded,
    Borrowed(Instance),
    AgentFinished(AgentResult),
    Changes(bool),
    Failed(String),
}

/// The one decision on a job.
#[derive(Debug, Clone, Copy, PartialEq, Eq, Structural)]
pub enum Decision {
    Acked,
    Nacked,
}

/// Why a job failed.
#[derive(Debug, PartialEq, Eq)]
pub enum JobFailure {
    /// The action of `step` failed for `reason`.
    Step { step: JobStep, reason: String },
    /// The agent ran and did not succeed.
    Agent { exit_code: i32, stderr: String },
    /// The outcome handed in is none that `step` can have.
    Unexpected { step: JobStep },
}

/// The mathematical value of a [`JobFailure`].
pub enum JobFailureView {
    Step { step: JobStep, reason: Seq<char> },
    Agent { exit_code: i32, stderr: Seq<char> },
    Unexpected { step: JobStep },
}

impl View for JobFailure {
    type V = JobFailureView;

    open spec fn view(&self) -> JobFailureView {
        match self {
            JobFailure::Step { step, reason } => JobFailureView::Step {
                step: *step,
                reason: reason@,
            },
            JobFailure::Agent { exit_code, stderr } => JobFailureView::Agent {
                exit_code: *exit_code,
                stderr: stderr@,
            },
            JobFailure::Unexpected { step } => JobFailureView::Unexpected { step: *step },
        }
    }
}

/// The failure of a job after the outcome `event` of `step`, which led to
/// `next`. The first failure stands. What fails once the decision is
/// asked for and answered, the return of the lease or the removal of the
/// workspace, is no failure of the job.
pub open spec fn failure_spec(
    before: Option<JobFailureView>,
    step: JobStep,
    event: JobEvent,
    next: JobStep,
) -> Option<JobFailureView> {
    if before is Some || step.rank() >= 12 {
        before
    } else {
        match event {
            JobEvent::Failed(reason) => Some(JobFailureView::Step { step, reason: reason@ }),
            JobEvent::AgentFinished(result) if !result.success => Some(
                JobFailureView::Agent { exit_code: result.exit_code, stderr: result.stderr@ },
            ),
            _ => if next == JobStep::Nack {
                Some(JobFailureView::Unexpected { step })
            } else {
                None
            },
        }
    }
}

/// What the caller does next for a job.
#[derive(Debug, PartialEq, Eq)]
pub enum JobAction {
    BorrowInstance,
    /// Remove the directory `path` and all in it, if it exists.
    RemoveDirectory { path: String },
    CloneRepository { url: String, path: String },
    Fetch,
    Checkout { branch: String },
    ExecuteAgent { prompt: String, mcp_connection_url: String },
    DetectChanges,
    StageAll,
    Commit { message: String },
    Push { branch: String },
    /// Acknowledge the job on the queue.
    Ack,
    /// Reject the job on the queue, so that it is pending again.
    Nack,
    /// Return this instance to the allocator.
    ReturnInstance(Instance),
    /// The job is over.
    Finished { succeeded: bool },
}

impl JobStep {
    /// The place of a step in the order of steps.
    pub open spec fn rank(self) -> nat {
        match self {
            JobStep::Borrow => 0,
            JobStep::ClearWorkspace => 1,
            JobStep::Clone => 2,
            JobStep::Fetch => 3,
            JobStep::Checkout => 4,
            JobStep::Execute => 5,
            JobStep::DetectChanges => 6,
            JobStep::Stage => 7,
            JobStep::Commit => 8,
            JobStep::Push => 9,
            JobStep::Ack => 10,
            JobStep::Nack => 11,
            JobStep::ReturnLease => 12,
            JobStep::RemoveWorkspace => 13,
            JobStep::Done => 14,
        }
    }

    /// Whether the job is not yet decided at this step.
    pub open spec fn undecided(self) -> bool {
        self.rank() < 10
    }
}

/// The step that follows `step` on an outcome of kind `kind`, for a job
/// that holds a lease or not. Before the decision each step leads to the
/// next on its own success and to the rejection on anything else; the
/// acknowledgement follows a push that succeeded or a workspace without
/// changes, and nothing else; after the decision the lease goes back, if
/// there is one, and the workspace is removed, whatever the outcomes.
pub open spec fn successor_spec(step: JobStep, kind: EventKind, holds_lease: bool) -> JobStep {
    match step {
        JobStep::Borrow => if kind == EventKind::Borrowed {
            JobStep::ClearWorkspace
        } else {
            JobStep::Nack
        },
        JobStep::ClearWorkspace => if kind == EventKind::Succeeded {
            JobStep::Clone
        } else {
            JobStep::Nack
        },
        JobStep::Clone => if kind == EventKind::Succeeded {
            JobStep::Fetch
        } else {
            JobStep::Nack
        },
        JobStep::Fetch => if kind == EventKind::Succeeded {
            JobStep::Checkout
        } else {
            JobStep::Nack
        },
        JobStep::Checkout => if kind == EventKind::Succeeded {
            JobStep::Execute
        } else {
            JobStep::Nack
        },
        JobStep::Execute => if kind == EventKind::AgentSucceeded {
            JobStep::DetectChanges
        } else {
            JobStep::Nack
        },
        JobStep::DetectChanges => if kind == EventKind::Changed {
            JobStep::Stage
        } else if kind == EventKind::Unchanged {
            JobStep::Ack
        } else {
            JobStep::Nack
        },
        JobStep::Stage => if kind == EventKind::Succeeded {
            JobStep::Commit
        } else {
            JobStep::Nack
        },
        JobStep::Commit => if kind == EventKind::Succeeded {
            JobStep::Push
        } else {
            JobStep::Nack
        },
        JobStep::Push => if kind == EventKind::Succeeded {
            JobStep::Ack
        } else {
            JobStep::Nack
        },
        JobStep::Ack | JobStep::Nack => if holds_lease {
            JobStep::ReturnLease
        } else {
            JobStep::RemoveWorkspace
        },
        JobStep::ReturnLease => JobStep::RemoveWorkspace,
        JobStep::RemoveWorkspace => JobStep::Done,
        JobStep::Done => JobStep::Done,
    }
}

/// The step that follows `step` on an outcome of kind `kind`.
pub fn successor(step: JobStep, kind: EventKind, holds_lease: bool) -> (next: JobStep)
    ensures
        next == successor_spec(step, kind, holds_lease),
{
    let after_decision = if holds_lease {
        JobStep::ReturnLease
    } else {
        JobStep::RemoveWorkspace
    };
    match (step, kind) {
        (JobStep::Borrow, EventKind::Borrowed) => JobStep::ClearWorkspace,
        (JobStep::ClearWorkspace, EventKind::Succeeded) => JobStep::Clone,
        (JobStep::Clone, EventKind::Succeeded) => JobStep::Fetch,
        (JobStep::Fetch, EventKind::Succeeded) => JobStep::Checkout,
        (JobStep::Checkout, EventKind::Succeeded) => JobStep::Execute,
        (JobStep::Execute, EventKind::AgentSucceeded) => JobStep::DetectChanges,
        (JobStep::DetectChanges, EventKind::Changed) => JobStep::Stage,
        (JobStep::DetectChanges, EventKind::Unchanged) => JobStep::Ack,
        (JobStep::Stage, EventKind::Succeeded) => JobStep::Commit,
        (JobStep::Commit, EventKind::Succeeded) => JobStep::Push,
        (JobStep::Push, EventKind::Succeeded) => JobStep::Ack,
        (JobStep::Ack, _) => after_decision,
        (JobStep::Nack, _) => after_decision,
        (JobStep::ReturnLease, _) => JobStep::RemoveWorkspace,
        (JobStep::RemoveWorkspace, _) => JobStep::Done,
        (JobStep::Done, _) => JobStep::Done,
        _ => JobStep::Nack,
    }
}

/// The kind of an event.
pub open spec fn kind_spec(event: JobEvent) -> EventKind {
    match event {
        JobEvent::Succeeded => EventKind::Succeeded,
        JobEvent::Borrowed(_) => EventKind::Borrowed,
        JobEvent::AgentFinished(result) => if result.success {
            EventKind::AgentSucceeded
        } else {
            EventKind::AgentFailed
        },
        JobEvent::Changes(changed) => if changed {
            EventKind::Changed
        } else {
            EventKind::Unchanged
        },
        JobEvent::Failed(_) => EventKind::Failed,
    }
}

impl JobEvent {
    /// The kind of the event.
    pub fn kind(&self) -> (kind: EventKind)
        ensures
            kind == kind_spec(*self),
    {
        match self {
            JobEvent::Succeeded => EventKind::Succeeded,
            JobEvent::Borrowed(_) => EventKind::Borrowed,
            JobEvent::AgentFinished(result) => if result.is_success() {
                EventKind::AgentSucceeded
            } else {
                EventKind::AgentFailed
            },
            JobEvent::Changes(changed) => if *changed {
                EventKind::Changed
            } else {
                EventKind::Unchanged
            },
            JobEvent::Failed(_) => EventKind::Failed,
        }
    }
}

/// The message of the commit that holds the agent's changes for a job.
pub open spec fn commit_message_spec(id: Seq<char>, prompt: Seq<char>) -> Seq<char> {
    "Agent changes for job: "@ + id + "\n\nPrompt: "@ + prompt
}

/// The directory of a job's workspace: `<work_dir>/<job_id>`.
pub open spec fn workspace_path_spec(work_dir: Seq<char>, job_id: Seq<char>) -> Seq<char> {
    work_dir + "/"@ + job_id
}

/// The endpoint that the agent of a job may reach: the job's own where it
/// names one, the lease's where it does not.
pub open spec fn agent_endpoint_spec(job: JobView, lease: InstanceView) -> Seq<char> {
    match job.mcp_connection_url {
        Some(url) => url,
        None => lease.mcp_connection_url,
    }
}

/// The message of the commit that holds the agent's changes for a job.
pub fn commit_message(job: &Job) -> (message: String)
    ensures
        message@ == commit_message_spec(job@.id, job@.prompt),
{
    let mut message = "Agent changes for job: ".to_owned();
    message.append(job.id.as_str());
    message.append("\n\nPrompt: ");
    message.append(job.prompt.as_str());
    message
}

/// The directory of a job's workspace.
pub fn workspace_path(work_dir: &str, job_id: &str) -> (path: String)
    ensures
        path@ == workspace_path_spec(work_dir@, job_id@),
{
    let mut path = work_dir.to_owned();
    path.append("/");
    path.append(job_id);
    path
}

/// One job on its way through the steps.
#[derive(Debug, PartialEq, Eq)]
pub struct JobRun {
    job: Job,
    repo_dir: String,
    step: JobStep,
    lease: InstanceGuard,
    decision: Option<Decision>,
    failure: Option<JobFailure>,
}

impl JobRun {
    /// The job.
    pub closed spec fn job(&self) -> JobView {
        self.job@
    }

    /// The directory of the job's workspace.
    pub closed spec fn repo_dir(&self) -> Seq<char> {
        self.repo_dir@
    }

    /// The step that the job waits at.
    pub closed spec fn step(&self) -> JobStep {
        self.step
    }

    /// The lease that the job holds, if it holds one.
    pub closed spec fn lease(&self) -> Option<InstanceView> {
        self.lease.held()
    }

    /// The decision on the job, once it is made.
    pub closed spec fn decision(&self) -> Option<Decision> {
        self.decision
    }

    /// Why the job failed, if it did.
    pub closed spec fn failure_view(&self) -> Option<JobFailureView> {
        match self.failure {
            Some(failure) => Some(failure@),
            None => None,
        }
    }

    /// Whether a step of the job failed.
    pub open spec fn failed(&self) -> bool {
        self.failure_view() is Some
    }

    /// Where the job stands, with nothing asked for yet.
    pub open spec fn standing(&self) -> crate::lifecycle::Progress {
        crate::lifecycle::Progress {
            step: self.step(),
            holds_lease: self.lease() is Some,
            decisions: 0,
            returns: 0,
            acknowledged: self.decision() == Some(Decision::Acked),
            failed: self.failed(),
        }
    }

    /// Whether the job is acknowledged and nothing failed.
    pub open spec fn succeeded(&self) -> bool {
        self.decision() == Some(Decision::Acked) && !self.failed()
    }

    /// What holds of a job at every step: it is undecided up to the push,
    /// acknowledged at the acknowledgement, rejected at the rejection and
    /// decided ever after; it holds a lease from the borrow to the
    /// acknowledgement and none once the lease went back.
    pub open spec fn wf(&self) -> bool {
        &&& self.step().undecided() <==> self.decision() is None
        &&& self.step() == JobStep::Ack ==> self.decision() == Some(Decision::Acked)
        &&& self.step() == JobStep::Nack ==> self.decision() == Some(Decision::Nacked)
        &&& 1 <= self.step().rank() <= 10 ==> self.lease() is Some
        &&& self.step().rank() == 0 || self.step().rank() >= 12 ==> self.lease() is None
        &&& self.step() == JobStep::Nack ==> self.failed()
    }

    /// A job that was just dequeued, and its first action: to borrow an
    /// instance.
    pub fn start(job: Job, work_dir: &str) -> (started: (JobRun, JobAction))
        ensures
            started.0.wf(),
            started.0.job() == job@,
            started.0.repo_dir() == workspace_path_spec(work_dir@, job@.id),
            started.0.step() == JobStep::Borrow,
            started.0.decision() is None,
            started.0.lease() is None,
            !started.0.failed(),
            started.0.standing() == crate::lifecycle::begin(),
            started.1 is BorrowInstance,
    {
        let repo_dir = workspace_path(work_dir, job.id.as_str());
        (
            JobRun {
                job,
                repo_dir,
                step: JobStep::Borrow,
                lease: InstanceGuard::vacant(),
                decision: None,
                failure: None,
            },
            JobAction::BorrowInstance,
        )
    }

    /// The step that the job waits at.
    pub fn current_step(&self) -> (step: JobStep)
        ensures
            step == self.step(),
    {
        self.step
    }

    /// The decision on the job, once it is made.
    pub fn current_decision(&self) -> (decision: Option<Decision>)
        ensures
            decision == self.decision(),
    {
        self.decision
    }

    /// The job.
    pub fn current_job(&self) -> (job: &Job)
        ensures
            job@ == self.job(),
    {
        &self.job
    }

    /// Why the job failed, if it did.
    pub fn failure(&self) -> (failure: Option<&JobFailure>)
        ensures
            match failure {
                Some(f) => self.failure_view() == Some(f@),
                None => self.failure_view() is None,
            },
    {
        self.failure.as_ref()
    }

    /// The endpoint that the agent may reach.
    fn agent_endpoint(&self) -> (url: String)
        requires
            self.lease() is Some,
        ensures
            url@ == agent_endpoint_spec(self.job(), self.lease()->0),
    {
        match &self.job.mcp_connection_url {
            Some(url) => url.clone(),
            None => self.lease.instance().mcp_connection_url.clone(),
        }
    }

    /// Takes in the outcome of the action that the job waits for, moves
    /// the job to its next step, and says what to do for that step.
    ///
    /// The decision on the job is made once: the acknowledgement or the
    /// rejection is asked for by one call and by no later one. A lease is
    /// handed out for return once, after the decision, and the job ends
    /// only after that.
    pub fn advance(&mut self, event: JobEvent) -> (action: JobAction)
        requires
            old(self).wf(),
        ensures
            final(self).wf(),
            final(self).job() == old(self).job(),
            final(self).repo_dir() == old(self).repo_dir(),
            final(self).step() == successor_spec(
                old(self).step(),
                kind_spec(event),
                old(self).lease() is Some,
            ),
            old(self).decision() is Some ==> final(self).decision() == old(self).decision(),
            final(self).failure_view() == failure_spec(
                old(self).failure_view(),
                old(self).step(),
                event,
                final(self).step(),
            ),
            old(self).step() == JobStep::Borrow ==> final(self).lease() == match event {
                JobEvent::Borrowed(instance) => Some(instance@),
                _ => None,
            },
            0 < old(self).step().rank() && final(self).step().rank() < 12 ==> final(self).lease()
                == old(self).lease(),
            final(self).step().rank() >= 12 ==> final(self).lease() is None,
            crate::lifecycle::after(old(self).standing(), kind_spec(event)) == (
            crate::lifecycle::Progress {
                step: final(self).step(),
                holds_lease: final(self).lease() is Some,
                decisions: if action is Ack || action is Nack {
                    1nat
                } else {
                    0nat
                },
                returns: if action is ReturnInstance {
                    1nat
                } else {
                    0nat
                },
                acknowledged: final(self).decision() == Some(Decision::Acked),
                failed: final(self).failed(),
            }),
            action is Ack <==> final(self).step() == JobStep::Ack,
            action is Nack <==> final(self).step() == JobStep::Nack,
            action is ReturnInstance <==> final(self).step() == JobStep::ReturnLease,
            match action {
                JobAction::BorrowInstance => false,
                JobAction::RemoveDirectory { path } => (final(self).step()
                    == JobStep::ClearWorkspace || final(self).step() == JobStep::RemoveWorkspace)
                    && path@ == old(self).repo_dir(),
                JobAction::CloneRepository { url, path } => final(self).step() == JobStep::Clone
                    && url@ == old(self).job().repo_url && path@ == old(self).repo_dir(),
                JobAction::Fetch => final(self).step() == JobStep::Fetch,
                JobAction::Checkout { branch } => final(self).step() == JobStep::Checkout
                    && branch@ == old(self).job().branch,
                JobAction::ExecuteAgent { prompt, mcp_connection_url } => final(self).step()
                    == JobStep::Execute && prompt@ == old(self).job().prompt
                    && old(self).lease() is Some && mcp_connection_url@ == agent_endpoint_spec(
                    old(self).job(),
                    old(self).lease()->0,
                ),
                JobAction::DetectChanges => final(self).step() == JobStep::DetectChanges,
                JobAction::StageAll => final(self).step() == JobStep::Stage,
                JobAction::Commit { message } => final(self).step() == JobStep::Commit
                    && message@ == commit_message_spec(
                    old(self).job().id,
                    old(self).job().prompt,
                ),
                JobAction::Push { branch } => final(self).step() == JobStep::Push && branch@
                    == old(self).job().branch,
                JobAction::Ack => old(self).decision() is None && final(self).decision() == Some(
                    Decision::Acked,
                ),
                JobAction::Nack => old(self).decision() is None && final(self).decision() == Some(
                    Decision::Nacked,
                ),
                JobAction::ReturnInstance(instance) => old(self).lease() == Some(instance@),
                JobAction::Finished { succeeded } => final(self).step() == JobStep::Done
                    && succeeded == final(self).succeeded(),
            },
    {
        let before = self.step;
        let kind = event.kind();
        let next = successor(before, kind, self.lease.is_held());
        match event {
            JobEvent::Borrowed(instance) => {
                if matches!(before, JobStep::Borrow) {
                    self.lease = InstanceGuard::new(instance);
                }
            },
            JobEvent::Failed(reason) => {
                if self.failure.is_none() && !after_decision(before) {
                    self.failure = Some(JobFailure::Step { step: before, reason });
                }
            },
            JobEvent::AgentFinished(result) => {
                if self.failure.is_none() && !result.success && !after_decision(before) {
                    self.failure = Some(
                        JobFailure::Agent { exit_code: result.exit_code, stderr: result.stderr },
                    );
                }
            },
            _ => {},
        }
        match next {
            JobStep::Ack => {
                self.decision = Some(Decision::Acked);
            },
            JobStep::Nack => {
                self.decision = Some(Decision::Nacked);
                if self.failure.is_none() {
                    self.failure = Some(JobFailure::Unexpected { step: before });
                }
            },
            _ => {},
        }
        self.step = next;
        match next {
            JobStep::Borrow => JobAction::BorrowInstance,
            JobStep::ClearWorkspace => JobAction::RemoveDirectory { path: self.repo_dir.clone() },
            JobStep::Clone => JobAction::CloneRepository {
                url: self.job.repo_url.clone(),
                path: self.repo_dir.clone(),
            },
            JobStep::Fetch => JobAction::Fetch,
            JobStep::Checkout => JobAction::Checkout { branch: self.job.branch.clone() },
            JobStep::Execute => JobAction::ExecuteAgent {
                prompt: self.job.prompt.clone(),
                mcp_connection_url: self.agent_endpoint(),
            },
            JobStep::DetectChanges => JobAction::DetectChanges,
            JobStep::Stage => JobAction::StageAll,
            JobStep::Commit => JobAction::Commit { message: commit_message(&self.job) },
            JobStep::Push => JobAction::Push { branch: self.job.branch.clone() },
            JobStep::Ack => JobAction::Ack,
            JobStep::Nack => JobAction::Nack,
            JobStep::ReturnLease => match self.lease.release() {
                Some(instance) => JobAction::ReturnInstance(instance),
                None => JobAction::Finished { succeeded: false },
            },
            JobStep::RemoveWorkspace => JobAction::RemoveDirectory { path: self.repo_dir.clone() },
            JobStep::Done => {
                let succeeded = match self.decision {
                    Some(Decision::Acked) => self.failure.is_none(),
                    _ => false,
                };
                JobAction::Finished { succeeded }
            },
        }
    }
}

/// Whether a step comes after the decision on the job was asked for and
/// answered: the lease's return and the removal of the workspace, whose
/// failure is worth a log line and is none of the job.
fn after_decision(step: JobStep) -> (after: bool)
    ensures
        after == (step.rank() >= 12),
{
    match step {
        JobStep::ReturnLease => true,
        JobStep::RemoveWorkspace => true,
        JobStep::Done => true,
        _ => false,
    }
}

/// The acknowledgement is asked for after a push that succeeded or for a
/// workspace without changes, and after nothing else.
pub proof fn lemma_ack_only_after_publish(step: JobStep, kind: EventKind, holds_lease: bool)
    ensures
        successor_spec(step, kind, holds_lease) == JobStep::Ack <==> (step == JobStep::Push && kind
            == EventKind::Succeeded) || (step == JobStep::DetectChanges && kind
            == EventKind::Unchanged),
{
}

/// Before the decision, a step that does not succeed leads to the
/// rejection of the job.
pub proof fn lemma_failure_leads_to_nack(step: JobStep, kind: EventKind, holds_lease: bool)
    requires
        step.undecided(),
        kind == EventKind::Failed || kind == EventKind::AgentFailed,
    ensures
        successor_spec(step, kind, holds_lease) == JobStep::Nack,
{
}

/// A job moves forward with every outcome until it is done, so that it
/// is done after fourteen outcomes at most; it passes the acknowledgement
/// or the rejection on its way, and never both.
pub proof fn lemma_job_moves_forward(step: JobStep, kind: EventKind, holds_lease: bool)
    ensures
        step != JobStep::Done ==> successor_spec(step, kind, holds_lease).rank() > step.rank(),
        successor_spec(step, kind, holds_lease).rank() <= 14,
        step.undecided() ==> successor_spec(step, kind, holds_lease).rank() <= 11,
        step == JobStep::Ack ==> successor_spec(step, kind, holds_lease) != JobStep::Nack,
        holds_lease && (step == JobStep::Ack || step == JobStep::Nack) ==> successor_spec(
            step,
            kind,
            holds_lease,
        ) == JobStep::ReturnLease,
{
}

/// What the worker's loop is told.
#[derive(Debug, PartialEq, Eq)]
pub enum WorkerEvent {
    /// The recovery at startup ended.
    Recovered(Result<usize, QueueError>),
    /// A dequeue ended.
    Dequeued(Result<Option<Job>, QueueError>),
    /// A job came to its end.
    Processed { succeeded: bool },
}

/// What the worker's loop does next.
#[derive(Debug, PartialEq, Eq)]
pub enum WorkerAction {
    /// Move the jobs that a crash left in flight back to the pending
    /// list.
    Recover,
    /// Wait for the next job.
    Dequeue,
    /// Take this job through its steps, beginning with this action.
    Process(JobRun, JobAction),
    /// Give up: the recovery at startup failed.
    Stop(QueueError),
}

/// The orchestrator of one worker process: one job at a time.
#[derive(Debug)]
pub struct Worker {
    queue: ReliableQueue,
    allocator: InstanceAllocator,
    agent_executor: AgentExecutor,
    work_dir: String,
}

impl Worker {
    /// The directory under which the workspaces are made.
    pub closed spec fn work_directory(&self) -> Seq<char> {
        self.work_dir@
    }

    /// The worker that `config` describes.
    pub fn new(config: WorkerConfig) -> (worker: Worker)
        ensures
            worker.work_directory() == config.work_dir@,
            worker.queue_view().queue_name == config.queue_name@,
            worker.queue_view().timeout_seconds == config.queue_timeout,
            worker.allocator_url() == config.allocator_api_url@,
            worker.executor_directory() == config.work_dir@,
    {
        let queue = ReliableQueue::new(config.queue_name.as_str(), config.queue_timeout);
        let allocator = InstanceAllocator::new(config.allocator_api_url);
        let agent_executor = AgentExecutor::new(
            AgentConfig { working_directory: config.work_dir.clone() },
        );
        Worker { queue, allocator, agent_executor, work_dir: config.work_dir }
    }

    /// The worker's queue, by view.
    pub closed spec fn queue_view(&self) -> crate::queue::ReliableQueueView {
        self.queue@
    }

    /// The allocator's address.
    pub closed spec fn allocator_url(&self) -> Seq<char> {
        self.allocator.api_url()
    }

    /// The worker's queue.
    pub fn queue(&self) -> (queue: &ReliableQueue)
        ensures
            queue@ == self.queue_view(),
    {
        &self.queue
    }

    /// The worker's allocator.
    pub fn allocator(&self) -> (allocator: &InstanceAllocator)
        ensures
            allocator.api_url() == self.allocator_url(),
    {
        &self.allocator
    }

    /// The directory that the agent executor works in.
    pub closed spec fn executor_directory(&self) -> Seq<char> {
        self.agent_executor.working_directory()
    }

    /// The worker's agent executor.
    pub fn agent_executor(&self) -> (executor: &AgentExecutor)
        ensures
            executor.working_directory() == self.executor_directory(),
    {
        &self.agent_executor
    }

    /// What the reply to the return of a lease means; see
    /// [`InstanceAllocator::return_reply`].
    pub fn lease_returned(&mut self, instance: &Instance, reply: crate::http::HttpReply) -> (outcome:
        Result<(), crate::instance::AllocatorError>)
        ensures
            final(self).work_directory() == old(self).work_directory(),
            final(self).queue_view() == old(self).queue_view(),
            final(self).allocator_url() == old(self).allocator_url(),
            outcome is Ok <==> old(self).lease_has_returned(instance@.id)
                || crate::instance::reply_succeeded(reply),
            outcome matches Err(e) ==> crate::instance::reply_failure(reply, e),
            forall|id: Seq<char>|
                final(self).lease_has_returned(id) <==> old(self).lease_has_returned(id) || (id
                    == instance@.id && crate::instance::reply_succeeded(reply)),
    {
        self.allocator.return_reply(instance, reply)
    }

    /// Whether the lease `id` is known to have gone back.
    pub closed spec fn lease_has_returned(&self, id: Seq<char>) -> bool {
        self.allocator.has_returned(id)
    }

    /// The first action of a worker: the recovery, once, before any
    /// dequeue.
    pub fn run(&self) -> (action: WorkerAction)
        ensures
            action is Recover,
    {
        WorkerAction::Recover
    }

    /// What follows an event of the loop. A recovery that failed stops
    /// the loop with the recovery's own error. After a recovery that
    /// succeeded the loop never stops: it waits for a job, takes it
    /// through its steps from a run on which nothing has failed yet, and
    /// waits again, whatever came of the job or of the dequeue.
    pub fn next(&self, event: WorkerEvent) -> (action: WorkerAction)
        ensures
            match event {
                WorkerEvent::Recovered(Ok(_)) => action is Dequeue,
                WorkerEvent::Recovered(Err(error)) => action matches WorkerAction::Stop(e) && e
                    == error,
                WorkerEvent::Dequeued(Ok(Some(job))) => action matches WorkerAction::Process(
                    run,
                    first,
                ) && run.wf() && run.job() == job@ && run.step() == JobStep::Borrow
                    && run.repo_dir() == workspace_path_spec(self.work_directory(), job@.id)
                    && run.decision() is None && run.lease() is None && !run.failed()
                    && run.standing() == crate::lifecycle::begin() && first is BorrowInstance,
                WorkerEvent::Dequeued(_) => action is Dequeue,
                WorkerEvent::Processed { .. } => action is Dequeue,
            },
    {
        match event {
            WorkerEvent::Recovered(Ok(_)) => WorkerAction::Dequeue,
            WorkerEvent::Recovered(Err(error)) => WorkerAction::Stop(error),
            WorkerEvent::Dequeued(Ok(Some(job))) => {
                let (run, first) = self.process_job(job);
                WorkerAction::Process(run, first)
            },
            WorkerEvent::Dequeued(_) => WorkerAction::Dequeue,
            WorkerEvent::Processed { .. } => WorkerAction::Dequeue,
        }
    }

    /// Begins the processing of `job`: a run at its first step, undecided,
    /// without a lease and without a failure, and the action that borrows
    /// an instance.
    pub fn process_job(&self, job: Job) -> (started: (JobRun, JobAction))
        ensures
            started.0.wf(),
            started.0.job() == job@,
            started.0.repo_dir() == workspace_path_spec(self.work_directory(), job@.id),
            started.0.step() == JobStep::Borrow,
            started.0.decision() is None,
            started.0.lease() is None,
            !started.0.failed(),
            started.0.standing() == crate::lifecycle::begin(),
            started.1 is BorrowInstance,
    {
        JobRun::start(job, self.work_dir.as_str())
    }

    /// The two commands that count the jobs that wait and those in
    /// flight.
    pub fn get_stats(&self) -> (commands: (BrokerCommand, BrokerCommand))
        ensures
            commands.0@ == (crate::broker::BrokerCommandView::Length {
                list: crate::broker::QueueList::Pending,
            }),
            commands.1@ == (crate::broker::BrokerCommandView::Length {
                list: crate::broker::QueueList::Processing,
            }),
    {
        (self.queue.len(), self.queue.processing_len())
    }

    /// The statistics that the replies to the two counts give, or the
    /// error of the first of the two replies that is no count.
    pub fn stats(queue_length: BrokerReply, processing_length: BrokerReply) -> (stats: Result<
        WorkerStats,
        QueueError,
    >)
        ensures
            match queue_length {
                BrokerReply::Count(waiting) => match processing_length {
                    BrokerReply::Count(in_flight) => stats == Ok::<WorkerStats, QueueError>(
                        WorkerStats { queue_length: waiting, processing_length: in_flight },
                    ),
                    BrokerReply::Failed(reason) => stats matches Err(QueueError::Transport(m))
                        && m@ == reason@,
                    _ => stats matches Err(QueueError::UnexpectedReply),
                },
                BrokerReply::Failed(reason) => stats matches Err(QueueError::Transport(m)) && m@
                    == reason@,
                _ => stats matches Err(QueueError::UnexpectedReply),
            },
    {
        let queue_length = ReliableQueue::len_reply(queue_length)?;
        let processing_length = ReliableQueue::len_reply(processing_length)?;
        Ok(WorkerStats { queue_length, processing_length })
    }
}

} // verus!
