use redis_agent_worker::agent::AgentResult;
use redis_agent_worker::broker::{BrokerCommand, BrokerReply, QueueList};
use redis_agent_worker::http::HttpReply;
use redis_agent_worker::instance::Instance;
use redis_agent_worker::memory_queue::MemoryQueue;
use redis_agent_worker::queue::{Job, QueueError, Settlement};
use redis_agent_worker::worker::{
    commit_message, successor, workspace_path, Decision, EventKind, JobAction, JobEvent,
    JobFailure, JobRun, JobStep, Worker, WorkerAction, WorkerConfig, WorkerEvent, WorkerStats,
};

fn job(id: &str, mcp_connection_url: Option<&str>) -> Job {
    Job {
        id: id.to_string(),
        repo_url: "git@github.com:test/repo.git".to_string(),
        branch: "feature-test".to_string(),
        prompt: "Add a new feature".to_string(),
        mcp_connection_url: mcp_connection_url.map(|u| u.to_string()),
    }
}

fn lease() -> Instance {
    Instance {
        id: "mock-instance-1".to_string(),
        mcp_connection_url: "http://mock-mcp-1.example.com".to_string(),
        api_url: "http://mock-api-1.example.com".to_string(),
    }
}

fn agent_ok() -> JobEvent {
    JobEvent::AgentFinished(AgentResult {
        success: true,
        exit_code: 0,
        stdout: "done".to_string(),
        stderr: String::new(),
    })
}

fn worker() -> Worker {
    Worker::new(WorkerConfig {
        redis_url: "redis://127.0.0.1:6379".to_string(),
        queue_name: "agent_jobs".to_string(),
        queue_timeout: 30,
        allocator_api_url: "http://localhost:8080".to_string(),
        work_dir: "/tmp/agent-worker".to_string(),
    })
}

/// Takes a job as far as the execution of the agent.
fn run_to_execute(job: Job) -> JobRun {
    let (mut run, first) = JobRun::start(job, "/tmp/agent-worker");
    assert_eq!(first, JobAction::BorrowInstance);
    run.advance(JobEvent::Borrowed(lease()));
    run.advance(JobEvent::Succeeded);
    run.advance(JobEvent::Succeeded);
    run.advance(JobEvent::Succeeded);
    let action = run.advance(JobEvent::Succeeded);
    assert!(matches!(action, JobAction::ExecuteAgent { .. }));
    run
}

#[test]
fn test_full_workflow_with_mock_agent() {
    let mut queue = MemoryQueue::new("integration_test_queue", 5);
    let submitted = job("0c2a6f3e-7d1b-4a9a-8f5e-2f6f1f0e5d3c", None);
    queue.enqueue(&submitted).unwrap();
    assert_eq!(queue.len().unwrap(), 1, "Job should be in queue");

    let dequeued = queue.dequeue().unwrap().expect("Should dequeue job");
    assert_eq!(queue.processing_len().unwrap(), 1, "Job should be in processing queue");

    let worker = worker();
    let (mut run, first) = worker.process_job(dequeued);
    assert_eq!(first, JobAction::BorrowInstance);
    let path = "/tmp/agent-worker/0c2a6f3e-7d1b-4a9a-8f5e-2f6f1f0e5d3c".to_string();

    assert_eq!(
        run.advance(JobEvent::Borrowed(lease())),
        JobAction::RemoveDirectory { path: path.clone() }
    );
    assert_eq!(
        run.advance(JobEvent::Succeeded),
        JobAction::CloneRepository {
            url: "git@github.com:test/repo.git".to_string(),
            path: path.clone()
        }
    );
    assert_eq!(run.advance(JobEvent::Succeeded), JobAction::Fetch);
    assert_eq!(
        run.advance(JobEvent::Succeeded),
        JobAction::Checkout { branch: "feature-test".to_string() }
    );
    assert_eq!(
        run.advance(JobEvent::Succeeded),
        JobAction::ExecuteAgent {
            prompt: "Add a new feature".to_string(),
            mcp_connection_url: "http://mock-mcp-1.example.com".to_string(),
        }
    );
    assert_eq!(run.advance(agent_ok()), JobAction::DetectChanges);
    assert_eq!(run.advance(JobEvent::Changes(true)), JobAction::StageAll);
    assert_eq!(
        run.advance(JobEvent::Succeeded),
        JobAction::Commit {
            message: "Agent changes for job: 0c2a6f3e-7d1b-4a9a-8f5e-2f6f1f0e5d3c\n\nPrompt: Add a new feature"
                .to_string()
        }
    );
    assert_eq!(
        run.advance(JobEvent::Succeeded),
        JobAction::Push { branch: "feature-test".to_string() }
    );
    assert_eq!(run.current_decision(), None);
    assert_eq!(run.advance(JobEvent::Succeeded), JobAction::Ack);
    assert_eq!(run.current_decision(), Some(Decision::Acked));
    assert_eq!(queue.ack(run.current_job()), Ok(Settlement::Settled));

    assert_eq!(run.advance(JobEvent::Succeeded), JobAction::ReturnInstance(lease()));
    assert_eq!(run.advance(JobEvent::Succeeded), JobAction::RemoveDirectory { path });
    assert_eq!(run.advance(JobEvent::Succeeded), JobAction::Finished { succeeded: true });
    assert_eq!(run.current_step(), JobStep::Done);

    assert_eq!(queue.len().unwrap(), 0, "Main queue should be empty");
    assert_eq!(queue.processing_len().unwrap(), 0, "Processing queue should be empty");
}

#[test]
fn test_e2e_job_failure_and_retry() {
    let mut queue = MemoryQueue::new("e2e_retry_queue", 2);
    let failing = Job {
        id: "4e1c7a2b-9d3f-4b6a-8c5d-1a2b3c4d5e6f".to_string(),
        repo_url: "git@github.com:invalid/nonexistent-repo-12345.git".to_string(),
        branch: "main".to_string(),
        prompt: "This should fail".to_string(),
        mcp_connection_url: None,
    };
    queue.enqueue(&failing).unwrap();
    let dequeued = queue.dequeue().unwrap().unwrap();

    let (mut run, _) = JobRun::start(dequeued, "/tmp/agent-worker");
    run.advance(JobEvent::Borrowed(lease()));
    run.advance(JobEvent::Succeeded);
    // The clone fails.
    assert_eq!(
        run.advance(JobEvent::Failed("Failed to clone repository".to_string())),
        JobAction::Nack
    );
    assert_eq!(queue.nack(run.current_job()), Ok(Settlement::Settled));
    assert_eq!(run.advance(JobEvent::Succeeded), JobAction::ReturnInstance(lease()));
    assert!(matches!(run.advance(JobEvent::Succeeded), JobAction::RemoveDirectory { .. }));
    assert_eq!(run.advance(JobEvent::Succeeded), JobAction::Finished { succeeded: false });
    assert_eq!(
        run.failure(),
        Some(&JobFailure::Step {
            step: JobStep::Clone,
            reason: "Failed to clone repository".to_string()
        })
    );

    assert_eq!(queue.len().unwrap(), 1, "Failed job should be back in queue for retry");
    assert_eq!(queue.processing_len().unwrap(), 0);
    assert_eq!(queue.dequeue().unwrap(), Some(failing));
}

#[test]
fn test_e2e_worker_stats() {
    let mut queue = MemoryQueue::new("e2e_stats_queue", 2);
    for i in 0..5 {
        queue
            .enqueue(&Job {
                id: format!("stats-job-{}", i),
                repo_url: "git@github.com:test/repo.git".to_string(),
                branch: "main".to_string(),
                prompt: format!("Task {}", i),
                mcp_connection_url: None,
            })
            .unwrap();
    }
    let stats = Worker::stats(
        BrokerReply::Count(queue.len().unwrap()),
        BrokerReply::Count(queue.processing_len().unwrap()),
    )
    .unwrap();
    assert_eq!(stats.queue_length, 5, "Should have 5 jobs in queue");
    assert_eq!(stats.processing_length, 0, "Processing queue should be empty");

    queue.dequeue().unwrap();
    let stats = Worker::stats(
        BrokerReply::Count(queue.len().unwrap()),
        BrokerReply::Count(queue.processing_len().unwrap()),
    )
    .unwrap();
    assert_eq!(stats.queue_length, 4, "Should have 4 jobs in queue");
    assert_eq!(stats.processing_length, 1, "Processing queue should have 1 job");
}

#[test]
fn test_e2e_multiple_jobs_sequential_processing() {
    let mut queue = MemoryQueue::new("e2e_sequential_queue", 2);
    for i in 0..3 {
        queue
            .enqueue(&Job {
                id: format!("seq-job-{}", i),
                repo_url: "file:///tmp/remote.git".to_string(),
                branch: "feature-test".to_string(),
                prompt: format!("Task {}", i),
                mcp_connection_url: None,
            })
            .unwrap();
    }
    let worker = worker();
    let mut borrowed = 0;
    let mut returned = 0;
    let mut action = match worker.next(WorkerEvent::Recovered(queue.recover_stalled_jobs())) {
        WorkerAction::Dequeue => worker.next(WorkerEvent::Dequeued(queue.dequeue())),
        other => panic!("a recovery that succeeded is followed by a dequeue, got {:?}", other),
    };
    let mut processed = 0;
    while let WorkerAction::Process(mut run, mut step) = action {
        loop {
            let event = match step {
                JobAction::BorrowInstance => {
                    borrowed += 1;
                    JobEvent::Borrowed(lease())
                }
                JobAction::ExecuteAgent { .. } => agent_ok(),
                JobAction::DetectChanges => JobEvent::Changes(true),
                JobAction::Ack => {
                    assert_eq!(queue.ack(run.current_job()), Ok(Settlement::Settled));
                    JobEvent::Succeeded
                }
                JobAction::Nack => panic!("no job of this test fails"),
                JobAction::ReturnInstance(_) => {
                    returned += 1;
                    JobEvent::Succeeded
                }
                JobAction::Finished { succeeded } => {
                    assert!(succeeded);
                    break;
                }
                _ => JobEvent::Succeeded,
            };
            step = run.advance(event);
        }
        processed += 1;
        action = match worker.next(WorkerEvent::Processed { succeeded: true }) {
            WorkerAction::Dequeue => worker.next(WorkerEvent::Dequeued(queue.dequeue())),
            other => panic!("a job is followed by a dequeue, got {:?}", other),
        };
    }
    assert_eq!(action, WorkerAction::Dequeue);
    assert_eq!(processed, 3);
    assert_eq!(queue.len().unwrap(), 0, "All jobs should be processed");
    assert_eq!(queue.processing_len().unwrap(), 0, "Processing queue should be empty");
    assert_eq!(borrowed, 3, "Should have borrowed instances for all jobs");
    assert_eq!(returned, 3, "Should have returned all instances");
}

#[test]
fn a_job_without_changes_is_acknowledged_without_a_commit() {
    let mut run = run_to_execute(job("j", None));
    assert_eq!(run.advance(agent_ok()), JobAction::DetectChanges);
    assert_eq!(run.advance(JobEvent::Changes(false)), JobAction::Ack);
    assert_eq!(run.current_decision(), Some(Decision::Acked));
    assert_eq!(run.advance(JobEvent::Succeeded), JobAction::ReturnInstance(lease()));
    assert!(matches!(run.advance(JobEvent::Succeeded), JobAction::RemoveDirectory { .. }));
    assert_eq!(run.advance(JobEvent::Succeeded), JobAction::Finished { succeeded: true });
}

#[test]
fn the_job_s_own_endpoint_overrides_the_lease_s() {
    let (mut run, _) = JobRun::start(job("j", Some("http://custom-mcp.example.com")), "/w");
    run.advance(JobEvent::Borrowed(lease()));
    run.advance(JobEvent::Succeeded);
    run.advance(JobEvent::Succeeded);
    run.advance(JobEvent::Succeeded);
    assert_eq!(
        run.advance(JobEvent::Succeeded),
        JobAction::ExecuteAgent {
            prompt: "Add a new feature".to_string(),
            mcp_connection_url: "http://custom-mcp.example.com".to_string(),
        }
    );
}

#[test]
fn scenario_a_guest_fault_rejects_the_job() {
    let mut run = run_to_execute(job("j", None));
    // The host call was denied, so the guest's entry point returned an error.
    assert_eq!(
        run.advance(JobEvent::Failed(
            "Failed to call guest function: Unauthorized network access".to_string()
        )),
        JobAction::Nack
    );
    assert_eq!(run.current_decision(), Some(Decision::Nacked));
    assert_eq!(run.advance(JobEvent::Succeeded), JobAction::ReturnInstance(lease()));
    assert!(matches!(run.advance(JobEvent::Succeeded), JobAction::RemoveDirectory { .. }));
    assert_eq!(run.advance(JobEvent::Succeeded), JobAction::Finished { succeeded: false });
}

#[test]
fn an_agent_that_does_not_succeed_rejects_the_job() {
    let mut run = run_to_execute(job("j", None));
    let failed = JobEvent::AgentFinished(AgentResult {
        success: false,
        exit_code: 3,
        stdout: String::new(),
        stderr: "boom".to_string(),
    });
    assert_eq!(run.advance(failed), JobAction::Nack);
    assert_eq!(
        run.failure(),
        Some(&JobFailure::Agent { exit_code: 3, stderr: "boom".to_string() })
    );
}

#[test]
fn a_failure_at_any_step_before_the_decision_rejects_the_job_once() {
    // The events that take a job with changes to its acknowledgement.
    let happy = |i: usize| match i {
        0 => JobEvent::Borrowed(lease()),
        5 => agent_ok(),
        6 => JobEvent::Changes(true),
        _ => JobEvent::Succeeded,
    };
    for failing in 0..10 {
        let (mut run, _) = JobRun::start(job("j", None), "/w");
        for i in 0..failing {
            let action = run.advance(happy(i));
            assert!(!matches!(action, JobAction::Ack | JobAction::Nack));
        }
        assert_eq!(run.advance(JobEvent::Failed("x".to_string())), JobAction::Nack);
        let mut decisions = 1;
        let mut returns = 0;
        let mut steps = 0;
        loop {
            match run.advance(JobEvent::Failed("cleanup failed too".to_string())) {
                JobAction::Ack | JobAction::Nack => decisions += 1,
                JobAction::ReturnInstance(returned) => {
                    assert_eq!(returned, lease());
                    returns += 1;
                }
                JobAction::Finished { succeeded } => {
                    assert!(!succeeded);
                    break;
                }
                _ => {}
            }
            steps += 1;
            assert!(steps < 20);
        }
        assert_eq!(decisions, 1, "step {}", failing);
        assert_eq!(returns, if failing == 0 { 0 } else { 1 }, "step {}", failing);
        assert_eq!(run.current_decision(), Some(Decision::Nacked));
        // The first failure stands; what failed while cleaning up does not replace it.
        match run.failure() {
            Some(JobFailure::Step { reason, .. }) => assert_eq!(reason, "x"),
            other => panic!("the first failure should stand, got {:?}", other),
        }
    }
}

#[test]
fn a_failed_borrow_rejects_the_job_and_returns_nothing() {
    let (mut run, _) = JobRun::start(job("j", None), "/w");
    assert_eq!(run.advance(JobEvent::Failed("allocator down".to_string())), JobAction::Nack);
    assert_eq!(
        run.advance(JobEvent::Succeeded),
        JobAction::RemoveDirectory { path: "/w/j".to_string() }
    );
    assert_eq!(run.advance(JobEvent::Succeeded), JobAction::Finished { succeeded: false });
    assert_eq!(run.advance(JobEvent::Succeeded), JobAction::Finished { succeeded: false });
}

#[test]
fn an_acknowledgement_that_fails_is_not_followed_by_a_rejection() {
    let mut run = run_to_execute(job("j", None));
    run.advance(agent_ok());
    assert_eq!(run.advance(JobEvent::Changes(false)), JobAction::Ack);
    assert_eq!(
        run.advance(JobEvent::Failed("broker down".to_string())),
        JobAction::ReturnInstance(lease())
    );
    assert_eq!(run.current_decision(), Some(Decision::Acked));
    assert!(matches!(run.advance(JobEvent::Succeeded), JobAction::RemoveDirectory { .. }));
    assert_eq!(run.advance(JobEvent::Succeeded), JobAction::Finished { succeeded: false });
}

#[test]
fn a_cleanup_that_fails_does_not_undo_a_success() {
    let mut run = run_to_execute(job("j", None));
    run.advance(agent_ok());
    run.advance(JobEvent::Changes(false));
    assert_eq!(run.advance(JobEvent::Succeeded), JobAction::ReturnInstance(lease()));
    assert!(matches!(
        run.advance(JobEvent::Failed("allocator down".to_string())),
        JobAction::RemoveDirectory { .. }
    ));
    assert_eq!(
        run.advance(JobEvent::Failed("disk busy".to_string())),
        JobAction::Finished { succeeded: true }
    );
    assert_eq!(run.failure(), None);
}

#[test]
fn an_outcome_that_a_step_cannot_have_rejects_the_job() {
    let (mut run, _) = JobRun::start(job("j", None), "/w");
    assert_eq!(run.advance(JobEvent::Succeeded), JobAction::Nack);
    assert_eq!(run.failure(), Some(&JobFailure::Unexpected { step: JobStep::Borrow }));

    let mut run = run_to_execute(job("j", None));
    assert_eq!(run.advance(JobEvent::Succeeded), JobAction::Nack);
    assert_eq!(run.failure(), Some(&JobFailure::Unexpected { step: JobStep::Execute }));
}

#[test]
fn the_steps_follow_their_order() {
    let order = [
        JobStep::Borrow,
        JobStep::ClearWorkspace,
        JobStep::Clone,
        JobStep::Fetch,
        JobStep::Checkout,
        JobStep::Execute,
        JobStep::DetectChanges,
        JobStep::Stage,
        JobStep::Commit,
        JobStep::Push,
        JobStep::Ack,
    ];
    let kinds = [
        EventKind::Borrowed,
        EventKind::Succeeded,
        EventKind::Succeeded,
        EventKind::Succeeded,
        EventKind::Succeeded,
        EventKind::AgentSucceeded,
        EventKind::Changed,
        EventKind::Succeeded,
        EventKind::Succeeded,
        EventKind::Succeeded,
    ];
    for i in 0..10 {
        assert_eq!(successor(order[i], kinds[i], true), order[i + 1]);
        assert_eq!(successor(order[i], EventKind::Failed, true), JobStep::Nack);
        assert_eq!(successor(order[i], EventKind::AgentFailed, false), JobStep::Nack);
    }
    assert_eq!(successor(JobStep::DetectChanges, EventKind::Unchanged, true), JobStep::Ack);
    for kind in [EventKind::Succeeded, EventKind::Failed] {
        assert_eq!(successor(JobStep::Ack, kind, true), JobStep::ReturnLease);
        assert_eq!(successor(JobStep::Nack, kind, true), JobStep::ReturnLease);
        assert_eq!(successor(JobStep::Ack, kind, false), JobStep::RemoveWorkspace);
        assert_eq!(successor(JobStep::Nack, kind, false), JobStep::RemoveWorkspace);
        assert_eq!(successor(JobStep::ReturnLease, kind, false), JobStep::RemoveWorkspace);
        assert_eq!(successor(JobStep::RemoveWorkspace, kind, false), JobStep::Done);
        assert_eq!(successor(JobStep::Done, kind, false), JobStep::Done);
    }
}

#[test]
fn events_have_their_kinds() {
    assert_eq!(JobEvent::Succeeded.kind(), EventKind::Succeeded);
    assert_eq!(JobEvent::Borrowed(lease()).kind(), EventKind::Borrowed);
    assert_eq!(agent_ok().kind(), EventKind::AgentSucceeded);
    assert_eq!(JobEvent::Changes(true).kind(), EventKind::Changed);
    assert_eq!(JobEvent::Changes(false).kind(), EventKind::Unchanged);
    assert_eq!(JobEvent::Failed(String::new()).kind(), EventKind::Failed);
}

#[test]
fn the_commit_message_names_the_job_and_the_prompt() {
    let j = Job {
        id: "j1".to_string(),
        repo_url: "r".to_string(),
        branch: "b".to_string(),
        prompt: "line one\nline two".to_string(),
        mcp_connection_url: None,
    };
    assert_eq!(
        commit_message(&j),
        "Agent changes for job: j1\n\nPrompt: line one\nline two"
    );
}

#[test]
fn the_workspace_is_a_directory_of_the_job_under_the_work_directory() {
    assert_eq!(workspace_path("/tmp/agent-worker", "j1"), "/tmp/agent-worker/j1");
    assert_eq!(workspace_path("", ""), "/");
}

#[test]
fn the_loop_recovers_once_and_then_never_stops() {
    let worker = worker();
    assert_eq!(worker.run(), WorkerAction::Recover);
    assert_eq!(worker.next(WorkerEvent::Recovered(Ok(0))), WorkerAction::Dequeue);
    assert_eq!(worker.next(WorkerEvent::Recovered(Ok(3))), WorkerAction::Dequeue);
    assert_eq!(
        worker.next(WorkerEvent::Recovered(Err(QueueError::Transport("down".to_string())))),
        WorkerAction::Stop(QueueError::Transport("down".to_string()))
    );
    assert_eq!(worker.next(WorkerEvent::Dequeued(Ok(None))), WorkerAction::Dequeue);
    assert_eq!(
        worker.next(WorkerEvent::Dequeued(Err(QueueError::Deserialize))),
        WorkerAction::Dequeue
    );
    assert_eq!(
        worker.next(WorkerEvent::Dequeued(Err(QueueError::Transport("down".to_string())))),
        WorkerAction::Dequeue
    );
    assert_eq!(worker.next(WorkerEvent::Processed { succeeded: true }), WorkerAction::Dequeue);
    assert_eq!(worker.next(WorkerEvent::Processed { succeeded: false }), WorkerAction::Dequeue);
    match worker.next(WorkerEvent::Dequeued(Ok(Some(job("j9", None))))) {
        WorkerAction::Process(run, first) => {
            assert_eq!(first, JobAction::BorrowInstance);
            assert_eq!(run.current_step(), JobStep::Borrow);
            assert_eq!(run.current_job(), &job("j9", None));
        }
        other => panic!("a job is processed, got {:?}", other),
    }
}

#[test]
fn a_worker_is_made_of_its_configuration() {
    let worker = worker();
    assert_eq!(worker.queue().list_name(QueueList::Pending), "agent_jobs");
    assert_eq!(worker.queue().list_name(QueueList::Processing), "agent_jobs_processing");
    assert_eq!(worker.queue().timeout_seconds(), 30);
    assert_eq!(worker.allocator().allocator_api_url(), "http://localhost:8080");
    assert_eq!(worker.agent_executor().config().working_directory, "/tmp/agent-worker");
    assert_eq!(
        worker.get_stats(),
        (
            BrokerCommand::Length { list: QueueList::Pending },
            BrokerCommand::Length { list: QueueList::Processing }
        )
    );
}

#[test]
fn stats_need_two_counts() {
    assert_eq!(
        Worker::stats(BrokerReply::Count(4), BrokerReply::Count(1)),
        Ok(WorkerStats { queue_length: 4, processing_length: 1 })
    );
    assert_eq!(
        Worker::stats(BrokerReply::Failed("down".to_string()), BrokerReply::Count(1)),
        Err(QueueError::Transport("down".to_string()))
    );
    assert_eq!(
        Worker::stats(BrokerReply::Count(1), BrokerReply::Pushed),
        Err(QueueError::UnexpectedReply)
    );
}

#[test]
fn the_worker_remembers_the_leases_that_went_back() {
    let mut worker = worker();
    let refused = || HttpReply::Response { status: 500, body: Ok(String::new()) };
    assert!(worker.lease_returned(&lease(), refused()).is_err());
    assert_eq!(
        worker.lease_returned(&lease(), HttpReply::Response { status: 200, body: Ok(String::new()) }),
        Ok(())
    );
    assert_eq!(worker.lease_returned(&lease(), refused()), Ok(()));
}
