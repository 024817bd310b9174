//! Jobs, their broker records, and the protocol core of the reliable queue.

use vstd::prelude::*;
use crate::broker::{BrokerCommand, BrokerCommandView, BrokerReply, QueueList};
use crate::json::{
    json_object_members, json_string_text, json_text, lookup, lookup_spec, members_view,
    parse_object, required, required_text, Member, MemberView,
};

verus! {

/// One unit of work: run the agent with `prompt` on `branch` of `repo_url`.
#[derive(Debug, PartialEq, Eq)]
pub struct Job {
    pub id: String,
    pub repo_url: String,
    pub branch: String,
    pub prompt: String,
    pub mcp_connection_url: Option<String>,
}

/// The mathematical value of a [`Job`].
pub struct JobView {
    pub id: Seq<char>,
    pub repo_url: Seq<char>,
    pub branch: Seq<char>,
    pub prompt: Seq<char>,
    pub mcp_connection_url: Option<Seq<char>>,
}

impl View for Job {
    type V = JobView;

    open spec fn view(&self) -> JobView {
        JobView {
            id: self.id@,
            repo_url: self.repo_url@,
            branch: self.branch@,
            prompt: self.prompt@,
            mcp_connection_url: match self.mcp_connection_url {
                Some(url) => Some(url@),
                None => None,
            },
        }
    }
}

impl Clone for Job {
    fn clone(&self) -> (copy: Job)
        ensures
            copy@ == self@,
    {
        Job {
            id: self.id.clone(),
            repo_url: self.repo_url.clone(),
            branch: self.branch.clone(),
            prompt: self.prompt.clone(),
            mcp_connection_url: match &self.mcp_connection_url {
                Some(url) => Some(url.clone()),
                None => None,
            },
        }
    }
}

/// Why a queue operation failed.
#[derive(Debug, PartialEq, Eq)]
pub enum QueueError {
    /// The broker handed out a record that is not a job: a poison record.
    Deserialize,
    /// The broker could not be reached or refused the command.
    Transport(String),
    /// The broker answered with a reply that the command cannot have.
    UnexpectedReply,
}

/// The record of a job, given the JSON text of each of its strings: an
/// object that names every field, in the order of the fields, with `null`
/// for an absent endpoint.
pub open spec fn record_text(
    id: Seq<char>,
    repo_url: Seq<char>,
    branch: Seq<char>,
    prompt: Seq<char>,
    mcp_connection_url: Option<Seq<char>>,
) -> Seq<char> {
    "{\"id\":"@ + id + ",\"repo_url\":"@ + repo_url + ",\"branch\":"@ + branch + ",\"prompt\":"@
        + prompt + ",\"mcp_connection_url\":"@ + (match mcp_connection_url {
        Some(url) => url,
        None => "null"@,
    }) + "}"@
}

/// The record that a job is written as.
pub open spec fn job_record(job: JobView) -> Seq<char> {
    record_text(
        json_string_text(job.id),
        json_string_text(job.repo_url),
        json_string_text(job.branch),
        json_string_text(job.prompt),
        match job.mcp_connection_url {
            Some(url) => Some(json_string_text(url)),
            None => None,
        },
    )
}

/// The job that the members of an object describe: `id`, `repo_url`,
/// `branch` and `prompt` must be strings; `mcp_connection_url` may be a
/// string, `null` or absent; other members are ignored.
pub open spec fn job_of_members(members: Seq<(Seq<char>, MemberView)>) -> Option<JobView> {
    let id = required_text(members, "id"@);
    let repo_url = required_text(members, "repo_url"@);
    let branch = required_text(members, "branch"@);
    let prompt = required_text(members, "prompt"@);
    let endpoint = lookup_spec(members, "mcp_connection_url"@);
    if id is Some && repo_url is Some && branch is Some && prompt is Some && endpoint
        != Some(MemberView::Other) {
        Some(
            JobView {
                id: id->0,
                repo_url: repo_url->0,
                branch: branch->0,
                prompt: prompt->0,
                mcp_connection_url: match endpoint {
                    Some(MemberView::Text(url)) => Some(url),
                    _ => None,
                },
            },
        )
    } else {
        None
    }
}

/// The job that a record reads as, or `None` for a poison record.
pub open spec fn job_of_record(text: Seq<char>) -> Option<JobView> {
    match json_object_members(text) {
        Some(members) => job_of_members(members),
        None => None,
    }
}

/// Whether `members` name every field of `job` with the field's value:
/// each string as a string, an absent endpoint as `null`.
pub open spec fn members_describe(members: Seq<(Seq<char>, MemberView)>, job: JobView) -> bool {
    &&& lookup_spec(members, "id"@) == Some(MemberView::Text(job.id))
    &&& lookup_spec(members, "repo_url"@) == Some(MemberView::Text(job.repo_url))
    &&& lookup_spec(members, "branch"@) == Some(MemberView::Text(job.branch))
    &&& lookup_spec(members, "prompt"@) == Some(MemberView::Text(job.prompt))
    &&& lookup_spec(members, "mcp_connection_url"@) == Some(
        match job.mcp_connection_url {
            Some(url) => MemberView::Text(url),
            None => MemberView::Null,
        },
    )
}

/// Whether the JSON reader finds in `text` the fields of `job` as the
/// record of `job` names them.
pub open spec fn reads_back(text: Seq<char>, job: JobView) -> bool {
    json_object_members(text) matches Some(members) && members_describe(members, job)
}

/// A record reads as the job it was written for, whatever the job's
/// strings hold, wherever the JSON reader finds in the record the fields
/// that were written into it.
pub proof fn lemma_record_round_trip(job: JobView, text: Seq<char>)
    ensures
        reads_back(text, job) ==> job_of_record(text) == Some(job),
{
}

impl Job {
    /// Puts a record together from the JSON text of each field.
    pub fn assemble(
        id: &str,
        repo_url: &str,
        branch: &str,
        prompt: &str,
        mcp_connection_url: Option<&str>,
    ) -> (record: String)
        ensures
            record@ == record_text(
                id@,
                repo_url@,
                branch@,
                prompt@,
                match mcp_connection_url {
                    Some(url) => Some(url@),
                    None => None,
                },
            ),
    {
        let mut record = "{\"id\":".to_owned();
        record.append(id);
        record.append(",\"repo_url\":");
        record.append(repo_url);
        record.append(",\"branch\":");
        record.append(branch);
        record.append(",\"prompt\":");
        record.append(prompt);
        record.append(",\"mcp_connection_url\":");
        match mcp_connection_url {
            Some(url) => record.append(url),
            None => record.append("null"),
        }
        record.append("}");
        record
    }

    /// Writes the job as a broker record. Every job has one.
    pub fn to_record(&self) -> (record: String)
        ensures
            record@ == job_record(self@),
    {
        let id = json_text(self.id.as_str());
        let repo_url = json_text(self.repo_url.as_str());
        let branch = json_text(self.branch.as_str());
        let prompt = json_text(self.prompt.as_str());
        match &self.mcp_connection_url {
            None => Job::assemble(
                id.as_str(),
                repo_url.as_str(),
                branch.as_str(),
                prompt.as_str(),
                None,
            ),
            Some(url) => {
                let endpoint = json_text(url.as_str());
                Job::assemble(
                    id.as_str(),
                    repo_url.as_str(),
                    branch.as_str(),
                    prompt.as_str(),
                    Some(endpoint.as_str()),
                )
            },
        }
    }

    /// Builds the job that the members of a parsed record describe.
    pub fn from_members(members: &Vec<(String, Member)>) -> (job: Option<Job>)
        ensures
            job matches Some(j) ==> job_of_members(members_view(members@)) == Some(j@),
            job is None ==> job_of_members(members_view(members@)) is None,
    {
        let id = required(members, "id");
        let repo_url = required(members, "repo_url");
        let branch = required(members, "branch");
        let prompt = required(members, "prompt");
        let endpoint = lookup(members, "mcp_connection_url");
        match (id, repo_url, branch, prompt) {
            (Some(id), Some(repo_url), Some(branch), Some(prompt)) => {
                let mcp_connection_url = match endpoint {
                    Some(Member::Other) => {
                        return None;
                    },
                    Some(Member::Text(url)) => Some(url.clone()),
                    _ => None,
                };
                Some(
                    Job {
                        id: id.clone(),
                        repo_url: repo_url.clone(),
                        branch: branch.clone(),
                        prompt: prompt.clone(),
                        mcp_connection_url,
                    },
                )
            },
            _ => None,
        }
    }

    /// Reads a job from a broker record.
    pub fn from_record(text: &str) -> (job: Result<Job, QueueError>)
        ensures
            job matches Ok(j) ==> job_of_record(text@) == Some(j@),
            job matches Err(e) ==> e is Deserialize && job_of_record(text@) is None,
    {
        match parse_object(text) {
            Some(members) => match Job::from_members(&members) {
                Some(job) => Ok(job),
                None => Err(QueueError::Deserialize),
            },
            None => Err(QueueError::Deserialize),
        }
    }
}

/// What an acknowledgement or a rejection found in the processing list.
#[derive(Debug, Clone, Copy, PartialEq, Eq, Structural)]
pub enum Settlement {
    /// The job's record was in flight and has left the processing list.
    Settled,
    /// No record of the job was in flight. This is worth a warning and is
    /// no error: a job may be settled twice.
    NotInFlight,
}

/// The commands of a rejection, in the order in which they are sent. The
/// record is pushed before it is removed, so that it is in a list after
/// each of them.
#[derive(Debug, Clone, Copy, PartialEq, Eq, Structural)]
pub enum NackStage {
    /// The record is pushed at the head of the pending list.
    Requeue,
    /// One record equal to it is removed from the processing list.
    Remove,
    /// Nothing was in flight: the record that was pushed is taken back
    /// from the pending list.
    TakeBack,
}

/// How far a rejection has got.
#[derive(Debug, PartialEq, Eq)]
pub enum NackStep {
    /// Send this command, which is that of the given stage.
    Send(NackStage, BrokerCommand),
    /// The rejection is over.
    Finished(Settlement),
}

/// How far a recovery has got.
#[derive(Debug, Clone, Copy, PartialEq, Eq, Structural)]
pub enum RecoverStep {
    /// A record went back to the pending list; so many have by now. Send
    /// the recovery command again.
    Again(usize),
    /// The processing list is empty; so many records were recovered.
    Finished(usize),
}

/// The names of a queue's two lists and the time a dequeue may wait.
pub struct ReliableQueueView {
    pub queue_name: Seq<char>,
    pub processing_queue_name: Seq<char>,
    pub timeout_seconds: u64,
}

/// The protocol core of a reliable queue over a list broker: it says which
/// command each operation sends and what each reply means. Sending is left
/// to the caller.
#[derive(Debug)]
pub struct ReliableQueue {
    queue_name: String,
    processing_queue_name: String,
    timeout_seconds: u64,
}

impl View for ReliableQueue {
    type V = ReliableQueueView;

    closed spec fn view(&self) -> ReliableQueueView {
        ReliableQueueView {
            queue_name: self.queue_name@,
            processing_queue_name: self.processing_queue_name@,
            timeout_seconds: self.timeout_seconds,
        }
    }
}

/// The job that the record of a reply reads as: nothing for no record, the
/// job for a record that holds one, `Deserialize` for a poison record.
pub open spec fn job_reply_spec(reply: crate::broker::BrokerReplyView, outcome: Result<
    Option<Job>,
    QueueError,
>) -> bool {
    match reply {
        crate::broker::BrokerReplyView::Failed(reason) => outcome matches Err(
            QueueError::Transport(m),
        ) && m@ == reason,
        crate::broker::BrokerReplyView::Record(None) => outcome matches Ok(None),
        crate::broker::BrokerReplyView::Record(Some(text)) => match job_of_record(text) {
            Some(j) => outcome matches Ok(Some(job)) && job@ == j,
            None => outcome matches Err(QueueError::Deserialize),
        },
        _ => outcome matches Err(QueueError::UnexpectedReply),
    }
}

/// Reads the job out of the reply to a move or a read.
fn job_of_reply(reply: BrokerReply) -> (outcome: Result<Option<Job>, QueueError>)
    ensures
        job_reply_spec(reply@, outcome),
{
    match reply {
        BrokerReply::Failed(reason) => Err(QueueError::Transport(reason)),
        BrokerReply::Record(None) => Ok(None),
        BrokerReply::Record(Some(text)) => match Job::from_record(text.as_str()) {
            Ok(job) => Ok(Some(job)),
            Err(_) => Err(QueueError::Deserialize),
        },
        _ => Err(QueueError::UnexpectedReply),
    }
}

/// The command of one stage of the rejection of `record`.
pub open spec fn nack_command(stage: NackStage, record: Seq<char>) -> BrokerCommandView {
    match stage {
        NackStage::Requeue => BrokerCommandView::PushHead { list: QueueList::Pending, record },
        NackStage::Remove => BrokerCommandView::RemoveFirst { list: QueueList::Processing, record },
        NackStage::TakeBack => BrokerCommandView::RemoveFirst { list: QueueList::Pending, record },
    }
}

/// What follows a stage of a rejection.
pub enum NackNext {
    /// The command of this stage is sent.
    Send(NackStage),
    /// The rejection is over.
    Finished(Settlement),
}

/// What follows the reply to the command of `stage` of a rejection, or
/// the error: the reason of a transport failure, or `None` for a reply
/// that the command cannot have.
pub open spec fn nack_next(stage: NackStage, reply: crate::broker::BrokerReplyView) -> Result<
    NackNext,
    Option<Seq<char>>,
> {
    match (stage, reply) {
        (_, crate::broker::BrokerReplyView::Failed(reason)) => Err(Some(reason)),
        (NackStage::Requeue, crate::broker::BrokerReplyView::Pushed) => Ok(
            NackNext::Send(NackStage::Remove),
        ),
        (NackStage::Remove, crate::broker::BrokerReplyView::Count(removed)) => if removed > 0 {
            Ok(NackNext::Finished(Settlement::Settled))
        } else {
            Ok(NackNext::Send(NackStage::TakeBack))
        },
        (NackStage::TakeBack, crate::broker::BrokerReplyView::Count(_)) => Ok(
            NackNext::Finished(Settlement::NotInFlight),
        ),
        _ => Err(None),
    }
}

impl ReliableQueue {
    /// The queue named `queue_name`. Its processing list is named
    /// `<queue_name>_processing`.
    pub fn new(queue_name: &str, timeout_seconds: u64) -> (queue: ReliableQueue)
        ensures
            queue@.queue_name == queue_name@,
            queue@.processing_queue_name == queue_name@ + "_processing"@,
            queue@.timeout_seconds == timeout_seconds,
    {
        let mut processing_queue_name = queue_name.to_owned();
        processing_queue_name.append("_processing");
        ReliableQueue { queue_name: queue_name.to_owned(), processing_queue_name, timeout_seconds }
    }

    /// The broker's name for one of the two lists.
    pub fn list_name(&self, list: QueueList) -> (name: &str)
        ensures
            name@ == match list {
                QueueList::Pending => self@.queue_name,
                QueueList::Processing => self@.processing_queue_name,
            },
    {
        match list {
            QueueList::Pending => self.queue_name.as_str(),
            QueueList::Processing => self.processing_queue_name.as_str(),
        }
    }

    /// How many seconds a dequeue waits for a job.
    pub fn timeout_seconds(&self) -> (seconds: u64)
        ensures
            seconds == self@.timeout_seconds,
    {
        self.timeout_seconds
    }

    /// The command that enqueues `job`: its record goes to the head of the
    /// pending list.
    pub fn enqueue(&self, job: &Job) -> (command: BrokerCommand)
        ensures
            command@ == (BrokerCommandView::PushHead {
                list: QueueList::Pending,
                record: job_record(job@),
            }),
    {
        BrokerCommand::PushHead { list: QueueList::Pending, record: job.to_record() }
    }

    /// What the reply to an enqueue means.
    pub fn enqueue_reply(reply: BrokerReply) -> (outcome: Result<(), QueueError>)
        ensures
            match reply {
                BrokerReply::Pushed => outcome is Ok,
                BrokerReply::Failed(reason) => outcome matches Err(QueueError::Transport(m))
                    && m@ == reason@,
                _ => outcome matches Err(QueueError::UnexpectedReply),
            },
    {
        match reply {
            BrokerReply::Pushed => Ok(()),
            BrokerReply::Failed(reason) => Err(QueueError::Transport(reason)),
            _ => Err(QueueError::UnexpectedReply),
        }
    }

    /// The command that dequeues: the tail of the pending list moves to
    /// the head of the processing list in one step, so that a record is in
    /// one of the two lists at every instant.
    pub fn dequeue(&self) -> (command: BrokerCommand)
        ensures
            command@ == (BrokerCommandView::MoveTail {
                source: QueueList::Pending,
                destination: QueueList::Processing,
                timeout_seconds: Some(self@.timeout_seconds),
            }),
    {
        BrokerCommand::MoveTail {
            source: QueueList::Pending,
            destination: QueueList::Processing,
            timeout_seconds: Some(self.timeout_seconds),
        }
    }

    /// What the reply to a dequeue means: no job after the timeout, the
    /// job that was moved, or `Deserialize` for a poison record, which
    /// stays in the processing list.
    pub fn dequeue_reply(reply: BrokerReply) -> (outcome: Result<Option<Job>, QueueError>)
        ensures
            job_reply_spec(reply@, outcome),
    {
        job_of_reply(reply)
    }

    /// The command that acknowledges `job`: one record equal to the job's
    /// leaves the processing list.
    pub fn ack(&self, job: &Job) -> (command: BrokerCommand)
        ensures
            command@ == (BrokerCommandView::RemoveFirst {
                list: QueueList::Processing,
                record: job_record(job@),
            }),
    {
        BrokerCommand::RemoveFirst { list: QueueList::Processing, record: job.to_record() }
    }

    /// What the reply to an acknowledgement means. That no record was in
    /// flight is no error.
    pub fn ack_reply(reply: BrokerReply) -> (outcome: Result<Settlement, QueueError>)
        ensures
            match reply {
                BrokerReply::Count(removed) => outcome == Ok::<Settlement, QueueError>(
                    if removed > 0 {
                        Settlement::Settled
                    } else {
                        Settlement::NotInFlight
                    },
                ),
                BrokerReply::Failed(reason) => outcome matches Err(QueueError::Transport(m))
                    && m@ == reason@,
                _ => outcome matches Err(QueueError::UnexpectedReply),
            },
    {
        match reply {
            BrokerReply::Count(removed) => if removed > 0 {
                Ok(Settlement::Settled)
            } else {
                Ok(Settlement::NotInFlight)
            },
            BrokerReply::Failed(reason) => Err(QueueError::Transport(reason)),
            _ => Err(QueueError::UnexpectedReply),
        }
    }

    /// The first command of a rejection: the job's record is pushed at the
    /// head of the pending list, where new records enter, so that the job
    /// is delivered again after those that wait already. The record is
    /// removed from the processing list only after that, so that no
    /// failure between the two loses the job.
    pub fn nack(&self, job: &Job) -> (command: BrokerCommand)
        ensures
            command@ == nack_command(NackStage::Requeue, job_record(job@)),
    {
        BrokerCommand::PushHead { list: QueueList::Pending, record: job.to_record() }
    }

    /// What the reply to the command of `stage` of a rejection means.
    /// After the push one record equal to the job's is removed from the
    /// processing list. Where one was removed the job is rejected; where
    /// none was, the job was not in flight, and the record that was
    /// pushed is taken back, so that a rejection of such a job adds
    /// nothing.
    pub fn nack_reply(&self, job: &Job, stage: NackStage, reply: BrokerReply) -> (outcome: Result<
        NackStep,
        QueueError,
    >)
        ensures
            match nack_next(stage, reply@) {
                Ok(NackNext::Send(next)) => outcome matches Ok(NackStep::Send(to, c)) && to == next
                    && c@ == nack_command(next, job_record(job@)),
                Ok(NackNext::Finished(settlement)) => outcome == Ok::<NackStep, QueueError>(
                    NackStep::Finished(settlement),
                ),
                Err(None) => outcome matches Err(QueueError::UnexpectedReply),
                Err(Some(reason)) => outcome matches Err(QueueError::Transport(m)) && m@ == reason,
            },
    {
        match (stage, reply) {
            (_, BrokerReply::Failed(reason)) => Err(QueueError::Transport(reason)),
            (NackStage::Requeue, BrokerReply::Pushed) => Ok(
                NackStep::Send(
                    NackStage::Remove,
                    BrokerCommand::RemoveFirst {
                        list: QueueList::Processing,
                        record: job.to_record(),
                    },
                ),
            ),
            (NackStage::Remove, BrokerReply::Count(removed)) => if removed > 0 {
                Ok(NackStep::Finished(Settlement::Settled))
            } else {
                Ok(
                    NackStep::Send(
                        NackStage::TakeBack,
                        BrokerCommand::RemoveFirst {
                            list: QueueList::Pending,
                            record: job.to_record(),
                        },
                    ),
                )
            },
            (NackStage::TakeBack, BrokerReply::Count(_)) => Ok(
                NackStep::Finished(Settlement::NotInFlight),
            ),
            _ => Err(QueueError::UnexpectedReply),
        }
    }

    /// The command of a recovery, sent until the processing list is empty:
    /// the tail of the processing list moves back to the head of the
    /// pending list.
    pub fn recover_stalled_jobs(&self) -> (command: BrokerCommand)
        ensures
            command@ == (BrokerCommandView::MoveTail {
                source: QueueList::Processing,
                destination: QueueList::Pending,
                timeout_seconds: None,
            }),
    {
        BrokerCommand::MoveTail {
            source: QueueList::Processing,
            destination: QueueList::Pending,
            timeout_seconds: None,
        }
    }

    /// What the reply to a recovery command means, after `recovered`
    /// records went back before it.
    pub fn recover_reply(recovered: usize, reply: BrokerReply) -> (outcome: Result<
        RecoverStep,
        QueueError,
    >)
        requires
            recovered < usize::MAX,
        ensures
            match reply {
                BrokerReply::Record(Some(_)) => outcome == Ok::<RecoverStep, QueueError>(
                    RecoverStep::Again((recovered + 1) as usize),
                ),
                BrokerReply::Record(None) => outcome == Ok::<RecoverStep, QueueError>(
                    RecoverStep::Finished(recovered),
                ),
                BrokerReply::Failed(reason) => outcome matches Err(QueueError::Transport(m))
                    && m@ == reason@,
                _ => outcome matches Err(QueueError::UnexpectedReply),
            },
    {
        match reply {
            BrokerReply::Record(Some(_)) => Ok(RecoverStep::Again(recovered + 1)),
            BrokerReply::Record(None) => Ok(RecoverStep::Finished(recovered)),
            BrokerReply::Failed(reason) => Err(QueueError::Transport(reason)),
            _ => Err(QueueError::UnexpectedReply),
        }
    }

    /// The command that reads the next job and leaves it where it is.
    pub fn peek(&self) -> (command: BrokerCommand)
        ensures
            command@ == (BrokerCommandView::ReadTail { list: QueueList::Pending }),
    {
        BrokerCommand::ReadTail { list: QueueList::Pending }
    }

    /// What the reply to a peek means.
    pub fn peek_reply(reply: BrokerReply) -> (outcome: Result<Option<Job>, QueueError>)
        ensures
            job_reply_spec(reply@, outcome),
    {
        job_of_reply(reply)
    }

    /// The command that counts the pending jobs.
    pub fn len(&self) -> (command: BrokerCommand)
        ensures
            command@ == (BrokerCommandView::Length { list: QueueList::Pending }),
    {
        BrokerCommand::Length { list: QueueList::Pending }
    }

    /// The command that counts the jobs in flight.
    pub fn processing_len(&self) -> (command: BrokerCommand)
        ensures
            command@ == (BrokerCommandView::Length { list: QueueList::Processing }),
    {
        BrokerCommand::Length { list: QueueList::Processing }
    }

    /// What the reply to a count means.
    pub fn len_reply(reply: BrokerReply) -> (outcome: Result<usize, QueueError>)
        ensures
            match reply {
                BrokerReply::Count(n) => outcome == Ok::<usize, QueueError>(n),
                BrokerReply::Failed(reason) => outcome matches Err(QueueError::Transport(m))
                    && m@ == reason@,
                _ => outcome matches Err(QueueError::UnexpectedReply),
            },
    {
        match reply {
            BrokerReply::Count(n) => Ok(n),
            BrokerReply::Failed(reason) => Err(QueueError::Transport(reason)),
            _ => Err(QueueError::UnexpectedReply),
        }
    }
}

} // verus!
