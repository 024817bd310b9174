//! Leases of MCP endpoints: what to ask the allocator, what its answers
//! mean, and the guard that sees to it that a lease goes back once.

use vstd::prelude::*;
use crate::http::{is_success, is_success_spec, HttpMethod, HttpReply, HttpRequest, HttpRequestView};
use crate::json::{
    json_object_members, json_string_text, json_text, members_view, parse_object, required,
    required_text, Member, MemberView,
};

verus! {

/// A lease: one MCP endpoint, granted by the allocator.
#[derive(Debug, PartialEq, Eq)]
pub struct Instance {
    pub id: String,
    pub mcp_connection_url: String,
    pub api_url: String,
}

/// The mathematical value of an [`Instance`].
pub struct InstanceView {
    pub id: Seq<char>,
    pub mcp_connection_url: Seq<char>,
    pub api_url: Seq<char>,
}

impl View for Instance {
    type V = InstanceView;

    open spec fn view(&self) -> InstanceView {
        InstanceView {
            id: self.id@,
            mcp_connection_url: self.mcp_connection_url@,
            api_url: self.api_url@,
        }
    }
}

impl Clone for Instance {
    fn clone(&self) -> (copy: Instance)
        ensures
            copy@ == self@,
    {
        Instance {
            id: self.id.clone(),
            mcp_connection_url: self.mcp_connection_url.clone(),
            api_url: self.api_url.clone(),
        }
    }
}

/// Why a request to the allocator failed.
#[derive(Debug, PartialEq, Eq)]
pub enum AllocatorError {
    /// The request could not be sent.
    SendFailed(String),
    /// The allocator answered with a status outside 200 to 299. The body
    /// is empty where it could not be read.
    Status { status: u16, body: String },
    /// The allocator's answer is no instance record.
    Parse,
}

/// The record of an instance, given the JSON text of each of its strings.
pub open spec fn instance_record_text(
    id: Seq<char>,
    mcp_connection_url: Seq<char>,
    api_url: Seq<char>,
) -> Seq<char> {
    "{\"id\":"@ + id + ",\"mcp_connection_url\":"@ + mcp_connection_url + ",\"api_url\":"@ + api_url
        + "}"@
}

/// The record that an instance is written as.
pub open spec fn instance_record(instance: InstanceView) -> Seq<char> {
    instance_record_text(
        json_string_text(instance.id),
        json_string_text(instance.mcp_connection_url),
        json_string_text(instance.api_url),
    )
}

/// The instance that the members of an object describe: `id`,
/// `mcp_connection_url` and `api_url` must be strings; other members are
/// ignored.
pub open spec fn instance_of_members(members: Seq<(Seq<char>, MemberView)>) -> Option<
    InstanceView,
> {
    let id = required_text(members, "id"@);
    let mcp_connection_url = required_text(members, "mcp_connection_url"@);
    let api_url = required_text(members, "api_url"@);
    if id is Some && mcp_connection_url is Some && api_url is Some {
        Some(InstanceView { id: id->0, mcp_connection_url: mcp_connection_url->0, api_url: api_url->0 })
    } else {
        None
    }
}

/// The instance that a record reads as, if it reads as one.
pub open spec fn instance_of_record(text: Seq<char>) -> Option<InstanceView> {
    match json_object_members(text) {
        Some(members) => instance_of_members(members),
        None => None,
    }
}

impl Instance {
    /// Puts a record together from the JSON text of each field.
    pub fn assemble(id: &str, mcp_connection_url: &str, api_url: &str) -> (record: String)
        ensures
            record@ == instance_record_text(id@, mcp_connection_url@, api_url@),
    {
        let mut record = "{\"id\":".to_owned();
        record.append(id);
        record.append(",\"mcp_connection_url\":");
        record.append(mcp_connection_url);
        record.append(",\"api_url\":");
        record.append(api_url);
        record.append("}");
        record
    }

    /// Writes the instance as a record. Every instance has one.
    pub fn to_record(&self) -> (record: String)
        ensures
            record@ == instance_record(self@),
    {
        let id = json_text(self.id.as_str());
        let mcp_connection_url = json_text(self.mcp_connection_url.as_str());
        let api_url = json_text(self.api_url.as_str());
        Instance::assemble(id.as_str(), mcp_connection_url.as_str(), api_url.as_str())
    }

    /// Builds the instance that the members of a parsed record describe.
    pub fn from_members(members: &Vec<(String, Member)>) -> (instance: Option<Instance>)
        ensures
            instance matches Some(i) ==> instance_of_members(members_view(members@)) == Some(i@),
            instance is None ==> instance_of_members(members_view(members@)) is None,
    {
        let id = required(members, "id");
        let mcp_connection_url = required(members, "mcp_connection_url");
        let api_url = required(members, "api_url");
        match (id, mcp_connection_url, api_url) {
            (Some(id), Some(mcp_connection_url), Some(api_url)) => Some(
                Instance {
                    id: id.clone(),
                    mcp_connection_url: mcp_connection_url.clone(),
                    api_url: api_url.clone(),
                },
            ),
            _ => None,
        }
    }

    /// Reads an instance from a record.
    pub fn from_record(text: &str) -> (instance: Option<Instance>)
        ensures
            instance matches Some(i) ==> instance_of_record(text@) == Some(i@),
            instance is None ==> instance_of_record(text@) is None,
    {
        match parse_object(text) {
            Some(members) => Instance::from_members(&members),
            None => None,
        }
    }
}

/// What a reply of the allocator means where it is no success: the send
/// failed, or the status is outside 200 to 299.
pub open spec fn reply_failure(reply: HttpReply, error: AllocatorError) -> bool {
    match reply {
        HttpReply::SendFailed(reason) => error matches AllocatorError::SendFailed(r) && r@
            == reason@,
        HttpReply::Response { status, body } => error matches AllocatorError::Status {
            status: s,
            body: b,
        } && s == status && b@ == match body {
            Ok(text) => text@,
            Err(_) => Seq::<char>::empty(),
        },
    }
}

/// Whether a reply is a response with a success status.
pub open spec fn reply_succeeded(reply: HttpReply) -> bool {
    reply matches HttpReply::Response { status, .. } && is_success_spec(status)
}

/// The body of a response with a success status, or the error for
/// anything else.
fn success_body(reply: HttpReply) -> (body: Result<Result<String, String>, AllocatorError>)
    ensures
        match body {
            Ok(b) => reply matches HttpReply::Response { status, body: read }
                && is_success_spec(status) && read == b,
            Err(e) => !reply_succeeded(reply) && reply_failure(reply, e),
        },
{
    match reply {
        HttpReply::SendFailed(reason) => Err(AllocatorError::SendFailed(reason)),
        HttpReply::Response { status, body } => if is_success(status) {
            Ok(body)
        } else {
            let text = match body {
                Ok(text) => text,
                Err(_) => String::new(),
            };
            Err(AllocatorError::Status { status, body: text })
        },
    }
}

/// Whether `ids` holds `id`.
pub open spec fn holds_id(ids: Seq<String>, id: Seq<char>) -> bool {
    exists|i: int| 0 <= i < ids.len() && #[trigger] ids[i]@ == id
}

/// The allocator's address and the leases that went back to it.
#[derive(Debug)]
pub struct InstanceAllocator {
    allocator_api_url: String,
    returned: Vec<String>,
}

impl InstanceAllocator {
    /// The allocator's address.
    pub closed spec fn api_url(&self) -> Seq<char> {
        self.allocator_api_url@
    }

    /// Whether the lease `id` is known to have gone back.
    pub closed spec fn has_returned(&self, id: Seq<char>) -> bool {
        holds_id(self.returned@, id)
    }

    /// The allocator at `allocator_api_url`, to which no lease has gone
    /// back yet.
    pub fn new(allocator_api_url: String) -> (allocator: InstanceAllocator)
        ensures
            allocator.api_url() == allocator_api_url@,
            forall|id: Seq<char>| !allocator.has_returned(id),
    {
        InstanceAllocator { allocator_api_url, returned: Vec::new() }
    }

    /// The allocator's address.
    pub fn allocator_api_url(&self) -> (url: &str)
        ensures
            url@ == self.api_url(),
    {
        self.allocator_api_url.as_str()
    }

    /// The request that borrows an instance: `POST <allocator>/borrow`
    /// with no body.
    pub fn borrow_instance(&self) -> (request: HttpRequest)
        ensures
            request@ == (HttpRequestView {
                method: HttpMethod::Post,
                url: self.api_url() + "/borrow"@,
                content_type: None,
                body: None,
            }),
    {
        HttpRequest {
            method: HttpMethod::Post,
            url: self.allocator_api_url.clone().concat("/borrow"),
            content_type: None,
            body: None,
        }
    }

    /// What the reply to a borrow means: the instance, where the status is
    /// a success and the body reads as one.
    pub fn borrow_reply(reply: HttpReply) -> (instance: Result<Instance, AllocatorError>)
        ensures
            match reply {
                HttpReply::Response { status, body } if is_success_spec(status) => match body {
                    Ok(text) => match instance_of_record(text@) {
                        Some(i) => instance matches Ok(got) && got@ == i,
                        None => instance matches Err(AllocatorError::Parse),
                    },
                    Err(_) => instance matches Err(AllocatorError::Parse),
                },
                _ => instance matches Err(e) && reply_failure(reply, e),
            },
    {
        match success_body(reply)? {
            Ok(text) => match Instance::from_record(text.as_str()) {
                Some(instance) => Ok(instance),
                None => Err(AllocatorError::Parse),
            },
            Err(_) => Err(AllocatorError::Parse),
        }
    }

    /// The request that returns `instance`: `POST <allocator>/return`
    /// with the instance's record as its JSON body.
    pub fn return_instance(&self, instance: &Instance) -> (request: HttpRequest)
        ensures
            request@ == (HttpRequestView {
                method: HttpMethod::Post,
                url: self.api_url() + "/return"@,
                content_type: Some("application/json"@),
                body: Some(instance_record(instance@)),
            }),
    {
        HttpRequest {
            method: HttpMethod::Post,
            url: self.allocator_api_url.clone().concat("/return"),
            content_type: Some("application/json".to_owned()),
            body: Some(instance.to_record()),
        }
    }

    /// Whether the lease `id` is known to have gone back.
    pub fn was_returned(&self, id: &String) -> (known: bool)
        ensures
            known == self.has_returned(id@),
    {
        let mut i: usize = 0;
        while i < self.returned.len()
            invariant
                i <= self.returned.len(),
                forall|j: int| 0 <= j < i ==> self.returned@[j]@ != id@,
            decreases self.returned.len() - i,
        {
            if self.returned[i] == *id {
                return true;
            }
            i += 1;
        }
        false
    }

    /// What the reply to a return means. The first success for a lease is
    /// remembered, and a repeated return of that lease is a success
    /// whatever the allocator answers.
    pub fn return_reply(&mut self, instance: &Instance, reply: HttpReply) -> (outcome: Result<
        (),
        AllocatorError,
    >)
        ensures
            final(self).api_url() == old(self).api_url(),
            outcome is Ok <==> old(self).has_returned(instance@.id) || reply_succeeded(reply),
            outcome matches Err(e) ==> reply_failure(reply, e),
            forall|id: Seq<char>|
                final(self).has_returned(id) <==> old(self).has_returned(id) || (id
                    == instance@.id && reply_succeeded(reply)),
    {
        if self.was_returned(&instance.id) {
            return Ok(());
        }
        match success_body(reply) {
            Ok(_) => {
                let ghost before = self.returned@;
                self.returned.push(instance.id.clone());
                proof {
                    assert(self.returned@[before.len() as int]@ == instance@.id);
                    assert forall|id: Seq<char>| holds_id(self.returned@, id) implies holds_id(
                        before,
                        id,
                    ) || id == instance@.id by {
                        let i = choose|i: int| 0 <= i < self.returned@.len() && self.returned@[i]@ == id;
                        if i < before.len() {
                            assert(before[i]@ == id);
                        }
                    }
                    assert forall|id: Seq<char>| holds_id(before, id) implies holds_id(
                        self.returned@,
                        id,
                    ) by {
                        let i = choose|i: int| 0 <= i < before.len() && before[i]@ == id;
                        assert(self.returned@[i]@ == id);
                    }
                }
                Ok(())
            },
            Err(e) => Err(e),
        }
    }
}

/// Holds a lease until it is handed out for return, which happens once.
#[derive(Debug, PartialEq, Eq)]
pub struct InstanceGuard {
    instance: Option<Instance>,
}

/// How many leases `attempts` releases in a row hand out, from a guard that
/// holds `held`.
pub open spec fn handed_out(held: Option<InstanceView>, attempts: nat) -> nat
    decreases attempts,
{
    if attempts == 0 {
        0
    } else {
        (if held is Some {
            1nat
        } else {
            0nat
        }) + handed_out(None, (attempts - 1) as nat)
    }
}

impl InstanceGuard {
    /// The lease that the guard holds, if it still holds one.
    pub closed spec fn held(&self) -> Option<InstanceView> {
        match self.instance {
            Some(instance) => Some(instance@),
            None => None,
        }
    }

    /// A guard that holds `instance`.
    pub fn new(instance: Instance) -> (guard: InstanceGuard)
        ensures
            guard.held() == Some(instance@),
    {
        InstanceGuard { instance: Some(instance) }
    }

    /// A guard that holds nothing.
    pub fn vacant() -> (guard: InstanceGuard)
        ensures
            guard.held() is None,
    {
        InstanceGuard { instance: None }
    }

    /// Whether the guard still holds its lease.
    pub fn is_held(&self) -> (held: bool)
        ensures
            held == self.held() is Some,
    {
        self.instance.is_some()
    }

    /// The lease that the guard holds.
    pub fn instance(&self) -> (instance: &Instance)
        requires
            self.held() is Some,
        ensures
            Some(instance@) == self.held(),
    {
        self.instance.as_ref().unwrap()
    }

    /// Hands the lease out for return, if the guard still holds it. The
    /// guard holds nothing afterwards, so that a second release, such as
    /// the one when the guard is dropped, hands out nothing.
    pub fn release(&mut self) -> (instance: Option<Instance>)
        ensures
            final(self).held() is None,
            match instance {
                Some(i) => old(self).held() == Some(i@),
                None => old(self).held() is None,
            },
    {
        self.instance.take()
    }

    /// Ends the guard and hands the lease out for return, if the guard
    /// still holds it.
    pub fn return_instance(self) -> (instance: Option<Instance>)
        ensures
            match instance {
                Some(i) => self.held() == Some(i@),
                None => self.held() is None,
            },
    {
        let mut guard = self;
        guard.release()
    }
}

/// However often a guard is released, a lease that it holds is handed out
/// for return exactly once, and a guard that holds none hands out none.
pub proof fn lemma_returned_exactly_once(held: Option<InstanceView>, attempts: nat)
    ensures
        held is Some && attempts >= 1 ==> handed_out(held, attempts) == 1,
        held is None ==> handed_out(held, attempts) == 0,
    decreases attempts,
{
    if attempts > 0 {
        lemma_returned_exactly_once(None, (attempts - 1) as nat);
    }
}

} // verus!
