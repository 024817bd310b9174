//! The host side of the calls that the guest may make: each call is checked
//! against the one endpoint that the sandbox was set up for, and every
//! request that goes out is bound for that endpoint.

use vstd::prelude::*;
use crate::agent::with_reason;
use crate::endpoint::{url_join, url_parse, Endpoint, EndpointView};
use crate::http::{is_success, is_success_spec, HttpMethod, HttpReply, HttpRequest, HttpRequestView};

verus! {

/// Why a host call was refused or failed.
#[derive(Debug, PartialEq, Eq)]
pub enum MediatorError {
    /// The guest named something that is no absolute URL.
    InvalidUrl(String),
    /// The guest named a server other than the allowed one.
    Unauthorized,
    /// The guest asked for a connection and no endpoint is allowed.
    NetworkNotAllowed,
    /// The guest asked for a request and no endpoint is allowed.
    NotConfigured,
    /// The request's URL could not be formed.
    UrlJoin(String),
    /// The request could not be sent.
    RequestFailed(String),
    /// The response's body could not be read.
    ResponseUnreadable(String),
    /// The endpoint answered with a status outside 200 to 299.
    Status(u16),
}

/// The text of each error, as the guest gets it.
pub open spec fn message_spec(error: MediatorError) -> Seq<char> {
    match error {
        MediatorError::InvalidUrl(reason) => "Invalid URL: "@ + reason@,
        MediatorError::Unauthorized => "Unauthorized network access"@,
        MediatorError::NetworkNotAllowed => "Network access not allowed"@,
        MediatorError::NotConfigured => "MCP server not configured"@,
        MediatorError::UrlJoin(reason) => "URL join error: "@ + reason@,
        MediatorError::RequestFailed(reason) => "HTTP request failed: "@ + reason@,
        MediatorError::ResponseUnreadable(reason) => "Failed to read response: "@ + reason@,
        MediatorError::Status(_) => "MCP server returned an error status"@,
    }
}

impl MediatorError {
    /// The text of the error, as the guest gets it.
    pub fn message(&self) -> (text: String)
        ensures
            text@ == message_spec(*self),
    {
        match self {
            MediatorError::InvalidUrl(reason) => with_reason("Invalid URL: ", reason),
            MediatorError::Unauthorized => "Unauthorized network access".to_owned(),
            MediatorError::NetworkNotAllowed => "Network access not allowed".to_owned(),
            MediatorError::NotConfigured => "MCP server not configured".to_owned(),
            MediatorError::UrlJoin(reason) => with_reason("URL join error: ", reason),
            MediatorError::RequestFailed(reason) => with_reason("HTTP request failed: ", reason),
            MediatorError::ResponseUnreadable(reason) => with_reason(
                "Failed to read response: ",
                reason,
            ),
            MediatorError::Status(_) => "MCP server returned an error status".to_owned(),
        }
    }

    /// Whether the error is a denial by policy: the guest reached for
    /// something other than the allowed endpoint.
    pub fn is_policy_denial(&self) -> (denied: bool)
        ensures
            denied == (*self is Unauthorized || *self is NetworkNotAllowed),
    {
        match self {
            MediatorError::Unauthorized => true,
            MediatorError::NetworkNotAllowed => true,
            _ => false,
        }
    }
}

/// The host calls that are offered to the guest: these three and no
/// other.
#[derive(Debug, Clone, Copy, PartialEq, Eq, Structural)]
pub enum HostFunction {
    /// Takes a URL and returns nothing.
    InitializeMCPConnection,
    /// Takes nothing and returns a string.
    GetMCPTools,
    /// Takes a tool's name and its arguments and returns a string.
    ExecuteMCPTool,
}

impl HostFunction {
    /// The name under which the host call is registered.
    pub open spec fn name_spec(self) -> Seq<char> {
        match self {
            HostFunction::InitializeMCPConnection => "InitializeMCPConnection"@,
            HostFunction::GetMCPTools => "GetMCPTools"@,
            HostFunction::ExecuteMCPTool => "ExecuteMCPTool"@,
        }
    }

    /// The name under which the host call is registered.
    pub fn name(self) -> (name: &'static str)
        ensures
            name@ == self.name_spec(),
    {
        match self {
            HostFunction::InitializeMCPConnection => "InitializeMCPConnection",
            HostFunction::GetMCPTools => "GetMCPTools",
            HostFunction::ExecuteMCPTool => "ExecuteMCPTool",
        }
    }

    /// The host calls to register, all of them.
    pub fn all() -> (functions: Vec<HostFunction>)
        ensures
            functions@ == seq![
                HostFunction::InitializeMCPConnection,
                HostFunction::GetMCPTools,
                HostFunction::ExecuteMCPTool,
            ],
    {
        let mut functions = Vec::new();
        functions.push(HostFunction::InitializeMCPConnection);
        functions.push(HostFunction::GetMCPTools);
        functions.push(HostFunction::ExecuteMCPTool);
        assert(functions@ =~= seq![
            HostFunction::InitializeMCPConnection,
            HostFunction::GetMCPTools,
            HostFunction::ExecuteMCPTool,
        ]);
        functions
    }
}

/// What the policy says of a connection to `requested` where `allowed` is
/// the endpoint that the sandbox was set up for.
pub open spec fn authorize_spec(allowed: Option<EndpointView>, requested: EndpointView) -> Result<
    (),
    MediatorError,
> {
    match allowed {
        None => Err(MediatorError::NetworkNotAllowed),
        Some(endpoint) => if endpoint.same_origin(requested) {
            Ok(())
        } else {
            Err(MediatorError::Unauthorized)
        },
    }
}

/// The view of an optional endpoint.
pub open spec fn optional_endpoint(endpoint: Option<Endpoint>) -> Option<EndpointView> {
    match endpoint {
        Some(e) => Some(e@),
        None => None,
    }
}

/// The request for `target`, which was formed against `allowed`: a request
/// leaves only for the allowed server.
pub open spec fn request_spec(
    allowed: EndpointView,
    target: Result<EndpointView, Seq<char>>,
    method: HttpMethod,
    body: Option<Seq<char>>,
) -> Option<HttpRequestView> {
    match target {
        Ok(url) => if allowed.same_origin(url) {
            Some(
                HttpRequestView {
                    method,
                    url: url.text,
                    content_type: match body {
                        Some(_) => Some("application/json"@),
                        None => None,
                    },
                    body,
                },
            )
        } else {
            None
        },
        Err(_) => None,
    }
}

/// Whether `request` is what the mediator makes of `target`, which was
/// formed against `allowed`: the request for a target on the allowed
/// server, a denial for a target on another, and the error of a target
/// that could not be formed.
pub open spec fn is_request_for(
    request: Result<HttpRequest, MediatorError>,
    allowed: EndpointView,
    target: Result<EndpointView, Seq<char>>,
    method: HttpMethod,
    body: Option<Seq<char>>,
) -> bool {
    match target {
        Ok(url) => if allowed.same_origin(url) {
            request matches Ok(r) && Some(r@) == request_spec(allowed, target, method, body)
        } else {
            request matches Err(MediatorError::Unauthorized)
        },
        Err(reason) => request matches Err(MediatorError::UrlJoin(e)) && e@ == reason,
    }
}

/// The one endpoint that a sandbox may reach, fixed when the mediator is
/// made, and the three host calls that go by it.
#[derive(Debug)]
pub struct HostCallMediator {
    allowed: Option<Endpoint>,
}

impl Clone for HostCallMediator {
    fn clone(&self) -> (copy: HostCallMediator)
        ensures
            copy.allowed() == self.allowed(),
    {
        HostCallMediator {
            allowed: match &self.allowed {
                Some(endpoint) => Some(endpoint.clone()),
                None => None,
            },
        }
    }
}

impl HostCallMediator {
    /// The endpoint that this mediator allows.
    pub closed spec fn allowed(&self) -> Option<EndpointView> {
        optional_endpoint(self.allowed)
    }

    /// A mediator for the endpoint at `mcp_connection_url`, or one that
    /// allows nothing where there is none. Fails with the parse error's
    /// text where the URL is not absolute.
    pub fn new(mcp_connection_url: Option<&str>) -> (mediator: Result<HostCallMediator, String>)
        ensures
            match mcp_connection_url {
                None => mediator matches Ok(m) && m.allowed() is None,
                Some(url) => match url_parse(url@) {
                    Ok(endpoint) => mediator matches Ok(m) && m.allowed() == Some(endpoint),
                    Err(reason) => mediator matches Err(e) && e@ == reason,
                },
            },
    {
        match mcp_connection_url {
            None => Ok(HostCallMediator { allowed: None }),
            Some(url) => match Endpoint::parse(url) {
                Ok(endpoint) => Ok(HostCallMediator { allowed: Some(endpoint) }),
                Err(reason) => Err(reason),
            },
        }
    }

    /// A mediator for an endpoint that is already parsed.
    pub fn for_endpoint(allowed: Option<Endpoint>) -> (mediator: HostCallMediator)
        ensures
            mediator.allowed() == optional_endpoint(allowed),
    {
        HostCallMediator { allowed }
    }

    /// The allowed endpoint.
    pub fn endpoint(&self) -> (endpoint: Option<&Endpoint>)
        ensures
            match endpoint {
                Some(e) => self.allowed() == Some(e@),
                None => self.allowed() is None,
            },
    {
        self.allowed.as_ref()
    }

    /// Applies the policy to a connection to `requested`: it is accepted
    /// if and only if an endpoint is allowed and `requested` has its
    /// scheme, host and port.
    pub fn authorize(&self, requested: &Endpoint) -> (verdict: Result<(), MediatorError>)
        ensures
            verdict == authorize_spec(self.allowed(), requested@),
            verdict is Ok <==> (self.allowed() matches Some(endpoint) && endpoint.same_origin(
                requested@,
            )),
    {
        match &self.allowed {
            None => Err(MediatorError::NetworkNotAllowed),
            Some(endpoint) => if endpoint.same_origin(requested) {
                Ok(())
            } else {
                Err(MediatorError::Unauthorized)
            },
        }
    }

    /// The host call `InitializeMCPConnection`: checks the URL that the
    /// guest names and connects to nothing.
    pub fn initialize_connection(&self, url: &str) -> (verdict: Result<(), MediatorError>)
        ensures
            match url_parse(url@) {
                Ok(requested) => verdict == authorize_spec(self.allowed(), requested),
                Err(reason) => verdict matches Err(MediatorError::InvalidUrl(e)) && e@ == reason,
            },
    {
        match Endpoint::parse(url) {
            Ok(requested) => self.authorize(&requested),
            Err(reason) => Err(MediatorError::InvalidUrl(reason)),
        }
    }

    /// Makes the request for `target`, which was formed against `allowed`,
    /// and refuses a target on another server.
    pub fn request_for(
        allowed: &Endpoint,
        target: Result<Endpoint, String>,
        method: HttpMethod,
        body: Option<String>,
    ) -> (request: Result<HttpRequest, MediatorError>)
        ensures
            is_request_for(
                request,
                allowed@,
                match target {
                    Ok(url) => Ok(url@),
                    Err(reason) => Err(reason@),
                },
                method,
                crate::http::optional_text(body),
            ),
    {
        match target {
            Ok(url) => if allowed.same_origin(&url) {
                let content_type = match &body {
                    Some(_) => Some("application/json".to_owned()),
                    None => None,
                };
                Ok(HttpRequest { method, url: url.text, content_type, body })
            } else {
                Err(MediatorError::Unauthorized)
            },
            Err(reason) => Err(MediatorError::UrlJoin(reason)),
        }
    }

    /// The host call `GetMCPTools`: the request that lists the tools of
    /// the allowed endpoint, `GET <endpoint>/tools`.
    pub fn get_tools(&self) -> (request: Result<HttpRequest, MediatorError>)
        ensures
            self.allowed() is None ==> request matches Err(MediatorError::NotConfigured),
            self.allowed() matches Some(endpoint) ==> is_request_for(
                request,
                endpoint,
                url_join(endpoint.text, "/tools"@),
                HttpMethod::Get,
                None,
            ),
    {
        match &self.allowed {
            None => Err(MediatorError::NotConfigured),
            Some(endpoint) => {
                let target = endpoint.join("/tools");
                HostCallMediator::request_for(endpoint, target, HttpMethod::Get, None)
            },
        }
    }

    /// The host call `ExecuteMCPTool`: the request that runs one tool of
    /// the allowed endpoint, `POST <endpoint>/tools/<tool_name>` with the
    /// arguments as its JSON body.
    pub fn execute_tool(&self, tool_name: &str, arguments_json: &str) -> (request: Result<
        HttpRequest,
        MediatorError,
    >)
        ensures
            self.allowed() is None ==> request matches Err(MediatorError::NotConfigured),
            self.allowed() matches Some(endpoint) ==> is_request_for(
                request,
                endpoint,
                url_join(endpoint.text, "/tools/"@ + tool_name@),
                HttpMethod::Post,
                Some(arguments_json@),
            ),
    {
        match &self.allowed {
            None => Err(MediatorError::NotConfigured),
            Some(endpoint) => {
                let path = "/tools/".to_owned().concat(tool_name);
                let target = endpoint.join(path.as_str());
                HostCallMediator::request_for(
                    endpoint,
                    target,
                    HttpMethod::Post,
                    Some(arguments_json.to_owned()),
                )
            },
        }
    }

    /// What the reply to the request of `GetMCPTools` gives the guest: the
    /// body of a response with a success status.
    pub fn get_tools_reply(reply: HttpReply) -> (text: Result<String, MediatorError>)
        ensures
            match reply {
                HttpReply::SendFailed(reason) => text matches Err(MediatorError::RequestFailed(e))
                    && e@ == reason@,
                HttpReply::Response { status, body } => if !is_success_spec(status) {
                    text matches Err(MediatorError::Status(s)) && s == status
                } else {
                    match body {
                        Ok(b) => text matches Ok(t) && t@ == b@,
                        Err(reason) => text matches Err(MediatorError::ResponseUnreadable(e))
                            && e@ == reason@,
                    }
                },
            },
    {
        match reply {
            HttpReply::SendFailed(reason) => Err(MediatorError::RequestFailed(reason)),
            HttpReply::Response { status, body } => if !is_success(status) {
                Err(MediatorError::Status(status))
            } else {
                match body {
                    Ok(b) => Ok(b),
                    Err(reason) => Err(MediatorError::ResponseUnreadable(reason)),
                }
            },
        }
    }

    /// What the reply to the request of `ExecuteMCPTool` gives the guest:
    /// the body of the response, whatever its status.
    pub fn execute_tool_reply(reply: HttpReply) -> (text: Result<String, MediatorError>)
        ensures
            match reply {
                HttpReply::SendFailed(reason) => text matches Err(MediatorError::RequestFailed(e))
                    && e@ == reason@,
                HttpReply::Response { status, body } => match body {
                    Ok(b) => text matches Ok(t) && t@ == b@,
                    Err(reason) => text matches Err(MediatorError::ResponseUnreadable(e)) && e@
                        == reason@,
                },
            },
    {
        match reply {
            HttpReply::SendFailed(reason) => Err(MediatorError::RequestFailed(reason)),
            HttpReply::Response { status: _, body } => match body {
                Ok(b) => Ok(b),
                Err(reason) => Err(MediatorError::ResponseUnreadable(reason)),
            },
        }
    }
}

/// Two URLs are accepted alike where they differ only in how they are
/// written: the verdict goes by scheme, host and port and by nothing else.
pub proof fn lemma_verdict_goes_by_origin(
    allowed: Option<EndpointView>,
    first: EndpointView,
    second: EndpointView,
)
    requires
        first.same_origin(second),
    ensures
        authorize_spec(allowed, first) == authorize_spec(allowed, second),
{
}

/// A URL is accepted if and only if an endpoint is allowed and the URL
/// has its scheme, host and port; every other URL is denied by policy.
pub proof fn lemma_accepts_exactly_the_allowed(allowed: Option<EndpointView>, requested: EndpointView)
    ensures
        authorize_spec(allowed, requested) is Ok <==> (allowed matches Some(endpoint)
            && endpoint.scheme == requested.scheme && endpoint.host == requested.host
            && endpoint.port == requested.port),
        authorize_spec(allowed, requested) matches Err(e) ==> e is Unauthorized
            || e is NetworkNotAllowed,
{
}

/// Every request that the mediator makes is bound for the allowed server.
pub proof fn lemma_requests_stay_with_the_allowed(
    allowed: EndpointView,
    target: Result<EndpointView, Seq<char>>,
    method: HttpMethod,
    body: Option<Seq<char>>,
)
    ensures
        request_spec(allowed, target, method, body) matches Some(request) ==> (target matches Ok(
            url,
        ) && request.url == url.text && allowed.same_origin(url)),
{
}

} // verus!
