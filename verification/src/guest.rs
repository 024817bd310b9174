//! The guest's side of the boundary: the two functions that the guest
//! offers, what they check of their parameters, and the host calls that
//! they make in turn.

use vstd::prelude::*;
use crate::mediator::HostFunction;

verus! {

/// A parameter of a guest function, as far as the guest reads it: a
/// string, or a value of another type.
#[derive(Debug, PartialEq, Eq)]
pub enum ParameterValue {
    String(String),
    Other,
}

/// Why a guest function failed.
#[derive(Debug, PartialEq, Eq)]
pub enum GuestError {
    /// A parameter is missing or is no string.
    ParameterTypeMismatch(String),
    /// A host call was refused or failed.
    HostCall(String),
}

/// A function that the guest offers to the host: its name and the names
/// of its parameters, all of them strings, as is what it returns.
#[derive(Debug, PartialEq, Eq)]
pub struct GuestFunction {
    pub name: String,
    pub first_parameter: String,
    pub second_parameter: String,
}

/// A call that the guest makes to the host.
#[derive(Debug, PartialEq, Eq)]
pub enum HostCall {
    InitializeMCPConnection { url: String },
    GetMCPTools,
    ExecuteMCPTool { tool_name: String, arguments_json: String },
}

impl HostCall {
    /// The host call that is made.
    pub fn function(&self) -> (function: HostFunction)
        ensures
            function == match self {
                HostCall::InitializeMCPConnection { .. } => HostFunction::InitializeMCPConnection,
                HostCall::GetMCPTools => HostFunction::GetMCPTools,
                HostCall::ExecuteMCPTool { .. } => HostFunction::ExecuteMCPTool,
            },
    {
        match self {
            HostCall::InitializeMCPConnection { .. } => HostFunction::InitializeMCPConnection,
            HostCall::GetMCPTools => HostFunction::GetMCPTools,
            HostCall::ExecuteMCPTool { .. } => HostFunction::ExecuteMCPTool,
        }
    }
}

/// What the guest does next.
#[derive(Debug, PartialEq, Eq)]
pub enum GuestStep {
    /// Make this host call and hand in what it gave.
    Call(HostCall),
    /// Return this text to the host.
    Return(String),
    /// Fail with this error.
    Fail(GuestError),
}

/// The text of a parameter that is a string.
pub open spec fn parameter_text(params: Seq<ParameterValue>, index: int) -> Option<Seq<char>> {
    if 0 <= index < params.len() {
        match params[index] {
            ParameterValue::String(text) => Some(text@),
            ParameterValue::Other => None,
        }
    } else {
        None
    }
}

/// The two string parameters of a guest function, or the text of the
/// error for the first that is missing or is no string. `first` and
/// `second` name them in that text.
pub open spec fn parameters_spec(
    params: Option<Seq<ParameterValue>>,
    first: Seq<char>,
    second: Seq<char>,
) -> Result<(Seq<char>, Seq<char>), Seq<char>> {
    match params {
        None => Err("Missing parameters"@),
        Some(values) => match (parameter_text(values, 0), parameter_text(values, 1)) {
            (Some(a), Some(b)) => Ok((a, b)),
            (None, _) => Err("First parameter must be string ("@ + first + ")"@),
            (Some(_), None) => Err("Second parameter must be string ("@ + second + ")"@),
        },
    }
}

/// The parameters that a guest function was called with, by view.
pub open spec fn parameters_view(params: Option<&Vec<ParameterValue>>) -> Option<
    Seq<ParameterValue>,
> {
    match params {
        Some(values) => Some(values@),
        None => None,
    }
}

/// The answer of the agent to `prompt`, given the tools that the endpoint
/// lists.
pub open spec fn agent_response_spec(prompt: Seq<char>, tools_json: Seq<char>) -> Seq<char> {
    "Agent processed prompt: '"@ + prompt + "'\nAvailable tools: "@ + tools_json
        + "\n\nAgent is running securely in Hyperlight guest!"@
}

/// The two functions that the guest registers: `ExecuteAgent` with a
/// prompt and the endpoint's URL, and `CallMCPTool` with a tool's name and
/// its arguments.
pub fn guest_functions() -> (functions: Vec<GuestFunction>)
    ensures
        functions@.len() == 2,
        functions@[0].name@ == "ExecuteAgent"@,
        functions@[0].first_parameter@ == "prompt"@,
        functions@[0].second_parameter@ == "mcp_server_url"@,
        functions@[1].name@ == "CallMCPTool"@,
        functions@[1].first_parameter@ == "tool_name"@,
        functions@[1].second_parameter@ == "arguments"@,
{
    let mut functions = Vec::new();
    functions.push(
        GuestFunction {
            name: "ExecuteAgent".to_owned(),
            first_parameter: "prompt".to_owned(),
            second_parameter: "mcp_server_url".to_owned(),
        },
    );
    functions.push(
        GuestFunction {
            name: "CallMCPTool".to_owned(),
            first_parameter: "tool_name".to_owned(),
            second_parameter: "arguments".to_owned(),
        },
    );
    functions
}

/// Reads the two string parameters of a guest function. `first` and
/// `second` name them in the error's text.
pub fn string_parameters(
    params: Option<&Vec<ParameterValue>>,
    first: &str,
    second: &str,
) -> (texts: Result<(String, String), GuestError>)
    ensures
        match parameters_spec(parameters_view(params), first@, second@) {
            Ok(pair) => texts matches Ok(got) && got.0@ == pair.0 && got.1@ == pair.1,
            Err(message) => texts matches Err(GuestError::ParameterTypeMismatch(m)) && m@
                == message,
        },
{
    let values = match params {
        Some(values) => values,
        None => {
            return Err(GuestError::ParameterTypeMismatch("Missing parameters".to_owned()));
        },
    };
    let first_text = if values.len() > 0 {
        match &values[0] {
            ParameterValue::String(text) => Some(text.clone()),
            ParameterValue::Other => None,
        }
    } else {
        None
    };
    let first_text = match first_text {
        Some(text) => text,
        None => {
            let mut message = "First parameter must be string (".to_owned();
            message.append(first);
            message.append(")");
            return Err(GuestError::ParameterTypeMismatch(message));
        },
    };
    let second_text = if values.len() > 1 {
        match &values[1] {
            ParameterValue::String(text) => Some(text.clone()),
            ParameterValue::Other => None,
        }
    } else {
        None
    };
    match second_text {
        Some(text) => Ok((first_text, text)),
        None => {
            let mut message = "Second parameter must be string (".to_owned();
            message.append(second);
            message.append(")");
            Err(GuestError::ParameterTypeMismatch(message))
        },
    }
}

/// The answer of the agent to `prompt`, given the tools that the endpoint
/// lists.
pub fn process_agent_request(prompt: &str, tools_json: &str) -> (response: String)
    ensures
        response@ == agent_response_spec(prompt@, tools_json@),
{
    let mut response = "Agent processed prompt: '".to_owned();
    response.append(prompt);
    response.append("'\nAvailable tools: ");
    response.append(tools_json);
    response.append("\n\nAgent is running securely in Hyperlight guest!");
    response
}

/// How far one call of `ExecuteAgent` has got.
#[derive(Debug, Clone, Copy, PartialEq, Eq, Structural)]
pub enum AgentStage {
    /// Waiting for the host to accept the endpoint.
    Connecting,
    /// Waiting for the list of tools.
    ListingTools,
    /// Over.
    Finished,
}

/// One call of `ExecuteAgent`.
#[derive(Debug)]
pub struct AgentCall {
    prompt: String,
    mcp_server_url: String,
    stage: AgentStage,
}

impl AgentCall {
    /// The prompt of the call.
    pub closed spec fn prompt(&self) -> Seq<char> {
        self.prompt@
    }

    /// The endpoint's URL that the call was given.
    pub closed spec fn mcp_server_url(&self) -> Seq<char> {
        self.mcp_server_url@
    }

    /// How far the call has got.
    pub closed spec fn stage(&self) -> AgentStage {
        self.stage
    }

    /// Takes in what the host call that the guest waits for gave, and
    /// says what the guest does next: after the connection the tools
    /// are listed, and after the tools the answer is returned. A host call
    /// that fails ends the call with its error.
    pub fn advance(&mut self, reply: Result<String, String>) -> (step: GuestStep)
        ensures
            final(self).prompt() == old(self).prompt(),
            final(self).mcp_server_url() == old(self).mcp_server_url(),
            match (old(self).stage(), reply) {
                (AgentStage::Connecting, Ok(_)) => final(self).stage() == AgentStage::ListingTools
                    && step matches GuestStep::Call(HostCall::GetMCPTools),
                (AgentStage::ListingTools, Ok(tools)) => step matches GuestStep::Return(text)
                    && text@ == agent_response_spec(old(self).prompt(), tools@)
                    && final(self).stage() == AgentStage::Finished,
                (AgentStage::Finished, _) => step matches GuestStep::Fail(GuestError::HostCall(m))
                    && m@ == "No host call is pending"@ && final(self).stage()
                    == AgentStage::Finished,
                (_, Err(reason)) => step matches GuestStep::Fail(GuestError::HostCall(m)) && m@
                    == reason@ && final(self).stage() == AgentStage::Finished,
            },
    {
        match self.stage {
            AgentStage::Finished => GuestStep::Fail(
                GuestError::HostCall("No host call is pending".to_owned()),
            ),
            AgentStage::Connecting => match reply {
                Ok(_) => {
                    self.stage = AgentStage::ListingTools;
                    GuestStep::Call(HostCall::GetMCPTools)
                },
                Err(reason) => {
                    self.stage = AgentStage::Finished;
                    GuestStep::Fail(GuestError::HostCall(reason))
                },
            },
            AgentStage::ListingTools => {
                self.stage = AgentStage::Finished;
                match reply {
                    Ok(tools) => GuestStep::Return(
                        process_agent_request(self.prompt.as_str(), tools.as_str()),
                    ),
                    Err(reason) => GuestStep::Fail(GuestError::HostCall(reason)),
                }
            },
        }
    }
}

/// The guest function `ExecuteAgent`: checks its parameters and begins
/// with the host call that names the endpoint to the host.
pub fn execute_agent(params: Option<&Vec<ParameterValue>>) -> (begun: Result<
    (AgentCall, HostCall),
    GuestError,
>)
    ensures
        match parameters_spec(parameters_view(params), "prompt"@, "mcp_server_url"@) {
            Ok(pair) => begun matches Ok((call, first)) && call.prompt() == pair.0
                && call.mcp_server_url() == pair.1 && call.stage() == AgentStage::Connecting && (
            first matches HostCall::InitializeMCPConnection { url } && url@ == pair.1),
            Err(message) => begun matches Err(GuestError::ParameterTypeMismatch(m)) && m@
                == message,
        },
{
    let (prompt, mcp_server_url) = string_parameters(params, "prompt", "mcp_server_url")?;
    let first = HostCall::InitializeMCPConnection { url: mcp_server_url.clone() };
    Ok((AgentCall { prompt, mcp_server_url, stage: AgentStage::Connecting }, first))
}

/// The guest function `CallMCPTool`: checks its parameters and hands the
/// call on to the host, whose answer it returns as it is.
pub fn call_mcp_tool(params: Option<&Vec<ParameterValue>>) -> (call: Result<HostCall, GuestError>)
    ensures
        match parameters_spec(parameters_view(params), "tool_name"@, "arguments"@) {
            Ok(pair) => call matches Ok(HostCall::ExecuteMCPTool { tool_name, arguments_json })
                && tool_name@ == pair.0 && arguments_json@ == pair.1,
            Err(message) => call matches Err(GuestError::ParameterTypeMismatch(m)) && m@
                == message,
        },
{
    let (tool_name, arguments_json) = string_parameters(params, "tool_name", "arguments")?;
    Ok(HostCall::ExecuteMCPTool { tool_name, arguments_json })
}

} // verus!
