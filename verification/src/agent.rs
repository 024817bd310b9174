//! Running the agent: the life of a sandbox and the steps of one execution.

use vstd::prelude::*;
use crate::endpoint::url_parse;
use crate::mediator::HostCallMediator;

verus! {

/// Where the agent works.
#[derive(Debug, PartialEq, Eq)]
pub struct AgentConfig {
    pub working_directory: String,
}

impl Clone for AgentConfig {
    fn clone(&self) -> (copy: AgentConfig)
        ensures
            copy.working_directory@ == self.working_directory@,
    {
        AgentConfig { working_directory: self.working_directory.clone() }
    }
}

/// What an execution of the agent gave.
#[derive(Debug, PartialEq, Eq)]
pub struct AgentResult {
    pub success: bool,
    pub exit_code: i32,
    pub stdout: String,
    pub stderr: String,
}

impl AgentResult {
    /// Whether the agent ran to its end.
    pub fn is_success(&self) -> (success: bool)
        ensures
            success == self.success,
    {
        self.success
    }
}

/// The life of a sandbox. It only moves forward, and a fault ends it.
#[derive(Debug, Clone, Copy, PartialEq, Eq, Structural)]
pub enum SandboxState {
    /// Made from the guest image; no host call is registered yet.
    Uninitialized,
    /// The three host calls are registered.
    Registered,
    /// The guest is initialised and can be invoked.
    Ready,
    /// An error or a fault ended the sandbox. It is discarded.
    Terminated,
}

/// What can be done to a sandbox.
#[derive(Debug, Clone, Copy, PartialEq, Eq, Structural)]
pub enum SandboxStep {
    RegisterCallbacks,
    Evolve,
    Invoke,
}

/// The state of a sandbox after `step` was tried in `state` and succeeded
/// or not, or `None` where the step cannot be tried in that state.
pub open spec fn transition_spec(state: SandboxState, step: SandboxStep, succeeded: bool) -> Option<
    SandboxState,
> {
    match (state, step) {
        (SandboxState::Uninitialized, SandboxStep::RegisterCallbacks) => Some(
            if succeeded {
                SandboxState::Registered
            } else {
                SandboxState::Terminated
            },
        ),
        (SandboxState::Registered, SandboxStep::Evolve) => Some(
            if succeeded {
                SandboxState::Ready
            } else {
                SandboxState::Terminated
            },
        ),
        (SandboxState::Ready, SandboxStep::Invoke) => Some(
            if succeeded {
                SandboxState::Ready
            } else {
                SandboxState::Terminated
            },
        ),
        _ => None,
    }
}

impl SandboxState {
    /// How far along its life a sandbox is.
    pub open spec fn rank(self) -> nat {
        match self {
            SandboxState::Uninitialized => 0,
            SandboxState::Registered => 1,
            SandboxState::Ready => 2,
            SandboxState::Terminated => 3,
        }
    }

    /// The step that a sandbox in this state is waiting for, if any.
    pub fn next_step(self) -> (step: Option<SandboxStep>)
        ensures
            step == match self {
                SandboxState::Uninitialized => Some(SandboxStep::RegisterCallbacks),
                SandboxState::Registered => Some(SandboxStep::Evolve),
                SandboxState::Ready => Some(SandboxStep::Invoke),
                SandboxState::Terminated => None,
            },
            step is Some ==> transition_spec(self, step->0, true) is Some && transition_spec(
                self,
                step->0,
                false,
            ) is Some,
    {
        match self {
            SandboxState::Uninitialized => Some(SandboxStep::RegisterCallbacks),
            SandboxState::Registered => Some(SandboxStep::Evolve),
            SandboxState::Ready => Some(SandboxStep::Invoke),
            SandboxState::Terminated => None,
        }
    }

    /// The state after `step` was tried and succeeded or not.
    pub fn transition(self, step: SandboxStep, succeeded: bool) -> (next: Option<SandboxState>)
        ensures
            next == transition_spec(self, step, succeeded),
    {
        let after = if succeeded {
            match step {
                SandboxStep::RegisterCallbacks => SandboxState::Registered,
                _ => SandboxState::Ready,
            }
        } else {
            SandboxState::Terminated
        };
        match (self, step) {
            (SandboxState::Uninitialized, SandboxStep::RegisterCallbacks) => Some(after),
            (SandboxState::Registered, SandboxStep::Evolve) => Some(after),
            (SandboxState::Ready, SandboxStep::Invoke) => Some(after),
            _ => None,
        }
    }
}

/// A sandbox never returns to a state it has left: each transition keeps
/// it where it is or moves it forward, nothing can be done to a terminated
/// sandbox, and a failed step terminates it.
pub proof fn lemma_sandbox_moves_forward(state: SandboxState, step: SandboxStep, succeeded: bool)
    ensures
        transition_spec(state, step, succeeded) matches Some(next) ==> next.rank() >= state.rank(),
        state is Terminated ==> transition_spec(state, step, succeeded) is None,
        transition_spec(state, step, false) matches Some(next) ==> next is Terminated,
{
}

/// Why an execution failed.
#[derive(Debug, PartialEq, Eq)]
pub enum AgentError {
    /// The endpoint for the agent is no absolute URL.
    InvalidMcpUrl(String),
    /// The sandbox could not be made from the guest image.
    SandboxCreation(String),
    /// A host call could not be registered.
    Registration(String),
    /// The sandbox could not be initialised.
    Evolve(String),
    /// The guest faulted or its entry point returned an error.
    GuestCall(String),
    /// The sandbox was terminated before.
    Terminated,
}

/// The text of each error.
pub open spec fn agent_error_text(error: AgentError) -> Seq<char> {
    match error {
        AgentError::InvalidMcpUrl(reason) => "Invalid MCP connection URL: "@ + reason@,
        AgentError::SandboxCreation(reason) => "Failed to create Hyperlight sandbox: "@ + reason@,
        AgentError::Registration(reason) => "Failed to register host function: "@ + reason@,
        AgentError::Evolve(reason) => "Failed to evolve sandbox: "@ + reason@,
        AgentError::GuestCall(reason) => "Failed to call guest function: "@ + reason@,
        AgentError::Terminated => "Sandbox is terminated"@,
    }
}

impl AgentError {
    /// The text of the error.
    pub fn message(&self) -> (text: String)
        ensures
            text@ == agent_error_text(*self),
    {
        match self {
            AgentError::InvalidMcpUrl(reason) => with_reason(
                "Invalid MCP connection URL: ",
                reason,
            ),
            AgentError::SandboxCreation(reason) => with_reason(
                "Failed to create Hyperlight sandbox: ",
                reason,
            ),
            AgentError::Registration(reason) => with_reason(
                "Failed to register host function: ",
                reason,
            ),
            AgentError::Evolve(reason) => with_reason("Failed to evolve sandbox: ", reason),
            AgentError::GuestCall(reason) => with_reason("Failed to call guest function: ", reason),
            AgentError::Terminated => "Sandbox is terminated".to_owned(),
        }
    }
}

/// The text `what` followed by the reason.
pub fn with_reason(what: &str, reason: &String) -> (text: String)
    ensures
        text@ == what@ + reason@,
{
    what.to_owned().concat(reason.as_str())
}

/// What the caller does next for an execution.
#[derive(Debug, PartialEq, Eq)]
pub enum ExecutionAction {
    /// Make the sandbox from the guest image, which is handed over as a
    /// buffer.
    Create,
    /// Register the three host calls, each bound to the execution's
    /// mediator.
    RegisterCallbacks,
    /// Initialise the guest.
    Evolve,
    /// Call the guest's entry point `ExecuteAgent` with the prompt and the
    /// endpoint's URL.
    Invoke { function: String, prompt: String, mcp_server_url: String },
    /// The execution is over with this result.
    Finished(AgentResult),
    /// The execution is over with this error; the sandbox is discarded.
    Failed(AgentError),
}

/// One execution of the agent: a sandbox, the mediator that its host calls
/// go by, and what to call the guest with.
#[derive(Debug)]
pub struct Execution {
    mediator: HostCallMediator,
    state: SandboxState,
    prompt: String,
    mcp_server_url: String,
    created: bool,
    invoked: bool,
}

/// Sets up and follows executions of the agent.
#[derive(Debug)]
pub struct AgentExecutor {
    config: AgentConfig,
}

impl AgentExecutor {
    /// An executor that works in the directory of `config`.
    pub fn new(config: AgentConfig) -> (executor: AgentExecutor)
        ensures
            executor.working_directory() == config.working_directory@,
    {
        AgentExecutor { config }
    }

    /// The directory that the executor was configured with.
    pub closed spec fn working_directory(&self) -> Seq<char> {
        self.config.working_directory@
    }

    /// The executor's configuration.
    pub fn config(&self) -> (config: &AgentConfig)
        ensures
            config.working_directory@ == self.working_directory(),
    {
        &self.config
    }

    /// Begins an execution. Its sandbox, once made, may reach the endpoint
    /// at `mcp_connection_url` and nothing else; without one it may reach
    /// nothing.
    pub fn execute(&self, prompt: &str, mcp_connection_url: Option<&str>) -> (execution: Result<
        Execution,
        AgentError,
    >)
        ensures
            match mcp_connection_url {
                None => execution matches Ok(e) && e.allowed() is None && e.state()
                    == SandboxState::Uninitialized && e.prompt() == prompt@ && e.mcp_server_url()
                    == Seq::<char>::empty() && !e.created() && !e.invoked(),
                Some(url) => match url_parse(url@) {
                    Ok(endpoint) => execution matches Ok(e) && e.allowed() == Some(endpoint)
                        && e.state() == SandboxState::Uninitialized && e.prompt() == prompt@
                        && e.mcp_server_url() == url@ && !e.created() && !e.invoked(),
                    Err(reason) => execution matches Err(AgentError::InvalidMcpUrl(r)) && r@
                        == reason,
                },
            },
    {
        let mediator = match HostCallMediator::new(mcp_connection_url) {
            Ok(mediator) => mediator,
            Err(reason) => {
                return Err(AgentError::InvalidMcpUrl(reason));
            },
        };
        let mcp_server_url = match mcp_connection_url {
            Some(url) => url.to_owned(),
            None => String::new(),
        };
        Ok(
            Execution {
                mediator,
                state: SandboxState::Uninitialized,
                prompt: prompt.to_owned(),
                mcp_server_url,
                created: false,
                invoked: false,
            },
        )
    }
}

impl Execution {
    /// The endpoint that the sandbox may reach.
    pub closed spec fn allowed(&self) -> Option<crate::endpoint::EndpointView> {
        self.mediator.allowed()
    }

    /// The state of the sandbox.
    pub closed spec fn state(&self) -> SandboxState {
        self.state
    }

    /// The prompt for the agent.
    pub closed spec fn prompt(&self) -> Seq<char> {
        self.prompt@
    }

    /// The URL that the guest is told: the endpoint's, or nothing.
    pub closed spec fn mcp_server_url(&self) -> Seq<char> {
        self.mcp_server_url@
    }

    /// Whether the sandbox has been made.
    pub closed spec fn created(&self) -> bool {
        self.created
    }

    /// Whether the guest's entry point has returned.
    pub closed spec fn invoked(&self) -> bool {
        self.invoked
    }

    /// The mediator that the host calls of this sandbox go by.
    pub fn mediator(&self) -> (mediator: &HostCallMediator)
        ensures
            mediator.allowed() == self.allowed(),
    {
        &self.mediator
    }

    /// The state of the sandbox.
    pub fn sandbox_state(&self) -> (state: SandboxState)
        ensures
            state == self.state(),
    {
        self.state
    }

    /// What to do first: make the sandbox.
    pub fn start(&self) -> (action: ExecutionAction)
        ensures
            action is Create,
    {
        ExecutionAction::Create
    }

    /// Takes in how the step that the execution was waiting for went, with
    /// what the guest returned or the reason of the failure, and says what
    /// to do next. A failure terminates the sandbox; the guest is invoked
    /// once.
    pub fn advance(&mut self, outcome: Result<String, String>) -> (action: ExecutionAction)
        ensures
            final(self).allowed() == old(self).allowed(),
            final(self).prompt() == old(self).prompt(),
            final(self).mcp_server_url() == old(self).mcp_server_url(),
            final(self).state().rank() >= old(self).state().rank(),
            old(self).created() ==> final(self).created(),
            match old(self).state() {
                SandboxState::Uninitialized => if !old(self).created() {
                    final(self).invoked() == old(self).invoked() && match outcome {
                        Ok(_) => final(self).created() && final(self).state()
                            == SandboxState::Uninitialized && action is RegisterCallbacks,
                        Err(reason) => action matches ExecutionAction::Failed(
                            AgentError::SandboxCreation(r),
                        ) && r@ == reason@ && final(self).state() == SandboxState::Terminated,
                    }
                } else {
                    final(self).state() == transition_spec(
                        SandboxState::Uninitialized,
                        SandboxStep::RegisterCallbacks,
                        outcome is Ok,
                    )->0 && final(self).invoked() == old(self).invoked() && match outcome {
                        Ok(_) => action is Evolve,
                        Err(reason) => action matches ExecutionAction::Failed(
                            AgentError::Registration(r),
                        ) && r@ == reason@,
                    }
                },
                SandboxState::Registered => final(self).state() == transition_spec(
                    SandboxState::Registered,
                    SandboxStep::Evolve,
                    outcome is Ok,
                )->0 && final(self).invoked() == old(self).invoked() && match outcome {
                    Ok(_) => action matches ExecutionAction::Invoke {
                        function,
                        prompt,
                        mcp_server_url,
                    } && function@ == "ExecuteAgent"@ && prompt@ == old(self).prompt()
                        && mcp_server_url@ == old(self).mcp_server_url(),
                    Err(reason) => action matches ExecutionAction::Failed(AgentError::Evolve(r))
                        && r@ == reason@,
                },
                SandboxState::Ready => if old(self).invoked() {
                    final(self).state() == SandboxState::Terminated && final(self).invoked()
                        && action matches ExecutionAction::Failed(AgentError::Terminated)
                } else {
                    final(self).state() == transition_spec(
                        SandboxState::Ready,
                        SandboxStep::Invoke,
                        outcome is Ok,
                    )->0 && final(self).invoked() && match outcome {
                        Ok(output) => action matches ExecutionAction::Finished(result)
                            && result.success && result.exit_code == 0 && result.stdout@
                            == output@ && result.stderr@ == Seq::<char>::empty(),
                        Err(reason) => action matches ExecutionAction::Failed(
                            AgentError::GuestCall(r),
                        ) && r@ == reason@,
                    }
                },
                SandboxState::Terminated => final(self).state() == SandboxState::Terminated
                    && final(self).invoked() == old(self).invoked()
                    && action matches ExecutionAction::Failed(AgentError::Terminated),
            },
    {
        match self.state {
            SandboxState::Uninitialized => if !self.created {
                match outcome {
                    Ok(_) => {
                        self.created = true;
                        ExecutionAction::RegisterCallbacks
                    },
                    Err(reason) => {
                        self.state = SandboxState::Terminated;
                        ExecutionAction::Failed(AgentError::SandboxCreation(reason))
                    },
                }
            } else {
                match outcome {
                    Ok(_) => {
                        self.state = SandboxState::Registered;
                        ExecutionAction::Evolve
                    },
                    Err(reason) => {
                        self.state = SandboxState::Terminated;
                        ExecutionAction::Failed(AgentError::Registration(reason))
                    },
                }
            },
            SandboxState::Registered => match outcome {
                Ok(_) => {
                    self.state = SandboxState::Ready;
                    ExecutionAction::Invoke {
                        function: "ExecuteAgent".to_owned(),
                        prompt: self.prompt.clone(),
                        mcp_server_url: self.mcp_server_url.clone(),
                    }
                },
                Err(reason) => {
                    self.state = SandboxState::Terminated;
                    ExecutionAction::Failed(AgentError::Evolve(reason))
                },
            },
            SandboxState::Ready => {
                if self.invoked {
                    self.state = SandboxState::Terminated;
                    return ExecutionAction::Failed(AgentError::Terminated);
                }
                self.invoked = true;
                match outcome {
                    Ok(output) => ExecutionAction::Finished(
                        AgentResult {
                            success: true,
                            exit_code: 0,
                            stdout: output,
                            stderr: String::new(),
                        },
                    ),
                    Err(reason) => {
                        self.state = SandboxState::Terminated;
                        ExecutionAction::Failed(AgentError::GuestCall(reason))
                    },
                }
            },
            SandboxState::Terminated => ExecutionAction::Failed(AgentError::Terminated),
        }
    }
}

} // verus!
