//! What an agent answers.
use vstd::prelude::*;
use vstd::std_specs::convert::FromSpecImpl;

verus! {

/// The outcome of a command.
#[derive(Debug, Clone)]
pub struct CommandExecutionResponse {
    pub code: i32,
    pub stdout: String,
    pub stderr: String,
}

/// The outcome of a file operation.
#[derive(Debug, Clone)]
pub struct FileOperationResponse {
    pub success: bool,
    pub hash: Option<String>,
}

/// The outcome of a script evaluation.
#[derive(Debug, Clone)]
pub struct ScriptEvalResponse {
    pub ok: bool,
    pub result: String,
}

/// A request the agent could not carry out.
#[derive(Debug, Clone)]
pub struct ErrorResponse {
    pub code: String,
    pub message: String,
}

/// The body of an agent's response.
#[derive(Debug, Clone)]
pub enum AgentResponsePayload {
    Empty,
    CommandExecutionResponse(CommandExecutionResponse),
    FileOperationResponse(FileOperationResponse),
    ScriptEvalResponse(ScriptEvalResponse),
    Error(ErrorResponse),
}

impl From<CommandExecutionResponse> for AgentResponsePayload {
    fn from(value: CommandExecutionResponse) -> (payload: Self) {
        AgentResponsePayload::CommandExecutionResponse(value)
    }
}

impl FromSpecImpl<CommandExecutionResponse> for AgentResponsePayload {
    open spec fn obeys_from_spec() -> bool {
        true
    }

    open spec fn from_spec(value: CommandExecutionResponse) -> Self {
        AgentResponsePayload::CommandExecutionResponse(value)
    }
}

impl From<FileOperationResponse> for AgentResponsePayload {
    fn from(value: FileOperationResponse) -> (payload: Self) {
        AgentResponsePayload::FileOperationResponse(value)
    }
}

impl FromSpecImpl<FileOperationResponse> for AgentResponsePayload {
    open spec fn obeys_from_spec() -> bool {
        true
    }

    open spec fn from_spec(value: FileOperationResponse) -> Self {
        AgentResponsePayload::FileOperationResponse(value)
    }
}

impl From<ScriptEvalResponse> for AgentResponsePayload {
    fn from(value: ScriptEvalResponse) -> (payload: Self) {
        AgentResponsePayload::ScriptEvalResponse(value)
    }
}

impl FromSpecImpl<ScriptEvalResponse> for AgentResponsePayload {
    open spec fn obeys_from_spec() -> bool {
        true
    }

    open spec fn from_spec(value: ScriptEvalResponse) -> Self {
        AgentResponsePayload::ScriptEvalResponse(value)
    }
}

impl From<ErrorResponse> for AgentResponsePayload {
    fn from(value: ErrorResponse) -> (payload: Self) {
        AgentResponsePayload::Error(value)
    }
}

impl FromSpecImpl<ErrorResponse> for AgentResponsePayload {
    open spec fn obeys_from_spec() -> bool {
        true
    }

    open spec fn from_spec(value: ErrorResponse) -> Self {
        AgentResponsePayload::Error(value)
    }
}

/// An agent's answer to the request with the same id.
#[derive(Debug, Clone)]
pub struct AgentResponse {
    pub id: u64,
    pub ok: bool,
    pub payload: AgentResponsePayload,
}

} // verus!
