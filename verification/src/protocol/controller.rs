//! The controller protocol: requests from the controller, responses and
//! events from the agent.
use vstd::prelude::*;

pub mod events;
pub mod requests;

pub use events::{AgentEvent, ControllerEvent};
pub use requests::agent::{
    AgentResponse, AgentResponsePayload, CommandExecutionResponse, ErrorResponse,
    FileOperationResponse, ScriptEvalResponse,
};
pub use requests::controller::{
    CommandExecutionRequest, ControllerRequest, ControllerRequestPayload, FileOperation,
    FileTransferRequest, ScriptEvalRequest,
};

verus! {

/// The revision of the controller protocol this library speaks.
pub const PROTOCOL_VERSION: u32 = 3;

/// What the controller sends: one request and, possibly, events.
#[derive(Debug, Clone)]
pub struct ControllerMessage {
    pub request: ControllerRequest,
    pub events: Option<Vec<ControllerEvent>>,
}

/// What an agent sends: possibly a response and, possibly, events.
#[derive(Debug, Clone)]
pub struct AgentMessage {
    pub response: Option<AgentResponse>,
    pub events: Option<Vec<AgentEvent>>,
}

} // verus!
