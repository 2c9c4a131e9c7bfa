//! The first revision of the controller protocol's messages, still used by
//! the agent's task executor.
use vstd::prelude::*;

use crate::system_info::SystemInfo;

pub use crate::protocol::handshake::{HandshakeError, CONNECT_HANDSHAKE_HEADER_KEY};

verus! {

/// The revision of the controller protocol these messages belong to.
pub const PROTOCOL_VERSION: u32 = 3;

/// Run a shell command.
#[derive(Debug, Clone)]
pub struct CommandExecutionRequest {
    pub command: String,
    pub use_script_file: bool,
}

/// The outcome of a command.
#[derive(Debug, Clone)]
pub struct CommandExecutionResponse {
    pub code: i32,
    pub stdout: String,
    pub stderr: String,
}

/// Which way a file moves.
#[derive(Debug, Clone, Copy, PartialEq, Eq)]
pub enum FileOperation {
    Download,
    Upload,
}

/// Move a file between a URL and a path.
#[derive(Debug, Clone)]
pub struct FileTransferRequest {
    pub url: String,
    pub path: String,
    pub operation: FileOperation,
}

/// The outcome of a file transfer.
#[derive(Debug, Clone)]
pub struct FileOperationResponse {
    pub success: bool,
    pub hash: Option<String>,
}

/// The body of a controller's request.
#[derive(Debug, Clone)]
pub enum ControllerRequestPayload {
    CommandExecutionRequest(CommandExecutionRequest),
    FileTransferRequest(FileTransferRequest),
}

/// A request of the controller, identified by `id`.
#[derive(Debug, Clone)]
pub struct ControllerRequest {
    pub version: u32,
    pub id: u64,
    pub payload: ControllerRequestPayload,
}

/// The body of an agent's response.
#[derive(Debug, Clone)]
pub enum AgentResponsePayload {
    Empty,
    CommandExecutionResponse(CommandExecutionResponse),
    FileOperationResponse(FileOperationResponse),
}

/// An agent's answer to the request with the same id.
#[derive(Debug, Clone)]
pub struct AgentResponse {
    pub id: u64,
    pub ok: bool,
    pub payload: AgentResponsePayload,
}

/// An event raised by the controller.
#[derive(Debug, Clone)]
pub struct ControllerEvent {
    pub id: u64,
    pub event: String,
    pub data: String,
}

/// An event raised by an agent.
#[derive(Debug, Clone)]
pub struct AgentEvent {
    pub id: u64,
    pub event: String,
    pub data: String,
}

/// What the controller sends: one request and, possibly, events.
#[derive(Debug, Clone)]
pub struct ControllerMessage {
    pub request: ControllerRequest,
    pub events: Option<Vec<ControllerEvent>>,
}

/// What an agent sends: possibly a response and, possibly, events.
#[derive(Debug, Clone)]
pub struct AgentMessage {
    pub response: Option<AgentResponse>,
    pub events: Option<Vec<AgentEvent>>,
}

/// Who is connecting, and from what host.
#[derive(Debug, Clone)]
pub struct ConnectHandshake {
    pub version: u32,
    pub host_id: String,
    pub controller_url: String,
    pub system_info: SystemInfo,
}

} // verus!
