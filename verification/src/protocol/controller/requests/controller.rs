//! What the controller asks of an agent.
use vstd::prelude::*;
use vstd::std_specs::convert::FromSpecImpl;

verus! {

/// Run a shell command.
#[derive(Debug, Clone)]
pub struct CommandExecutionRequest {
    pub command: String,
    /// Whether the command goes through a script file rather than `sh -c`.
    pub use_script_file: bool,
}

/// What to do with a file.
#[derive(Debug, Clone, Copy, PartialEq, Eq)]
pub enum FileOperation {
    Download,
    Upload,
    Read,
    Write,
}

/// Move a file between a URL and a path.
#[derive(Debug, Clone)]
pub struct FileTransferRequest {
    pub url: String,
    pub path: String,
    pub operation: FileOperation,
}

/// Evaluate a script.
#[derive(Debug, Clone)]
pub struct ScriptEvalRequest {
    pub script: String,
}

/// The body of a controller's request.
#[derive(Debug, Clone)]
pub enum ControllerRequestPayload {
    CommandExecutionRequest(CommandExecutionRequest),
    FileTransferRequest(FileTransferRequest),
    ScriptEvalRequest(ScriptEvalRequest),
}

impl From<CommandExecutionRequest> for ControllerRequestPayload {
    fn from(value: CommandExecutionRequest) -> (payload: Self) {
        ControllerRequestPayload::CommandExecutionRequest(value)
    }
}

impl FromSpecImpl<CommandExecutionRequest> for ControllerRequestPayload {
    open spec fn obeys_from_spec() -> bool {
        true
    }

    open spec fn from_spec(value: CommandExecutionRequest) -> Self {
        ControllerRequestPayload::CommandExecutionRequest(value)
    }
}

impl From<FileTransferRequest> for ControllerRequestPayload {
    fn from(value: FileTransferRequest) -> (payload: Self) {
        ControllerRequestPayload::FileTransferRequest(value)
    }
}

impl FromSpecImpl<FileTransferRequest> for ControllerRequestPayload {
    open spec fn obeys_from_spec() -> bool {
        true
    }

    open spec fn from_spec(value: FileTransferRequest) -> Self {
        ControllerRequestPayload::FileTransferRequest(value)
    }
}

impl From<ScriptEvalRequest> for ControllerRequestPayload {
    fn from(value: ScriptEvalRequest) -> (payload: Self) {
        ControllerRequestPayload::ScriptEvalRequest(value)
    }
}

impl FromSpecImpl<ScriptEvalRequest> for ControllerRequestPayload {
    open spec fn obeys_from_spec() -> bool {
        true
    }

    open spec fn from_spec(value: ScriptEvalRequest) -> Self {
        ControllerRequestPayload::ScriptEvalRequest(value)
    }
}

/// A request of the controller, identified by `id`.
#[derive(Debug, Clone)]
pub struct ControllerRequest {
    pub version: u32,
    pub id: u64,
    pub payload: ControllerRequestPayload,
}

} // verus!
