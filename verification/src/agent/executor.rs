//! The agent's task executor: which task a request asks for, how a shell
//! command is run, and what the agent answers once a task is done. Running
//! the task itself (processes, files, downloads) is the caller's part; its
//! outcome comes back here.
use vstd::prelude::*;
use vstd::string::StringExecFns;

use crate::messages;
use crate::protocol::controller::{
    AgentMessage, AgentResponsePayload, CommandExecutionResponse, ControllerRequest,
    ControllerRequestPayload, ErrorResponse, FileOperation, FileOperationResponse,
    ScriptEvalResponse,
};

verus! {

/// A task of the first protocol revision.
#[derive(Debug, Clone)]
pub enum Task {
    /// Fetch `url` into the file at `path`.
    Download { url: String, path: String },
    /// Send the file at `path` to `url`.
    Upload { url: String, path: String },
    /// Run a shell command.
    Execute { cmd: String },
}

/// The task a request of the first protocol revision asks for.
pub fn task_for(msg: &messages::ControllerRequest) -> (task: Result<Task, ()>)
    ensures
        match msg.payload {
            messages::ControllerRequestPayload::FileTransferRequest(req) => match req.operation {
                messages::FileOperation::Download => task matches Ok(Task::Download { url, path })
                    && url@ == req.url@ && path@ == req.path@,
                messages::FileOperation::Upload => task matches Ok(Task::Upload { url, path })
                    && url@ == req.url@ && path@ == req.path@,
            },
            messages::ControllerRequestPayload::CommandExecutionRequest(req) => task matches Ok(
                Task::Execute { cmd },
            ) && cmd@ == req.command@,
        },
{
    match &msg.payload {
        messages::ControllerRequestPayload::FileTransferRequest(req) => match req.operation {
            messages::FileOperation::Download => Ok(
                Task::Download { url: req.url.clone(), path: req.path.clone() },
            ),
            messages::FileOperation::Upload => Ok(
                Task::Upload { url: req.url.clone(), path: req.path.clone() },
            ),
        },
        messages::ControllerRequestPayload::CommandExecutionRequest(req) => Ok(
            Task::Execute { cmd: req.command.clone() },
        ),
    }
}

/// The answer to a download, given the hash of the downloaded file or the
/// failure: whether it succeeded, and the payload.
pub fn download_answer(outcome: Result<String, ()>) -> (answer: (bool, messages::AgentResponsePayload))
    ensures
        match outcome {
            Ok(hash) => answer == (true, messages::AgentResponsePayload::FileOperationResponse(
                messages::FileOperationResponse { success: true, hash: Some(hash) },
            )),
            Err(_) => answer == (false, messages::AgentResponsePayload::FileOperationResponse(
                messages::FileOperationResponse { success: false, hash: None },
            )),
        },
{
    match outcome {
        Ok(hash) => (
            true,
            messages::AgentResponsePayload::FileOperationResponse(
                messages::FileOperationResponse { success: true, hash: Some(hash) },
            ),
        ),
        Err(_) => (
            false,
            messages::AgentResponsePayload::FileOperationResponse(
                messages::FileOperationResponse { success: false, hash: None },
            ),
        ),
    }
}

/// The answer to an upload, given whether it went through and, when it
/// did, the hash of the uploaded file or the failure to compute it. No
/// answer is sent when the hash cannot be computed.
pub fn upload_answer(uploaded: bool, hash: Result<String, ()>) -> (answer: Option<
    (bool, messages::AgentResponsePayload),
>)
    ensures
        !uploaded ==> answer == Some((false, messages::AgentResponsePayload::FileOperationResponse(
            messages::FileOperationResponse { success: false, hash: None },
        ))),
        uploaded ==> match hash {
            Ok(h) => answer == Some((true, messages::AgentResponsePayload::FileOperationResponse(
                messages::FileOperationResponse { success: true, hash: Some(h) },
            ))),
            Err(_) => answer is None,
        },
{
    if !uploaded {
        return Some(
            (
                false,
                messages::AgentResponsePayload::FileOperationResponse(
                    messages::FileOperationResponse { success: false, hash: None },
                ),
            ),
        );
    }
    match hash {
        Ok(h) => Some(
            (
                true,
                messages::AgentResponsePayload::FileOperationResponse(
                    messages::FileOperationResponse { success: true, hash: Some(h) },
                ),
            ),
        ),
        Err(_) => None,
    }
}

/// The answer to a command of the first protocol revision, given its exit
/// code and output or the text of its failure.
pub fn execute_answer(outcome: Result<(i32, String, String), String>) -> (answer: (
    bool,
    messages::AgentResponsePayload,
))
    ensures
        match outcome {
            Ok((code, stdout, stderr)) => answer == (
                true,
                messages::AgentResponsePayload::CommandExecutionResponse(
                    messages::CommandExecutionResponse { code, stdout, stderr },
                ),
            ),
            Err(e) => answer.0 == false && (answer.1 matches
                messages::AgentResponsePayload::CommandExecutionResponse(r) && r.code == -1
                && r.stdout@ == Seq::<char>::empty() && r.stderr == e),
        },
{
    match outcome {
        Ok((code, stdout, stderr)) => (
            true,
            messages::AgentResponsePayload::CommandExecutionResponse(
                messages::CommandExecutionResponse { code, stdout, stderr },
            ),
        ),
        Err(e) => (
            false,
            messages::AgentResponsePayload::CommandExecutionResponse(
                messages::CommandExecutionResponse { code: -1, stdout: String::new(), stderr: e },
            ),
        ),
    }
}

/// The file the agent writes a script to before running it.
pub const SCRIPT_PATH: &'static str = "/tmp/mxa-script.sh";

/// How a shell command runs: a script to write to [`SCRIPT_PATH`] first,
/// if any, then a program and its arguments.
#[derive(Debug, Clone)]
pub struct ShellInvocation {
    pub script: Option<String>,
    pub program: String,
    pub args: Vec<String>,
}

/// How the agent runs `cmd`: through `sh` on a script file holding it, or
/// as `sh -c cmd`.
pub fn shell_invocation(cmd: &str, use_script_file: bool) -> (inv: ShellInvocation)
    ensures
        inv.program@ == "sh"@,
        use_script_file ==> (inv.script matches Some(s) && s@ == cmd@ && inv.args@.len() == 1
            && inv.args@[0]@ == SCRIPT_PATH@),
        !use_script_file ==> inv.script is None && inv.args@.len() == 2 && inv.args@[0]@ == "-c"@
            && inv.args@[1]@ == cmd@,
{
    let mut args: Vec<String> = Vec::new();
    if use_script_file {
        args.push(String::from_str(SCRIPT_PATH));
        ShellInvocation {
            script: Some(String::from_str(cmd)),
            program: String::from_str("sh"),
            args,
        }
    } else {
        args.push(String::from_str("-c"));
        args.push(String::from_str(cmd));
        ShellInvocation { script: None, program: String::from_str("sh"), args }
    }
}

/// The error code of a command that could not be run.
pub const ERR_COMMAND_EXECUTION: &'static str = "ERR_COMMAND_EXECUTION";

/// The error code of a script context that could not be made.
pub const ERR_SCRIPT_CONTEXT: &'static str = "ERR_SCRIPT_CONTEXT";

/// The error code of a script that failed.
pub const ERR_SCRIPT_EVAL: &'static str = "ERR_SCRIPT_EVAL";

/// The result of a command request, given the command's exit code and
/// output, or nothing when it could not be run.
pub fn command_result(outcome: Option<(i32, String, String)>) -> (r: Result<
    CommandExecutionResponse,
    ErrorResponse,
>)
    ensures
        match outcome {
            Some((code, stdout, stderr)) => r == Ok::<CommandExecutionResponse, ErrorResponse>(
                CommandExecutionResponse { code, stdout, stderr },
            ),
            None => r matches Err(e) && e.code@ == ERR_COMMAND_EXECUTION@ && e.message@
                == "Command execution failed"@,
        },
{
    match outcome {
        Some((code, stdout, stderr)) => Ok(CommandExecutionResponse { code, stdout, stderr }),
        None => Err(
            ErrorResponse {
                code: String::from_str(ERR_COMMAND_EXECUTION),
                message: String::from_str("Command execution failed"),
            },
        ),
    }
}

/// How a script evaluation went.
#[derive(Debug, Clone)]
pub enum ScriptOutcome {
    /// No script context could be made.
    NoContext,
    /// The script failed.
    Failed,
    /// The script gave a value, shown as this text.
    Value(String),
}

/// The result of a script request.
pub fn script_result(outcome: ScriptOutcome) -> (r: Result<ScriptEvalResponse, ErrorResponse>)
    ensures
        match outcome {
            ScriptOutcome::NoContext => r matches Err(e) && e.code@ == ERR_SCRIPT_CONTEXT@
                && e.message@ == "Failed to create script execution context"@,
            ScriptOutcome::Failed => r matches Err(e) && e.code@ == ERR_SCRIPT_EVAL@ && e.message@
                == "Script evaluation failed"@,
            ScriptOutcome::Value(v) => r == Ok::<ScriptEvalResponse, ErrorResponse>(
                ScriptEvalResponse { ok: true, result: v },
            ),
        },
{
    match outcome {
        ScriptOutcome::NoContext => Err(
            ErrorResponse {
                code: String::from_str(ERR_SCRIPT_CONTEXT),
                message: String::from_str("Failed to create script execution context"),
            },
        ),
        ScriptOutcome::Failed => Err(
            ErrorResponse {
                code: String::from_str(ERR_SCRIPT_EVAL),
                message: String::from_str("Script evaluation failed"),
            },
        ),
        ScriptOutcome::Value(v) => Ok(ScriptEvalResponse { ok: true, result: v }),
    }
}

/// The result of a file request, given the outcome of the operation: for a
/// download, the hash of the fetched file or the failure; for an upload,
/// whether it went through and the hash of the sent file if it could be
/// computed; for a read or a write, whether it worked.
pub fn file_result(operation: FileOperation, done: bool, hash: Option<String>) -> (r: FileOperationResponse)
    ensures
        r.success == done,
        match operation {
            FileOperation::Download | FileOperation::Upload => r.hash == if done {
                hash
            } else {
                None
            },
            _ => r.hash is None,
        },
{
    match operation {
        FileOperation::Download | FileOperation::Upload => if done {
            FileOperationResponse { success: true, hash }
        } else {
            FileOperationResponse { success: false, hash: None }
        },
        _ => FileOperationResponse { success: done, hash: None },
    }
}

/// What a request of the current protocol revision asks the agent to do.
#[derive(Debug, Clone)]
pub enum Job {
    Command { command: String, use_script_file: bool },
    Script { script: String },
    File { url: String, path: String, operation: FileOperation },
}

/// The job a request asks for.
pub fn job_for(req: &ControllerRequest) -> (job: Job)
    ensures
        match req.payload {
            ControllerRequestPayload::CommandExecutionRequest(c) => job matches Job::Command {
                command,
                use_script_file,
            } && command@ == c.command@ && use_script_file == c.use_script_file,
            ControllerRequestPayload::ScriptEvalRequest(s) => job matches Job::Script { script }
                && script@ == s.script@,
            ControllerRequestPayload::FileTransferRequest(f) => job matches Job::File {
                url,
                path,
                operation,
            } && url@ == f.url@ && path@ == f.path@ && operation == f.operation,
        },
{
    match &req.payload {
        ControllerRequestPayload::CommandExecutionRequest(c) => Job::Command {
            command: c.command.clone(),
            use_script_file: c.use_script_file,
        },
        ControllerRequestPayload::ScriptEvalRequest(s) => Job::Script { script: s.script.clone() },
        ControllerRequestPayload::FileTransferRequest(f) => Job::File {
            url: f.url.clone(),
            path: f.path.clone(),
            operation: f.operation,
        },
    }
}

/// The message that answers request `id` once its job is done: the job's
/// payload, or its error as an error payload.
pub fn job_answer(id: u64, result: Result<AgentResponsePayload, ErrorResponse>) -> (msg: AgentMessage)
    ensures
        msg == crate::agent::net::respond_spec(
            id,
            result is Ok,
            match result {
                Ok(p) => p,
                Err(e) => AgentResponsePayload::Error(e),
            },
        ),
{
    match result {
        Ok(payload) => crate::agent::net::respond(id, true, payload),
        Err(err) => crate::agent::net::respond(id, false, AgentResponsePayload::Error(err)),
    }
}

/// A failed job is answered as failed, with its error.
pub proof fn law_failed_job_reports_error(id: u64, e: ErrorResponse)
    ensures
        crate::agent::net::respond_spec(id, false, AgentResponsePayload::Error(e)).response
            matches Some(r) && r.id == id && !r.ok && r.payload == AgentResponsePayload::Error(e),
{
}

} // verus!
