use mxlite::agent::executor::{
    command_result, download_answer, execute_answer, file_result, job_answer, job_for,
    script_result, shell_invocation, task_for, upload_answer, Job, ScriptOutcome, Task,
    ERR_COMMAND_EXECUTION, ERR_SCRIPT_CONTEXT, ERR_SCRIPT_EVAL, SCRIPT_PATH,
};
use mxlite::agent::net::{
    malformed_reply, reconnect_delay, reconnect_step, respond, session_step, ConnectOutcome,
    Continuation, InboundFrame, OnSendFailure, OutboundFrame, Reconnect, Route, SessionEvent,
    CONNECT_RETRIES,
};
use mxlite::discovery::{
    check_response, discovery_request, discovery_step, handle_pack, reachable_controllers,
    DiscoveryError, DiscoveryStep, MAX_DISCOVERY_ATTEMPTS,
};
use mxlite::messages;
use mxlite::protocol::controller::{
    AgentResponsePayload, CommandExecutionRequest, ControllerMessage, ControllerRequest,
    ControllerRequestPayload, ErrorResponse, FileOperation, FileTransferRequest, ScriptEvalRequest,
};
use mxlite::protocol::discovery::{DiscoveryResponse, MAGIC_REQUEST, MAGIC_RESPONSE, PROTOCOL_REV};
use mxlite::protocol::handshake::{decode_handshake, encode_handshake, HandshakeError};

#[test]
fn handshake_round_trip() {
    let doc = r#"{"version":2,"host_id":"h"}"#;
    let header = encode_handshake(doc);
    assert!(!header.contains('='));
    assert!(!header.contains('+') && !header.contains('/'));
    assert_eq!(decode_handshake(&header).unwrap(), doc.as_bytes());
    assert_eq!(encode_handshake("hi?"), "aGk_");
}

#[test]
fn handshake_rejects_bad_base64() {
    assert_eq!(decode_handshake("a"), Err(HandshakeError::Base64Error));
    assert_eq!(decode_handshake("aGk_="), Err(HandshakeError::Base64Error));
    assert_eq!(decode_handshake("@@@@"), Err(HandshakeError::Base64Error));
}

#[test]
fn discovery_request_and_checks() {
    let req = discovery_request();
    assert_eq!(req.magic, MAGIC_REQUEST);
    assert_eq!(req.revision, PROTOCOL_REV);
    let good = DiscoveryResponse { magic: MAGIC_RESPONSE.to_string(), ws: vec!["ws://a".into()] };
    assert_eq!(check_response(good).unwrap().ws, vec!["ws://a"]);
    let bad = DiscoveryResponse { magic: "MXA-DISCOVER".to_string(), ws: vec![] };
    assert_eq!(check_response(bad).unwrap_err(), DiscoveryError::ProtocolError);
}

#[test]
fn discovery_keeps_reachable_controllers() {
    let ws = vec!["ws://a".to_string(), "ws://b".to_string(), "ws://c".to_string()];
    assert_eq!(reachable_controllers(&ws, &vec![true, false, true]), vec!["ws://a", "ws://c"]);
    assert_eq!(handle_pack(Ok(vec!["ws://a".into()])), Some(vec!["ws://a".to_string()]));
    assert_eq!(handle_pack(Ok(vec![])), None);
    assert_eq!(handle_pack(Err(DiscoveryError::DecodeError)), None);
}

#[test]
fn discovery_round_sends_at_most_ten_requests() {
    let mut attempts = 0u32;
    loop {
        match discovery_step(attempts, None) {
            DiscoveryStep::Send => attempts += 1,
            DiscoveryStep::GiveUp => break,
            DiscoveryStep::Found(_) => unreachable!(),
        }
    }
    assert_eq!(attempts, MAX_DISCOVERY_ATTEMPTS);
    assert!(matches!(discovery_step(3, Some(vec!["ws://x".into()])), DiscoveryStep::Found(w) if w == vec!["ws://x"]));
}

#[test]
fn reconnect_waits_grow() {
    let waits: Vec<u64> = (0..CONNECT_RETRIES).map(reconnect_delay).collect();
    assert_eq!(waits, vec![8, 9, 11, 15, 20]);
}

#[test]
fn reconnect_steps() {
    assert_eq!(reconnect_step(0, ConnectOutcome::ConnectFailed), Reconnect::Retry { wait_secs: 8, retry: 1 });
    assert_eq!(reconnect_step(4, ConnectOutcome::ConnectFailed), Reconnect::StartOver { wait_secs: 20 });
    assert_eq!(reconnect_step(2, ConnectOutcome::SessionFailed), Reconnect::Retry { wait_secs: 0, retry: 3 });
    assert_eq!(reconnect_step(4, ConnectOutcome::SessionFailed), Reconnect::StartOver { wait_secs: 0 });
    assert_eq!(reconnect_step(1, ConnectOutcome::SessionEnded(true)), Reconnect::Exit);
    assert_eq!(reconnect_step(1, ConnectOutcome::SessionEnded(false)), Reconnect::StartOver { wait_secs: 0 });
}

fn request(id: u64, payload: ControllerRequestPayload) -> ControllerRequest {
    ControllerRequest { version: 2, id, payload }
}

#[test]
fn session_dispatches_requests_and_answers_garbage() {
    let msg = ControllerMessage {
        request: request(7, ControllerRequestPayload::ScriptEvalRequest(ScriptEvalRequest { script: "return 1".into() })),
        events: None,
    };
    let d = session_step(SessionEvent::Received(InboundFrame::Text(Some(msg))));
    assert!(d.send.is_none());
    assert_eq!(d.dispatch.unwrap().id, 7);
    assert_eq!(d.next, Continuation::Continue);

    let d = session_step(SessionEvent::Received(InboundFrame::Text(None)));
    match d.send {
        Some((OutboundFrame::Text(m), Route::Queue)) => {
            let r = m.response.unwrap();
            assert_eq!(r.id, u64::MAX);
            assert!(!r.ok);
            assert!(matches!(r.payload, AgentResponsePayload::Empty));
        }
        other => panic!("unexpected {other:?}"),
    }
    assert_eq!(d.on_send_failure, OnSendFailure::Ignore);
}

#[test]
fn session_pings_pongs_and_closes() {
    let d = session_step(SessionEvent::PingDue);
    assert!(matches!(d.send, Some((OutboundFrame::Ping(ref p), Route::Socket)) if p.as_slice() == b"ping"));
    assert_eq!(d.on_send_failure, OnSendFailure::End);
    let d = session_step(SessionEvent::Received(InboundFrame::Ping(vec![1, 2])));
    assert!(matches!(d.send, Some((OutboundFrame::Pong(ref p), Route::Queue)) if p == &vec![1, 2]));
    let d = session_step(SessionEvent::Received(InboundFrame::Close));
    assert!(matches!(d.send, Some((OutboundFrame::Close, Route::Queue))));
    assert_eq!(d.next, Continuation::Exit(true));
    let d = session_step(SessionEvent::Interrupted);
    assert!(matches!(d.send, Some((OutboundFrame::Close, Route::Socket))));
    assert_eq!(d.on_send_failure, OnSendFailure::Abort);
    assert_eq!(d.next, Continuation::Exit(true));
    assert_eq!(session_step(SessionEvent::StreamEnded).next, Continuation::Exit(true));
    assert_eq!(session_step(SessionEvent::StreamFailed).next, Continuation::Exit(false));
    assert_eq!(session_step(SessionEvent::Queued(None)).next, Continuation::Exit(false));
    assert_eq!(session_step(SessionEvent::Received(InboundFrame::Binary)).next, Continuation::Continue);
    let d = session_step(SessionEvent::Queued(Some(OutboundFrame::Close)));
    assert!(matches!(d.send, Some((OutboundFrame::Close, Route::Socket))));
}

#[test]
fn responses_carry_the_request_id() {
    let m = respond(3, true, AgentResponsePayload::Empty);
    let r = m.response.unwrap();
    assert_eq!(r.id, 3);
    assert!(r.ok);
    assert!(m.events.is_none());
    assert_eq!(malformed_reply().response.unwrap().id, u64::MAX);
}

#[test]
fn first_revision_tasks() {
    let dl = messages::ControllerRequest {
        version: 1,
        id: 1,
        payload: messages::ControllerRequestPayload::FileTransferRequest(messages::FileTransferRequest {
            url: "http://x/f".into(),
            path: "/tmp/f".into(),
            operation: messages::FileOperation::Download,
        }),
    };
    assert!(matches!(task_for(&dl), Ok(Task::Download { url, path }) if url == "http://x/f" && path == "/tmp/f"));
    let cmd = messages::ControllerRequest {
        version: 1,
        id: 2,
        payload: messages::ControllerRequestPayload::CommandExecutionRequest(messages::CommandExecutionRequest {
            command: "ls".into(),
            use_script_file: false,
        }),
    };
    assert!(matches!(task_for(&cmd), Ok(Task::Execute { cmd }) if cmd == "ls"));
}

#[test]
fn first_revision_answers() {
    let (ok, p) = download_answer(Ok("abc".into()));
    assert!(ok);
    assert!(matches!(p, messages::AgentResponsePayload::FileOperationResponse(r) if r.success && r.hash.as_deref() == Some("abc")));
    let (ok, p) = download_answer(Err(()));
    assert!(!ok);
    assert!(matches!(p, messages::AgentResponsePayload::FileOperationResponse(r) if !r.success && r.hash.is_none()));
    assert!(upload_answer(true, Err(())).is_none());
    assert!(matches!(upload_answer(false, Ok("h".into())), Some((false, _))));
    assert!(matches!(upload_answer(true, Ok("h".into())), Some((true, messages::AgentResponsePayload::FileOperationResponse(r))) if r.hash.as_deref() == Some("h")));
    let (ok, p) = execute_answer(Err("spawn failed".into()));
    assert!(!ok);
    assert!(matches!(p, messages::AgentResponsePayload::CommandExecutionResponse(r) if r.code == -1 && r.stdout.is_empty() && r.stderr == "spawn failed"));
    let (ok, p) = execute_answer(Ok((3, "out".into(), "err".into())));
    assert!(ok);
    assert!(matches!(p, messages::AgentResponsePayload::CommandExecutionResponse(r) if r.code == 3 && r.stdout == "out"));
}

#[test]
fn shell_invocations() {
    let inv = shell_invocation("echo hi", false);
    assert_eq!(inv.program, "sh");
    assert_eq!(inv.args, vec!["-c", "echo hi"]);
    assert!(inv.script.is_none());
    let inv = shell_invocation("echo hi", true);
    assert_eq!(inv.args, vec![SCRIPT_PATH]);
    assert_eq!(inv.script.as_deref(), Some("echo hi"));
}

#[test]
fn job_results_and_errors() {
    let r = command_result(None).unwrap_err();
    assert_eq!(r.code, ERR_COMMAND_EXECUTION);
    assert_eq!(r.message, "Command execution failed");
    let r = command_result(Some((0, "a".into(), "".into()))).unwrap();
    assert_eq!(r.code, 0);
    assert_eq!(r.stdout, "a");
    let e = script_result(ScriptOutcome::NoContext).unwrap_err();
    assert_eq!(e.code, ERR_SCRIPT_CONTEXT);
    assert_eq!(e.message, "Failed to create script execution context");
    let e = script_result(ScriptOutcome::Failed).unwrap_err();
    assert_eq!(e.code, ERR_SCRIPT_EVAL);
    assert_eq!(e.message, "Script evaluation failed");
    let v = script_result(ScriptOutcome::Value("42".into())).unwrap();
    assert!(v.ok);
    assert_eq!(v.result, "42");
    let f = file_result(FileOperation::Download, true, Some("h".into()));
    assert!(f.success);
    assert_eq!(f.hash.as_deref(), Some("h"));
    let f = file_result(FileOperation::Upload, false, Some("h".into()));
    assert!(!f.success && f.hash.is_none());
    let f = file_result(FileOperation::Write, true, Some("h".into()));
    assert!(f.success && f.hash.is_none());
}

#[test]
fn jobs_follow_requests() {
    let req = request(1, ControllerRequestPayload::CommandExecutionRequest(CommandExecutionRequest {
        command: "uname".into(),
        use_script_file: true,
    }));
    assert!(matches!(job_for(&req), Job::Command { command, use_script_file: true } if command == "uname"));
    let req = request(2, ControllerRequestPayload::FileTransferRequest(FileTransferRequest {
        url: "u".into(),
        path: "p".into(),
        operation: FileOperation::Read,
    }));
    assert!(matches!(job_for(&req), Job::File { operation: FileOperation::Read, .. }));
    let failed = job_answer(9, Err(ErrorResponse { code: "E".into(), message: "m".into() }));
    let r = failed.response.unwrap();
    assert_eq!(r.id, 9);
    assert!(!r.ok);
    assert!(matches!(r.payload, AgentResponsePayload::Error(e) if e.code == "E"));
    let done = job_answer(10, Ok(AgentResponsePayload::Empty));
    assert!(done.response.unwrap().ok);
}

#[test]
fn handshake_header_is_url_safe() {
    let header = encode_handshake("\u{ff}\u{fe}>>>???~~~");
    assert!(header.chars().all(|c| c.is_ascii_alphanumeric() || c == '-' || c == '_'));
}
