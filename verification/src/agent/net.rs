//! The agent's side of the controller connection: what it does on each
//! event of a web-socket session, and how it reconnects.
use vstd::prelude::*;

use crate::protocol::controller::{
    AgentMessage, AgentResponse, AgentResponsePayload, ControllerMessage, ControllerRequest,
};

verus! {

/// The message that answers request `id`: a response with no events.
pub open spec fn respond_spec(id: u64, ok: bool, payload: AgentResponsePayload) -> AgentMessage {
    AgentMessage { response: Some(AgentResponse { id, ok, payload }), events: None }
}

/// The message that answers request `id`.
pub fn respond(id: u64, ok: bool, payload: AgentResponsePayload) -> (msg: AgentMessage)
    ensures
        msg == respond_spec(id, ok, payload),
{
    AgentMessage { response: Some(AgentResponse { id, ok, payload }), events: None }
}

/// The answer to a text frame that is not a controller message: a failed
/// response to no request, with the largest id.
pub fn malformed_reply() -> (msg: AgentMessage)
    ensures
        msg == (AgentMessage {
            response: Some(
                AgentResponse { id: u64::MAX, ok: false, payload: AgentResponsePayload::Empty },
            ),
            events: None,
        }),
{
    respond(u64::MAX, false, AgentResponsePayload::Empty)
}

/// A frame received from the controller. A text frame arrives parsed: the
/// controller message it holds, or nothing when it holds none.
#[derive(Debug, Clone)]
pub enum InboundFrame {
    Text(Option<ControllerMessage>),
    Binary,
    Ping(Vec<u8>),
    Pong,
    Close,
    Frame,
}

/// A frame the agent sends.
#[derive(Debug, Clone)]
pub enum OutboundFrame {
    Text(AgentMessage),
    Ping(Vec<u8>),
    Pong(Vec<u8>),
    Close,
}

/// Where a frame goes: straight to the socket, or to the queue that feeds it.
#[derive(Debug, Clone, Copy, PartialEq, Eq)]
pub enum Route {
    Socket,
    Queue,
}

/// What happens when sending a frame fails.
#[derive(Debug, Clone, Copy, PartialEq, Eq)]
pub enum OnSendFailure {
    /// End the session with an error.
    Abort,
    /// End the session; the agent will reconnect.
    End,
    /// Carry on.
    Ignore,
}

/// How the session goes on.
#[derive(Debug, Clone, Copy, PartialEq, Eq)]
pub enum Continuation {
    Continue,
    /// End the session; `true` asks the agent to exit.
    Exit(bool),
}

/// An event of a web-socket session.
#[derive(Debug, Clone)]
pub enum SessionEvent {
    /// The user asked the agent to stop.
    Interrupted,
    /// No frame went out for five seconds.
    PingDue,
    /// The controller's stream ended.
    StreamEnded,
    /// The controller's stream failed.
    StreamFailed,
    /// A frame arrived from the controller.
    Received(InboundFrame),
    /// The queue handed over a frame to send, or was closed.
    Queued(Option<OutboundFrame>),
}

/// What the agent does on one session event: a frame to send and where,
/// what a failed send means, a request to hand to the executor, and how the
/// session goes on.
#[derive(Debug, Clone)]
pub struct SessionDecision {
    pub send: Option<(OutboundFrame, Route)>,
    pub on_send_failure: OnSendFailure,
    pub dispatch: Option<ControllerRequest>,
    pub next: Continuation,
}

/// Decides what the agent does on a session event.
pub fn session_step(event: SessionEvent) -> (d: SessionDecision)
    ensures
        match event {
            SessionEvent::Interrupted => d.send matches Some((OutboundFrame::Close, Route::Socket))
                && d.on_send_failure == OnSendFailure::Abort && d.dispatch is None && d.next
                == Continuation::Exit(true),
            SessionEvent::PingDue => d.send matches Some((OutboundFrame::Ping(p), Route::Socket))
                && p@ == "ping"@.map_values(|c: char| c as u8) && d.on_send_failure
                == OnSendFailure::End && d.dispatch is None && d.next == Continuation::Continue,
            SessionEvent::StreamEnded => d.send is None && d.dispatch is None && d.next == Continuation::Exit(
                true,
            ),
            SessionEvent::StreamFailed => d.send is None && d.dispatch is None && d.next
                == Continuation::Exit(false),
            SessionEvent::Received(frame) => match frame {
                InboundFrame::Text(Some(m)) => d.send is None && d.dispatch == Some(m.request)
                    && d.next == Continuation::Continue,
                InboundFrame::Text(None) => d.send matches Some(
                    (OutboundFrame::Text(r), Route::Queue),
                ) && r == malformed_reply_spec() && d.on_send_failure == OnSendFailure::Ignore
                    && d.dispatch is None && d.next == Continuation::Continue,
                InboundFrame::Ping(p) => d.send == Some((OutboundFrame::Pong(p), Route::Queue))
                    && d.on_send_failure == OnSendFailure::End && d.dispatch is None && d.next
                    == Continuation::Continue,
                InboundFrame::Close => d.send matches Some((OutboundFrame::Close, Route::Queue))
                    && d.on_send_failure == OnSendFailure::End && d.dispatch is None && d.next
                    == Continuation::Exit(true),
                _ => d.send is None && d.dispatch is None && d.next == Continuation::Continue,
            },
            SessionEvent::Queued(Some(f)) => d.send == Some((f, Route::Socket))
                && d.on_send_failure == OnSendFailure::End && d.dispatch is None && d.next
                == Continuation::Continue,
            SessionEvent::Queued(None) => d.send is None && d.dispatch is None && d.next
                == Continuation::Exit(false),
        },
{
    let quiet = |next: Continuation| -> (d: SessionDecision)
        ensures
            d.send is None && d.dispatch is None && d.next == next,
        { SessionDecision { send: None, on_send_failure: OnSendFailure::Ignore, dispatch: None, next } };
    match event {
        SessionEvent::Interrupted => SessionDecision {
            send: Some((OutboundFrame::Close, Route::Socket)),
            on_send_failure: OnSendFailure::Abort,
            dispatch: None,
            next: Continuation::Exit(true),
        },
        SessionEvent::PingDue => {
            let mut p: Vec<u8> = Vec::new();
            p.push(0x70);
            p.push(0x69);
            p.push(0x6e);
            p.push(0x67);
            proof {
                reveal_strlit("ping");
                assert(p@ =~= "ping"@.map_values(|c: char| c as u8));
            }
            SessionDecision {
                send: Some((OutboundFrame::Ping(p), Route::Socket)),
                on_send_failure: OnSendFailure::End,
                dispatch: None,
                next: Continuation::Continue,
            }
        },
        SessionEvent::StreamEnded => quiet(Continuation::Exit(true)),
        SessionEvent::StreamFailed => quiet(Continuation::Exit(false)),
        SessionEvent::Received(frame) => match frame {
            InboundFrame::Text(Some(m)) => SessionDecision {
                send: None,
                on_send_failure: OnSendFailure::Ignore,
                dispatch: Some(m.request),
                next: Continuation::Continue,
            },
            InboundFrame::Text(None) => SessionDecision {
                send: Some((OutboundFrame::Text(malformed_reply()), Route::Queue)),
                on_send_failure: OnSendFailure::Ignore,
                dispatch: None,
                next: Continuation::Continue,
            },
            InboundFrame::Ping(p) => SessionDecision {
                send: Some((OutboundFrame::Pong(p), Route::Queue)),
                on_send_failure: OnSendFailure::End,
                dispatch: None,
                next: Continuation::Continue,
            },
            InboundFrame::Close => SessionDecision {
                send: Some((OutboundFrame::Close, Route::Queue)),
                on_send_failure: OnSendFailure::End,
                dispatch: None,
                next: Continuation::Exit(true),
            },
            _ => quiet(Continuation::Continue),
        },
        SessionEvent::Queued(Some(f)) => SessionDecision {
            send: Some((f, Route::Socket)),
            on_send_failure: OnSendFailure::End,
            dispatch: None,
            next: Continuation::Continue,
        },
        SessionEvent::Queued(None) => quiet(Continuation::Exit(false)),
    }
}

/// The answer to a malformed text frame.
pub open spec fn malformed_reply_spec() -> AgentMessage {
    AgentMessage {
        response: Some(
            AgentResponse { id: u64::MAX, ok: false, payload: AgentResponsePayload::Empty },
        ),
        events: None,
    }
}

/// How many times the agent tries one connection request before it builds
/// a fresh one.
pub const CONNECT_RETRIES: u32 = 5;

/// How long the agent waits before building a fresh connection request.
pub const RESTART_WAIT_SECS: u64 = 5;

/// `b` to the power `e`.
pub open spec fn pow_nat(b: nat, e: nat) -> nat
    decreases e,
{
    if e == 0 {
        1
    } else {
        b * pow_nat(b, (e - 1) as nat)
    }
}

/// The wait after the `retry`-th failed connection attempt, in seconds:
/// 1.5 to the power `retry`, times 3, plus 5, rounded down.
pub open spec fn backoff_secs(retry: nat) -> nat {
    pow_nat(3, retry + 1) / pow_nat(2, retry) + 5
}

/// The powers the waits are made of.
proof fn lemma_small_powers()
    ensures
        pow_nat(3, 1) == 3,
        pow_nat(3, 2) == 9,
        pow_nat(3, 3) == 27,
        pow_nat(3, 4) == 81,
        pow_nat(3, 5) == 243,
        pow_nat(2, 0) == 1,
        pow_nat(2, 1) == 2,
        pow_nat(2, 2) == 4,
        pow_nat(2, 3) == 8,
        pow_nat(2, 4) == 16,
{
    assert(pow_nat(3, 0) == 1);
    assert(pow_nat(3, 1) == 3);
    assert(pow_nat(3, 2) == 9);
    assert(pow_nat(3, 3) == 27);
    assert(pow_nat(3, 4) == 81);
    assert(pow_nat(3, 5) == 243);
    assert(pow_nat(2, 0) == 1);
    assert(pow_nat(2, 1) == 2);
    assert(pow_nat(2, 2) == 4);
    assert(pow_nat(2, 3) == 8);
    assert(pow_nat(2, 4) == 16);
}

/// The wait after the `retry`-th failed connection attempt, in seconds.
pub fn reconnect_delay(retry: u32) -> (secs: u64)
    requires
        retry < CONNECT_RETRIES,
    ensures
        secs == backoff_secs(retry as nat),
{
    proof {
        lemma_small_powers();
    }
    let mut three: u64 = 3;
    let mut two: u64 = 1;
    let mut k: u32 = 0;
    while k < retry
        invariant
            0 <= k <= retry < CONNECT_RETRIES,
            three == pow_nat(3, (k + 1) as nat),
            two == pow_nat(2, k as nat),
            three <= 81 || k == 4,
            k < 4 ==> three <= 81,
            three <= 243,
            1 <= two <= 16,
            k < 4 ==> two <= 8,
        decreases retry - k,
    {
        proof {
            lemma_small_powers();
        }
        assert(pow_nat(3, (k + 2) as nat) == 3 * pow_nat(3, (k + 1) as nat));
        assert(pow_nat(2, (k + 1) as nat) == 2 * pow_nat(2, k as nat));
        assert(k == 0 ==> three == 3 && two == 1);
        assert(k == 1 ==> three == 9 && two == 2);
        assert(k == 2 ==> three == 27 && two == 4);
        assert(k == 3 ==> three == 81 && two == 8);
        three = three * 3;
        two = two * 2;
        k = k + 1;
    }
    three / two + 5
}

/// The waits grow with the attempts: 8, 9, 11, 15 and 20 seconds.
pub proof fn law_backoff_grows(a: nat, b: nat)
    requires
        a <= b < CONNECT_RETRIES,
    ensures
        backoff_secs(a) <= backoff_secs(b),
{
    lemma_small_powers();
    assert(backoff_secs(0) == 8);
    assert(backoff_secs(1) == 9);
    assert(backoff_secs(2) == 11);
    assert(backoff_secs(3) == 15);
    assert(backoff_secs(4) == 20);
}

/// How a connection attempt ended.
#[derive(Debug, Clone, Copy, PartialEq, Eq)]
pub enum ConnectOutcome {
    /// The connection could not be made.
    ConnectFailed,
    /// The session ended with an error.
    SessionFailed,
    /// The session ended; `true` asks the agent to exit.
    SessionEnded(bool),
}

/// What the agent does after a connection attempt.
#[derive(Debug, Clone, Copy, PartialEq, Eq)]
pub enum Reconnect {
    /// Stop: the agent exits.
    Exit,
    /// Wait, then try the same request again as attempt `retry`.
    Retry { wait_secs: u64, retry: u32 },
    /// Wait, then wait [`RESTART_WAIT_SECS`] more and build a fresh request.
    StartOver { wait_secs: u64 },
}

/// The agent's next move after attempt `retry` of a connection request
/// ended with `outcome`.
pub fn reconnect_step(retry: u32, outcome: ConnectOutcome) -> (next: Reconnect)
    requires
        retry < CONNECT_RETRIES,
    ensures
        match outcome {
            ConnectOutcome::ConnectFailed => if retry + 1 < CONNECT_RETRIES {
                next == Reconnect::Retry {
                    wait_secs: backoff_secs(retry as nat) as u64,
                    retry: (retry + 1) as u32,
                }
            } else {
                next == Reconnect::StartOver { wait_secs: backoff_secs(retry as nat) as u64 }
            },
            ConnectOutcome::SessionFailed => if retry + 1 < CONNECT_RETRIES {
                next == Reconnect::Retry { wait_secs: 0, retry: (retry + 1) as u32 }
            } else {
                next == Reconnect::StartOver { wait_secs: 0 }
            },
            ConnectOutcome::SessionEnded(exit) => if exit {
                next == Reconnect::Exit
            } else {
                next == Reconnect::StartOver { wait_secs: 0 }
            },
        },
{
    match outcome {
        ConnectOutcome::ConnectFailed => {
            let wait = reconnect_delay(retry);
            if retry + 1 < CONNECT_RETRIES {
                Reconnect::Retry { wait_secs: wait, retry: retry + 1 }
            } else {
                Reconnect::StartOver { wait_secs: wait }
            }
        },
        ConnectOutcome::SessionFailed => {
            if retry + 1 < CONNECT_RETRIES {
                Reconnect::Retry { wait_secs: 0, retry: retry + 1 }
            } else {
                Reconnect::StartOver { wait_secs: 0 }
            }
        },
        ConnectOutcome::SessionEnded(exit) => {
            if exit {
                Reconnect::Exit
            } else {
                Reconnect::StartOver { wait_secs: 0 }
            }
        },
    }
}

} // verus!
