//! How an agent finds its controller: it broadcasts a discovery request up
//! to ten times, waiting for an answer after each, and keeps the addresses
//! of the first answer that names a reachable controller.
use vstd::prelude::*;
use vstd::string::StringExecFns;

use crate::protocol::discovery::{
    DiscoveryRequest, DiscoveryResponse, MAGIC_REQUEST, MAGIC_RESPONSE, PROTOCOL_REV,
};
use crate::text::same_text;

verus! {

/// How many discovery requests one round sends before giving up.
pub const MAX_DISCOVERY_ATTEMPTS: u32 = 10;

/// Why discovery failed.
#[derive(Debug, Clone, Copy, PartialEq, Eq)]
pub enum DiscoveryError {
    /// No controller answered.
    NoControllerFound,
    /// The socket failed.
    IoError,
    /// A datagram was not UTF-8.
    DecodeError,
    /// A datagram did not follow the protocol: its magic word was wrong.
    ProtocolError,
    /// A datagram was not a discovery response.
    DeserializationError,
    /// A controller could not be pinged.
    RequestError,
}

/// The request an agent broadcasts.
pub fn discovery_request() -> (req: DiscoveryRequest)
    ensures
        req.magic@ == MAGIC_REQUEST@,
        req.revision == PROTOCOL_REV,
{
    DiscoveryRequest { magic: String::from_str(MAGIC_REQUEST), revision: PROTOCOL_REV }
}

/// Accepts a response only if it carries the response magic word.
pub fn check_response(resp: DiscoveryResponse) -> (checked: Result<DiscoveryResponse, DiscoveryError>)
    ensures
        resp.magic@ == MAGIC_RESPONSE@ ==> checked == Ok::<DiscoveryResponse, DiscoveryError>(resp),
        resp.magic@ != MAGIC_RESPONSE@ ==> checked == Err::<DiscoveryResponse, DiscoveryError>(
            DiscoveryError::ProtocolError,
        ),
{
    if same_text(resp.magic.as_str(), MAGIC_RESPONSE) {
        Ok(resp)
    } else {
        Err(DiscoveryError::ProtocolError)
    }
}

/// The addresses of `ws` whose controllers answered a ping, in order.
pub open spec fn reachable_of(ws: Seq<String>, reachable: Seq<bool>) -> Seq<String>
    decreases ws.len(),
{
    if ws.len() == 0 {
        Seq::empty()
    } else {
        let rest = reachable_of(ws.drop_last(), reachable);
        if reachable[ws.len() - 1] {
            rest.push(ws.last())
        } else {
            rest
        }
    }
}

/// How many of the first `n` flags are set.
pub open spec fn count_set(flags: Seq<bool>, n: int) -> nat
    decreases n,
{
    if n <= 0 {
        0
    } else {
        count_set(flags, n - 1) + if flags[n - 1] {
            1nat
        } else {
            0
        }
    }
}

/// The controllers kept are the reachable ones and only those: one kept
/// address for each address whose ping succeeded, each kept address one
/// whose ping succeeded, and every reachable address kept.
pub proof fn law_keeps_only_reachable(ws: Seq<String>, reachable: Seq<bool>)
    requires
        reachable.len() >= ws.len(),
    ensures
        reachable_of(ws, reachable).len() == count_set(reachable, ws.len() as int),
        forall|k: int|
            0 <= k < reachable_of(ws, reachable).len() ==> exists|i: int|
                0 <= i < ws.len() && reachable[i] && #[trigger] reachable_of(ws, reachable)[k] == ws[i],
        forall|i: int|
            0 <= i < ws.len() && #[trigger] reachable[i] ==> reachable_of(ws, reachable).contains(ws[i]),
    decreases ws.len(),
{
    if ws.len() > 0 {
        let init = ws.drop_last();
        let n = ws.len() - 1;
        law_keeps_only_reachable(init, reachable);
        let rest = reachable_of(init, reachable);
        let kept = reachable_of(ws, reachable);
        assert forall|k: int| 0 <= k < kept.len() implies exists|i: int|
            0 <= i < ws.len() && reachable[i] && #[trigger] kept[k] == ws[i] by {
            if k < rest.len() {
                let i = choose|i: int| 0 <= i < init.len() && reachable[i] && rest[k] == init[i];
                assert(kept[k] == rest[k]);
                assert(ws[i] == init[i]);
            } else {
                assert(kept[k] == ws[n]);
            }
        }
        assert forall|i: int| 0 <= i < ws.len() && #[trigger] reachable[i] implies kept.contains(ws[i]) by {
            if i < n {
                assert(init[i] == ws[i]);
                assert(rest.contains(init[i]));
                let k = choose|k: int| 0 <= k < rest.len() && rest[k] == init[i];
                assert(kept[k] == rest[k]);
            } else {
                assert(kept[kept.len() - 1] == ws[n]);
            }
        }
    }
}

/// Keeps the addresses whose controllers answered a ping.
pub fn reachable_controllers(ws: &Vec<String>, reachable: &Vec<bool>) -> (kept: Vec<String>)
    requires
        reachable.len() == ws.len(),
    ensures
        kept@ == reachable_of(ws@, reachable@),
        kept.len() == count_set(reachable@, ws.len() as int),
{
    let mut kept: Vec<String> = Vec::new();
    let mut i: usize = 0;
    while i < ws.len()
        invariant
            0 <= i <= ws.len() == reachable.len(),
            kept@ == reachable_of(ws@.take(i as int), reachable@),
        decreases ws.len() - i,
    {
        assert(ws@.take(i + 1).drop_last() =~= ws@.take(i as int));
        if reachable[i] {
            kept.push(ws[i].clone());
        }
        i = i + 1;
    }
    assert(ws@.take(ws.len() as int) =~= ws@);
    proof {
        law_keeps_only_reachable(ws@, reachable@);
    }
    kept
}

/// What one answer yields: its reachable controllers, unless there are none
/// or the answer was refused.
pub fn handle_pack(answer: Result<Vec<String>, DiscoveryError>) -> (found: Option<Vec<String>>)
    ensures
        found == match answer {
            Ok(wss) => if wss.len() > 0 {
                Some(wss)
            } else {
                None
            },
            Err(_) => None,
        },
{
    match answer {
        Ok(wss) => if wss.len() > 0 {
            Some(wss)
        } else {
            None
        },
        Err(_) => None,
    }
}

/// What a discovery round does next.
#[derive(Debug, Clone)]
pub enum DiscoveryStep {
    /// Broadcast a request and wait for an answer.
    Send,
    /// A controller was found at these addresses.
    Found(Vec<String>),
    /// Every attempt went unanswered.
    GiveUp,
}

/// The kind of step a round takes after `attempts` requests, depending on
/// whether the last wait found a controller: 0 to send, 1 when found,
/// 2 to give up.
pub open spec fn step_kind(attempts: nat, found: bool) -> int {
    if found {
        1
    } else if attempts < MAX_DISCOVERY_ATTEMPTS {
        0
    } else {
        2
    }
}

/// The kind of a step.
pub open spec fn kind_of(step: DiscoveryStep) -> int {
    match step {
        DiscoveryStep::Send => 0,
        DiscoveryStep::Found(_) => 1,
        DiscoveryStep::GiveUp => 2,
    }
}

/// The next step of a discovery round after `attempts` requests were sent,
/// given what the last wait yielded (nothing before the first request).
pub fn discovery_step(attempts: u32, found: Option<Vec<String>>) -> (step: DiscoveryStep)
    ensures
        kind_of(step) == step_kind(attempts as nat, found is Some),
        found matches Some(wss) ==> step == DiscoveryStep::Found(wss),
{
    match found {
        Some(wss) => DiscoveryStep::Found(wss),
        None => if attempts < MAX_DISCOVERY_ATTEMPTS {
            DiscoveryStep::Send
        } else {
            DiscoveryStep::GiveUp
        },
    }
}

/// How many requests a round sends in all, when `attempts` were sent so far,
/// the last wait found nothing, and the waits still to come yield `waits`
/// (whether each finds a controller).
pub open spec fn requests_sent(attempts: nat, waits: Seq<bool>) -> nat
    decreases waits.len(),
{
    if step_kind(attempts, false) != 0 || waits.len() == 0 {
        attempts
    } else if step_kind(attempts + 1, waits[0]) == 0 {
        requests_sent(attempts + 1, waits.drop_first())
    } else {
        attempts + 1
    }
}

/// A round never sends more than ten requests, whatever the waits yield.
pub proof fn law_discovery_bounded(attempts: nat, waits: Seq<bool>)
    requires
        attempts <= MAX_DISCOVERY_ATTEMPTS,
    ensures
        requests_sent(attempts, waits) <= MAX_DISCOVERY_ATTEMPTS,
    decreases waits.len(),
{
    if step_kind(attempts, false) == 0 && waits.len() > 0 && step_kind(attempts + 1, waits[0]) == 0 {
        law_discovery_bounded(attempts + 1, waits.drop_first());
    }
}

/// A round in which no answer finds a controller sends exactly ten
/// requests; an answer that finds one ends the round at the request it
/// answered.
pub proof fn law_round_sends_ten(attempts: nat, waits: Seq<bool>)
    requires
        attempts <= MAX_DISCOVERY_ATTEMPTS,
    ensures
        (forall|i: int| 0 <= i < waits.len() ==> !#[trigger] waits[i]) && waits.len() + attempts >= 10
            ==> requests_sent(attempts, waits) == 10,
        attempts < 10 && waits.len() > 0 && waits[0] ==> requests_sent(attempts, waits) == attempts + 1,
    decreases waits.len(),
{
    if attempts < 10 && waits.len() > 0 {
        let rest = waits.drop_first();
        law_round_sends_ten(attempts + 1, rest);
        if forall|i: int| 0 <= i < waits.len() ==> !#[trigger] waits[i] {
            assert forall|i: int| 0 <= i < rest.len() implies !#[trigger] rest[i] by {
                assert(rest[i] == waits[i + 1]);
            }
            assert(!waits[0]);
        }
    }
}

} // verus!
