//! A single envelope for either direction of the controller protocol.
use vstd::prelude::*;

use crate::protocol::controller::{AgentResponse, ControllerRequest};

verus! {

/// The revision of the controller protocol this envelope carries.
pub const PROTOCOL_VERSION: u32 = 3;

/// A request, a response, or nothing.
#[derive(Debug, Clone)]
pub enum Message {
    Empty,
    ControllerRequest(ControllerRequest),
    AgentResponse(AgentResponse),
}

} // verus!
