//! Events that travel alongside requests and responses.
use vstd::prelude::*;

verus! {

/// An event raised by the controller.
#[derive(Debug, Clone)]
pub struct ControllerEvent {
    pub id: u64,
    pub event: String,
    pub data: String,
}

/// An event raised by an agent.
#[derive(Debug, Clone)]
pub struct AgentEvent {
    pub id: u64,
    pub event: String,
    pub data: String,
}

} // verus!
