//! The agent's own decisions: its identity, the tasks it runs and how it
//! talks to the controller.
pub mod executor;
pub mod identity;
pub mod net;
