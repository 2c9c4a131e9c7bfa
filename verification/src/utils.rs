//! Containers shared between the agent's tasks.
pub mod mailbox;
pub mod state;
