//! Requests of the controller and responses of the agent.
pub mod agent;
pub mod controller;
