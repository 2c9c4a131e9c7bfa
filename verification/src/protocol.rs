//! The messages exchanged between the controller and its agents.
pub mod controller;
pub mod discovery;
pub mod handshake;
pub mod messaging;
