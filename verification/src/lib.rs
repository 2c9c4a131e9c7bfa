//! Agent-side core of the MetalX Lite controller/agent system: message stores,
//! state storage, protocol messages and the decisions the agent makes on them.
pub mod agent;
pub mod arc_model;
pub mod discovery;
pub mod hash;
pub mod key_laws;
pub mod logger;
pub mod lsblk;
pub mod mailbox;
pub mod messages;
pub mod protocol;
pub mod script;
pub mod state;
pub mod system_info;
pub mod text;
pub mod utils;
