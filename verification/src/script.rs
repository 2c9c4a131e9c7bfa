//! What the agent's scripts exchange with it: script values, and the
//! decisions behind the `fetch` call that scripts use for HTTP requests.
pub mod fetch;
pub mod value_type;
