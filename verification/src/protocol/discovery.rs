//! The discovery protocol: an agent broadcasts a request, controllers
//! answer with the web-socket addresses they listen on.
use vstd::prelude::*;

verus! {

/// The revision of the discovery protocol this library speaks.
pub const PROTOCOL_REV: u32 = 1;

/// The magic word of a discovery request.
pub const MAGIC_REQUEST: &'static str = "MXA-DISCOVER";

/// The magic word of a discovery response.
pub const MAGIC_RESPONSE: &'static str = "MXA-RESPONSE";

/// The UDP port controllers listen on for discovery requests.
pub const DISCOVERY_PORT: u16 = 11451;

/// A discovery request.
#[derive(Debug, Clone)]
pub struct DiscoveryRequest {
    pub magic: String,
    pub revision: u32,
}

/// A controller's answer to a discovery request.
#[derive(Debug, Clone)]
pub struct DiscoveryResponse {
    pub magic: String,
    /// The web-socket addresses of the controller.
    pub ws: Vec<String>,
}

} // verus!
