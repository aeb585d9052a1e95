//! What a running instance reports about itself on its status socket.

use vstd::prelude::*;

verus! {

/// The state of one provider behind the gateway.
#[derive(Debug, Clone, PartialEq, Eq)]
pub struct ProviderStatus {
    pub name: String,
    pub connected: bool,
    pub provider_type: String,
    pub target: String,
}

/// The gateway's state and that of each of its providers.
#[derive(Debug, Clone, PartialEq, Eq)]
pub struct GatewayStatusReport {
    pub state: String,
    pub providers: Vec<ProviderStatus>,
}

} // verus!
