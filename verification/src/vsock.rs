//! Addresses on the host channel: a context identifier and a port.

use vstd::prelude::*;

verus! {

/// The context identifier that stands for every context.
pub const WILDCARD_CONTEXT: u32 = 0xFFFF_FFFF;

/// Reads `libc::VMADDR_CID_ANY`, which libc defines as `0xFFFFFFFF`, the
/// value the contract gives.
#[verifier::external_body]
fn vmaddr_cid_any() -> (cid: u32)
    ensures
        cid == 0xFFFF_FFFFu32,
{
    libc::VMADDR_CID_ANY
}

/// Where the agent listens for the host.
#[derive(Clone, Copy, Debug, PartialEq, Eq, Structural, Hash)]
pub struct ChannelEndpoint {
    pub context_id: u32,
    pub port: u32,
}

impl ChannelEndpoint {
    /// The endpoint on `port` that accepts connections from any context.
    pub open spec fn spec_wildcard(port: u32) -> ChannelEndpoint {
        ChannelEndpoint { context_id: WILDCARD_CONTEXT, port }
    }

    /// The endpoint on `port` that accepts connections from any context.
    #[verifier::when_used_as_spec(spec_wildcard)]
    pub fn wildcard(port: u32) -> (endpoint: ChannelEndpoint)
        ensures
            endpoint == ChannelEndpoint::spec_wildcard(port),
    {
        ChannelEndpoint { context_id: vmaddr_cid_any(), port }
    }

    /// Whether the endpoint accepts connections from any context.
    pub fn is_wildcard(&self) -> (r: bool)
        ensures
            r == (self.context_id == WILDCARD_CONTEXT),
    {
        self.context_id == vmaddr_cid_any()
    }
}

} // verus!
