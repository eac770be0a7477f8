//! Which layers the transport of all connections is built from.

use vstd::prelude::*;

verus! {

/// The seconds after which the upgrade of a connection is given up.
pub const UPGRADE_TIMEOUT_SECS: u64 = 20;

/// What lies under the authentication and the multiplexing of a connection.
#[derive(Clone, Copy, Debug, PartialEq, Eq, Structural)]
pub enum WireLayout {
    /// Connections within this process only.
    Memory,
    /// The wire transport with name resolution, and websockets over it.
    ResolvedWithWebsocket,
    /// The wire transport as it is, and websockets over it. Secure
    /// websockets do not work without name resolution.
    DirectWithWebsocket,
}

/// The layout for a transport that is `memory_only` or goes over the wire,
/// where `dns_ready` says whether name resolution could be set up.
pub open spec fn layout_for(memory_only: bool, dns_ready: bool) -> WireLayout {
    if memory_only {
        WireLayout::Memory
    } else if dns_ready {
        WireLayout::ResolvedWithWebsocket
    } else {
        WireLayout::DirectWithWebsocket
    }
}

/// Picks the layers of the transport. In memory nothing is resolved; over
/// the wire, name resolution is used wherever it could be set up.
pub fn basic_transport_layout(memory_only: bool, dns_ready: bool) -> (layout: WireLayout)
    ensures
        layout == layout_for(memory_only, dns_ready),
{
    if memory_only {
        WireLayout::Memory
    } else if dns_ready {
        WireLayout::ResolvedWithWebsocket
    } else {
        WireLayout::DirectWithWebsocket
    }
}

} // verus!
