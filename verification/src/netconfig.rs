//! The static network plan: a fixed local address, a fixed prefix length and
//! a default route derived from the local address. Configuration only; the
//! network stack applies it once at boot.

use vstd::prelude::*;

verus! {

/// Prefix length of the node's static address: a /24 network.
pub const STATIC_PREFIX_LEN: u8 = 24;

/// An IPv4 address as its four octets.
#[derive(Clone, Copy, PartialEq, Eq, Structural, Debug)]
pub struct Ipv4Octets {
    pub o0: u8,
    pub o1: u8,
    pub o2: u8,
    pub o3: u8,
}

/// Everything the network stack needs at boot: the local address with its
/// prefix length, and the gateway of the single default route.
#[derive(Clone, Copy, PartialEq, Eq, Structural, Debug)]
pub struct StaticNetworkPlan {
    pub address: Ipv4Octets,
    pub prefix_len: u8,
    pub gateway: Ipv4Octets,
}

/// Derive the boot-time network plan from the node's static address: the
/// address itself under a /24 prefix, and a default route to the first host
/// of the same network.
pub fn static_network_plan(address: Ipv4Octets) -> (plan: StaticNetworkPlan)
    ensures
        plan.address == address,
        plan.prefix_len == STATIC_PREFIX_LEN,
        plan.gateway == (Ipv4Octets { o0: address.o0, o1: address.o1, o2: address.o2, o3: 1 }),
{
    StaticNetworkPlan {
        address,
        prefix_len: STATIC_PREFIX_LEN,
        gateway: Ipv4Octets { o0: address.o0, o1: address.o1, o2: address.o2, o3: 1 },
    }
}

} // verus!
