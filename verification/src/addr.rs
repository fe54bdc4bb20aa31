//! Link-layer and network-layer addresses, kept as plain octet vectors
//! so that each family keeps its own byte width.

use vstd::prelude::*;

verus! {

/// A 6-byte Ethernet hardware address.
pub struct MacAddr {
    pub octets: Vec<u8>,
}

/// A MAC address is well formed when it holds exactly 6 octets.
pub open spec fn mac_wf(m: MacAddr) -> bool {
    m.octets@.len() == 6
}

/// One network-layer address: either 4 IPv4 octets or 16 IPv6 octets.
/// The two families are distinct variants and never share a width.
pub enum IpAddress {
    V4(Vec<u8>),
    V6(Vec<u8>),
}

/// An address is well formed when its octet count fits its family.
pub open spec fn ip_wf(a: IpAddress) -> bool {
    match a {
        IpAddress::V4(v) => v@.len() == 4,
        IpAddress::V6(v) => v@.len() == 16,
    }
}

} // verus!
