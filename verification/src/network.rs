//! Network-layer decoding: IPv4 and IPv6 headers, addresses, and the
//! embedded next-protocol identifier. Ethertypes outside the decoded
//! set are reported, not rejected.

use vstd::prelude::*;
use vstd::slice::slice_to_vec;
use crate::addr::IpAddress;
use crate::transport::{decode_transport, transport_outcome_ok, TransportOutcome};

verus! {

/// The ethertype of IPv4.
pub const ETHERTYPE_IPV4: u16 = 0x0800;

/// The ethertype of IPv6.
pub const ETHERTYPE_IPV6: u16 = 0x86DD;

/// The IPv4 header length in bytes, read from the IHL field.
pub open spec fn ipv4_header_len(b: Seq<u8>) -> int
    recommends
        b.len() >= 20,
{
    4 * (b[0] % 16)
}

/// A byte sequence starts with a usable IPv4 header: at least the
/// 20-byte minimum, and a header length that stays within the bytes.
pub open spec fn ipv4_valid(b: Seq<u8>) -> bool {
    b.len() >= 20 && b[0] % 16 >= 5 && ipv4_header_len(b) <= b.len()
}

/// The IPv4 source address octets.
pub open spec fn ipv4_source(b: Seq<u8>) -> Seq<u8>
    recommends
        ipv4_valid(b),
{
    b.subrange(12, 16)
}

/// The IPv4 destination address octets.
pub open spec fn ipv4_dest(b: Seq<u8>) -> Seq<u8>
    recommends
        ipv4_valid(b),
{
    b.subrange(16, 20)
}

/// The IPv4 next-protocol identifier.
pub open spec fn ipv4_protocol(b: Seq<u8>) -> u8
    recommends
        ipv4_valid(b),
{
    b[9]
}

/// The IPv4 payload: what follows the header.
pub open spec fn ipv4_payload(b: Seq<u8>) -> Seq<u8>
    recommends
        ipv4_valid(b),
{
    b.skip(ipv4_header_len(b))
}

/// A byte sequence starts with a usable IPv6 header: the fixed 40 bytes.
pub open spec fn ipv6_valid(b: Seq<u8>) -> bool {
    b.len() >= 40
}

/// The IPv6 source address octets.
pub open spec fn ipv6_source(b: Seq<u8>) -> Seq<u8>
    recommends
        ipv6_valid(b),
{
    b.subrange(8, 24)
}

/// The IPv6 destination address octets.
pub open spec fn ipv6_dest(b: Seq<u8>) -> Seq<u8>
    recommends
        ipv6_valid(b),
{
    b.subrange(24, 40)
}

/// The IPv6 next-header field, standing in for IPv4's protocol field.
pub open spec fn ipv6_next_header(b: Seq<u8>) -> u8
    recommends
        ipv6_valid(b),
{
    b[6]
}

/// The IPv6 payload: what follows the fixed header.
pub open spec fn ipv6_payload(b: Seq<u8>) -> Seq<u8>
    recommends
        ipv6_valid(b),
{
    b.skip(40)
}

/// What decoding one Ethernet payload produced.
pub enum NetworkOutcome {
    Ip {
        source: IpAddress,
        destination: IpAddress,
        protocol: u8,
        transport: TransportOutcome,
    },
    MalformedIpv4,
    MalformedIpv6,
    UnrecognizedEthertype { ethertype: u16, payload_len: usize },
}

/// Exactly when each network outcome arises from ethertype `ethertype`
/// and Ethernet payload `b`, and what it must carry.
pub open spec fn network_outcome_ok(
    r: NetworkOutcome,
    ethertype: u16,
    b: Seq<u8>,
    want_hex: bool,
) -> bool {
    match r {
        NetworkOutcome::Ip { source, destination, protocol, transport } => {
            ||| {
                &&& ethertype == ETHERTYPE_IPV4
                &&& ipv4_valid(b)
                &&& source matches IpAddress::V4(s) && s@ == ipv4_source(b)
                &&& destination matches IpAddress::V4(d) && d@ == ipv4_dest(b)
                &&& protocol == ipv4_protocol(b)
                &&& transport_outcome_ok(transport, protocol, ipv4_payload(b), want_hex)
            }
            ||| {
                &&& ethertype == ETHERTYPE_IPV6
                &&& ipv6_valid(b)
                &&& source matches IpAddress::V6(s) && s@ == ipv6_source(b)
                &&& destination matches IpAddress::V6(d) && d@ == ipv6_dest(b)
                &&& protocol == ipv6_next_header(b)
                &&& transport_outcome_ok(transport, protocol, ipv6_payload(b), want_hex)
            }
        },
        NetworkOutcome::MalformedIpv4 => ethertype == ETHERTYPE_IPV4 && !ipv4_valid(b),
        NetworkOutcome::MalformedIpv6 => ethertype == ETHERTYPE_IPV6 && !ipv6_valid(b),
        NetworkOutcome::UnrecognizedEthertype { ethertype: tag, payload_len } => {
            &&& tag == ethertype
            &&& ethertype != ETHERTYPE_IPV4
            &&& ethertype != ETHERTYPE_IPV6
            &&& payload_len == b.len()
        },
    }
}

/// Decodes one Ethernet payload according to the frame's declared
/// ethertype: IPv4 and IPv6 yield addresses and the next protocol and
/// hand the rest to the transport decoder; a short header yields the
/// malformed outcome; any other ethertype is reported with its raw tag.
pub fn decode_network(ethertype: u16, bytes: &[u8], want_hex: bool) -> (r: NetworkOutcome)
    ensures
        network_outcome_ok(r, ethertype, bytes@, want_hex),
{
    if ethertype == ETHERTYPE_IPV4 {
        if bytes.len() >= 20 {
            let ihl = bytes[0] % 16;
            let header_len = 4 * (ihl as usize);
            if ihl >= 5 && header_len <= bytes.len() {
                let source = slice_to_vec(&bytes[12..16]);
                let destination = slice_to_vec(&bytes[16..20]);
                let protocol = bytes[9];
                let rest = &bytes[header_len..bytes.len()];
                proof {
                    assert(source@ =~= ipv4_source(bytes@));
                    assert(destination@ =~= ipv4_dest(bytes@));
                    assert(rest@ =~= ipv4_payload(bytes@));
                }
                let transport = decode_transport(protocol, rest, want_hex);
                NetworkOutcome::Ip {
                    source: IpAddress::V4(source),
                    destination: IpAddress::V4(destination),
                    protocol,
                    transport,
                }
            } else {
                NetworkOutcome::MalformedIpv4
            }
        } else {
            NetworkOutcome::MalformedIpv4
        }
    } else if ethertype == ETHERTYPE_IPV6 {
        if bytes.len() >= 40 {
            let source = slice_to_vec(&bytes[8..24]);
            let destination = slice_to_vec(&bytes[24..40]);
            let protocol = bytes[6];
            let rest = &bytes[40..bytes.len()];
            proof {
                assert(source@ =~= ipv6_source(bytes@));
                assert(destination@ =~= ipv6_dest(bytes@));
                assert(rest@ =~= ipv6_payload(bytes@));
            }
            let transport = decode_transport(protocol, rest, want_hex);
            NetworkOutcome::Ip {
                source: IpAddress::V6(source),
                destination: IpAddress::V6(destination),
                protocol,
                transport,
            }
        } else {
            NetworkOutcome::MalformedIpv6
        }
    } else {
        NetworkOutcome::UnrecognizedEthertype { ethertype, payload_len: bytes.len() }
    }
}

} // verus!
