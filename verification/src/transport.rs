//! Transport-layer decoding: TCP and UDP headers, ports, and the
//! optional hex dump of the transport payload. Protocols outside the
//! decoded set are reported, not rejected.

use vstd::prelude::*;
use crate::hex::{dump_spec, map_hex_dump};

verus! {

/// The IP next-protocol identifier of TCP.
pub const TCP_PROTOCOL: u8 = 6;

/// The IP next-protocol identifier of UDP.
pub const UDP_PROTOCOL: u8 = 17;

/// The big-endian 16-bit value at offset `i`.
pub open spec fn be16(b: Seq<u8>, i: int) -> u16
    recommends
        0 <= i,
        i + 2 <= b.len(),
{
    (b[i] * 256 + b[i + 1]) as u16
}

/// The TCP header length in bytes, read from the data-offset field.
pub open spec fn tcp_header_len(b: Seq<u8>) -> int
    recommends
        b.len() >= 20,
{
    4 * (b[12] / 16)
}

/// A byte sequence starts with a usable TCP header: at least the
/// 20-byte minimum, and a data offset that stays within the bytes.
pub open spec fn tcp_valid(b: Seq<u8>) -> bool {
    b.len() >= 20 && b[12] / 16 >= 5 && tcp_header_len(b) <= b.len()
}

/// The TCP payload: what follows the header.
pub open spec fn tcp_payload(b: Seq<u8>) -> Seq<u8>
    recommends
        tcp_valid(b),
{
    b.skip(tcp_header_len(b))
}

/// A byte sequence starts with a usable UDP header: the fixed 8 bytes.
pub open spec fn udp_valid(b: Seq<u8>) -> bool {
    b.len() >= 8
}

/// The UDP payload: what follows the 8-byte header.
pub open spec fn udp_payload(b: Seq<u8>) -> Seq<u8>
    recommends
        udp_valid(b),
{
    b.skip(8)
}

/// What decoding one transport-layer slice produced.
pub enum TransportOutcome {
    Tcp { source_port: u16, dest_port: u16, payload_len: usize, hex: Option<String> },
    Udp { source_port: u16, dest_port: u16, payload_len: usize, hex: Option<String> },
    MalformedTcp,
    MalformedUdp,
    UnrecognizedProtocol { protocol: u8, payload_len: usize },
}

/// The optional hex field: the rendered dump of the payload exactly
/// when it was asked for, absent otherwise.
pub open spec fn hex_field_ok(h: Option<String>, payload: Seq<u8>, want_hex: bool) -> bool {
    if want_hex {
        h matches Some(s) && s@ == dump_spec(payload)
    } else {
        h is None
    }
}

/// Exactly when each transport outcome arises from protocol `protocol`
/// and transport slice `b`, and what it must carry.
pub open spec fn transport_outcome_ok(
    r: TransportOutcome,
    protocol: u8,
    b: Seq<u8>,
    want_hex: bool,
) -> bool {
    match r {
        TransportOutcome::Tcp { source_port, dest_port, payload_len, hex } => {
            &&& protocol == TCP_PROTOCOL
            &&& tcp_valid(b)
            &&& source_port == be16(b, 0)
            &&& dest_port == be16(b, 2)
            &&& payload_len == tcp_payload(b).len()
            &&& hex_field_ok(hex, tcp_payload(b), want_hex)
        },
        TransportOutcome::Udp { source_port, dest_port, payload_len, hex } => {
            &&& protocol == UDP_PROTOCOL
            &&& udp_valid(b)
            &&& source_port == be16(b, 0)
            &&& dest_port == be16(b, 2)
            &&& payload_len == udp_payload(b).len()
            &&& hex_field_ok(hex, udp_payload(b), want_hex)
        },
        TransportOutcome::MalformedTcp => protocol == TCP_PROTOCOL && !tcp_valid(b),
        TransportOutcome::MalformedUdp => protocol == UDP_PROTOCOL && !udp_valid(b),
        TransportOutcome::UnrecognizedProtocol { protocol: tag, payload_len } => {
            &&& tag == protocol
            &&& protocol != TCP_PROTOCOL
            &&& protocol != UDP_PROTOCOL
            &&& payload_len == b.len()
        },
    }
}

/// Reads the big-endian 16-bit value at offset `i`.
fn read_be16(b: &[u8], i: usize) -> (r: u16)
    requires
        i + 2 <= b@.len(),
    ensures
        r == be16(b@, i as int),
{
    (b[i] as u16) * 256 + b[i + 1] as u16
}

/// Decodes one transport-layer slice according to the IP next-protocol
/// identifier: TCP and UDP yield their ports (and, on request, the hex
/// dump of their payload); a short header yields the malformed outcome;
/// any other protocol is reported with its raw code.
pub fn decode_transport(protocol: u8, bytes: &[u8], want_hex: bool) -> (r: TransportOutcome)
    ensures
        transport_outcome_ok(r, protocol, bytes@, want_hex),
{
    if protocol == TCP_PROTOCOL {
        if bytes.len() >= 20 {
            let offset_words = bytes[12] / 16;
            let header_len = 4 * (offset_words as usize);
            if offset_words >= 5 && header_len <= bytes.len() {
                let payload = &bytes[header_len..bytes.len()];
                proof {
                    assert(payload@ =~= tcp_payload(bytes@));
                }
                let hex = if want_hex {
                    Some(map_hex_dump(payload))
                } else {
                    None
                };
                TransportOutcome::Tcp {
                    source_port: read_be16(bytes, 0),
                    dest_port: read_be16(bytes, 2),
                    payload_len: payload.len(),
                    hex,
                }
            } else {
                TransportOutcome::MalformedTcp
            }
        } else {
            TransportOutcome::MalformedTcp
        }
    } else if protocol == UDP_PROTOCOL {
        if bytes.len() >= 8 {
            let payload = &bytes[8..bytes.len()];
            proof {
                assert(payload@ =~= udp_payload(bytes@));
            }
            let hex = if want_hex {
                Some(map_hex_dump(payload))
            } else {
                None
            };
            TransportOutcome::Udp {
                source_port: read_be16(bytes, 0),
                dest_port: read_be16(bytes, 2),
                payload_len: payload.len(),
                hex,
            }
        } else {
            TransportOutcome::MalformedUdp
        }
    } else {
        TransportOutcome::UnrecognizedProtocol { protocol, payload_len: bytes.len() }
    }
}

} // verus!
