//! Frame-level decoding: the Ethernet header, and the single entry
//! point that classifies one captured frame. Every input classifies
//! into exactly one outcome; nothing panics.

use vstd::prelude::*;
use vstd::slice::slice_to_vec;
use crate::addr::{mac_wf, IpAddress, MacAddr};
use crate::network::{
    decode_network, ipv4_dest, ipv4_payload, ipv4_protocol, ipv4_source, ipv4_valid,
    network_outcome_ok, NetworkOutcome, ETHERTYPE_IPV4, ETHERTYPE_IPV6,
};
use crate::transport::{
    be16, tcp_valid, udp_payload, udp_valid, TransportOutcome, TCP_PROTOCOL, UDP_PROTOCOL,
};

verus! {

/// The fixed Ethernet header size in bytes.
pub const ETHERNET_HEADER_LEN: usize = 14;

/// A byte sequence starts with a usable Ethernet header.
pub open spec fn ethernet_valid(b: Seq<u8>) -> bool {
    b.len() >= 14
}

/// The destination MAC octets of a frame.
pub open spec fn eth_destination(b: Seq<u8>) -> Seq<u8>
    recommends
        ethernet_valid(b),
{
    b.subrange(0, 6)
}

/// The source MAC octets of a frame.
pub open spec fn eth_source(b: Seq<u8>) -> Seq<u8>
    recommends
        ethernet_valid(b),
{
    b.subrange(6, 12)
}

/// The declared ethertype of a frame.
pub open spec fn eth_ethertype(b: Seq<u8>) -> u16
    recommends
        ethernet_valid(b),
{
    be16(b, 12)
}

/// The Ethernet payload: what follows the 14-byte header.
pub open spec fn eth_payload(b: Seq<u8>) -> Seq<u8>
    recommends
        ethernet_valid(b),
{
    b.skip(14)
}

/// A fully-populated Ethernet header, derived from one frame.
pub struct EthernetHeader {
    pub destination: MacAddr,
    pub source: MacAddr,
    pub ethertype: u16,
}

/// The header holds exactly the fields of frame `b`.
pub open spec fn header_matches(h: EthernetHeader, b: Seq<u8>) -> bool {
    &&& h.destination.octets@ == eth_destination(b)
    &&& h.source.octets@ == eth_source(b)
    &&& h.ethertype == eth_ethertype(b)
}

/// What decoding one captured frame produced.
pub enum FrameOutcome {
    Decoded { header: EthernetHeader, network: NetworkOutcome },
    MalformedEthernet,
}

/// Exactly when each frame outcome arises from frame `b`, and what it
/// must carry.
pub open spec fn frame_outcome_ok(r: FrameOutcome, b: Seq<u8>, want_hex: bool) -> bool {
    match r {
        FrameOutcome::Decoded { header, network } => {
            &&& ethernet_valid(b)
            &&& header_matches(header, b)
            &&& mac_wf(header.destination) && mac_wf(header.source)
            &&& network_outcome_ok(network, eth_ethertype(b), eth_payload(b), want_hex)
        },
        FrameOutcome::MalformedEthernet => !ethernet_valid(b),
    }
}

/// Decodes one captured link-layer frame. A frame shorter than the
/// Ethernet header is malformed and nothing further is parsed; any
/// other frame yields its header and the network-layer outcome for
/// its payload.
pub fn decode_frame(frame: &[u8], want_hex: bool) -> (r: FrameOutcome)
    ensures
        frame_outcome_ok(r, frame@, want_hex),
{
    if frame.len() < ETHERNET_HEADER_LEN {
        FrameOutcome::MalformedEthernet
    } else {
        let destination = MacAddr { octets: slice_to_vec(&frame[0..6]) };
        let source = MacAddr { octets: slice_to_vec(&frame[6..12]) };
        let ethertype = (frame[12] as u16) * 256 + frame[13] as u16;
        let payload = &frame[14..frame.len()];
        proof {
            assert(destination.octets@ =~= eth_destination(frame@));
            assert(source.octets@ =~= eth_source(frame@));
            assert(payload@ =~= eth_payload(frame@));
        }
        let network = decode_network(ethertype, payload, want_hex);
        FrameOutcome::Decoded {
            header: EthernetHeader { destination, source, ethertype },
            network,
        }
    }
}

/// A frame shorter than the fixed Ethernet header size always
/// classifies as the malformed-Ethernet outcome; no other outcome can
/// be produced for it, so nothing downstream ever sees its bytes.
pub proof fn lemma_short_frame_is_malformed(r: FrameOutcome, b: Seq<u8>, want_hex: bool)
    requires
        b.len() < 14,
        frame_outcome_ok(r, b, want_hex),
    ensures
        r is MalformedEthernet,
{
}

/// Decoding a well-formed Ethernet+IPv4+TCP frame yields the TCP
/// classification, carrying exactly the frame's own MAC addresses,
/// IPv4 addresses and ports.
pub proof fn lemma_ipv4_tcp_trace(r: FrameOutcome, b: Seq<u8>, want_hex: bool)
    requires
        frame_outcome_ok(r, b, want_hex),
        ethernet_valid(b),
        eth_ethertype(b) == ETHERTYPE_IPV4,
        ipv4_valid(eth_payload(b)),
        ipv4_protocol(eth_payload(b)) == TCP_PROTOCOL,
        tcp_valid(ipv4_payload(eth_payload(b))),
    ensures
        r matches FrameOutcome::Decoded { header, network } && {
            let ip = eth_payload(b);
            let seg = ipv4_payload(ip);
            &&& header.source.octets@ == eth_source(b)
            &&& header.destination.octets@ == eth_destination(b)
            &&& network matches NetworkOutcome::Ip { source, destination, protocol, transport }
            &&& source matches IpAddress::V4(s) && s@ == ipv4_source(ip)
            &&& destination matches IpAddress::V4(d) && d@ == ipv4_dest(ip)
            &&& protocol == TCP_PROTOCOL
            &&& transport matches TransportOutcome::Tcp { source_port, dest_port, .. }
            &&& source_port == be16(seg, 0)
            &&& dest_port == be16(seg, 2)
        },
{
}

/// Decoding a well-formed Ethernet+IPv4+UDP frame yields the UDP
/// classification with the segment's own ports, and asking for the hex
/// dump attaches exactly the canonical rendering of the UDP payload —
/// from which, by `hex::lemma_dump_round_trip`, every payload byte can
/// be re-parsed.
pub proof fn lemma_ipv4_udp_trace(r: FrameOutcome, b: Seq<u8>, want_hex: bool)
    requires
        frame_outcome_ok(r, b, want_hex),
        ethernet_valid(b),
        eth_ethertype(b) == ETHERTYPE_IPV4,
        ipv4_valid(eth_payload(b)),
        ipv4_protocol(eth_payload(b)) == UDP_PROTOCOL,
        udp_valid(ipv4_payload(eth_payload(b))),
    ensures
        r matches FrameOutcome::Decoded { header, network } && {
            let seg = ipv4_payload(eth_payload(b));
            &&& network matches NetworkOutcome::Ip { source, destination, protocol, transport }
            &&& protocol == UDP_PROTOCOL
            &&& transport matches TransportOutcome::Udp { source_port, dest_port, payload_len, hex }
            &&& source_port == be16(seg, 0)
            &&& dest_port == be16(seg, 2)
            &&& payload_len == udp_payload(seg).len()
            &&& (want_hex ==> (hex matches Some(h) && h@ == crate::hex::dump_spec(udp_payload(seg))))
            &&& (!want_hex ==> hex is None)
        },
{
}

/// An ethertype outside the decoded set never raises a fault: the frame
/// decodes to the unrecognized-ethertype outcome carrying exactly that
/// numeric tag, beside the frame's own MAC addresses in the header.
pub proof fn lemma_unrecognized_ethertype(r: FrameOutcome, b: Seq<u8>, want_hex: bool)
    requires
        frame_outcome_ok(r, b, want_hex),
        ethernet_valid(b),
        eth_ethertype(b) != ETHERTYPE_IPV4,
        eth_ethertype(b) != ETHERTYPE_IPV6,
    ensures
        r matches FrameOutcome::Decoded { header, network } && {
            &&& header_matches(header, b)
            &&& network matches NetworkOutcome::UnrecognizedEthertype { ethertype, payload_len }
            &&& ethertype == eth_ethertype(b)
            &&& payload_len == b.len() - 14
        },
{
}

} // verus!
