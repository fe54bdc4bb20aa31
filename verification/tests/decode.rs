use sniffer::addr::IpAddress;
use sniffer::frame::{decode_frame, EthernetHeader, FrameOutcome};
use sniffer::hex::map_hex_dump;
use sniffer::network::NetworkOutcome;
use sniffer::transport::{decode_transport, TransportOutcome};

const SRC_MAC: [u8; 6] = [0x02, 0x11, 0x22, 0x33, 0x44, 0x55];
const DST_MAC: [u8; 6] = [0x02, 0xaa, 0xbb, 0xcc, 0xdd, 0xee];

fn ethernet_frame(ethertype: u16, payload: &[u8]) -> Vec<u8> {
    let mut frame = Vec::new();
    frame.extend_from_slice(&DST_MAC);
    frame.extend_from_slice(&SRC_MAC);
    frame.push((ethertype >> 8) as u8);
    frame.push((ethertype & 0xff) as u8);
    frame.extend_from_slice(payload);
    frame
}

fn ipv4_packet(protocol: u8, source: [u8; 4], dest: [u8; 4], payload: &[u8]) -> Vec<u8> {
    let mut packet = vec![0u8; 20];
    packet[0] = 0x45;
    packet[9] = protocol;
    packet[12..16].copy_from_slice(&source);
    packet[16..20].copy_from_slice(&dest);
    packet.extend_from_slice(payload);
    packet
}

fn tcp_segment(source_port: u16, dest_port: u16, payload: &[u8]) -> Vec<u8> {
    let mut segment = vec![0u8; 20];
    segment[0] = (source_port >> 8) as u8;
    segment[1] = (source_port & 0xff) as u8;
    segment[2] = (dest_port >> 8) as u8;
    segment[3] = (dest_port & 0xff) as u8;
    segment[12] = 0x50;
    segment.extend_from_slice(payload);
    segment
}

fn udp_segment(source_port: u16, dest_port: u16, payload: &[u8]) -> Vec<u8> {
    let mut segment = vec![0u8; 8];
    segment[0] = (source_port >> 8) as u8;
    segment[1] = (source_port & 0xff) as u8;
    segment[2] = (dest_port >> 8) as u8;
    segment[3] = (dest_port & 0xff) as u8;
    segment.extend_from_slice(payload);
    segment
}

fn expect_decoded(outcome: FrameOutcome) -> (EthernetHeader, NetworkOutcome) {
    match outcome {
        FrameOutcome::Decoded { header, network } => (header, network),
        FrameOutcome::MalformedEthernet => panic!("expected a decoded frame"),
    }
}

#[test]
fn short_frame_is_malformed_ethernet() {
    assert!(matches!(decode_frame(&[], false), FrameOutcome::MalformedEthernet));
    assert!(matches!(decode_frame(&[0u8; 13], false), FrameOutcome::MalformedEthernet));
    assert!(matches!(decode_frame(&[0u8; 14], false), FrameOutcome::Decoded { .. }));
}

#[test]
fn ipv4_tcp_frame_decodes_with_exact_fields() {
    let segment = tcp_segment(8080, 443, b"hi");
    let packet = ipv4_packet(6, [10, 0, 0, 1], [10, 0, 0, 2], &segment);
    let frame = ethernet_frame(0x0800, &packet);

    let (header, network) = expect_decoded(decode_frame(&frame, false));
    assert_eq!(header.source.octets, SRC_MAC.to_vec());
    assert_eq!(header.destination.octets, DST_MAC.to_vec());
    assert_eq!(header.ethertype, 0x0800);
    match network {
        NetworkOutcome::Ip { source, destination, protocol, transport } => {
            assert!(matches!(source, IpAddress::V4(v) if v == vec![10, 0, 0, 1]));
            assert!(matches!(destination, IpAddress::V4(v) if v == vec![10, 0, 0, 2]));
            assert_eq!(protocol, 6);
            match transport {
                TransportOutcome::Tcp { source_port, dest_port, payload_len, hex } => {
                    assert_eq!(source_port, 8080);
                    assert_eq!(dest_port, 443);
                    assert_eq!(payload_len, 2);
                    assert!(hex.is_none());
                }
                _ => panic!("expected a TCP classification"),
            }
        }
        _ => panic!("expected an IP outcome"),
    }
}

#[test]
fn ipv4_udp_frame_decodes_and_hex_dump_reparses() {
    let payload = b"hello world";
    let segment = udp_segment(5353, 53, payload);
    let packet = ipv4_packet(17, [192, 168, 1, 9], [8, 8, 8, 8], &segment);
    let frame = ethernet_frame(0x0800, &packet);

    let (_, network) = expect_decoded(decode_frame(&frame, true));
    match network {
        NetworkOutcome::Ip { protocol, transport, .. } => {
            assert_eq!(protocol, 17);
            match transport {
                TransportOutcome::Udp { source_port, dest_port, payload_len, hex } => {
                    assert_eq!(source_port, 5353);
                    assert_eq!(dest_port, 53);
                    assert_eq!(payload_len, payload.len());
                    let rendered = hex.expect("the hex dump was asked for");
                    assert_eq!(rendered, map_hex_dump(payload));
                    let hex_column = &rendered[..47];
                    let reparsed: Vec<u8> = hex_column
                        .trim_end()
                        .split(' ')
                        .map(|pair| u8::from_str_radix(pair, 16).unwrap())
                        .collect();
                    assert_eq!(reparsed, payload.to_vec());
                }
                _ => panic!("expected a UDP classification"),
            }
        }
        _ => panic!("expected an IP outcome"),
    }
}

#[test]
fn ipv6_udp_frame_decodes_with_exact_addresses() {
    let segment = udp_segment(1000, 2000, b"x");
    let mut packet = vec![0u8; 40];
    packet[6] = 17;
    for i in 0..16 {
        packet[8 + i] = i as u8;
        packet[24 + i] = 0xf0 + i as u8;
    }
    packet.extend_from_slice(&segment);
    let frame = ethernet_frame(0x86DD, &packet);

    let (_, network) = expect_decoded(decode_frame(&frame, false));
    match network {
        NetworkOutcome::Ip { source, destination, protocol, transport } => {
            let expected_source: Vec<u8> = (0u8..16u8).collect();
            let expected_dest: Vec<u8> = (0u8..16u8).map(|i| 0xf0 + i).collect();
            assert!(matches!(source, IpAddress::V6(v) if v == expected_source));
            assert!(matches!(destination, IpAddress::V6(v) if v == expected_dest));
            assert_eq!(protocol, 17);
            assert!(matches!(
                transport,
                TransportOutcome::Udp { source_port: 1000, dest_port: 2000, .. }
            ));
        }
        _ => panic!("expected an IP outcome"),
    }
}

#[test]
fn unrecognized_ethertype_reports_exact_tag() {
    let frame = ethernet_frame(0x0806, &[0u8; 28]);
    let (header, network) = expect_decoded(decode_frame(&frame, false));
    assert_eq!(header.ethertype, 0x0806);
    match network {
        NetworkOutcome::UnrecognizedEthertype { ethertype, payload_len } => {
            assert_eq!(ethertype, 0x0806);
            assert_eq!(payload_len, 28);
        }
        _ => panic!("expected the unrecognized-ethertype outcome"),
    }
}

#[test]
fn truncated_ipv4_packet_is_malformed() {
    let frame = ethernet_frame(0x0800, &[0x45u8; 10]);
    let (_, network) = expect_decoded(decode_frame(&frame, false));
    assert!(matches!(network, NetworkOutcome::MalformedIpv4));
}

#[test]
fn ipv4_packet_with_bad_header_length_is_malformed() {
    let mut packet = ipv4_packet(6, [1, 2, 3, 4], [5, 6, 7, 8], &[]);
    packet[0] = 0x42;
    let frame = ethernet_frame(0x0800, &packet);
    let (_, network) = expect_decoded(decode_frame(&frame, false));
    assert!(matches!(network, NetworkOutcome::MalformedIpv4));
}

#[test]
fn truncated_ipv6_packet_is_malformed() {
    let frame = ethernet_frame(0x86DD, &[0u8; 39]);
    let (_, network) = expect_decoded(decode_frame(&frame, false));
    assert!(matches!(network, NetworkOutcome::MalformedIpv6));
}

#[test]
fn truncated_tcp_segment_is_malformed() {
    let outcome = decode_transport(6, &[0u8; 19], false);
    assert!(matches!(outcome, TransportOutcome::MalformedTcp));
}

#[test]
fn tcp_segment_with_bad_data_offset_is_malformed() {
    let mut segment = tcp_segment(1, 2, &[]);
    segment[12] = 0x40;
    let outcome = decode_transport(6, &segment, false);
    assert!(matches!(outcome, TransportOutcome::MalformedTcp));
}

#[test]
fn truncated_udp_segment_is_malformed() {
    let outcome = decode_transport(17, &[0u8; 7], false);
    assert!(matches!(outcome, TransportOutcome::MalformedUdp));
}

#[test]
fn unrecognized_transport_protocol_reports_raw_code() {
    let outcome = decode_transport(1, &[0u8; 30], true);
    match outcome {
        TransportOutcome::UnrecognizedProtocol { protocol, payload_len } => {
            assert_eq!(protocol, 1);
            assert_eq!(payload_len, 30);
        }
        _ => panic!("expected the unrecognized-protocol outcome"),
    }
}
