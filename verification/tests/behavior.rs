use packet_parser::l2::{L2Packet, ParseError as L2ParseError};
use packet_parser::l3::{IpAddress, L3Packet, ParseError as L3ParseError};
use packet_parser::l3_extensions::ipv4_options::{Ipv4OptionsIterator, Ipv4ZeroCopyOptionsIterator};
use packet_parser::l3_extensions::ipv6_extensions::ParseError as ExtParseError;
use packet_parser::l4::{L4Packet, ParseError as L4ParseError};
use packet_parser::l4_extensions::tcp_options::{TcpOptionsIterator, TcpZeroCopyOptionsIterator};
use packet_parser::packet::{HeaderPosition, Packet, ParseError as PacketParseError};
use packet_parser::tuples::FourTuple;

/// An Ethernet header with zeroed addresses and the given ethertype.
fn eth_header(ethertype: u16) -> Vec<u8> {
    let mut frame = vec![0u8; 12];
    frame.extend_from_slice(&ethertype.to_be_bytes());
    frame
}

/// A minimal 20-byte IPv4 header carrying the given transport protocol.
fn ipv4_header(protocol: u8, total_length: u16) -> Vec<u8> {
    let mut h = vec![0x45u8, 0x00];
    h.extend_from_slice(&total_length.to_be_bytes());
    h.extend_from_slice(&[0, 0, 0, 0]); // identification, flags/fragment
    h.push(64); // ttl
    h.push(protocol);
    h.extend_from_slice(&[0, 0]); // checksum
    h.extend_from_slice(&[10, 0, 0, 1]);
    h.extend_from_slice(&[10, 0, 0, 2]);
    h
}

/// A minimal 8-byte UDP header.
fn udp_header(source: u16, destination: u16) -> Vec<u8> {
    let mut h = Vec::new();
    h.extend_from_slice(&source.to_be_bytes());
    h.extend_from_slice(&destination.to_be_bytes());
    h.extend_from_slice(&8u16.to_be_bytes());
    h.extend_from_slice(&[0, 0]);
    h
}

const TCP_FRAME: [u8; 64] = [
    0x78, 0x2b, 0x46, 0x4b, 0x3b, 0xab, 0xb4, 0x8c, 0x9d, 0x5d, 0x81, 0x8b, 0x08, 0x00, 0x45,
    0x00, 0x00, 0x32, 0x36, 0x2b, 0x40, 0x00, 0x80, 0x06, 0x08, 0x94, 0xc0, 0xa8, 0x1d, 0x11,
    0xc0, 0xa8, 0x1d, 0xa5, 0xec, 0x62, 0x63, 0xdd, 0xc6, 0xef, 0xa3, 0xdf, 0x88, 0xce, 0x7e,
    0xbc, 0x50, 0x18, 0x02, 0x01, 0x0e, 0x83, 0x00, 0x00, 0x08, 0xff, 0x08, 0x00, 0x07, 0x9e,
    0x08, 0x00, 0x00, 0x00,
];

#[test]
fn test_unknown_l3_protocol() {
    let mut frame = eth_header(0x1234);
    frame.extend_from_slice(&[0u8; 40]);
    let result = Packet::try_from(frame.as_slice());
    assert!(matches!(
        result,
        Err(PacketParseError::L2Error(L2ParseError::ErrorAbove(
            L3ParseError::UnknownL3Protocol
        )))
    ));
}

#[test]
fn test_ethernet_too_short() {
    let bytes = [0u8; 10];
    assert!(matches!(
        Packet::try_from(bytes.as_slice()),
        Err(PacketParseError::L2Error(L2ParseError::Ethernet))
    ));
}

#[test]
fn test_vlan_too_short() {
    let mut frame = eth_header(0x8100);
    frame.extend_from_slice(&[0x00, 0x64]);
    assert!(matches!(
        Packet::try_from(frame.as_slice()),
        Err(PacketParseError::L2Error(L2ParseError::Vlan))
    ));
}

#[test]
fn test_stacked_vlans() {
    let mut frame = eth_header(0x8100);
    frame.extend_from_slice(&[0x20, 0x64, 0x81, 0x00]); // pcp 1, vid 100, then another tag
    frame.extend_from_slice(&[0x00, 0xc8, 0x08, 0x00]); // vid 200, then IPv4
    frame.extend_from_slice(&ipv4_header(17, 28));
    frame.extend_from_slice(&udp_header(4660, 22136));
    let parsed = Packet::try_from(frame.as_slice()).expect("stacked VLAN frame failed");
    let Packet::Regular(l2) = &parsed else {
        panic!("expected a regular packet")
    };
    let vlans = l2.get_vlans();
    assert_eq!(vlans.len(), 2);
    let first = l2.get_vlan_at(0).expect("first tag missing");
    assert_eq!(first.priority_code_point, 1);
    assert_eq!(first.vlan_identifier, 100);
    assert_eq!(first.ethertype, 0x8100);
    let second = l2.get_vlan_at(1).expect("second tag missing");
    assert_eq!(second.vlan_identifier, 200);
    assert_eq!(second.ethertype, 0x0800);
    assert!(l2.get_vlan_at(2).is_none());

    let four = parsed
        .get_four_tuple(HeaderPosition::Outer)
        .expect("four tuple missing");
    assert_eq!(
        four,
        FourTuple {
            source_ip: IpAddress::V4([10, 0, 0, 1]),
            source_port: 4660,
            destination_ip: IpAddress::V4([10, 0, 0, 2]),
            destination_port: 22136,
        }
    );
    let five = parsed
        .get_five_tuple(HeaderPosition::Outer)
        .expect("five tuple missing");
    assert_eq!(five.protocol, 17);
}

#[test]
fn test_ipv4_too_short() {
    let mut frame = eth_header(0x0800);
    frame.extend_from_slice(&[0u8; 10]);
    assert!(matches!(
        Packet::try_from(frame.as_slice()),
        Err(PacketParseError::L2Error(L2ParseError::ErrorAbove(L3ParseError::IPv4)))
    ));
}

#[test]
fn test_ipv4_header_length_claims_too_much() {
    let mut frame = eth_header(0x0800);
    let mut ip = ipv4_header(6, 40);
    ip[0] = 0x4f; // claims a 60-byte header; only 20 bytes follow
    frame.extend_from_slice(&ip);
    assert!(matches!(
        Packet::try_from(frame.as_slice()),
        Err(PacketParseError::L2Error(L2ParseError::ErrorAbove(L3ParseError::IPv4)))
    ));
}

#[test]
fn test_ipv4_header_length_below_minimum() {
    let mut frame = eth_header(0x0800);
    let mut ip = ipv4_header(6, 40);
    ip[0] = 0x41; // claims a 4-byte header
    frame.extend_from_slice(&ip);
    frame.extend_from_slice(&[0u8; 20]);
    assert!(matches!(
        Packet::try_from(frame.as_slice()),
        Err(PacketParseError::L2Error(L2ParseError::ErrorAbove(L3ParseError::IPv4)))
    ));
}

#[test]
fn test_ipv6_too_short() {
    let mut frame = eth_header(0x86DD);
    frame.extend_from_slice(&[0u8; 20]);
    assert!(matches!(
        Packet::try_from(frame.as_slice()),
        Err(PacketParseError::L2Error(L2ParseError::ErrorAbove(L3ParseError::IPv6)))
    ));
}

#[test]
fn test_arp_terminal_has_no_l4() {
    let mut frame = eth_header(0x0806);
    frame.extend_from_slice(&[0u8; 28]);
    assert!(matches!(
        Packet::try_from(frame.as_slice()),
        Err(PacketParseError::MissingL4)
    ));
}

#[test]
fn test_arp_too_short() {
    let mut frame = eth_header(0x0806);
    frame.extend_from_slice(&[0u8; 10]);
    assert!(matches!(
        Packet::try_from(frame.as_slice()),
        Err(PacketParseError::L2Error(L2ParseError::ErrorAbove(L3ParseError::Arp)))
    ));
}

#[test]
fn test_unknown_l4_protocol() {
    let mut frame = eth_header(0x0800);
    frame.extend_from_slice(&ipv4_header(99, 20));
    assert!(matches!(
        Packet::try_from(frame.as_slice()),
        Err(PacketParseError::L2Error(L2ParseError::ErrorAbove(L3ParseError::L4Error(
            L4ParseError::UnknownL4Protocol
        ))))
    ));
}

#[test]
fn test_l4_too_short_errors() {
    for (protocol, bytes_after_ip, expected) in [
        (6u8, 10usize, L4ParseError::Tcp),
        (17, 4, L4ParseError::Udp),
        (47, 2, L4ParseError::Gre),
        (1, 2, L4ParseError::Icmp),
        (58, 2, L4ParseError::Icmpv6),
    ] {
        let mut frame = eth_header(0x0800);
        frame.extend_from_slice(&ipv4_header(protocol, (20 + bytes_after_ip) as u16));
        frame.extend_from_slice(&vec![0u8; bytes_after_ip]);
        let result = Packet::try_from(frame.as_slice());
        match result {
            Err(PacketParseError::L2Error(L2ParseError::ErrorAbove(L3ParseError::L4Error(e)))) => {
                assert_eq!(e, expected)
            },
            other => panic!("unexpected result for protocol {protocol}: {other:?}"),
        }
    }
}

#[test]
fn test_ipv6_extension_chain_truncated() {
    // Hop-by-hop extension announced, but its declared length (16 bytes)
    // exceeds the 8 bytes present.
    let mut frame = eth_header(0x86DD);
    let mut ip6 = vec![0x60u8, 0, 0, 0];
    ip6.extend_from_slice(&8u16.to_be_bytes());
    ip6.push(0); // next header: hop-by-hop
    ip6.push(64); // hop limit
    ip6.extend_from_slice(&[0u8; 32]); // source + destination
    frame.extend_from_slice(&ip6);
    frame.extend_from_slice(&[17, 1, 0, 0, 0, 0, 0, 0]); // hdr_ext_len = 1
    assert!(matches!(
        Packet::try_from(frame.as_slice()),
        Err(PacketParseError::L2Error(L2ParseError::ErrorAbove(
            L3ParseError::Ipv6ExtensionError(ExtParseError::ExtensionParseFailure)
        )))
    ));
}

#[test]
fn test_ipv6_without_extensions() {
    let mut frame = eth_header(0x86DD);
    let mut ip6 = vec![0x60u8, 0, 0, 0];
    ip6.extend_from_slice(&4u16.to_be_bytes());
    ip6.push(58); // next header: ICMPv6, no extensions
    ip6.push(64);
    ip6.extend_from_slice(&[0u8; 32]);
    frame.extend_from_slice(&ip6);
    frame.extend_from_slice(&[128, 0, 0, 0]);
    let parsed = Packet::try_from(frame.as_slice()).expect("ICMPv6 frame failed");
    assert!(matches!(
        parsed,
        Packet::Regular(L2Packet::Ethernet(_, _, L3Packet::Ipv6(_, _, L4Packet::Icmpv6(_))))
    ));
    let Packet::Regular(L2Packet::Ethernet(_, _, L3Packet::Ipv6(_, extensions, _))) = &parsed
    else {
        panic!("expected an IPv6 packet")
    };
    assert_eq!(extensions.extensions.len(), 0);
    assert_eq!(extensions.next_protocol, 58);
    assert_eq!(extensions.length, 0);
}

#[test]
fn test_gre_routing_not_supported() {
    let mut frame = eth_header(0x0800);
    frame.extend_from_slice(&ipv4_header(47, 24));
    frame.extend_from_slice(&[0x40, 0x00, 0x08, 0x00]); // routing-present bit set
    assert!(matches!(
        Packet::try_from(frame.as_slice()),
        Err(PacketParseError::GreRoutingNotSupported)
    ));
}

#[test]
fn test_invalid_protocol_after_tunnel() {
    let mut frame = eth_header(0x0800);
    frame.extend_from_slice(&ipv4_header(47, 52));
    frame.extend_from_slice(&[0x00, 0x00, 0x08, 0x06]); // GRE carrying ARP
    frame.extend_from_slice(&[0u8; 28]);
    assert!(matches!(
        Packet::try_from(frame.as_slice()),
        Err(PacketParseError::InvalidProtocolAfterTunnel)
    ));
}

#[test]
fn test_error_inside_tunnel() {
    // GRE declares an IPv4 payload, but too few bytes follow for its header.
    let mut frame = eth_header(0x0800);
    frame.extend_from_slice(&ipv4_header(47, 34));
    frame.extend_from_slice(&[0x00, 0x00, 0x08, 0x00]);
    frame.extend_from_slice(&[0x45u8; 10]);
    assert!(matches!(
        Packet::try_from(frame.as_slice()),
        Err(PacketParseError::L3Error(L3ParseError::IPv4))
    ));
}

#[test]
fn test_gre_with_optional_fields() {
    // Checksum and key present: the GRE header grows to 12 bytes.
    let mut frame = eth_header(0x0800);
    frame.extend_from_slice(&ipv4_header(47, 60));
    frame.extend_from_slice(&[0xa0, 0x00, 0x08, 0x00]); // checksum + key present
    frame.extend_from_slice(&[0u8; 8]); // checksum/offset + key
    frame.extend_from_slice(&ipv4_header(17, 28));
    frame.extend_from_slice(&udp_header(7, 9));
    let parsed = Packet::try_from(frame.as_slice()).expect("GRE frame failed");
    assert!(matches!(
        parsed,
        Packet::L3Tunnel(_, L3Packet::Ipv4(_, L4Packet::Udp(_)))
    ));

    // The outer pair has no ports, so only the inner tuple exists.
    assert!(parsed.get_four_tuple(HeaderPosition::Outer).is_none());
    let inner = parsed
        .get_four_tuple(HeaderPosition::Inner)
        .expect("inner tuple missing");
    assert_eq!(inner.source_port, 7);
    assert_eq!(inner.destination_port, 9);
    let innermost = parsed
        .get_four_tuple(HeaderPosition::Innermost)
        .expect("innermost tuple missing");
    assert_eq!(innermost, inner);

    // No inner link layer exists; the outer one is returned for the rest.
    assert!(parsed.get_l2(HeaderPosition::Inner).is_none());
    assert!(parsed.get_l2(HeaderPosition::Outer).is_some());
    assert!(parsed.get_l3(HeaderPosition::Inner).is_some());
}

#[test]
fn test_inner_absent_for_regular_packet() {
    let parsed = Packet::try_from(TCP_FRAME.as_slice()).expect("packet parse failed");
    assert!(parsed.get_l3(HeaderPosition::Inner).is_none());
    assert!(parsed.get_l4(HeaderPosition::Inner).is_none());
    assert!(parsed.get_four_tuple(HeaderPosition::Inner).is_none());
    assert!(parsed.get_five_tuple(HeaderPosition::Inner).is_none());
}

#[test]
fn test_truncation_never_faults() {
    // Every proper prefix decodes without faulting; a prefix cut inside the
    // TCP header (or earlier) is an error, one cut in the payload is not.
    for n in 0..TCP_FRAME.len() {
        let result = Packet::try_from(&TCP_FRAME[..n]);
        assert_eq!(result.is_err(), n < 54, "prefix length {n}");
    }
}

#[test]
fn test_tuple_round_trip() {
    let parsed = Packet::try_from(TCP_FRAME.as_slice()).expect("packet parse failed");
    for position in [HeaderPosition::Inner, HeaderPosition::Outer, HeaderPosition::Innermost] {
        let four = parsed.get_four_tuple(position);
        let five = parsed.get_five_tuple(position);
        assert_eq!(four.is_some(), five.is_some());
        if let (Some(four), Some(five)) = (four, five) {
            assert_eq!(four.source_ip, five.source_ip);
            assert_eq!(four.source_port, five.source_port);
            assert_eq!(four.destination_ip, five.destination_ip);
            assert_eq!(four.destination_port, five.destination_port);
            assert_eq!(FourTuple::from(five), four);
        }
    }
}

#[test]
fn test_options_iteration_idempotent() {
    let window = [0x01u8, 0x01, 0x05, 0x0a, 0x83, 0x5a, 0x1d, 0xab, 0x83, 0x5a, 0x1d, 0xac];
    let mut first = TcpOptionsIterator::new(&window);
    let mut second = TcpOptionsIterator::new(&window);
    loop {
        let a = first.next();
        let b = second.next();
        assert_eq!(a, b);
        if a.is_none() {
            break;
        }
    }

    let window = [0x44u8, 0x04, 0xab, 0xcd, 0x00];
    let mut first = Ipv4OptionsIterator::new(&window);
    let mut second = Ipv4OptionsIterator::new(&window);
    loop {
        let a = first.next();
        let b = second.next();
        assert_eq!(a, b);
        if a.is_none() {
            break;
        }
    }
}

#[test]
fn test_collected_options_are_stable() {
    let window = [0x44u8, 0x04, 0xab, 0xcd, 0x00, 0x07];
    let first = Ipv4OptionsIterator::new(&window).collect_options();
    let second = Ipv4OptionsIterator::new(&window).collect_options();
    assert_eq!(first, second);
    // One 4-byte option, one EOL, then a truncated kind ends iteration.
    assert_eq!(first.len(), 2);
    assert_eq!(first[0].number, 4);
    assert_eq!(first[0].data, &[0xab, 0xcd]);
    assert_eq!(first[1].number, 0);

    let window = [0x01u8, 0x05, 0x04, 0xde, 0xad];
    let first = TcpOptionsIterator::new(&window).collect_options();
    let second = TcpOptionsIterator::new(&window).collect_options();
    assert_eq!(first, second);
    assert_eq!(first.len(), 2);
    assert_eq!(first[0].number, 1);
    assert_eq!(first[1].number, 5);
    assert_eq!(first[1].data, &[0xde, 0xad]);
}

#[test]
fn test_options_end_silently_on_malformed_tail() {
    // A lone option kind with no length byte ends iteration quietly.
    let mut it = Ipv4OptionsIterator::new(&[0x07]);
    assert!(it.next().is_none());
    // A declared length larger than the window does too.
    let mut it = TcpOptionsIterator::new(&[0x03, 0x0a, 0x01]);
    assert!(it.next().is_none());
    // EOL options are yielded and iteration continues byte by byte.
    let mut it = Ipv4OptionsIterator::new(&[0x00, 0x00]);
    assert_eq!(it.next().map(|o| o.number), Some(0));
    assert_eq!(it.next().map(|o| o.number), Some(0));
    assert!(it.next().is_none());
}

#[test]
fn test_options_through_trait() {
    let parsed = Packet::try_from(TCP_FRAME.as_slice()).expect("packet parse failed");
    let Packet::Regular(L2Packet::Ethernet(_, _, L3Packet::Ipv4(ipv4, L4Packet::Tcp(tcp)))) =
        &parsed
    else {
        panic!("expected an IPv4/TCP packet")
    };
    // The data offset declares a bare 20-byte header: no options either way.
    let mut by_trait = Ipv4ZeroCopyOptionsIterator::get_options_zero_copy(ipv4);
    assert!(by_trait.next().is_none());
    let mut by_trait = TcpZeroCopyOptionsIterator::get_options_zero_copy(tcp);
    assert!(by_trait.next().is_none());
}

#[test]
fn test_payload_of_innermost_layer() {
    let packet = [
        0x00u8, 0x00, 0x01, 0x06, 0x00, 0x00, 0x92, 0x75, 0xfe, 0xd1, 0x8e, 0x3b, 0x08, 0x00,
        0x45, 0x00, 0x00, 0x4b, 0xd7, 0xb2, 0x40, 0x00, 0x40, 0x06, 0x4c, 0xf6, 0x0a, 0x01, 0x01,
        0x02, 0x0a, 0x01, 0x01, 0x01, 0x84, 0xff, 0x00, 0xb3, 0x3c, 0x2f, 0xde, 0x76, 0xc9, 0xde,
        0xc5, 0xab, 0x80, 0x18, 0x00, 0x3a, 0x09, 0x86, 0x00, 0x00, 0x01, 0x01, 0x08, 0x0a, 0x07,
        0x72, 0x0b, 0x7b, 0x07, 0x72, 0x0a, 0x81, 0xff, 0xff, 0xff, 0xff, 0xff, 0xff, 0xff, 0xff,
        0xff, 0xff, 0xff, 0xff, 0xff, 0xff, 0xff, 0xff, 0x00, 0x17, 0x02, 0x00, 0x00, 0x00, 0x00,
    ];
    let parsed = Packet::try_from(packet.as_slice()).expect("Packet parse failed");
    // The TCP data offset declares a 32-byte header: the payload starts at
    // byte 66 of the frame.
    assert_eq!(parsed.get_payload(), Some(&packet[66..]));
}

#[test]
fn test_header_field_accessors() {
    let parsed = Packet::try_from(TCP_FRAME.as_slice()).expect("packet parse failed");
    let Packet::Regular(L2Packet::Ethernet(eth, _, L3Packet::Ipv4(ipv4, L4Packet::Tcp(tcp)))) =
        &parsed
    else {
        panic!("expected an IPv4/TCP packet")
    };
    assert_eq!(eth.get_destination(), [0x78, 0x2b, 0x46, 0x4b, 0x3b, 0xab]);
    assert_eq!(eth.get_source(), [0xb4, 0x8c, 0x9d, 0x5d, 0x81, 0x8b]);
    assert_eq!(eth.get_ethertype(), 0x0800);
    assert_eq!(ipv4.get_version(), 4);
    assert_eq!(ipv4.get_header_length(), 5);
    assert_eq!(ipv4.get_total_length(), 50);
    assert_eq!(ipv4.get_identification(), 0x362b);
    assert_eq!(ipv4.get_ttl(), 128);
    assert_eq!(ipv4.get_next_level_protocol(), 6);
    assert_eq!(ipv4.get_checksum(), 0x0894);
    assert_eq!(ipv4.get_source(), [192, 168, 29, 17]);
    assert_eq!(ipv4.get_destination(), [192, 168, 29, 165]);
    assert_eq!(tcp.get_source(), 60514);
    assert_eq!(tcp.get_destination(), 25565);
    assert_eq!(tcp.get_sequence(), 0xc6efa3df);
    assert_eq!(tcp.get_acknowledgement(), 0x88ce7ebc);
    assert_eq!(tcp.get_data_offset(), 5);
    assert_eq!(tcp.get_flags(), 0x18);
    assert_eq!(tcp.get_window(), 513);
    assert_eq!(tcp.get_checksum(), 0x0e83);
}
