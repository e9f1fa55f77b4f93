use icmp_codec::checksum_16;
use icmp_codec::echo::build_echo_reply;
use icmp_codec::icmp::{parse_icmp_packet, IcmpType};
use icmp_codec::ipv4::{parse_ipv4_packet, Ipv4HeaderProtocol};
use icmp_codec::Serialize;

#[test]
fn test_echo_reply_scenario() {
    // an inbound echo request: 10.0.0.1 -> 10.0.0.2, TTL 64, 5 payload bytes
    let mut request = vec![
        0x45, 0, 0, 29, // version/IHL, DSCP/ECN, total length 20 + 4 + 5
        0x12, 0x34, 0, 0, // identification, flags/offset
        64, 1, 0, 0, // TTL, protocol ICMP, checksum
        10, 0, 0, 1, // source
        10, 0, 0, 2, // destination
    ];
    request.extend_from_slice(&[8, 0, 0x55, 0x66]); // echo request header
    request.extend_from_slice(&[0xDE, 0xAD, 0xBE, 0xEF, 0x42]); // payload

    let (_, ip_packet) = parse_ipv4_packet(&request).unwrap();
    assert_eq!(ip_packet.header.protocol, Ipv4HeaderProtocol::Icmp);
    let (_, icmp_packet) = parse_icmp_packet(&ip_packet.data).unwrap();
    assert_eq!(icmp_packet.header.icmp_type, IcmpType::EchoRequest);

    let (ip_reply, icmp_reply) = build_echo_reply(&ip_packet.header, &icmp_packet);

    // the endpoints come back swapped
    assert_eq!(ip_reply.header.source.0, 0x0A00_0002);
    assert_eq!(ip_reply.header.destination.0, 0x0A00_0001);
    assert_eq!(ip_reply.header.ttl, 255);
    assert_eq!(ip_reply.header.protocol, Ipv4HeaderProtocol::Icmp);
    assert_eq!(ip_reply.header.total_length, 29);
    assert_eq!(ip_reply.header.prelude.version, 4);
    assert_eq!(ip_reply.header.prelude.header_length, 5);

    // the reply echoes the payload unchanged
    assert_eq!(icmp_reply.header.icmp_type, IcmpType::EchoReply);
    assert_eq!(icmp_reply.header.code, 0);
    assert!(icmp_reply.header.data.is_none());
    assert_eq!(icmp_reply.data, vec![0xDE, 0xAD, 0xBE, 0xEF, 0x42]);

    // both checksums verify independently: a checksum-correct buffer sums
    // to the all-ones sentinel, so its complemented checksum is zero
    assert_eq!(checksum_16(&ip_reply.header.serialize()), 0);
    assert_eq!(checksum_16(&icmp_reply.serialize()), 0);
    assert_eq!(ip_reply.data, icmp_reply.serialize());

    // the emitted frame decodes back to the same reply
    let wire = ip_reply.serialize();
    let (_, parsed) = parse_ipv4_packet(&wire).unwrap();
    let (_, parsed_icmp) = parse_icmp_packet(&parsed.data).unwrap();
    assert_eq!(parsed_icmp.header.icmp_type, IcmpType::EchoReply);
    assert_eq!(parsed_icmp.data, vec![0xDE, 0xAD, 0xBE, 0xEF, 0x42]);
}

#[test]
fn test_echo_reply_empty_payload() {
    let request = [
        0x45u8, 0, 0, 24, 0, 0, 0, 0, 1, 1, 0, 0, 192, 168, 7, 9, 192, 168, 7, 1, 8, 0, 0, 0,
    ];
    let (_, ip_packet) = parse_ipv4_packet(&request).unwrap();
    let (_, icmp_packet) = parse_icmp_packet(&ip_packet.data).unwrap();
    let (ip_reply, icmp_reply) = build_echo_reply(&ip_packet.header, &icmp_packet);
    assert!(icmp_reply.data.is_empty());
    assert_eq!(ip_reply.header.total_length, 24);
    // an echo reply with no payload is the four bytes [0, 0, cs_hi, cs_lo],
    // and the checksum of [0, 0, 0, 0] is 0xFFFF
    assert_eq!(icmp_reply.header.checksum, 0xFFFF);
    assert_eq!(icmp_reply.serialize(), vec![0, 0, 0xFF, 0xFF]);
    assert_eq!(checksum_16(&icmp_reply.serialize()), 0);
}
