use icmp_codec::ipv4::{parse_ipv4_header, parse_ipv4_packet, Ipv4HeaderProtocol};
use icmp_codec::util::ParseError;
use icmp_codec::Serialize;

#[test]
fn test_ip_header_serialization() {
    let raw = [
        69,                 // Version number and IHL
        0,                  // DSCP, ECN
        0, 102,             // Total length
        133, 153,           // Identification
        0, 0,               // Flags, Fragment Offset
        255,                // TTL
        17,                 // Protocol
        74, 242,            // Header checksum
        10, 0, 0, 0,        // Source IP
        224, 0, 0, 251      // Destination IP
    ];

    let (_, header) = parse_ipv4_header(&raw).unwrap();
    assert_eq!(raw, header.serialize().as_slice());
}

#[test]
fn test_ipv4_packet_checksum() {
    // an ICMP echo request captured from a linux ping
    let bytes = [
        69, 0, 0, 84, 98, 13, 64, 0, 64, 1, 196, 155, 10, 0, 0, 0, 10, 0, 0, 1, 8, 0, 96, 221,
        0, 4, 0, 2, 214, 16, 157, 100, 0, 0, 0, 0, 86, 212, 14, 0, 0, 0, 0, 0, 16, 17, 18, 19,
        20, 21, 22, 23, 24, 25, 26, 27, 28, 29, 30, 31, 32, 33, 34, 35, 36, 37, 38, 39, 40, 41,
        42, 43, 44, 45, 46, 47, 48, 49, 50, 51, 52, 53, 54, 55,
    ];

    let (_, mut packet) = parse_ipv4_packet(&bytes).unwrap();
    let checksum = packet.header.checksum;
    packet.update_checksum();
    assert_eq!(checksum, packet.header.checksum);
}

#[test]
fn test_ipv4_header_fields() {
    let raw = [
        69, 0, 0, 84, 98, 13, 64, 0, 64, 1, 196, 155, 10, 0, 0, 0, 10, 0, 0, 1,
    ];
    let (rest, header) = parse_ipv4_header(&raw).unwrap();
    assert_eq!(header.prelude.version, 4);
    assert_eq!(header.prelude.header_length, 5);
    assert_eq!(header.prelude.dscp, 0);
    assert_eq!(header.prelude.ecn, 0);
    assert_eq!(header.total_length, 84);
    assert_eq!(header.identification, 0x620D);
    assert_eq!(header.frag_info.flags, 2); // "don't fragment"
    assert_eq!(header.frag_info.offset, 0);
    assert_eq!(header.ttl, 64);
    assert_eq!(header.protocol, Ipv4HeaderProtocol::Icmp);
    assert_eq!(header.checksum, 0xC49B);
    assert_eq!(header.source.0, 0x0A00_0000);
    assert_eq!(header.destination.0, 0x0A00_0001);
    assert!(header.options.is_empty());
    assert!(rest.is_empty());
}

#[test]
fn test_ipv4_short_buffer() {
    // one byte short of the 20 fixed header bytes
    let raw = [69u8; 19];
    assert_eq!(parse_ipv4_header(&raw).unwrap_err(), ParseError::InsufficientInput);
    assert_eq!(parse_ipv4_packet(&raw).unwrap_err(), ParseError::InsufficientInput);
}

#[test]
fn test_ipv4_header_length_below_minimum() {
    // a declared header length of four words is malformed
    let mut raw = [0u8; 20];
    raw[0] = 0x44;
    assert_eq!(parse_ipv4_header(&raw).unwrap_err(), ParseError::InvalidOptionsLength);
}

#[test]
fn test_ipv4_options_exceed_buffer() {
    // six declared words need 24 bytes; only 20 are present
    let mut raw = [0u8; 20];
    raw[0] = 0x46;
    assert_eq!(parse_ipv4_header(&raw).unwrap_err(), ParseError::InvalidOptionsLength);
}

#[test]
fn test_ipv4_options_roundtrip() {
    // six declared words: four option bytes, kept verbatim
    let raw = [
        0x46, 0, 0, 28, 0, 1, 0, 0, 64, 6, 0, 0, 192, 168, 0, 1, 192, 168, 0, 2, 0xDE, 0xAD,
        0xBE, 0xEF, 9, 9,
    ];
    let (rest, header) = parse_ipv4_header(&raw).unwrap();
    assert_eq!(header.options, vec![0xDE, 0xAD, 0xBE, 0xEF]);
    assert_eq!(header.serialize().as_slice(), &raw[0..24]);
    assert_eq!(rest, vec![9, 9]);
}

#[test]
fn test_ipv4_unknown_protocol_preserved() {
    // protocol 200 is unassigned: it decodes to the catch-all and the byte
    // comes back unchanged on re-encoding
    let mut raw = [
        69, 0, 0, 84, 98, 13, 64, 0, 64, 1, 196, 155, 10, 0, 0, 0, 10, 0, 0, 1,
    ];
    raw[9] = 200;
    let (_, header) = parse_ipv4_header(&raw).unwrap();
    assert_eq!(header.protocol, Ipv4HeaderProtocol::Unknown(200));
    let encoded = header.serialize();
    assert_eq!(encoded[9], 200);
    assert_eq!(raw, encoded.as_slice());
}

#[test]
fn test_protocol_from_u8() {
    assert_eq!(Ipv4HeaderProtocol::from_u8(1), Ipv4HeaderProtocol::Icmp);
    assert_eq!(Ipv4HeaderProtocol::from_u8(2), Ipv4HeaderProtocol::Igmp);
    assert_eq!(Ipv4HeaderProtocol::from_u8(6), Ipv4HeaderProtocol::Tcp);
    assert_eq!(Ipv4HeaderProtocol::from_u8(17), Ipv4HeaderProtocol::Udp);
    assert_eq!(Ipv4HeaderProtocol::from_u8(41), Ipv4HeaderProtocol::Encap);
    assert_eq!(Ipv4HeaderProtocol::from_u8(89), Ipv4HeaderProtocol::Ospf);
    assert_eq!(Ipv4HeaderProtocol::from_u8(132), Ipv4HeaderProtocol::Sctp);
    assert_eq!(Ipv4HeaderProtocol::from_u8(250), Ipv4HeaderProtocol::Unknown(250));
    assert_eq!(Ipv4HeaderProtocol::from_u8(250).to_u8(), 250);
    assert_eq!(Ipv4HeaderProtocol::Sctp.to_u8(), 132);
}
