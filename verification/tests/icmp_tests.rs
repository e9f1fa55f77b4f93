use icmp_codec::icmp::{parse_icmp_packet, IcmpHeaderData, IcmpType};
use icmp_codec::util::ParseError;
use icmp_codec::Serialize;

// an IPv4 header captured from a linux ping, used as the embedded datagram
// quote of the error-message variants
const QUOTED_HEADER: [u8; 20] = [
    69, 0, 0, 84, 98, 13, 64, 0, 64, 1, 196, 155, 10, 0, 0, 0, 10, 0, 0, 1,
];

#[test]
fn test_icmp_packet_serialization() {
    let bytes = [
        8,          // Type
        0,          // Code
        88, 204,    // Checksum
        // data (from the `ping` command on linux)
        0, 3, 0, 4, 86, 1, 157, 100, 0, 0, 0, 0, 227, 243, 9, 0, 0, 0, 0, 0, 16, 17, 18, 19, 20,
        21, 22, 23, 24, 25, 26, 27, 28, 29, 30, 31, 32, 33, 34, 35, 36, 37, 38, 39, 40, 41, 42,
        43, 44, 45, 46, 47, 48, 49, 50,
    ];
    let (_, packet) = parse_icmp_packet(&bytes).unwrap();
    assert_eq!(bytes, packet.serialize().as_slice());
}

#[test]
fn test_icmp_echo_request_fields() {
    // the same message: type 8 code 0, checksum 0x58CC, 55 payload bytes
    let bytes = [
        8, 0, 88, 204, 0, 3, 0, 4, 86, 1, 157, 100, 0, 0, 0, 0, 227, 243, 9, 0, 0, 0, 0, 0, 16,
        17, 18, 19, 20, 21, 22, 23, 24, 25, 26, 27, 28, 29, 30, 31, 32, 33, 34, 35, 36, 37, 38,
        39, 40, 41, 42, 43, 44, 45, 46, 47, 48, 49, 50,
    ];
    let (_, packet) = parse_icmp_packet(&bytes).unwrap();
    assert_eq!(packet.header.icmp_type, IcmpType::EchoRequest);
    assert_eq!(packet.header.code, 0);
    assert_eq!(packet.header.checksum, 0x58CC);
    assert!(packet.header.data.is_none());
    assert_eq!(packet.data.as_slice(), &bytes[4..]);
    assert_eq!(packet.data.len(), 55);
}

#[test]
fn test_icmp_update_checksum() {
    // the echo request inside the ping capture: the sender put 0x60DD on
    // the wire, and recomputing over the zero-checksum bytes reproduces it
    let bytes = [
        8, 0, 96, 221, 0, 4, 0, 2, 214, 16, 157, 100, 0, 0, 0, 0, 86, 212, 14, 0, 0, 0, 0, 0,
        16, 17, 18, 19, 20, 21, 22, 23, 24, 25, 26, 27, 28, 29, 30, 31, 32, 33, 34, 35, 36, 37,
        38, 39, 40, 41, 42, 43, 44, 45, 46, 47, 48, 49, 50, 51, 52, 53, 54, 55,
    ];
    let (_, mut packet) = parse_icmp_packet(&bytes).unwrap();
    let checksum = packet.header.checksum;
    packet.update_checksum();
    assert_eq!(checksum, packet.header.checksum);
    // and the rewritten message verifies as transmitted
    assert_eq!(icmp_codec::checksum_16(&packet.serialize()), 0);
}

#[test]
fn test_icmp_redirect_roundtrip() {
    let mut bytes = vec![5u8, 1, 0x12, 0x34];
    bytes.extend_from_slice(&[192, 168, 1, 254]); // gateway
    bytes.extend_from_slice(&QUOTED_HEADER);
    bytes.extend_from_slice(&[1, 2, 3, 4, 5, 6, 7, 8]);
    bytes.extend_from_slice(&[0xAA, 0xBB]); // trailing data
    let (_, packet) = parse_icmp_packet(&bytes).unwrap();
    assert_eq!(packet.header.icmp_type, IcmpType::RedirectMessage);
    match &packet.header.data {
        Some(IcmpHeaderData::Redirect { ip_addr, ip_header, data }) => {
            assert_eq!(ip_addr.0, 0xC0A8_01FE);
            assert_eq!(ip_header.ttl, 64);
            assert_eq!(data.as_slice(), &[1, 2, 3, 4, 5, 6, 7, 8]);
        },
        _ => panic!("expected a redirect payload"),
    }
    assert_eq!(packet.data, vec![0xAA, 0xBB]);
    assert_eq!(packet.serialize(), bytes);
}

#[test]
fn test_icmp_time_exceeded_roundtrip() {
    let mut bytes = vec![11u8, 0, 0x56, 0x78];
    bytes.extend_from_slice(&QUOTED_HEADER);
    bytes.extend_from_slice(&[8, 7, 6, 5, 4, 3, 2, 1]);
    let (_, packet) = parse_icmp_packet(&bytes).unwrap();
    assert_eq!(packet.header.icmp_type, IcmpType::TimeExceeded);
    match &packet.header.data {
        Some(IcmpHeaderData::TimeExceeded { ip_header, data }) => {
            assert_eq!(ip_header.source.0, 0x0A00_0000);
            assert_eq!(data.as_slice(), &[8, 7, 6, 5, 4, 3, 2, 1]);
        },
        _ => panic!("expected a time-exceeded payload"),
    }
    assert!(packet.data.is_empty());
    assert_eq!(packet.serialize(), bytes);
}

#[test]
fn test_icmp_destination_unreachable_roundtrip() {
    let mut bytes = vec![3u8, 4, 0x9A, 0xBC];
    bytes.extend_from_slice(&[0, 0, 0x05, 0xDC]); // reserved, next-hop MTU 1500
    bytes.extend_from_slice(&QUOTED_HEADER);
    bytes.extend_from_slice(&[1, 1, 2, 2, 3, 3, 4, 4]);
    let (_, packet) = parse_icmp_packet(&bytes).unwrap();
    assert_eq!(packet.header.icmp_type, IcmpType::DestinationUnreachable);
    match &packet.header.data {
        Some(IcmpHeaderData::DestinationUnreachable { next_hop_mtu, ip_header, data }) => {
            assert_eq!(*next_hop_mtu, 1500);
            assert_eq!(ip_header.total_length, 84);
            assert_eq!(data.as_slice(), &[1, 1, 2, 2, 3, 3, 4, 4]);
        },
        _ => panic!("expected a destination-unreachable payload"),
    }
    assert_eq!(packet.serialize(), bytes);
}

#[test]
fn test_icmp_destination_unreachable_reserved_bytes_zeroed() {
    // the two reserved bytes are not stored, so re-encoding emits zeros
    let mut bytes = vec![3u8, 1, 0x9A, 0xBC];
    bytes.extend_from_slice(&[0xFF, 0xEE, 0x05, 0xDC]);
    bytes.extend_from_slice(&QUOTED_HEADER);
    bytes.extend_from_slice(&[1, 1, 2, 2, 3, 3, 4, 4]);
    let (_, packet) = parse_icmp_packet(&bytes).unwrap();
    let mut expected = bytes.clone();
    expected[4] = 0;
    expected[5] = 0;
    assert_eq!(packet.serialize(), expected);
}

#[test]
fn test_icmp_timestamp_roundtrip() {
    let bytes = [
        13u8, 0, 0x11, 0x22, // common header
        0x01, 0x02, // id
        0x03, 0x04, // sequence
        0x05, 0x06, 0x07, 0x08, // originate
        0x09, 0x0A, 0x0B, 0x0C, // receive
        0x0D, 0x0E, 0x0F, 0x10, // transmit
        7, 7, // trailing data
    ];
    let (_, packet) = parse_icmp_packet(&bytes).unwrap();
    assert_eq!(packet.header.icmp_type, IcmpType::Timestamp);
    match packet.header.data {
        Some(IcmpHeaderData::Timestamp { id, seq, originate, receive, transmit }) => {
            assert_eq!(id, 0x0102);
            assert_eq!(seq, 0x0304);
            assert_eq!(originate, 0x05060708);
            assert_eq!(receive, 0x090A0B0C);
            assert_eq!(transmit, 0x0D0E0F10);
        },
        _ => panic!("expected a timestamp payload"),
    }
    assert_eq!(packet.data, vec![7, 7]);
    assert_eq!(packet.serialize().as_slice(), &bytes);
}

#[test]
fn test_icmp_timestamp_reply_roundtrip() {
    let bytes = [
        14u8, 0, 0x11, 0x22, 0x01, 0x02, 0x03, 0x04, 0x05, 0x06, 0x07, 0x08, 0x09, 0x0A, 0x0B,
        0x0C, 0x0D, 0x0E, 0x0F, 0x10,
    ];
    let (_, packet) = parse_icmp_packet(&bytes).unwrap();
    assert_eq!(packet.header.icmp_type, IcmpType::TimestampReply);
    assert!(matches!(
        packet.header.data,
        Some(IcmpHeaderData::TimestampReply { .. })
    ));
    assert_eq!(packet.serialize().as_slice(), &bytes);
}

#[test]
fn test_icmp_unknown_type_preserved() {
    // type 200 is unknown: no structured payload is consumed and the byte
    // comes back unchanged on re-encoding
    let bytes = [200u8, 7, 0x00, 0x2A, 1, 2, 3];
    let (_, packet) = parse_icmp_packet(&bytes).unwrap();
    assert_eq!(packet.header.icmp_type, IcmpType::Unimplemented(200));
    assert!(packet.header.data.is_none());
    assert_eq!(packet.data, vec![1, 2, 3]);
    assert_eq!(packet.serialize().as_slice(), &bytes);
}

#[test]
fn test_icmp_short_buffer() {
    // one byte short of the four common header bytes
    let bytes = [8u8, 0, 88];
    assert_eq!(parse_icmp_packet(&bytes).unwrap_err(), ParseError::InsufficientInput);
}

#[test]
fn test_icmp_timestamp_short() {
    // one byte short of the sixteen timestamp payload bytes
    let mut bytes = vec![13u8, 0, 0, 0];
    bytes.extend_from_slice(&[0u8; 15]);
    assert_eq!(parse_icmp_packet(&bytes).unwrap_err(), ParseError::InsufficientInput);
}

#[test]
fn test_icmp_redirect_short_quote() {
    // the embedded header is one byte short of its twenty fixed bytes
    let mut bytes = vec![5u8, 0, 0, 0];
    bytes.extend_from_slice(&[10, 0, 0, 1]);
    bytes.extend_from_slice(&QUOTED_HEADER[0..19]);
    assert_eq!(parse_icmp_packet(&bytes).unwrap_err(), ParseError::InsufficientInput);
}

#[test]
fn test_icmp_time_exceeded_bad_quote_header_length() {
    // the embedded header declares four words, which is malformed
    let mut quoted = QUOTED_HEADER;
    quoted[0] = 0x44;
    let mut bytes = vec![11u8, 0, 0, 0];
    bytes.extend_from_slice(&quoted);
    bytes.extend_from_slice(&[0u8; 8]);
    assert_eq!(parse_icmp_packet(&bytes).unwrap_err(), ParseError::InvalidOptionsLength);
}

#[test]
fn test_icmp_time_exceeded_short_quote_data() {
    // the embedded header fits but only seven quoted bytes follow
    let mut bytes = vec![11u8, 0, 0, 0];
    bytes.extend_from_slice(&QUOTED_HEADER);
    bytes.extend_from_slice(&[0u8; 7]);
    assert_eq!(parse_icmp_packet(&bytes).unwrap_err(), ParseError::InsufficientInput);
}

#[test]
fn test_icmp_type_byte_roundtrip() {
    for b in 0u8..=255 {
        assert_eq!(IcmpType::from_u8(b).to_u8(), b);
    }
    assert_eq!(IcmpType::from_u8(0), IcmpType::EchoReply);
    assert_eq!(IcmpType::from_u8(8), IcmpType::EchoRequest);
    assert_eq!(IcmpType::from_u8(42), IcmpType::Unimplemented(42));
}

#[test]
fn test_icmp_description() {
    let bytes = [8u8, 0, 88, 204];
    let (_, packet) = parse_icmp_packet(&bytes).unwrap();
    assert_eq!(packet.description(), "Echo request");

    let bytes = [3u8, 4, 0, 0, 0, 0, 0, 0];
    // too short for a destination-unreachable quote, so build one whole
    let mut whole = vec![3u8, 4, 0, 0, 0, 0, 0x05, 0xDC];
    whole.extend_from_slice(&QUOTED_HEADER);
    whole.extend_from_slice(&[0u8; 8]);
    let (_, packet) = parse_icmp_packet(&whole).unwrap();
    assert_eq!(packet.description(), "Fragmentation required");
    assert_eq!(parse_icmp_packet(&bytes).unwrap_err(), ParseError::InsufficientInput);

    let (_, packet) = parse_icmp_packet(&[200u8, 0, 0, 0]).unwrap();
    assert_eq!(packet.description(), "Unimplemented");

    // a known type with a code outside the table gets the empty string
    let (_, packet) = parse_icmp_packet(&[8u8, 9, 0, 0]).unwrap();
    assert_eq!(packet.description(), "");
}
