use icmp_codec::checksum_16;

#[test]
fn test_checksum_empty() {
    // no words to sum: the complement of zero
    assert_eq!(checksum_16(&[]), 0xFFFF);
}

#[test]
fn test_checksum_known_value() {
    // an IPv4 header captured from a linux ping, checksum field zeroed;
    // the NIC put 0xC49B on the wire
    let header = [
        69, 0, 0, 84, 98, 13, 64, 0, 64, 1, 0, 0, 10, 0, 0, 0, 10, 0, 0, 1,
    ];
    assert_eq!(checksum_16(&header), 0xC49B);
}

#[test]
fn test_checksum_odd_length() {
    // a trailing odd byte is padded with a zero low byte:
    // words 0x0102 and 0x0300 sum to 0x0402
    assert_eq!(checksum_16(&[0x01, 0x02, 0x03]), 0xFFFF - 0x0402);
}

#[test]
fn test_checksum_self_verifying() {
    // writing the computed checksum back into the zeroed field makes the
    // whole buffer checksum to zero (its folded word sum is 0xFFFF)
    let mut header = [
        69, 0, 0, 84, 98, 13, 64, 0, 64, 1, 0, 0, 10, 0, 0, 0, 10, 0, 0, 1,
    ];
    let cs = checksum_16(&header);
    header[10] = (cs / 256) as u8;
    header[11] = (cs % 256) as u8;
    assert_eq!(checksum_16(&header), 0);
}
