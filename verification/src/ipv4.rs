//! The IPv4 header codec: bit-exact decoding and re-encoding of the 20-byte
//! header plus its options, and checksum maintenance.
//!
//! Wire layout (<https://en.wikipedia.org/wiki/Internet_Protocol_version_4>):
//! all multi-bit fields are packed most-significant-field-first within their
//! byte or 16-bit word, and all multi-byte scalars are big-endian.

use vstd::prelude::*;
use vstd::slice::{slice_subrange, slice_to_vec};

use crate::util::{
    be16, be32, checksum16_spec, checksum_16, folded_sum, lemma_be16_of_word16,
    lemma_be32_of_word32, lemma_checksum_self_verifying, push_be16, push_be32, push_bytes,
    read_u16, read_u32, word16_at, word32_at, ParseError, Serialize,
};

verus! {

/// The first two header bytes: version and header length share byte 0
/// (version in the high nibble), DSCP and ECN share byte 1 (DSCP in the high
/// six bits).
#[derive(Debug, Clone, Copy, PartialEq, Eq, Structural)]
pub struct Ipv4HeaderPrelude {
    /// 4-bit field; 4 for IPv4.
    pub version: u8,
    /// 4-bit count of 32-bit header words; at least 5 in a well-formed header.
    pub header_length: u8,
    /// 6-bit differentiated-services code point.
    pub dscp: u8,
    /// 2-bit explicit-congestion notification.
    pub ecn: u8,
}

impl Serialize for Ipv4HeaderPrelude {
    open spec fn wf(&self) -> bool {
        &&& self.version < 16
        &&& self.header_length < 16
        &&& self.dscp < 64
        &&& self.ecn < 4
    }

    open spec fn spec_serialize(&self) -> Seq<u8> {
        seq![
            (self.version * 16 + self.header_length) as u8,
            (self.dscp * 4 + self.ecn) as u8,
        ]
    }

    fn serialize(&self) -> (r: Vec<u8>) {
        let version_ihl = self.version * 16 + self.header_length;
        let dscp_ecn = self.dscp * 4 + self.ecn;
        let mut r = Vec::new();
        r.push(version_ihl);
        r.push(dscp_ecn);
        assert(r@ =~= self.spec_serialize());
        r
    }
}

/// The 16-bit flags/fragment-offset word: flags in the high 3 bits, the
/// 13-bit fragment offset below them.
#[derive(Debug, Clone, Copy, PartialEq, Eq, Structural)]
pub struct Ipv4HeaderFragmentationInfo {
    /// 3-bit flags field.
    pub flags: u8,
    /// 13-bit fragment offset.
    pub offset: u16,
}

/// The packed wire word `flags(3) || offset(13)`.
pub open spec fn frag_word(f: Ipv4HeaderFragmentationInfo) -> u16 {
    ((f.flags as int) * 8192 + (f.offset as int)) as u16
}

impl Serialize for Ipv4HeaderFragmentationInfo {
    open spec fn wf(&self) -> bool {
        &&& self.flags < 8
        &&& self.offset < 8192
    }

    open spec fn spec_serialize(&self) -> Seq<u8> {
        be16(frag_word(*self))
    }

    fn serialize(&self) -> (r: Vec<u8>) {
        let flags_offset = (self.flags as u16) * 8192 + self.offset;
        let mut r = Vec::new();
        push_be16(&mut r, flags_offset);
        assert(r@ =~= self.spec_serialize());
        r
    }
}

/// Well-known IP protocol numbers, with a catch-all that keeps any other
/// byte value so that re-encoding reproduces it.
#[derive(Debug, Clone, Copy, PartialEq, Eq, Structural)]
pub enum Ipv4HeaderProtocol {
    Icmp,
    Igmp,
    Tcp,
    Udp,
    Encap,
    Ospf,
    Sctp,
    Unknown(u8),
}

/// The protocol named by a wire byte; unassigned values land in `Unknown`.
pub open spec fn protocol_from_byte(b: u8) -> Ipv4HeaderProtocol {
    if b == 1 {
        Ipv4HeaderProtocol::Icmp
    } else if b == 2 {
        Ipv4HeaderProtocol::Igmp
    } else if b == 6 {
        Ipv4HeaderProtocol::Tcp
    } else if b == 17 {
        Ipv4HeaderProtocol::Udp
    } else if b == 41 {
        Ipv4HeaderProtocol::Encap
    } else if b == 89 {
        Ipv4HeaderProtocol::Ospf
    } else if b == 132 {
        Ipv4HeaderProtocol::Sctp
    } else {
        Ipv4HeaderProtocol::Unknown(b)
    }
}

/// The wire byte of a protocol value.
pub open spec fn protocol_byte(p: Ipv4HeaderProtocol) -> u8 {
    match p {
        Ipv4HeaderProtocol::Icmp => 1,
        Ipv4HeaderProtocol::Igmp => 2,
        Ipv4HeaderProtocol::Tcp => 6,
        Ipv4HeaderProtocol::Udp => 17,
        Ipv4HeaderProtocol::Encap => 41,
        Ipv4HeaderProtocol::Ospf => 89,
        Ipv4HeaderProtocol::Sctp => 132,
        Ipv4HeaderProtocol::Unknown(b) => b,
    }
}

impl Ipv4HeaderProtocol {
    /// Maps a wire byte to its protocol; any unassigned byte decodes to
    /// `Unknown` and re-encodes to itself, so no value is rejected or lost.
    pub fn from_u8(protocol: u8) -> (r: Ipv4HeaderProtocol)
        ensures
            r == protocol_from_byte(protocol),
            protocol_byte(r) == protocol,
    {
        match protocol {
            1u8 => Ipv4HeaderProtocol::Icmp,
            2u8 => Ipv4HeaderProtocol::Igmp,
            6u8 => Ipv4HeaderProtocol::Tcp,
            17u8 => Ipv4HeaderProtocol::Udp,
            41u8 => Ipv4HeaderProtocol::Encap,
            89u8 => Ipv4HeaderProtocol::Ospf,
            132u8 => Ipv4HeaderProtocol::Sctp,
            _ => Ipv4HeaderProtocol::Unknown(protocol),
        }
    }

    /// The wire byte of this protocol.
    pub fn to_u8(self) -> (r: u8)
        ensures
            r == protocol_byte(self),
    {
        match self {
            Ipv4HeaderProtocol::Icmp => 1,
            Ipv4HeaderProtocol::Igmp => 2,
            Ipv4HeaderProtocol::Tcp => 6,
            Ipv4HeaderProtocol::Udp => 17,
            Ipv4HeaderProtocol::Encap => 41,
            Ipv4HeaderProtocol::Ospf => 89,
            Ipv4HeaderProtocol::Sctp => 132,
            Ipv4HeaderProtocol::Unknown(b) => b,
        }
    }
}

/// A 32-bit IPv4 address, big-endian on the wire.
#[derive(Debug, Clone, Copy, PartialEq, Eq, Structural)]
pub struct Ipv4Address(pub u32);

/// A decoded IPv4 header. `options` keeps the `(header_length - 5) * 4`
/// option bytes verbatim; they are never interpreted.
#[derive(Debug, Clone)]
pub struct Ipv4Header {
    pub prelude: Ipv4HeaderPrelude,
    pub total_length: u16,
    pub identification: u16,
    pub frag_info: Ipv4HeaderFragmentationInfo,
    pub ttl: u8,
    pub protocol: Ipv4HeaderProtocol,
    pub checksum: u16,
    pub source: Ipv4Address,
    pub destination: Ipv4Address,
    pub options: Vec<u8>,
}

impl Serialize for Ipv4Header {
    open spec fn wf(&self) -> bool {
        &&& self.prelude.wf()
        &&& self.frag_info.wf()
    }

    open spec fn spec_serialize(&self) -> Seq<u8> {
        self.prelude.spec_serialize() + be16(self.total_length) + be16(self.identification)
            + self.frag_info.spec_serialize() + seq![self.ttl, protocol_byte(self.protocol)]
            + be16(self.checksum) + be32(self.source.0) + be32(self.destination.0) + self.options@
    }

    fn serialize(&self) -> (r: Vec<u8>) {
        let mut s: Vec<u8> = Vec::new();

        let mut version_ihl = self.prelude.serialize();
        s.append(&mut version_ihl);
        push_be16(&mut s, self.total_length);
        push_be16(&mut s, self.identification);
        let mut frag_info = self.frag_info.serialize();
        s.append(&mut frag_info);
        s.push(self.ttl);
        s.push(self.protocol.to_u8());
        push_be16(&mut s, self.checksum);
        push_be32(&mut s, self.source.0);
        push_be32(&mut s, self.destination.0);
        push_bytes(&mut s, &self.options);
        s
    }
}

/// The header length nibble of a raw buffer: the low four bits of byte 0.
pub open spec fn ihl_of(b: Seq<u8>) -> int {
    (b[0] % 16) as int
}

/// When a buffer decodes to an IPv4 header: the 20 fixed bytes are present,
/// the declared length is at least five words, and the declared options fit.
pub open spec fn ipv4_header_ok(b: Seq<u8>) -> bool {
    &&& b.len() >= 20
    &&& ihl_of(b) >= 5
    &&& 4 * ihl_of(b) <= b.len()
}

/// The error a rejected buffer gets: too short for the fixed fields, or a
/// header length that is below five words or overruns the buffer.
pub open spec fn ipv4_header_err(b: Seq<u8>) -> ParseError {
    if b.len() < 20 {
        ParseError::InsufficientInput
    } else {
        ParseError::InvalidOptionsLength
    }
}

/// Decodes an IPv4 header from the front of `input` and returns it with the
/// bytes that follow it. Succeeds exactly on the buffers `ipv4_header_ok`
/// admits; re-serializing the result reproduces the consumed bytes.
pub fn parse_ipv4_header(input: &[u8]) -> (r: Result<(Vec<u8>, Ipv4Header), ParseError>)
    ensures
        match r {
            Ok((rest, h)) => {
                &&& ipv4_header_ok(input@)
                &&& h.wf()
                &&& h.prelude.version == input@[0] / 16
                &&& h.prelude.header_length == input@[0] % 16
                &&& h.prelude.dscp == input@[1] / 4
                &&& h.prelude.ecn == input@[1] % 4
                &&& h.total_length == word16_at(input@, 2)
                &&& h.identification == word16_at(input@, 4)
                &&& h.frag_info.flags == word16_at(input@, 6) / 8192
                &&& h.frag_info.offset == word16_at(input@, 6) % 8192
                &&& h.ttl == input@[8]
                &&& h.protocol == protocol_from_byte(input@[9])
                &&& h.checksum == word16_at(input@, 10)
                &&& h.source.0 == word32_at(input@, 12)
                &&& h.destination.0 == word32_at(input@, 16)
                &&& h.options@ == input@.subrange(20, 4 * ihl_of(input@))
                &&& h.spec_serialize() == input@.take(4 * ihl_of(input@))
                &&& rest@ == input@.skip(4 * ihl_of(input@))
            },
            Err(e) => !ipv4_header_ok(input@) && e == ipv4_header_err(input@),
        },
{
    let n = input.len();
    if n < 20 {
        return Err(ParseError::InsufficientInput);
    }
    // byte 0 splits into the version (high nibble) and header length (low)
    let b0 = input[0];
    let version = b0 / 16;
    let header_length = b0 % 16;
    if header_length < 5 {
        return Err(ParseError::InvalidOptionsLength);
    }
    let hlen: usize = (header_length as usize) * 4;
    if hlen > n {
        return Err(ParseError::InvalidOptionsLength);
    }
    // byte 1 splits into DSCP (high six bits) and ECN (low two)
    let b1 = input[1];
    let prelude = Ipv4HeaderPrelude { version, header_length, dscp: b1 / 4, ecn: b1 % 4 };
    let total_length = read_u16(input, 2);
    let identification = read_u16(input, 4);
    // the 16-bit word at byte 6 splits into flags (high 3 bits) and offset
    let fw = read_u16(input, 6);
    let frag_info = Ipv4HeaderFragmentationInfo { flags: (fw / 8192) as u8, offset: fw % 8192 };
    let ttl = input[8];
    let protocol = Ipv4HeaderProtocol::from_u8(input[9]);
    let checksum = read_u16(input, 10);
    let source = Ipv4Address(read_u32(input, 12));
    let destination = Ipv4Address(read_u32(input, 16));
    let options = slice_to_vec(slice_subrange(input, 20, hlen));
    let rest = slice_to_vec(slice_subrange(input, hlen, n));
    let h = Ipv4Header {
        prelude,
        total_length,
        identification,
        frag_info,
        ttl,
        protocol,
        checksum,
        source,
        destination,
        options,
    };
    proof {
        let b = input@;
        let m = 4 * ihl_of(b);
        lemma_be16_of_word16(b, 2);
        lemma_be16_of_word16(b, 4);
        lemma_be16_of_word16(b, 6);
        lemma_be16_of_word16(b, 10);
        lemma_be32_of_word32(b, 12);
        lemma_be32_of_word32(b, 16);
        // reassembling the nibble and sub-word fields reproduces their bytes
        assert((b[0] / 16) * 16 + b[0] % 16 == b[0]);
        assert((b[1] / 4) * 4 + b[1] % 4 == b[1]);
        assert((word16_at(b, 6) / 8192) * 8192 + word16_at(b, 6) % 8192 == word16_at(b, 6));
        assert(frag_word(h.frag_info) == word16_at(b, 6));
        assert(h.spec_serialize() =~= b.take(m));
        assert(rest@ =~= b.skip(m));
        assert(h.options@ =~= b.subrange(20, m));
    }
    Ok((rest, h))
}

/// An IPv4 datagram: the header and everything after it.
#[derive(Debug, Clone)]
pub struct Ipv4Packet {
    pub header: Ipv4Header,
    pub data: Vec<u8>,
}

impl Serialize for Ipv4Packet {
    open spec fn wf(&self) -> bool {
        self.header.wf()
    }

    open spec fn spec_serialize(&self) -> Seq<u8> {
        self.header.spec_serialize() + self.data@
    }

    fn serialize(&self) -> (r: Vec<u8>) {
        let mut s = self.header.serialize();
        push_bytes(&mut s, &self.data);
        s
    }
}

/// Decodes a whole datagram: the header, then every remaining byte as the
/// payload. Nothing is left over, so the returned rest is always empty.
pub fn parse_ipv4_packet(input: &[u8]) -> (r: Result<(Vec<u8>, Ipv4Packet), ParseError>)
    ensures
        match r {
            Ok((rest, p)) => {
                &&& ipv4_header_ok(input@)
                &&& p.header.wf()
                &&& p.header.spec_serialize() == input@.take(4 * ihl_of(input@))
                &&& p.data@ == input@.skip(4 * ihl_of(input@))
                &&& p.spec_serialize() == input@
                &&& rest@ == Seq::<u8>::empty()
            },
            Err(e) => !ipv4_header_ok(input@) && e == ipv4_header_err(input@),
        },
{
    let (rest, header) = match parse_ipv4_header(input) {
        Ok(x) => x,
        Err(e) => {
            return Err(e);
        },
    };
    let packet = Ipv4Packet { header, data: rest };
    let empty: Vec<u8> = Vec::new();
    proof {
        assert(packet.spec_serialize() =~= input@);
        assert(empty@ =~= Seq::<u8>::empty());
    }
    Ok((empty, packet))
}

impl Ipv4Packet {
    /// Recomputes the header checksum: the field is zeroed, the header is
    /// serialized, and the Internet checksum of those bytes becomes the new
    /// field value. The rewritten header then verifies: its folded word sum
    /// is the all-ones sentinel.
    pub fn update_checksum(&mut self)
        requires
            old(self).header.wf(),
            old(self).header.options@.len() <= 65515,
        ensures
            final(self).header.checksum == checksum16_spec(
                (Ipv4Header { checksum: 0, ..old(self).header }).spec_serialize(),
            ),
            final(self).header == (Ipv4Header {
                checksum: final(self).header.checksum,
                ..old(self).header
            }),
            final(self).data == old(self).data,
            folded_sum(final(self).header.spec_serialize()) == 0xFFFF,
            checksum16_spec(final(self).header.spec_serialize()) == 0,
    {
        self.header.checksum = 0;
        let raw_data: Vec<u8> = self.header.serialize();
        let ghost zeroed = self.header.spec_serialize();
        self.header.checksum = checksum_16(raw_data.as_slice());
        proof {
            let cs = checksum16_spec(zeroed);
            // the checksum field occupies bytes 10 and 11, the sixth word
            lemma_checksum_self_verifying(zeroed, 5);
            assert(self.header.spec_serialize()
                =~= zeroed.update(10, (cs / 256) as u8).update(11, (cs % 256) as u8));
        }
    }
}

} // verus!
