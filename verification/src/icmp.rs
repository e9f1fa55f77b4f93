//! The ICMP codec: type-tagged decoding and re-encoding of ICMP messages.
//!
//! A message starts with a common header (type, code, checksum); the message
//! type then selects the shape of the structured payload that follows, and
//! every byte after that payload is the packet's opaque trailing data.

use vstd::prelude::*;
use vstd::slice::{slice_subrange, slice_to_vec};

use crate::ipv4::{ihl_of, ipv4_header_err, ipv4_header_ok, parse_ipv4_header, Ipv4Address,
    Ipv4Header};
use crate::util::{
    be16, be32, checksum16_spec, checksum_16, folded_sum, lemma_be16_of_word16,
    lemma_be32_of_word32, lemma_checksum_self_verifying, push_be16, push_be32, push_bytes,
    read_u16, read_u32, word16_at, word32_at, ParseError, Serialize,
};

verus! {

/// An ICMP message type: ten named values, plus a catch-all that keeps any
/// other byte so that re-encoding reproduces it.
#[derive(Debug, Clone, Copy, PartialEq, Eq, Structural)]
pub enum IcmpType {
    EchoReply,
    DestinationUnreachable,
    RedirectMessage,
    EchoRequest,
    RouterAdvertisement,
    RouterSolicitation,
    TimeExceeded,
    BadIpHeader,
    Timestamp,
    TimestampReply,
    Unimplemented(u8),
}

/// The message type named by a wire byte; unknown bytes are preserved.
pub open spec fn icmp_type_from_byte(b: u8) -> IcmpType {
    if b == 0 {
        IcmpType::EchoReply
    } else if b == 3 {
        IcmpType::DestinationUnreachable
    } else if b == 5 {
        IcmpType::RedirectMessage
    } else if b == 8 {
        IcmpType::EchoRequest
    } else if b == 9 {
        IcmpType::RouterAdvertisement
    } else if b == 10 {
        IcmpType::RouterSolicitation
    } else if b == 11 {
        IcmpType::TimeExceeded
    } else if b == 12 {
        IcmpType::BadIpHeader
    } else if b == 13 {
        IcmpType::Timestamp
    } else if b == 14 {
        IcmpType::TimestampReply
    } else {
        IcmpType::Unimplemented(b)
    }
}

/// The wire byte of a message type.
pub open spec fn icmp_type_byte(t: IcmpType) -> u8 {
    match t {
        IcmpType::EchoReply => 0,
        IcmpType::DestinationUnreachable => 3,
        IcmpType::RedirectMessage => 5,
        IcmpType::EchoRequest => 8,
        IcmpType::RouterAdvertisement => 9,
        IcmpType::RouterSolicitation => 10,
        IcmpType::TimeExceeded => 11,
        IcmpType::BadIpHeader => 12,
        IcmpType::Timestamp => 13,
        IcmpType::TimestampReply => 14,
        IcmpType::Unimplemented(b) => b,
    }
}

impl IcmpType {
    /// Maps a wire byte to its message type; the byte always round-trips.
    pub fn from_u8(orig: u8) -> (r: IcmpType)
        ensures
            r == icmp_type_from_byte(orig),
            icmp_type_byte(r) == orig,
    {
        match orig {
            0 => IcmpType::EchoReply,
            3 => IcmpType::DestinationUnreachable,
            5 => IcmpType::RedirectMessage,
            8 => IcmpType::EchoRequest,
            9 => IcmpType::RouterAdvertisement,
            10 => IcmpType::RouterSolicitation,
            11 => IcmpType::TimeExceeded,
            12 => IcmpType::BadIpHeader,
            13 => IcmpType::Timestamp,
            14 => IcmpType::TimestampReply,
            _ => IcmpType::Unimplemented(orig),
        }
    }

    /// The wire byte of this message type.
    pub fn to_u8(self) -> (r: u8)
        ensures
            r == icmp_type_byte(self),
    {
        match self {
            IcmpType::Unimplemented(unknown) => unknown,
            IcmpType::EchoReply => 0u8,
            IcmpType::DestinationUnreachable => 3u8,
            IcmpType::RedirectMessage => 5u8,
            IcmpType::EchoRequest => 8u8,
            IcmpType::RouterAdvertisement => 9u8,
            IcmpType::RouterSolicitation => 10u8,
            IcmpType::TimeExceeded => 11u8,
            IcmpType::BadIpHeader => 12u8,
            IcmpType::Timestamp => 13u8,
            IcmpType::TimestampReply => 14u8,
        }
    }
}

/// The structured payload that some message types carry between the common
/// header and the trailing data. The embedded IPv4 header and the eight
/// `data` bytes quote the start of the datagram the message is about.
#[derive(Debug, Clone)]
pub enum IcmpHeaderData {
    Redirect { ip_addr: Ipv4Address, ip_header: Ipv4Header, data: Vec<u8> },
    TimeExceeded { ip_header: Ipv4Header, data: Vec<u8> },
    Timestamp { id: u16, seq: u16, originate: u32, receive: u32, transmit: u32 },
    TimestampReply { id: u16, seq: u16, originate: u32, receive: u32, transmit: u32 },
    DestinationUnreachable { next_hop_mtu: u16, ip_header: Ipv4Header, data: Vec<u8> },
}

impl Serialize for IcmpHeaderData {
    open spec fn wf(&self) -> bool {
        match *self {
            IcmpHeaderData::Redirect { ip_header, data, .. } => ip_header.wf() && data@.len() == 8,
            IcmpHeaderData::TimeExceeded { ip_header, data } => ip_header.wf() && data@.len() == 8,
            IcmpHeaderData::Timestamp { .. } => true,
            IcmpHeaderData::TimestampReply { .. } => true,
            IcmpHeaderData::DestinationUnreachable { ip_header, data, .. } => ip_header.wf()
                && data@.len() == 8,
        }
    }

    open spec fn spec_serialize(&self) -> Seq<u8> {
        match *self {
            IcmpHeaderData::Redirect { ip_addr, ip_header, data } => be32(ip_addr.0)
                + ip_header.spec_serialize() + data@,
            IcmpHeaderData::TimeExceeded { ip_header, data } => ip_header.spec_serialize()
                + data@,
            IcmpHeaderData::Timestamp { id, seq, originate, receive, transmit } => be16(id)
                + be16(seq) + be32(originate) + be32(receive) + be32(transmit),
            IcmpHeaderData::TimestampReply { id, seq, originate, receive, transmit } => be16(id)
                + be16(seq) + be32(originate) + be32(receive) + be32(transmit),
            IcmpHeaderData::DestinationUnreachable { next_hop_mtu, ip_header, data } => seq![
                0u8,
                0u8,
            ] + be16(next_hop_mtu) + ip_header.spec_serialize() + data@,
        }
    }

    fn serialize(&self) -> (r: Vec<u8>) {
        let mut s: Vec<u8> = Vec::new();

        match self {
            IcmpHeaderData::Redirect { ip_addr, ip_header, data } => {
                push_be32(&mut s, ip_addr.0);
                let mut header_bytes = ip_header.serialize();
                s.append(&mut header_bytes);
                push_bytes(&mut s, data);
            },
            IcmpHeaderData::TimeExceeded { ip_header, data } => {
                let mut header_bytes = ip_header.serialize();
                s.append(&mut header_bytes);
                push_bytes(&mut s, data);
            },
            IcmpHeaderData::Timestamp { id, seq, originate, receive, transmit } => {
                push_be16(&mut s, *id);
                push_be16(&mut s, *seq);
                push_be32(&mut s, *originate);
                push_be32(&mut s, *receive);
                push_be32(&mut s, *transmit);
            },
            IcmpHeaderData::TimestampReply { id, seq, originate, receive, transmit } => {
                push_be16(&mut s, *id);
                push_be16(&mut s, *seq);
                push_be32(&mut s, *originate);
                push_be32(&mut s, *receive);
                push_be32(&mut s, *transmit);
            },
            IcmpHeaderData::DestinationUnreachable { next_hop_mtu, ip_header, data } => {
                // the two reserved bytes before the MTU are always zero
                s.push(0);
                s.push(0);
                push_be16(&mut s, *next_hop_mtu);
                let mut header_bytes = ip_header.serialize();
                s.append(&mut header_bytes);
                push_bytes(&mut s, data);
            },
        }

        proof {
            assert(s@ =~= self.spec_serialize());
        }
        s
    }
}

/// The common ICMP header, with the structured payload (if the type has one).
#[derive(Debug, Clone)]
pub struct IcmpHeader {
    pub icmp_type: IcmpType,
    pub code: u8,
    pub checksum: u16,
    pub data: Option<IcmpHeaderData>,
}

impl Serialize for IcmpHeader {
    open spec fn wf(&self) -> bool {
        match self.data {
            Some(d) => d.wf(),
            None => true,
        }
    }

    open spec fn spec_serialize(&self) -> Seq<u8> {
        seq![icmp_type_byte(self.icmp_type), self.code] + be16(self.checksum) + (
        match self.data {
            Some(d) => d.spec_serialize(),
            None => Seq::empty(),
        })
    }

    fn serialize(&self) -> (r: Vec<u8>) {
        let mut s: Vec<u8> = Vec::new();
        s.push(self.icmp_type.to_u8());
        s.push(self.code);
        push_be16(&mut s, self.checksum);
        if let Some(data) = &self.data {
            let mut data_bytes = data.serialize();
            s.append(&mut data_bytes);
        }
        proof {
            assert(s@ =~= self.spec_serialize());
        }
        s
    }
}

/// A whole ICMP message: the header and the opaque trailing data (for an
/// echo message, the echo payload).
#[derive(Debug, Clone)]
pub struct IcmpPacket {
    pub header: IcmpHeader,
    pub data: Vec<u8>,
}

impl Serialize for IcmpPacket {
    open spec fn wf(&self) -> bool {
        self.header.wf()
    }

    open spec fn spec_serialize(&self) -> Seq<u8> {
        self.header.spec_serialize() + self.data@
    }

    fn serialize(&self) -> (r: Vec<u8>) {
        let mut s = self.header.serialize();
        push_bytes(&mut s, &self.data);
        s
    }
}

impl IcmpPacket {
    /// Recomputes the message checksum: the field is zeroed, the whole
    /// message is serialized, and the Internet checksum of those bytes
    /// becomes the new field value. The rewritten message then verifies:
    /// its folded word sum is the all-ones sentinel.
    pub fn update_checksum(&mut self)
        requires
            old(self).wf(),
            old(self).spec_serialize().len() <= 65535,
        ensures
            final(self).header == (IcmpHeader {
                checksum: final(self).header.checksum,
                ..old(self).header
            }),
            final(self).data == old(self).data,
            final(self).header.checksum == checksum16_spec(
                (IcmpPacket {
                    header: IcmpHeader { checksum: 0, ..old(self).header },
                    data: old(self).data,
                }).spec_serialize(),
            ),
            folded_sum(final(self).spec_serialize()) == 0xFFFF,
            checksum16_spec(final(self).spec_serialize()) == 0,
    {
        self.header.checksum = 0;
        let ghost zeroed = self.spec_serialize();
        proof {
            // zeroing the field only rewrites bytes 2 and 3
            assert(zeroed =~= old(self).spec_serialize().update(2, 0u8).update(3, 0u8));
        }
        let raw_data: Vec<u8> = self.serialize();
        self.header.checksum = checksum_16(raw_data.as_slice());
        proof {
            let cs = checksum16_spec(zeroed);
            // the checksum field occupies bytes 2 and 3, the second word
            lemma_checksum_self_verifying(zeroed, 1);
            assert(self.spec_serialize() =~= zeroed.update(2, (cs / 256) as u8).update(
                3,
                (cs % 256) as u8,
            ));
        }
    }

    /// The diagnostic name of this message's (type, code) pair; an empty
    /// string for any pair outside the known table, never a failure.
    pub fn description(&self) -> (r: &'static str)
        ensures
            r@ == spec_description(self.header.icmp_type, self.header.code),
    {
        let icmp_type = self.header.icmp_type;
        let code = self.header.code;
        match icmp_type {
            IcmpType::EchoReply => {
                match code {
                    0 => "Echo reply",
                    _ => "",
                }
            },
            IcmpType::DestinationUnreachable => {
                match code {
                    0 => "Destination network unreachable",
                    1 => "Destination host unreachable",
                    2 => "Destination protocol unreachable",
                    3 => "Destination port unreachable",
                    4 => "Fragmentation required",
                    5 => "Source route failed",
                    6 => "Destination network unknown",
                    7 => "Destination host unknown",
                    8 => "Source host isolated",
                    9 => "Network administratively prohibited",
                    10 => "Host administratively prohibited",
                    11 => "Network unreachable for ToS",
                    12 => "Host unreachable for ToS",
                    13 => "Communication administratively prohibited",
                    14 => "Host precedence violation",
                    15 => "Precedence cutoff in effect",
                    _ => "",
                }
            },
            IcmpType::RedirectMessage => {
                match code {
                    0 => "Redirect Datagram for the Network",
                    1 => "Redirect Datagram for the Host",
                    2 => "Redirect Datagram for the ToS and Network",
                    3 => "Redirect Datagram for the ToS and Host",
                    _ => "",
                }
            },
            IcmpType::EchoRequest => {
                match code {
                    0 => "Echo request",
                    _ => "",
                }
            },
            IcmpType::RouterAdvertisement => {
                match code {
                    0 => "Router Advertisement",
                    _ => "",
                }
            },
            IcmpType::RouterSolicitation => {
                match code {
                    0 => "Router Solicitation",
                    _ => "",
                }
            },
            IcmpType::TimeExceeded => {
                match code {
                    0 => "TTL expired in transit",
                    1 => "Fragment reassembly time exceeded",
                    _ => "",
                }
            },
            IcmpType::BadIpHeader => {
                match code {
                    0 => "Pointer indicates the error",
                    1 => "Missing a required option",
                    2 => "Bad length",
                    _ => "",
                }
            },
            IcmpType::Timestamp => {
                match code {
                    0 => "Timestamp",
                    _ => "",
                }
            },
            IcmpType::TimestampReply => {
                match code {
                    0 => "Timestamp reply",
                    _ => "",
                }
            },
            IcmpType::Unimplemented(_) => "Unimplemented",
        }
    }
}

/// The diagnostic lookup table behind `IcmpPacket::description`.
pub open spec fn spec_description(t: IcmpType, code: u8) -> Seq<char> {
    match t {
        IcmpType::EchoReply => if code == 0 {
            "Echo reply"@
        } else {
            ""@
        },
        IcmpType::DestinationUnreachable => if code == 0 {
            "Destination network unreachable"@
        } else if code == 1 {
            "Destination host unreachable"@
        } else if code == 2 {
            "Destination protocol unreachable"@
        } else if code == 3 {
            "Destination port unreachable"@
        } else if code == 4 {
            "Fragmentation required"@
        } else if code == 5 {
            "Source route failed"@
        } else if code == 6 {
            "Destination network unknown"@
        } else if code == 7 {
            "Destination host unknown"@
        } else if code == 8 {
            "Source host isolated"@
        } else if code == 9 {
            "Network administratively prohibited"@
        } else if code == 10 {
            "Host administratively prohibited"@
        } else if code == 11 {
            "Network unreachable for ToS"@
        } else if code == 12 {
            "Host unreachable for ToS"@
        } else if code == 13 {
            "Communication administratively prohibited"@
        } else if code == 14 {
            "Host precedence violation"@
        } else if code == 15 {
            "Precedence cutoff in effect"@
        } else {
            ""@
        },
        IcmpType::RedirectMessage => if code == 0 {
            "Redirect Datagram for the Network"@
        } else if code == 1 {
            "Redirect Datagram for the Host"@
        } else if code == 2 {
            "Redirect Datagram for the ToS and Network"@
        } else if code == 3 {
            "Redirect Datagram for the ToS and Host"@
        } else {
            ""@
        },
        IcmpType::EchoRequest => if code == 0 {
            "Echo request"@
        } else {
            ""@
        },
        IcmpType::RouterAdvertisement => if code == 0 {
            "Router Advertisement"@
        } else {
            ""@
        },
        IcmpType::RouterSolicitation => if code == 0 {
            "Router Solicitation"@
        } else {
            ""@
        },
        IcmpType::TimeExceeded => if code == 0 {
            "TTL expired in transit"@
        } else if code == 1 {
            "Fragment reassembly time exceeded"@
        } else {
            ""@
        },
        IcmpType::BadIpHeader => if code == 0 {
            "Pointer indicates the error"@
        } else if code == 1 {
            "Missing a required option"@
        } else if code == 2 {
            "Bad length"@
        } else {
            ""@
        },
        IcmpType::Timestamp => if code == 0 {
            "Timestamp"@
        } else {
            ""@
        },
        IcmpType::TimestampReply => if code == 0 {
            "Timestamp reply"@
        } else {
            ""@
        },
        IcmpType::Unimplemented(_) => "Unimplemented"@,
    }
}

/// How many payload bytes an embedded datagram quote takes: the embedded
/// IPv4 header plus the eight quoted data bytes.
pub open spec fn embedded_len(p: Seq<u8>) -> int {
    4 * ihl_of(p) + 8
}

/// When a payload starts with a full embedded datagram quote.
pub open spec fn embedded_header_ok(p: Seq<u8>) -> bool {
    &&& ipv4_header_ok(p)
    &&& p.len() >= embedded_len(p)
}

/// The error an incomplete embedded datagram quote gets.
pub open spec fn embedded_header_err(p: Seq<u8>) -> ParseError {
    if !ipv4_header_ok(p) {
        ipv4_header_err(p)
    } else {
        ParseError::InsufficientInput
    }
}

/// When the structured payload of a type-`t` message can be decoded from the
/// front of `p`. Types without structured payload accept anything.
pub open spec fn icmp_payload_ok(t: u8, p: Seq<u8>) -> bool {
    if t == 5 || t == 3 {
        p.len() >= 4 && embedded_header_ok(p.skip(4))
    } else if t == 11 {
        embedded_header_ok(p)
    } else if t == 13 || t == 14 {
        p.len() >= 16
    } else {
        true
    }
}

/// How many bytes the structured payload of a type-`t` message occupies.
pub open spec fn icmp_payload_consumed(t: u8, p: Seq<u8>) -> int {
    if t == 5 || t == 3 {
        4 + embedded_len(p.skip(4))
    } else if t == 11 {
        embedded_len(p)
    } else if t == 13 || t == 14 {
        16
    } else {
        0
    }
}

/// What re-encoding the structured payload decoded from the front of `p`
/// yields: the consumed bytes, except that the two reserved bytes of a
/// destination-unreachable payload come back as zeros.
pub open spec fn icmp_payload_bytes(t: u8, p: Seq<u8>) -> Seq<u8> {
    if t == 3 {
        seq![0u8, 0u8] + p.subrange(2, icmp_payload_consumed(t, p))
    } else {
        p.take(icmp_payload_consumed(t, p))
    }
}

/// When a buffer decodes to an ICMP packet: the four common header bytes are
/// present and the type-specific payload is complete.
pub open spec fn icmp_packet_ok(b: Seq<u8>) -> bool {
    &&& b.len() >= 4
    &&& icmp_payload_ok(b[0], b.skip(4))
}

/// The error a rejected buffer gets.
pub open spec fn icmp_packet_err(b: Seq<u8>) -> ParseError {
    if b.len() < 4 {
        ParseError::InsufficientInput
    } else {
        let t = b[0];
        let p = b.skip(4);
        if t == 5 || t == 3 {
            if p.len() < 4 {
                ParseError::InsufficientInput
            } else {
                embedded_header_err(p.skip(4))
            }
        } else if t == 11 {
            embedded_header_err(p)
        } else {
            ParseError::InsufficientInput
        }
    }
}

/// Which structured payload a type-`t` message carries, field by field, as
/// a function of the payload bytes `p` (the bytes after the common header).
pub open spec fn icmp_data_fields(t: u8, p: Seq<u8>, d: Option<IcmpHeaderData>) -> bool {
    if t == 3 {
        &&& (d matches Some(IcmpHeaderData::DestinationUnreachable { next_hop_mtu, ip_header, data })
            && next_hop_mtu == word16_at(p, 2)
            && ip_header.spec_serialize() == p.skip(4).take(4 * ihl_of(p.skip(4)))
            && data@ == p.skip(4).subrange(4 * ihl_of(p.skip(4)), embedded_len(p.skip(4))))
    } else if t == 5 {
        &&& (d matches Some(IcmpHeaderData::Redirect { ip_addr, ip_header, data })
            && ip_addr.0 == word32_at(p, 0)
            && ip_header.spec_serialize() == p.skip(4).take(4 * ihl_of(p.skip(4)))
            && data@ == p.skip(4).subrange(4 * ihl_of(p.skip(4)), embedded_len(p.skip(4))))
    } else if t == 11 {
        &&& (d matches Some(IcmpHeaderData::TimeExceeded { ip_header, data })
            && ip_header.spec_serialize() == p.take(4 * ihl_of(p))
            && data@ == p.subrange(4 * ihl_of(p), embedded_len(p)))
    } else if t == 13 {
        &&& (d matches Some(IcmpHeaderData::Timestamp { id, seq, originate, receive, transmit })
            && id == word16_at(p, 0) && seq == word16_at(p, 2) && originate == word32_at(p, 4)
            && receive == word32_at(p, 8) && transmit == word32_at(p, 12))
    } else if t == 14 {
        &&& (d matches Some(IcmpHeaderData::TimestampReply { id, seq, originate, receive, transmit })
            && id == word16_at(p, 0) && seq == word16_at(p, 2) && originate == word32_at(p, 4)
            && receive == word32_at(p, 8) && transmit == word32_at(p, 12))
    } else {
        d is None
    }
}

/// Decodes an embedded datagram quote: an IPv4 header, then exactly eight
/// bytes of the offending datagram.
fn parse_ip_header_and_data(input: &[u8]) -> (r: Result<(Vec<u8>, (Ipv4Header, Vec<u8>)), ParseError>)
    ensures
        match r {
            Ok((rest, hd)) => {
                &&& embedded_header_ok(input@)
                &&& hd.0.wf()
                &&& hd.1@.len() == 8
                &&& hd.0.spec_serialize() == input@.take(4 * ihl_of(input@))
                &&& hd.1@ == input@.subrange(4 * ihl_of(input@), embedded_len(input@))
                &&& hd.0.spec_serialize() + hd.1@ == input@.take(embedded_len(input@))
                &&& rest@ == input@.skip(embedded_len(input@))
            },
            Err(e) => !embedded_header_ok(input@) && e == embedded_header_err(input@),
        },
{
    let (rest1, header) = match parse_ipv4_header(input) {
        Ok(x) => x,
        Err(e) => {
            return Err(e);
        },
    };
    if rest1.len() < 8 {
        return Err(ParseError::InsufficientInput);
    }
    let data = slice_to_vec(slice_subrange(rest1.as_slice(), 0, 8));
    let rest = slice_to_vec(slice_subrange(rest1.as_slice(), 8, rest1.len()));
    proof {
        assert(data@ =~= input@.subrange(4 * ihl_of(input@), embedded_len(input@)));
        assert(header.spec_serialize() + data@ =~= input@.take(embedded_len(input@)));
        assert(rest@ =~= input@.skip(embedded_len(input@)));
    }
    Ok((rest, (header, data)))
}

/// Decodes a redirect payload: the gateway address, then a datagram quote.
fn parse_redirect_data(input: &[u8]) -> (r: Result<(Vec<u8>, IcmpHeaderData), ParseError>)
    ensures
        match r {
            Ok((rest, d)) => {
                &&& icmp_payload_ok(5, input@)
                &&& d.wf()
                &&& icmp_data_fields(5, input@, Some(d))
                &&& d.spec_serialize() == icmp_payload_bytes(5, input@)
                &&& rest@ == input@.skip(icmp_payload_consumed(5, input@))
            },
            Err(e) => !icmp_payload_ok(5, input@) && e == (if input@.len() < 4 {
                ParseError::InsufficientInput
            } else {
                embedded_header_err(input@.skip(4))
            }),
        },
{
    if input.len() < 4 {
        return Err(ParseError::InsufficientInput);
    }
    let ip_addr = read_u32(input, 0);
    let tail = slice_subrange(input, 4, input.len());
    let (rest, hd) = match parse_ip_header_and_data(tail) {
        Ok(x) => x,
        Err(e) => {
            return Err(e);
        },
    };
    let (ip_header, data) = hd;
    let d = IcmpHeaderData::Redirect { ip_addr: Ipv4Address(ip_addr), ip_header, data };
    proof {
        lemma_be32_of_word32(input@, 0);
        assert(tail@ =~= input@.skip(4));
        assert(ip_header.spec_serialize() + data@ == input@.skip(4).take(
            embedded_len(input@.skip(4)),
        ));
        assert(d.spec_serialize() =~= be32(word32_at(input@, 0)) + (ip_header.spec_serialize()
            + data@));
        assert(d.spec_serialize() =~= icmp_payload_bytes(5, input@));
        assert(rest@ =~= input@.skip(icmp_payload_consumed(5, input@)));
    }
    Ok((rest, d))
}

/// Decodes a time-exceeded payload: just a datagram quote.
fn parse_time_exceeded_data(input: &[u8]) -> (r: Result<(Vec<u8>, IcmpHeaderData), ParseError>)
    ensures
        match r {
            Ok((rest, d)) => {
                &&& icmp_payload_ok(11, input@)
                &&& d.wf()
                &&& icmp_data_fields(11, input@, Some(d))
                &&& d.spec_serialize() == icmp_payload_bytes(11, input@)
                &&& rest@ == input@.skip(icmp_payload_consumed(11, input@))
            },
            Err(e) => !icmp_payload_ok(11, input@) && e == embedded_header_err(input@),
        },
{
    let (rest, hd) = match parse_ip_header_and_data(input) {
        Ok(x) => x,
        Err(e) => {
            return Err(e);
        },
    };
    let (ip_header, data) = hd;
    let d = IcmpHeaderData::TimeExceeded { ip_header, data };
    proof {
        assert(d.spec_serialize() =~= icmp_payload_bytes(11, input@));
    }
    Ok((rest, d))
}

/// Decodes the five timestamp fields: id, sequence, then the originate,
/// receive and transmit timestamps, all big-endian.
fn parse_timestamp_data(input: &[u8]) -> (r: Result<(u16, u16, u32, u32, u32), ParseError>)
    ensures
        match r {
            Ok(t) => {
                &&& input@.len() >= 16
                &&& t.0 == word16_at(input@, 0)
                &&& t.1 == word16_at(input@, 2)
                &&& t.2 == word32_at(input@, 4)
                &&& t.3 == word32_at(input@, 8)
                &&& t.4 == word32_at(input@, 12)
            },
            Err(e) => input@.len() < 16 && e == ParseError::InsufficientInput,
        },
{
    if input.len() < 16 {
        return Err(ParseError::InsufficientInput);
    }
    let id = read_u16(input, 0);
    let seq = read_u16(input, 2);
    let originate = read_u32(input, 4);
    let receive = read_u32(input, 8);
    let transmit = read_u32(input, 12);
    Ok((id, seq, originate, receive, transmit))
}

/// What a decoded timestamp payload re-serializes to.
proof fn lemma_timestamp_bytes(p: Seq<u8>)
    requires
        p.len() >= 16,
    ensures
        be16(word16_at(p, 0)) + be16(word16_at(p, 2)) + be32(word32_at(p, 4))
            + be32(word32_at(p, 8)) + be32(word32_at(p, 12)) == p.take(16),
{
    lemma_be16_of_word16(p, 0);
    lemma_be16_of_word16(p, 2);
    lemma_be32_of_word32(p, 4);
    lemma_be32_of_word32(p, 8);
    lemma_be32_of_word32(p, 12);
    assert(be16(word16_at(p, 0)) + be16(word16_at(p, 2)) + be32(word32_at(p, 4))
        + be32(word32_at(p, 8)) + be32(word32_at(p, 12)) =~= p.take(16));
}

/// Decodes a timestamp payload.
fn parse_timestamp(input: &[u8]) -> (r: Result<(Vec<u8>, IcmpHeaderData), ParseError>)
    ensures
        match r {
            Ok((rest, d)) => {
                &&& icmp_payload_ok(13, input@)
                &&& d.wf()
                &&& icmp_data_fields(13, input@, Some(d))
                &&& d.spec_serialize() == icmp_payload_bytes(13, input@)
                &&& rest@ == input@.skip(icmp_payload_consumed(13, input@))
            },
            Err(e) => !icmp_payload_ok(13, input@) && e == ParseError::InsufficientInput,
        },
{
    let (id, seq, originate, receive, transmit) = match parse_timestamp_data(input) {
        Ok(x) => x,
        Err(e) => {
            return Err(e);
        },
    };
    let d = IcmpHeaderData::Timestamp { id, seq, originate, receive, transmit };
    let rest = slice_to_vec(slice_subrange(input, 16, input.len()));
    proof {
        lemma_timestamp_bytes(input@);
    }
    Ok((rest, d))
}

/// Decodes a timestamp-reply payload.
fn parse_timestamp_reply(input: &[u8]) -> (r: Result<(Vec<u8>, IcmpHeaderData), ParseError>)
    ensures
        match r {
            Ok((rest, d)) => {
                &&& icmp_payload_ok(14, input@)
                &&& d.wf()
                &&& icmp_data_fields(14, input@, Some(d))
                &&& d.spec_serialize() == icmp_payload_bytes(14, input@)
                &&& rest@ == input@.skip(icmp_payload_consumed(14, input@))
            },
            Err(e) => !icmp_payload_ok(14, input@) && e == ParseError::InsufficientInput,
        },
{
    let (id, seq, originate, receive, transmit) = match parse_timestamp_data(input) {
        Ok(x) => x,
        Err(e) => {
            return Err(e);
        },
    };
    let d = IcmpHeaderData::TimestampReply { id, seq, originate, receive, transmit };
    let rest = slice_to_vec(slice_subrange(input, 16, input.len()));
    proof {
        lemma_timestamp_bytes(input@);
    }
    Ok((rest, d))
}

/// Decodes a destination-unreachable payload: two reserved bytes (read and
/// discarded), the next-hop MTU, then a datagram quote.
fn parse_destination_unreachable(input: &[u8]) -> (r: Result<(Vec<u8>, IcmpHeaderData), ParseError>)
    ensures
        match r {
            Ok((rest, d)) => {
                &&& icmp_payload_ok(3, input@)
                &&& d.wf()
                &&& icmp_data_fields(3, input@, Some(d))
                &&& d.spec_serialize() == icmp_payload_bytes(3, input@)
                &&& rest@ == input@.skip(icmp_payload_consumed(3, input@))
            },
            Err(e) => !icmp_payload_ok(3, input@) && e == (if input@.len() < 4 {
                ParseError::InsufficientInput
            } else {
                embedded_header_err(input@.skip(4))
            }),
        },
{
    if input.len() < 4 {
        return Err(ParseError::InsufficientInput);
    }
    let next_hop_mtu = read_u16(input, 2);
    let tail = slice_subrange(input, 4, input.len());
    let (rest, hd) = match parse_ip_header_and_data(tail) {
        Ok(x) => x,
        Err(e) => {
            return Err(e);
        },
    };
    let (ip_header, data) = hd;
    let d = IcmpHeaderData::DestinationUnreachable { next_hop_mtu, ip_header, data };
    proof {
        lemma_be16_of_word16(input@, 2);
        assert(tail@ =~= input@.skip(4));
        assert(ip_header.spec_serialize() + data@ == input@.skip(4).take(
            embedded_len(input@.skip(4)),
        ));
        assert(d.spec_serialize() =~= seq![0u8, 0u8] + be16(next_hop_mtu)
            + (ip_header.spec_serialize() + data@));
        assert(d.spec_serialize() =~= icmp_payload_bytes(3, input@));
        assert(rest@ =~= input@.skip(icmp_payload_consumed(3, input@)));
    }
    Ok((rest, d))
}

/// Decodes the structured payload selected by the message type; types
/// without one consume nothing.
fn parse_icmp_header_data(input: &[u8], icmp_type: IcmpType) -> (r: Result<
    (Vec<u8>, Option<IcmpHeaderData>),
    ParseError,
>)
    requires
        icmp_type == icmp_type_from_byte(icmp_type_byte(icmp_type)),
    ensures
        match r {
            Ok((rest, d)) => {
                &&& icmp_payload_ok(icmp_type_byte(icmp_type), input@)
                &&& icmp_data_fields(icmp_type_byte(icmp_type), input@, d)
                &&& (d matches Some(dd) ==> dd.wf())
                &&& (match d {
                    Some(dd) => dd.spec_serialize(),
                    None => Seq::empty(),
                }) == icmp_payload_bytes(icmp_type_byte(icmp_type), input@)
                &&& rest@ == input@.skip(
                    icmp_payload_consumed(icmp_type_byte(icmp_type), input@),
                )
            },
            Err(e) => !icmp_payload_ok(icmp_type_byte(icmp_type), input@) && e == ({
                let t = icmp_type_byte(icmp_type);
                let p = input@;
                if t == 5 || t == 3 {
                    if p.len() < 4 {
                        ParseError::InsufficientInput
                    } else {
                        embedded_header_err(p.skip(4))
                    }
                } else if t == 11 {
                    embedded_header_err(p)
                } else {
                    ParseError::InsufficientInput
                }
            }),
        },
{
    match icmp_type {
        IcmpType::RedirectMessage => {
            let (rest, data) = match parse_redirect_data(input) {
                Ok(x) => x,
                Err(e) => {
                    return Err(e);
                },
            };
            Ok((rest, Some(data)))
        },
        IcmpType::TimeExceeded => {
            let (rest, data) = match parse_time_exceeded_data(input) {
                Ok(x) => x,
                Err(e) => {
                    return Err(e);
                },
            };
            Ok((rest, Some(data)))
        },
        IcmpType::Timestamp => {
            let (rest, data) = match parse_timestamp(input) {
                Ok(x) => x,
                Err(e) => {
                    return Err(e);
                },
            };
            Ok((rest, Some(data)))
        },
        IcmpType::TimestampReply => {
            let (rest, data) = match parse_timestamp_reply(input) {
                Ok(x) => x,
                Err(e) => {
                    return Err(e);
                },
            };
            Ok((rest, Some(data)))
        },
        IcmpType::DestinationUnreachable => {
            let (rest, data) = match parse_destination_unreachable(input) {
                Ok(x) => x,
                Err(e) => {
                    return Err(e);
                },
            };
            Ok((rest, Some(data)))
        },
        _ => {
            let rest = slice_to_vec(slice_subrange(input, 0, input.len()));
            proof {
                assert(rest@ =~= input@.skip(0));
                assert(input@.take(0) =~= Seq::<u8>::empty());
            }
            Ok((rest, None))
        },
    }
}

/// Decodes a whole ICMP message: the common header, the type-selected
/// structured payload, then every remaining byte as the trailing data.
/// Nothing is left over, so the returned rest is always empty.
/// Re-serializing the packet reproduces the input, except that the two
/// reserved bytes of a destination-unreachable message come back as zeros.
pub fn parse_icmp_packet(input: &[u8]) -> (r: Result<(Vec<u8>, IcmpPacket), ParseError>)
    ensures
        match r {
            Ok((rest, p)) => {
                &&& icmp_packet_ok(input@)
                &&& p.wf()
                &&& p.header.icmp_type == icmp_type_from_byte(input@[0])
                &&& p.header.code == input@[1]
                &&& p.header.checksum == word16_at(input@, 2)
                &&& icmp_data_fields(input@[0], input@.skip(4), p.header.data)
                &&& p.data@ == input@.skip(4 + icmp_payload_consumed(input@[0], input@.skip(4)))
                &&& (input@[0] != 3 ==> p.spec_serialize() == input@)
                &&& (input@[0] == 3 ==> p.spec_serialize() == input@.update(4, 0u8).update(
                    5,
                    0u8,
                ))
                &&& rest@ == Seq::<u8>::empty()
            },
            Err(e) => !icmp_packet_ok(input@) && e == icmp_packet_err(input@),
        },
{
    if input.len() < 4 {
        return Err(ParseError::InsufficientInput);
    }
    let icmp_type = IcmpType::from_u8(input[0]);
    let code = input[1];
    let checksum = read_u16(input, 2);
    let payload = slice_subrange(input, 4, input.len());
    let (trailing, header_data) = match parse_icmp_header_data(payload, icmp_type) {
        Ok(x) => x,
        Err(e) => {
            return Err(e);
        },
    };
    let header = IcmpHeader { icmp_type, code, checksum, data: header_data };
    let packet = IcmpPacket { header, data: trailing };
    let empty: Vec<u8> = Vec::new();
    proof {
        let b = input@;
        let t = b[0];
        let p4 = b.skip(4);
        lemma_be16_of_word16(b, 2);
        assert(seq![icmp_type_byte(packet.header.icmp_type), packet.header.code] + be16(
            packet.header.checksum,
        ) =~= b.take(4));
        assert(packet.data@ == b.skip(4 + icmp_payload_consumed(t, p4)));
        if t != 3 {
            assert(packet.spec_serialize() =~= b);
        } else {
            assert(packet.spec_serialize() =~= b.update(4, 0u8).update(5, 0u8));
        }
        assert(empty@ =~= Seq::<u8>::empty());
    }
    Ok((empty, packet))
}

} // verus!
