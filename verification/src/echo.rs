//! The echo-reply constructor: turns a decoded Echo Request into a fully
//! checksummed Echo Reply datagram. A pure function of one inbound request;
//! no state is kept across invocations.

use vstd::prelude::*;

use crate::icmp::{IcmpHeader, IcmpPacket, IcmpType};
use crate::ipv4::{
    Ipv4Header, Ipv4HeaderFragmentationInfo, Ipv4HeaderPrelude, Ipv4HeaderProtocol, Ipv4Packet,
};
use crate::util::{checksum16_spec, folded_sum, Serialize};

verus! {

/// Builds the reply to an Echo Request: an ICMP Echo Reply (code 0, no
/// structured payload, the request's trailing data echoed back unchanged)
/// wrapped in a fresh 20-byte IPv4 header whose source and destination are
/// the request's swapped. Both checksums are recomputed over the respective
/// zero-checksum serialization, so both verify: their folded word sums are
/// the all-ones sentinel.
pub fn build_echo_reply(request_ip_header: &Ipv4Header, request: &IcmpPacket) -> (r: (
    Ipv4Packet,
    IcmpPacket,
))
    requires
        request.header.icmp_type == IcmpType::EchoRequest,
        request.data@.len() <= 65511,
    ensures
        r.1.header.icmp_type == IcmpType::EchoReply,
        r.1.header.code == 0,
        (r.1.header.data is None),
        r.1.data@ == request.data@,
        r.1.header.checksum == checksum16_spec(seq![0u8, 0u8, 0u8, 0u8] + request.data@),
        folded_sum(r.1.spec_serialize()) == 0xFFFF,
        checksum16_spec(r.1.spec_serialize()) == 0,
        r.0.header.wf(),
        r.0.header.prelude == (Ipv4HeaderPrelude {
            version: 4,
            header_length: 5,
            dscp: 0,
            ecn: 0,
        }),
        r.0.header.total_length == 24 + request.data@.len(),
        r.0.header.identification == 0,
        r.0.header.frag_info == (Ipv4HeaderFragmentationInfo { flags: 0, offset: 0 }),
        r.0.header.ttl == 255,
        r.0.header.protocol == Ipv4HeaderProtocol::Icmp,
        r.0.header.source == request_ip_header.destination,
        r.0.header.destination == request_ip_header.source,
        r.0.header.options@ == Seq::<u8>::empty(),
        r.0.data@ == r.1.spec_serialize(),
        r.0.header.checksum == checksum16_spec(
            (Ipv4Header { checksum: 0, ..r.0.header }).spec_serialize(),
        ),
        folded_sum(r.0.header.spec_serialize()) == 0xFFFF,
        checksum16_spec(r.0.header.spec_serialize()) == 0,
{
    let mut icmp_reply = IcmpPacket {
        header: IcmpHeader {
            checksum: 0,
            icmp_type: IcmpType::EchoReply,
            code: 0,
            data: None,
        },
        data: request.data.serialize(),
    };
    proof {
        assert(icmp_reply.spec_serialize() =~= seq![0u8, 0u8, 0u8, 0u8] + request.data@);
    }
    icmp_reply.update_checksum();
    let icmp_reply_bytes = icmp_reply.serialize();

    let mut ip_packet_reply = Ipv4Packet {
        header: Ipv4Header {
            prelude: Ipv4HeaderPrelude { version: 4, header_length: 5, dscp: 0, ecn: 0 },
            total_length: 20 + (icmp_reply_bytes.len() as u16),
            identification: 0,
            frag_info: Ipv4HeaderFragmentationInfo { flags: 0, offset: 0 },
            ttl: 255,
            protocol: Ipv4HeaderProtocol::Icmp,
            checksum: 0,
            source: request_ip_header.destination,
            destination: request_ip_header.source,
            options: Vec::new(),
        },
        data: icmp_reply_bytes,
    };
    ip_packet_reply.update_checksum();
    proof {
        assert((IcmpPacket {
            header: IcmpHeader {
                checksum: 0,
                icmp_type: IcmpType::EchoReply,
                code: 0,
                data: None,
            },
            data: icmp_reply.data,
        }).spec_serialize() =~= seq![0u8, 0u8, 0u8, 0u8] + request.data@);
    }
    (ip_packet_reply, icmp_reply)
}

} // verus!
