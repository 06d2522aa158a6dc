//! Classification of raw Ethernet frames: Ethernet -> IPv4 -> TCP, with
//! the four-tuple summary line for TCP and fixed lines for everything else.

use vstd::prelude::*;
use crate::render::{spec_decimal, decimal_string};

verus! {

/// Ethertype of an IPv4 payload in an Ethernet header.
pub const ETHERTYPE_IPV4: u16 = 0x0800;

/// Protocol number of TCP in an IPv4 header.
pub const PROTOCOL_TCP: u8 = 6;

/// An IPv4 address as its four octets.
#[derive(Clone, Copy, PartialEq, Eq, Structural, Debug)]
pub struct Ipv4Address {
    pub a: u8,
    pub b: u8,
    pub c: u8,
    pub d: u8,
}

/// What a frame turned out to be.
///
/// `Dropped` stands for a frame whose Ethernet payload claims IPv4 (or,
/// further in, TCP) but is too short to carry the header it announces:
/// such frames are dropped without a word.
#[derive(Clone, Copy, PartialEq, Eq, Structural, Debug)]
pub enum Classification {
    Tcp { src: Ipv4Address, src_port: u16, dst: Ipv4Address, dst_port: u16 },
    NonTcp,
    NonIpv4,
    Dropped,
}

/// A big-endian 16-bit value read from two bytes.
pub open spec fn spec_be16(hi: u8, lo: u8) -> u16 {
    (hi * 256 + lo) as u16
}

fn be16(hi: u8, lo: u8) -> (r: u16)
    ensures
        r == spec_be16(hi, lo),
{
    (hi as u16) * 256 + (lo as u16)
}

/// Where the IPv4 payload starts inside an IPv4 buffer: right after the
/// header, whose length the low nibble of the first byte gives in words of
/// four bytes, never before the twenty fixed header bytes.
pub open spec fn spec_ipv4_payload_start(ip: Seq<u8>) -> nat
    recommends
        ip.len() >= 20,
{
    let ihl4 = (ip[0] % 16) * 4;
    if ihl4 >= 20 {
        ihl4 as nat
    } else {
        20
    }
}

/// How many payload bytes the IPv4 header announces: the total length
/// minus the header length, zero where the fields contradict each other.
pub open spec fn spec_ipv4_payload_len(ip: Seq<u8>) -> nat
    recommends
        ip.len() >= 20,
{
    let ihl4 = (ip[0] % 16) * 4;
    let total = spec_be16(ip[2], ip[3]);
    if total >= ihl4 {
        (total - ihl4) as nat
    } else {
        0
    }
}

/// The IPv4 payload: the announced range, clipped to the buffer, and empty
/// where the buffer ends before the payload would start.
pub open spec fn spec_ipv4_payload(ip: Seq<u8>) -> Seq<u8>
    recommends
        ip.len() >= 20,
{
    let start = spec_ipv4_payload_start(ip);
    let end = start + spec_ipv4_payload_len(ip);
    if ip.len() <= start {
        Seq::<u8>::empty()
    } else if end <= ip.len() {
        ip.subrange(start as int, end as int)
    } else {
        ip.subrange(start as int, ip.len() as int)
    }
}

/// What becomes of a frame of at least the fourteen Ethernet header bytes:
/// a non-IPv4 ethertype or a non-TCP protocol is reported as such; an IPv4
/// or TCP header that does not fit in the bytes that are actually there is
/// dropped; a complete TCP-over-IPv4 frame yields its address/port
/// four-tuple.
pub open spec fn spec_classify(frame: Seq<u8>) -> Classification
    recommends
        frame.len() >= 14,
{
    if spec_be16(frame[12], frame[13]) != ETHERTYPE_IPV4 {
        Classification::NonIpv4
    } else {
        let ip = frame.skip(14);
        if ip.len() < 20 {
            Classification::Dropped
        } else if ip[9] != PROTOCOL_TCP {
            Classification::NonTcp
        } else {
            let tcp = spec_ipv4_payload(ip);
            if tcp.len() < 20 {
                Classification::Dropped
            } else {
                Classification::Tcp {
                    src: Ipv4Address { a: ip[12], b: ip[13], c: ip[14], d: ip[15] },
                    src_port: spec_be16(tcp[0], tcp[1]),
                    dst: Ipv4Address { a: ip[16], b: ip[17], c: ip[18], d: ip[19] },
                    dst_port: spec_be16(tcp[2], tcp[3]),
                }
            }
        }
    }
}

/// Classifies one raw Ethernet frame.
pub fn classify_frame(frame: &[u8]) -> (c: Classification)
    requires
        frame@.len() >= 14,
    ensures
        c == spec_classify(frame@),
{
    let n = frame.len();
    let ethertype = be16(frame[12], frame[13]);
    if ethertype != ETHERTYPE_IPV4 {
        return Classification::NonIpv4;
    }
    let ip_len = n - 14;
    if ip_len < 20 {
        return Classification::Dropped;
    }
    let ghost ip = frame@.skip(14);
    if frame[23] != PROTOCOL_TCP {
        return Classification::NonTcp;
    }
    let ihl4: usize = ((frame[14] % 16) as usize) * 4;
    let start: usize = if ihl4 >= 20 {
        ihl4
    } else {
        20
    };
    let total: usize = be16(frame[16], frame[17]) as usize;
    let plen: usize = if total >= ihl4 {
        total - ihl4
    } else {
        0
    };
    proof {
        assert(start == spec_ipv4_payload_start(ip));
        assert(plen == spec_ipv4_payload_len(ip));
    }
    if ip_len <= start {
        return Classification::Dropped;
    }
    let end: usize = if start + plen <= ip_len {
        start + plen
    } else {
        ip_len
    };
    let tcp_len = end - start;
    proof {
        assert(spec_ipv4_payload(ip) =~= ip.subrange(start as int, end as int));
    }
    if tcp_len < 20 {
        return Classification::Dropped;
    }
    let base = 14 + start;
    Classification::Tcp {
        src: Ipv4Address { a: frame[26], b: frame[27], c: frame[28], d: frame[29] },
        src_port: be16(frame[base], frame[base + 1]),
        dst: Ipv4Address { a: frame[30], b: frame[31], c: frame[32], d: frame[33] },
        dst_port: be16(frame[base + 2], frame[base + 3]),
    }
}

/// The dotted decimal rendering of an IPv4 address.
pub open spec fn spec_ipv4_text(ip: Ipv4Address) -> Seq<char> {
    spec_decimal(ip.a as nat) + "."@ + spec_decimal(ip.b as nat) + "."@ + spec_decimal(
        ip.c as nat,
    ) + "."@ + spec_decimal(ip.d as nat)
}

/// Renders an IPv4 address in dotted decimal.
pub fn ipv4_string(ip: &Ipv4Address) -> (r: String)
    ensures
        r@ == spec_ipv4_text(*ip),
{
    let mut s = decimal_string(ip.a as u64);
    s.append(".");
    let b = decimal_string(ip.b as u64);
    s.append(b.as_str());
    s.append(".");
    let c = decimal_string(ip.c as u64);
    s.append(c.as_str());
    s.append(".");
    let d = decimal_string(ip.d as u64);
    s.append(d.as_str());
    proof {
        assert(s@ =~= spec_ipv4_text(*ip));
    }
    s
}

/// The summary line for a TCP-over-IPv4 frame: both endpoints as
/// address and port, source first.
pub open spec fn spec_tcp_line(
    src: Ipv4Address,
    src_port: u16,
    dst: Ipv4Address,
    dst_port: u16,
) -> Seq<char> {
    "Got a TCP packet "@ + spec_ipv4_text(src) + ":"@ + spec_decimal(src_port as nat) + " to "@
        + spec_ipv4_text(dst) + ":"@ + spec_decimal(dst_port as nat)
}

/// The line to print for one raw Ethernet frame, or `None` for a frame
/// that is dropped without a word.
pub fn classifier_line(frame: &[u8]) -> (r: Option<String>)
    requires
        frame@.len() >= 14,
    ensures
        match spec_classify(frame@) {
            Classification::Tcp { src, src_port, dst, dst_port } => (r matches Some(line)
                && line@ == spec_tcp_line(src, src_port, dst, dst_port)),
            Classification::NonTcp => (r matches Some(line) && line@ == "Ignoring non TCP packet"@),
            Classification::NonIpv4 => (r matches Some(line) && line@
                == "Ignoring non IPv4 packet"@),
            Classification::Dropped => r is None,
        },
{
    match classify_frame(frame) {
        Classification::Tcp { src, src_port, dst, dst_port } => {
            let mut s = String::from_str("Got a TCP packet ");
            let src_text = ipv4_string(&src);
            s.append(src_text.as_str());
            s.append(":");
            let sp = decimal_string(src_port as u64);
            s.append(sp.as_str());
            s.append(" to ");
            let dst_text = ipv4_string(&dst);
            s.append(dst_text.as_str());
            s.append(":");
            let dp = decimal_string(dst_port as u64);
            s.append(dp.as_str());
            proof {
                assert(s@ =~= spec_tcp_line(src, src_port, dst, dst_port));
            }
            Some(s)
        },
        Classification::NonTcp => Some(String::from_str("Ignoring non TCP packet")),
        Classification::NonIpv4 => Some(String::from_str("Ignoring non IPv4 packet")),
        Classification::Dropped => None,
    }
}

} // verus!
