use vstd::prelude::*;

verus! {

/// Length of an Ethernet header.
pub const ETH_HDR_LEN: usize = 14;
/// Length of an IPv4 header without options.
pub const IPV4_HDR_LEN: usize = 20;
/// Length of a UDP header.
pub const UDP_HDR_LEN: usize = 8;
/// Length of a TCP header without options.
pub const TCP_HDR_LEN: usize = 20;
/// The ethertype of IPv4.
pub const ETHERTYPE_IPV4: u16 = 0x0800;
/// The IPv4 protocol number of TCP.
pub const PROTO_TCP: u8 = 6;
/// The IPv4 protocol number of UDP.
pub const PROTO_UDP: u8 = 17;

/// The fields that the filter reads from an Ethernet/IPv4/TCP-or-UDP frame.
#[derive(Debug, PartialEq, Eq, Structural, Clone, Copy)]
pub struct PacketHeader {
    pub src_addr: u32,
    pub dst_addr: u32,
    pub src_port: u16,
    pub dst_port: u16,
}

/// What parsing a frame gives.
#[derive(Debug, PartialEq, Eq, Structural, Clone, Copy)]
pub enum Parsed {
    /// A header the parser needed reaches past the end of the frame.
    Truncated,
    /// The frame is not IPv4 carrying TCP or UDP.
    NotApplicable,
    /// The frame's addresses and ports.
    Packet(PacketHeader),
}

/// The big-endian 16-bit value at `off`.
pub open spec fn be16_at(b: Seq<u8>, off: int) -> u16 {
    (b[off] as int * 0x100 + b[off + 1] as int) as u16
}

/// The big-endian 32-bit value at `off`.
pub open spec fn be32_at(b: Seq<u8>, off: int) -> u32 {
    (b[off] as int * 0x1000000 + b[off + 1] as int * 0x10000 + b[off + 2] as int * 0x100
        + b[off + 3] as int) as u32
}

/// The length of the transport header of protocol `proto`, for TCP and UDP.
pub open spec fn transport_len(proto: u8) -> int {
    if proto == PROTO_TCP { TCP_HDR_LEN as int } else { UDP_HDR_LEN as int }
}

/// What a frame holds: each header is read only when the frame is long
/// enough to hold all of it.
pub open spec fn frame_fields(b: Seq<u8>) -> Parsed {
    let l3 = ETH_HDR_LEN as int;
    let l4 = l3 + IPV4_HDR_LEN as int;
    if b.len() < l3 {
        Parsed::Truncated
    } else if be16_at(b, 12) != ETHERTYPE_IPV4 {
        Parsed::NotApplicable
    } else if b.len() < l4 {
        Parsed::Truncated
    } else if b[l3 + 9] != PROTO_TCP && b[l3 + 9] != PROTO_UDP {
        Parsed::NotApplicable
    } else if b.len() < l4 + transport_len(b[l3 + 9]) {
        Parsed::Truncated
    } else {
        Parsed::Packet(
            PacketHeader {
                src_addr: be32_at(b, l3 + 12),
                dst_addr: be32_at(b, l3 + 16),
                src_port: be16_at(b, l4),
                dst_port: be16_at(b, l4 + 2),
            },
        )
    }
}

/// Reads the big-endian 16-bit value at `off`.
fn read_be16(b: &[u8], off: usize) -> (r: u16)
    requires
        off + 2 <= b@.len(),
    ensures
        r == be16_at(b@, off as int),
{
    (b[off] as u16) * 0x100 + (b[off + 1] as u16)
}

/// Reads the big-endian 32-bit value at `off`.
fn read_be32(b: &[u8], off: usize) -> (r: u32)
    requires
        off + 4 <= b@.len(),
    ensures
        r == be32_at(b@, off as int),
{
    (b[off] as u32) * 0x1000000 + (b[off + 1] as u32) * 0x10000 + (b[off + 2] as u32) * 0x100
        + (b[off + 3] as u32)
}

/// Parses an Ethernet frame, checking each header's length before reading it.
pub fn parse_frame(frame: &[u8]) -> (r: Parsed)
    ensures
        r == frame_fields(frame@),
{
    let l3 = ETH_HDR_LEN;
    let l4 = ETH_HDR_LEN + IPV4_HDR_LEN;
    if frame.len() < l3 {
        return Parsed::Truncated;
    }
    if read_be16(frame, 12) != ETHERTYPE_IPV4 {
        return Parsed::NotApplicable;
    }
    if frame.len() < l4 {
        return Parsed::Truncated;
    }
    let proto = frame[l3 + 9];
    let need = if proto == PROTO_TCP {
        TCP_HDR_LEN
    } else if proto == PROTO_UDP {
        UDP_HDR_LEN
    } else {
        return Parsed::NotApplicable;
    };
    if frame.len() < l4 + need {
        return Parsed::Truncated;
    }
    Parsed::Packet(
        PacketHeader {
            src_addr: read_be32(frame, l3 + 12),
            dst_addr: read_be32(frame, l3 + 16),
            src_port: read_be16(frame, l4),
            dst_port: read_be16(frame, l4 + 2),
        },
    )
}

} // verus!
