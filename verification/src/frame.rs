//! Decoding of captured link-layer frames.
//!
//! A frame is an Ethernet II header followed by its payload. IPv4 and IPv6
//! payloads are decoded as far as the accounting needs them; a TCP segment
//! inside IPv4 is decoded down to its header fields and payload length.
//! A frame that is too short for the headers it announces, or whose length
//! fields contradict each other, has no view.

use crate::wire::be_value;
use crate::wire::read_u128;
use crate::wire::read_u16;
use crate::wire::read_u32;
use vstd::prelude::*;

verus! {

/// Length of an Ethernet II header.
pub const ETHERNET_HEADER_LEN: usize = 14;

/// Shortest IPv4 header, and the length of a TCP header without options.
pub const MIN_HEADER_LEN: usize = 20;

/// Length of the fixed IPv6 header.
pub const IPV6_HEADER_LEN: usize = 40;

/// Ethertype of an IPv4 payload.
pub const ETHERTYPE_IPV4: u16 = 0x0800;

/// Ethertype of an IPv6 payload.
pub const ETHERTYPE_IPV6: u16 = 0x86DD;

/// IPv4 protocol number of TCP.
pub const PROTOCOL_TCP: u8 = 6;

/// TCP flag bit: no more data from the sender.
pub const TCP_FIN: u8 = 0x01;

/// TCP flag bit: synchronise sequence numbers.
pub const TCP_SYN: u8 = 0x02;

/// TCP flag bit: reset the connection.
pub const TCP_RST: u8 = 0x04;

/// TCP flag bit: push buffered data to the receiver.
pub const TCP_PSH: u8 = 0x08;

/// TCP flag bit: the acknowledgment number is significant.
pub const TCP_ACK: u8 = 0x10;

/// The header fields of one TCP segment, and the length of what follows them.
#[derive(Clone, Copy, Debug, PartialEq, Eq, Structural)]
pub struct TcpView {
    pub source_port: u16,
    pub destination_port: u16,
    pub sequence_number: u32,
    pub acknowledgment_number: u32,
    /// The low eight flag bits (`TCP_FIN` to CWR).
    pub flags: u8,
    pub window_size: u16,
    /// Octets of the segment after its header.
    pub payload_length: u32,
}

impl TcpView {
    /// Whether any flag bit of `mask` is set.
    pub open spec fn spec_has_flag(&self, mask: u8) -> bool {
        self.flags & mask != 0
    }

    /// Whether any flag bit of `mask` is set.
    #[verifier::when_used_as_spec(spec_has_flag)]
    pub fn has_flag(&self, mask: u8) -> (set: bool)
        ensures
            set == self.spec_has_flag(mask),
    {
        self.flags & mask != 0
    }
}

/// What an IPv4 packet carries.
#[derive(Clone, Copy, Debug, PartialEq, Eq, Structural)]
pub enum Transport {
    Tcp(TcpView),
    Other { protocol: u8 },
}

/// The structured view of one frame.
#[derive(Clone, Copy, Debug, PartialEq, Eq, Structural)]
#[allow(inconsistent_fields)]
pub enum FrameView {
    Ipv4 { source: u32, destination: u32, transport: Transport },
    Ipv6 { source: u128, destination: u128 },
    Other { ethertype: u16 },
}

/// The view of a TCP segment: absent when the segment is shorter than a
/// plain header, or its data offset is below five words or points past
/// the segment's end.
pub open spec fn spec_tcp(segment: Seq<u8>) -> Option<TcpView> {
    if segment.len() < MIN_HEADER_LEN {
        None
    } else {
        let header_len = (segment[12] as int / 16) * 4;
        if header_len < MIN_HEADER_LEN || segment.len() < header_len {
            None
        } else {
            Some(
                TcpView {
                    source_port: be_value(segment.subrange(0, 2)) as u16,
                    destination_port: be_value(segment.subrange(2, 4)) as u16,
                    sequence_number: be_value(segment.subrange(4, 8)) as u32,
                    acknowledgment_number: be_value(segment.subrange(8, 12)) as u32,
                    flags: segment[13],
                    window_size: be_value(segment.subrange(14, 16)) as u16,
                    payload_length: (segment.len() - header_len) as u32,
                },
            )
        }
    }
}

/// The view of an IPv4 packet: absent when the packet is shorter than a
/// plain header, its header length is below five words, its total length
/// is below its header length or beyond the octets at hand, or it carries
/// TCP and the segment has no view. Octets after the total length are
/// padding and ignored.
pub open spec fn spec_ipv4(packet: Seq<u8>) -> Option<FrameView> {
    if packet.len() < MIN_HEADER_LEN {
        None
    } else {
        let header_len = (packet[0] as int % 16) * 4;
        let total_len = be_value(packet.subrange(2, 4)) as int;
        if header_len < MIN_HEADER_LEN || total_len < header_len || packet.len() < total_len {
            None
        } else {
            let source = be_value(packet.subrange(12, 16)) as u32;
            let destination = be_value(packet.subrange(16, 20)) as u32;
            let protocol = packet[9];
            if protocol == PROTOCOL_TCP {
                match spec_tcp(packet.subrange(header_len, total_len)) {
                    Some(tcp) => Some(
                        FrameView::Ipv4 { source, destination, transport: Transport::Tcp(tcp) },
                    ),
                    None => None,
                }
            } else {
                Some(
                    FrameView::Ipv4 { source, destination, transport: Transport::Other { protocol } },
                )
            }
        }
    }
}

/// The view of an IPv6 packet: absent when the fixed header is incomplete.
pub open spec fn spec_ipv6(packet: Seq<u8>) -> Option<FrameView> {
    if packet.len() < IPV6_HEADER_LEN {
        None
    } else {
        Some(
            FrameView::Ipv6 {
                source: be_value(packet.subrange(8, 24)) as u128,
                destination: be_value(packet.subrange(24, 40)) as u128,
            },
        )
    }
}

/// The view of a frame: absent when the Ethernet header is incomplete or
/// the IP packet it announces has no view.
pub open spec fn spec_classify(frame: Seq<u8>) -> Option<FrameView> {
    if frame.len() < ETHERNET_HEADER_LEN {
        None
    } else {
        let ethertype = be_value(frame.subrange(12, 14)) as u16;
        let payload = frame.subrange(ETHERNET_HEADER_LEN as int, frame.len() as int);
        if ethertype == ETHERTYPE_IPV4 {
            spec_ipv4(payload)
        } else if ethertype == ETHERTYPE_IPV6 {
            spec_ipv6(payload)
        } else {
            Some(FrameView::Other { ethertype })
        }
    }
}

/// Decodes a TCP segment whose length fits 32 bits.
pub fn classify_tcp(segment: &[u8]) -> (view: Option<TcpView>)
    requires
        segment@.len() <= u32::MAX,
    ensures
        view == spec_tcp(segment@),
{
    if segment.len() < MIN_HEADER_LEN {
        return None;
    }
    let header_len: usize = (segment[12] / 16) as usize * 4;
    if header_len < MIN_HEADER_LEN || segment.len() < header_len {
        return None;
    }
    Some(
        TcpView {
            source_port: read_u16(segment, 0),
            destination_port: read_u16(segment, 2),
            sequence_number: read_u32(segment, 4),
            acknowledgment_number: read_u32(segment, 8),
            flags: segment[13],
            window_size: read_u16(segment, 14),
            payload_length: (segment.len() - header_len) as u32,
        },
    )
}

/// Decodes an IPv4 packet.
pub fn classify_ipv4(packet: &[u8]) -> (view: Option<FrameView>)
    ensures
        view == spec_ipv4(packet@),
{
    if packet.len() < MIN_HEADER_LEN {
        return None;
    }
    let header_len: usize = (packet[0] % 16) as usize * 4;
    let total_len: usize = read_u16(packet, 2) as usize;
    if header_len < MIN_HEADER_LEN || total_len < header_len || packet.len() < total_len {
        return None;
    }
    let source: u32 = read_u32(packet, 12);
    let destination: u32 = read_u32(packet, 16);
    let protocol: u8 = packet[9];
    if protocol == PROTOCOL_TCP {
        match classify_tcp(&packet[header_len..total_len]) {
            Some(tcp) => Some(
                FrameView::Ipv4 { source, destination, transport: Transport::Tcp(tcp) },
            ),
            None => None,
        }
    } else {
        Some(FrameView::Ipv4 { source, destination, transport: Transport::Other { protocol } })
    }
}

/// Decodes an IPv6 packet.
pub fn classify_ipv6(packet: &[u8]) -> (view: Option<FrameView>)
    ensures
        view == spec_ipv6(packet@),
{
    if packet.len() < IPV6_HEADER_LEN {
        return None;
    }
    Some(FrameView::Ipv6 { source: read_u128(packet, 8), destination: read_u128(packet, 24) })
}

/// Decodes a captured frame.
pub fn classify(frame: &[u8]) -> (view: Option<FrameView>)
    ensures
        view == spec_classify(frame@),
{
    if frame.len() < ETHERNET_HEADER_LEN {
        return None;
    }
    let ethertype: u16 = read_u16(frame, 12);
    let payload = &frame[ETHERNET_HEADER_LEN..frame.len()];
    if ethertype == ETHERTYPE_IPV4 {
        classify_ipv4(payload)
    } else if ethertype == ETHERTYPE_IPV6 {
        classify_ipv6(payload)
    } else {
        Some(FrameView::Other { ethertype })
    }
}

} // verus!
