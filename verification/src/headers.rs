//! Plain-value view of a parsed packet, as handed to the detection engine.
//!
//! Decoding raw frames into these values is the job of an external header
//! extractor; the engine only ever sees this structured form.

use vstd::prelude::*;

verus! {

/// The TCP header fields the engine reads: the destination port and the six
/// control flags.
#[derive(Clone, Copy, Debug, PartialEq, Eq)]
pub struct TcpHeaderInfo {
    pub destination_port: u16,
    pub syn: bool,
    pub ack: bool,
    pub fin: bool,
    pub rst: bool,
    pub psh: bool,
    pub urg: bool,
}

/// The transport layer of a packet: a TCP segment with its header fields, a
/// UDP datagram (no fields beyond its presence are needed), or anything else.
#[derive(Clone, Copy, Debug, PartialEq, Eq)]
pub enum TransportInfo {
    Tcp(TcpHeaderInfo),
    Udp,
    Other,
}

/// The network layer of a packet. Only IPv4 packets carry detection state;
/// addresses are held as big-endian `u32` values.
#[derive(Clone, Copy, Debug, PartialEq, Eq)]
pub enum NetInfo {
    Ipv4 { source: u32, destination: u32 },
    Other,
}

/// Everything the engine consumes for one packet.
#[derive(Clone, Copy, Debug, PartialEq, Eq)]
pub struct ParsedHeaders {
    pub net: NetInfo,
    pub transport: TransportInfo,
}

impl ParsedHeaders {
    /// Whether this packet is an IPv4 TCP segment.
    pub open spec fn is_ipv4_tcp(self) -> bool {
        self.net is Ipv4 && self.transport is Tcp
    }

    /// Whether this packet is an IPv4 UDP datagram.
    pub open spec fn is_ipv4_udp(self) -> bool {
        self.net is Ipv4 && self.transport is Udp
    }

    /// The IPv4 source address of the packet.
    pub open spec fn source(self) -> u32
        recommends
            self.net is Ipv4,
    {
        self.net->source
    }

    /// The TCP header of the packet.
    pub open spec fn tcp(self) -> TcpHeaderInfo
        recommends
            self.transport is Tcp,
    {
        self.transport->Tcp_0
    }
}

} // verus!
