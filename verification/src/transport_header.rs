use vstd::prelude::*;

verus! {

/// Decoded view of a TCP header: the fields the relay core reads or
/// synthesizes. Sequence and acknowledgement numbers live in the usual
/// 32-bit wrapping space.
#[derive(Clone, Copy, Debug, PartialEq, Eq, Structural)]
pub struct TcpHeaderData {
    pub source_port: u16,
    pub destination_port: u16,
    pub sequence_number: u32,
    pub acknowledgement_number: u32,
    pub window: u16,
    pub syn: bool,
    pub ack: bool,
    pub fin: bool,
    pub rst: bool,
}

/// Decoded view of a UDP header: the fields the relay core reads.
#[derive(Clone, Copy, Debug, PartialEq, Eq, Structural)]
pub struct UdpHeaderData {
    pub source_port: u16,
    pub destination_port: u16,
}

/// Transport header of a decoded packet, one variant per supported
/// protocol.
#[derive(Clone, Copy, Debug, PartialEq, Eq, Structural)]
pub enum TransportHeaderData {
    Tcp(TcpHeaderData),
    Udp(UdpHeaderData),
}

impl TransportHeaderData {
    /// Source port, whichever transport carries it.
    pub open spec fn source_port_spec(self) -> u16 {
        match self {
            TransportHeaderData::Tcp(h) => h.source_port,
            TransportHeaderData::Udp(h) => h.source_port,
        }
    }

    /// Destination port, whichever transport carries it.
    pub open spec fn destination_port_spec(self) -> u16 {
        match self {
            TransportHeaderData::Tcp(h) => h.destination_port,
            TransportHeaderData::Udp(h) => h.destination_port,
        }
    }

    pub fn source_port(&self) -> (r: u16)
        ensures
            r == self.source_port_spec(),
    {
        match self {
            TransportHeaderData::Tcp(h) => h.source_port,
            TransportHeaderData::Udp(h) => h.source_port,
        }
    }

    pub fn destination_port(&self) -> (r: u16)
        ensures
            r == self.destination_port_spec(),
    {
        match self {
            TransportHeaderData::Tcp(h) => h.destination_port,
            TransportHeaderData::Udp(h) => h.destination_port,
        }
    }
}

} // verus!
