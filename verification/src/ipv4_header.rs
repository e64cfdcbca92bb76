use vstd::prelude::*;

verus! {

/// Transport protocol of a flow. The relay supports exactly these two;
/// packets of any other protocol are dropped before a connection is made.
#[derive(Clone, Copy, Debug, PartialEq, Eq, Hash, Structural)]
pub enum Protocol {
    Tcp,
    Udp,
}

/// Decoded view of an IPv4 header: the fields the relay core reads.
/// Parsing raw bytes into this view (and checksum handling) is the
/// header codec's job, outside the core.
#[derive(Clone, Copy, Debug, PartialEq, Eq, Structural)]
pub struct Ipv4HeaderData {
    pub protocol: Protocol,
    pub source: u32,
    pub destination: u32,
}

impl Ipv4HeaderData {
    pub fn new(protocol: Protocol, source: u32, destination: u32) -> (r: Self)
        ensures
            r == (Ipv4HeaderData { protocol, source, destination }),
    {
        Ipv4HeaderData { protocol, source, destination }
    }

    pub fn protocol(&self) -> (r: Protocol)
        ensures
            r == self.protocol,
    {
        self.protocol
    }

    pub fn source(&self) -> (r: u32)
        ensures
            r == self.source,
    {
        self.source
    }

    pub fn destination(&self) -> (r: u32)
        ensures
            r == self.destination,
    {
        self.destination
    }
}

} // verus!
