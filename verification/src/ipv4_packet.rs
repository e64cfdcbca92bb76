use vstd::prelude::*;

use crate::ipv4_header::Ipv4HeaderData;
use crate::transport_header::TransportHeaderData;

verus! {

/// A fully decoded IPv4 packet as the core sees it: header views plus
/// the transport payload bytes. Encoding back to raw bytes (and
/// checksum computation) is the header codec's job, outside the core.
#[derive(Clone, Debug, PartialEq, Eq)]
pub struct Ipv4Packet {
    pub header: Ipv4HeaderData,
    pub transport: TransportHeaderData,
    pub payload: Vec<u8>,
}

impl Ipv4Packet {
    pub fn new(header: Ipv4HeaderData, transport: TransportHeaderData, payload: Vec<u8>) -> (r:
        Self)
        ensures
            r.header == header,
            r.transport == transport,
            r.payload@ == payload@,
    {
        Ipv4Packet { header, transport, payload }
    }
}

} // verus!
