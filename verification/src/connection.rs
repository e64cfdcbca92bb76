use vstd::prelude::*;

use crate::event::{RelayOutput, SocketAction};
use crate::ipv4_header::{Ipv4HeaderData, Protocol};
use crate::ipv4_packet::Ipv4Packet;
use crate::selector::Selector;
use crate::transport_header::TransportHeaderData;

verus! {

/// The capability set every connection variant offers the router.
///
/// A connection owns one socket and one logical flow. It never blocks:
/// socket work is returned as `SocketAction` values inside a
/// `RelayOutput`, and synthetic packets for the virtual interface ride
/// along in the same value. Once `is_closed` holds, a connection is
/// inert: nothing it is asked to do produces any further output.
pub trait Connection: Sized {
    /// The identifier this connection serves, stable for its lifetime.
    spec fn id_spec(&self) -> ConnectionId;

    /// The selector token naming this connection's registration, stable
    /// for its lifetime.
    spec fn token_spec(&self) -> usize;

    /// Whether teardown has fully completed and the instance is safe to
    /// drop from the table.
    spec fn closed_spec(&self) -> bool;

    /// Whether the connection has been idle longer than its
    /// protocol-specific timeout.
    spec fn expired_spec(&self) -> bool;

    fn id(&self) -> (r: &ConnectionId)
        ensures
            *r == self.id_spec(),
    ;

    /// Accept one decoded inbound packet that matched this connection's
    /// identifier and drive its payload toward the socket.
    fn send_to_network(&mut self, selector: &mut Selector, ipv4_packet: &Ipv4Packet) -> (out:
        RelayOutput)
        requires
            old(selector).wf(),
        ensures
            final(selector).wf(),
            final(selector).next_token == old(selector).next_token,
            forall|u: usize|
                final(selector).has_token(u) ==> old(selector).has_token(u),
            final(self).id_spec() == old(self).id_spec(),
            final(self).token_spec() == old(self).token_spec(),
            old(self).closed_spec() ==> {
                &&& final(self).closed_spec()
                &&& out.actions@.len() == 0
                &&& out.packets@.len() == 0
            },
    ;

    /// Tear the connection down (gracefully where the protocol allows)
    /// and release its resources: the selector registration is dropped
    /// and the caller is asked to close the socket.
    fn close(&mut self, selector: &mut Selector) -> (out: RelayOutput)
        requires
            old(selector).wf(),
        ensures
            final(selector).wf(),
            final(selector).next_token == old(selector).next_token,
            forall|u: usize|
                final(selector).has_token(u) ==> old(selector).has_token(u),
            final(self).id_spec() == old(self).id_spec(),
            final(self).token_spec() == old(self).token_spec(),
            final(self).closed_spec(),
            old(self).closed_spec() ==> {
                &&& *final(self) == *old(self)
                &&& *final(selector) == *old(selector)
                &&& out.actions@.len() == 0
                &&& out.packets@.len() == 0
            },
            !old(self).closed_spec() ==> {
                &&& !final(selector).has_token(old(self).token_spec())
                &&& out.actions@.len() == 1
                &&& out.actions@[0] == (SocketAction::CloseSocket {
                    token: old(self).token_spec(),
                })
            },
    ;

    fn is_expired(&self) -> (r: bool)
        ensures
            r == self.expired_spec(),
    ;

    fn is_closed(&self) -> (r: bool)
        ensures
            r == self.closed_spec(),
    ;
}

/// The sentinel destination address (10.0.2.2) that clients use to mean
/// "the machine the relay runs on".
pub const LOCALHOST_FORWARD: u32 = 0x0A00_0202;

/// The IPv4 loopback address (127.0.0.1).
pub const LOCALHOST: u32 = 0x7F00_0001;

/// An IPv4 socket address as the relay dials it: a 32-bit address and a
/// port, kept as plain integers.
#[derive(Clone, Copy, Debug, PartialEq, Eq, Structural)]
pub struct SocketAddr4 {
    pub ip: u32,
    pub port: u16,
}

/// The address actually dialed for a packet's nominal destination:
/// the sentinel maps to loopback, everything else passes through.
pub open spec fn rewritten_destination_spec(ipv4: u32, port: u16) -> SocketAddr4 {
    SocketAddr4 { ip: if ipv4 == LOCALHOST_FORWARD { LOCALHOST } else { ipv4 }, port }
}

/// Compute the address to dial on behalf of a packet addressed to
/// `ipv4:port`. Total: exactly one sentinel value is special-cased to
/// loopback; every other address passes through unchanged, always with
/// the same port.
pub fn rewritten_destination(ipv4: u32, port: u16) -> (r: SocketAddr4)
    ensures
        r == rewritten_destination_spec(ipv4, port),
        ipv4 == LOCALHOST_FORWARD ==> r == (SocketAddr4 { ip: LOCALHOST, port }),
        ipv4 != LOCALHOST_FORWARD ==> r == (SocketAddr4 { ip: ipv4, port }),
{
    let addr: u32 = if ipv4 == LOCALHOST_FORWARD {
        LOCALHOST
    } else {
        ipv4
    };
    SocketAddr4 { ip: addr, port }
}

/// Canonical key of one logical flow: protocol and both endpoints.
/// Two packets of the same flow always decode to an identical value;
/// this is the sole routing key of the connection table.
#[derive(Clone, Copy, Debug, PartialEq, Eq, Hash, Structural)]
pub struct ConnectionId {
    protocol: Protocol,
    source_ip: u32,
    source_port: u16,
    destination_ip: u32,
    destination_port: u16,
}

impl ConnectionId {
    /// Mathematical counterpart of `from_headers`: the identifier is the
    /// five-field tuple read off the decoded headers, nothing more.
    pub closed spec fn from_headers_spec(
        ipv4_header_data: Ipv4HeaderData,
        transport_header_data: TransportHeaderData,
    ) -> ConnectionId {
        ConnectionId {
            protocol: ipv4_header_data.protocol,
            source_ip: ipv4_header_data.source,
            source_port: transport_header_data.source_port_spec(),
            destination_ip: ipv4_header_data.destination,
            destination_port: transport_header_data.destination_port_spec(),
        }
    }

    pub closed spec fn protocol_spec(self) -> Protocol {
        self.protocol
    }

    pub closed spec fn source_ip_spec(self) -> u32 {
        self.source_ip
    }

    pub closed spec fn source_port_spec(self) -> u16 {
        self.source_port
    }

    pub closed spec fn destination_ip_spec(self) -> u32 {
        self.destination_ip
    }

    pub closed spec fn destination_port_spec(self) -> u16 {
        self.destination_port
    }

    /// Build the identifier of the flow a decoded packet belongs to.
    /// Pure and infallible: malformed headers are rejected earlier, by
    /// the header codec.
    pub fn from_headers(
        ipv4_header_data: &Ipv4HeaderData,
        transport_header_data: &TransportHeaderData,
    ) -> (r: Self)
        ensures
            r == Self::from_headers_spec(*ipv4_header_data, *transport_header_data),
            r.protocol_spec() == ipv4_header_data.protocol,
            r.source_ip_spec() == ipv4_header_data.source,
            r.source_port_spec() == transport_header_data.source_port_spec(),
            r.destination_ip_spec() == ipv4_header_data.destination,
            r.destination_port_spec() == transport_header_data.destination_port_spec(),
    {
        ConnectionId {
            protocol: ipv4_header_data.protocol(),
            source_ip: ipv4_header_data.source(),
            source_port: transport_header_data.source_port(),
            destination_ip: ipv4_header_data.destination(),
            destination_port: transport_header_data.destination_port(),
        }
    }

    pub fn protocol(&self) -> (r: Protocol)
        ensures
            r == self.protocol_spec(),
    {
        self.protocol
    }

    pub fn source_ip(&self) -> (r: u32)
        ensures
            r == self.source_ip_spec(),
    {
        self.source_ip
    }

    pub fn source_port(&self) -> (r: u16)
        ensures
            r == self.source_port_spec(),
    {
        self.source_port
    }

    pub fn destination_ip(&self) -> (r: u32)
        ensures
            r == self.destination_ip_spec(),
    {
        self.destination_ip
    }

    pub fn destination_port(&self) -> (r: u16)
        ensures
            r == self.destination_port_spec(),
    {
        self.destination_port
    }

    /// The client-side endpoint of the flow, as a socket address.
    pub fn source(&self) -> (r: SocketAddr4)
        ensures
            r == (SocketAddr4 { ip: self.source_ip_spec(), port: self.source_port_spec() }),
    {
        SocketAddr4 { ip: self.source_ip, port: self.source_port }
    }

    /// The nominal destination endpoint of the flow, as a socket address
    /// (before any rewriting).
    pub fn destination(&self) -> (r: SocketAddr4)
        ensures
            r == (SocketAddr4 {
                ip: self.destination_ip_spec(),
                port: self.destination_port_spec(),
            }),
    {
        SocketAddr4 { ip: self.destination_ip, port: self.destination_port }
    }
}

/// `from_headers` is deterministic (it is a function of the decoded
/// fields alone) and injective: identifiers built from header pairs that
/// differ in protocol, an address or a port never collide.
pub proof fn lemma_from_headers_injective(
    h1: Ipv4HeaderData,
    t1: TransportHeaderData,
    h2: Ipv4HeaderData,
    t2: TransportHeaderData,
)
    requires
        ConnectionId::from_headers_spec(h1, t1) == ConnectionId::from_headers_spec(h2, t2),
    ensures
        h1.protocol == h2.protocol,
        h1.source == h2.source,
        h1.destination == h2.destination,
        t1.source_port_spec() == t2.source_port_spec(),
        t1.destination_port_spec() == t2.destination_port_spec(),
{
}

} // verus!
