use vstd::prelude::*;

use crate::connection::{rewritten_destination, rewritten_destination_spec, Connection,
    ConnectionId};
use crate::event::{RelayOutput, SocketAction};
use crate::ipv4_header::{Ipv4HeaderData, Protocol};
use crate::ipv4_packet::Ipv4Packet;
use crate::selector::{Interest, Selector};
use crate::transport_header::{TransportHeaderData, UdpHeaderData};

verus! {

/// Sweep ticks a UDP flow may stay idle before it is reclaimed. UDP has
/// no close signal, so expiration is its only teardown path.
pub const UDP_IDLE_TIMEOUT_TICKS: u64 = 120;

/// The synthetic UDP-over-IPv4 packet that carries one datagram read
/// from the socket back to the client: endpoints of `cid` swapped,
/// payload bytes untouched.
pub open spec fn is_udp_reply(p: Ipv4Packet, cid: ConnectionId, payload: Seq<u8>) -> bool {
    &&& p.header == (Ipv4HeaderData {
        protocol: Protocol::Udp,
        source: cid.destination_ip_spec(),
        destination: cid.source_ip_spec(),
    })
    &&& p.transport == TransportHeaderData::Udp(
        UdpHeaderData {
            source_port: cid.destination_port_spec(),
            destination_port: cid.source_port_spec(),
        },
    )
    &&& p.payload@ == payload
}

/// How one inbound client packet transforms a UDP flow: a live flow
/// forwards the payload as exactly one datagram and resets its idle
/// clock; a closed one stays inert. This is the whole contract of
/// `process_send`, named so that the router can pass it on.
pub open spec fn udp_send_transition(
    pre: UdpConnection,
    post: UdpConnection,
    packet: Ipv4Packet,
    out: RelayOutput,
) -> bool {
    &&& post.cid == pre.cid
    &&& post.token == pre.token
    &&& post.closed == pre.closed
    &&& (pre.closed ==> {
        &&& post == pre
        &&& out.actions@.len() == 0
        &&& out.packets@.len() == 0
    })
    &&& (!pre.closed ==> {
        &&& post.idle == 0
        &&& out.packets@.len() == 0
        &&& out.actions@.len() == 1
        &&& (out.actions@[0] matches SocketAction::SendDatagram { token, data } && token
            == pre.token && data@ == packet.payload@)
    })
}

/// One relayed UDP flow. Created lazily on the first datagram of an
/// identifier; each inbound packet's payload leaves as exactly one
/// datagram and each datagram read from the socket comes back as
/// exactly one synthetic packet, boundaries preserved 1:1. Teardown is
/// by expiration only.
pub struct UdpConnection {
    pub cid: ConnectionId,
    pub token: usize,
    pub idle: u64,
    pub closed: bool,
}

impl UdpConnection {
    /// Open a flow for `cid`: register with the selector for
    /// readability and ask the caller to dial a datagram socket to the
    /// rewritten destination (the sentinel address never leaks into the
    /// dial).
    pub fn new(cid: ConnectionId, selector: &mut Selector) -> (r: (UdpConnection, RelayOutput))
        requires
            old(selector).wf(),
            old(selector).next_token < usize::MAX,
        ensures
            final(selector).wf(),
            r.0.cid == cid,
            r.0.token == old(selector).next_token,
            r.0.idle == 0,
            !r.0.closed,
            !old(selector).has_token(r.0.token),
            final(selector).has_token(r.0.token),
            r.1.packets@.len() == 0,
            r.1.actions@.len() == 1,
            (r.1.actions@[0] matches SocketAction::Connect { token, protocol, addr } && token
                == r.0.token && protocol == Protocol::Udp && addr == rewritten_destination_spec(
                cid.destination_ip_spec(),
                cid.destination_port_spec(),
            )),
    {
        let token = selector.register(Interest::new(true, false));
        let addr = rewritten_destination(cid.destination_ip(), cid.destination_port());
        let mut out = RelayOutput::empty();
        out.push_action(SocketAction::Connect { token, protocol: Protocol::Udp, addr });
        (UdpConnection { cid, token, idle: 0, closed: false }, out)
    }

    /// Forward one inbound packet's payload as one best-effort datagram
    /// write. A closed connection produces nothing. The whole behaviour
    /// is `udp_send_transition`.
    pub fn process_send(&mut self, ipv4_packet: &Ipv4Packet) -> (out: RelayOutput)
        ensures
            udp_send_transition(*old(self), *final(self), *ipv4_packet, out),
    {
        let mut out = RelayOutput::empty();
        if self.closed {
            return out;
        }
        self.idle = 0;
        let data = ipv4_packet.payload.clone();
        out.push_action(SocketAction::SendDatagram { token: self.token, data });
        out
    }

    /// Wrap one datagram read from the socket into one synthetic packet
    /// for the virtual interface. A closed connection produces nothing.
    pub fn process_receive(&mut self, data: Vec<u8>) -> (out: RelayOutput)
        ensures
            final(self).cid == old(self).cid,
            final(self).token == old(self).token,
            final(self).closed == old(self).closed,
            old(self).closed ==> {
                &&& *final(self) == *old(self)
                &&& out.actions@.len() == 0
                &&& out.packets@.len() == 0
            },
            !old(self).closed ==> {
                &&& final(self).idle == 0
                &&& out.actions@.len() == 0
                &&& out.packets@.len() == 1
                &&& is_udp_reply(out.packets@[0], old(self).cid, data@)
            },
    {
        let mut out = RelayOutput::empty();
        if self.closed {
            return out;
        }
        self.idle = 0;
        let header = Ipv4HeaderData::new(
            Protocol::Udp,
            self.cid.destination_ip(),
            self.cid.source_ip(),
        );
        let transport = TransportHeaderData::Udp(
            UdpHeaderData {
                source_port: self.cid.destination_port(),
                destination_port: self.cid.source_port(),
            },
        );
        out.push_packet(Ipv4Packet::new(header, transport, data));
        out
    }

    /// Wrap a batch of datagrams read from the socket, in arrival
    /// order: n datagrams in, n packets out, payload bytes identical.
    pub fn process_received_batch(&mut self, datagrams: Vec<Vec<u8>>) -> (out: Vec<Ipv4Packet>)
        requires
            !old(self).closed,
        ensures
            final(self).cid == old(self).cid,
            final(self).token == old(self).token,
            final(self).closed == old(self).closed,
            out@.len() == datagrams@.len(),
            forall|k: int|
                0 <= k < out@.len() ==> is_udp_reply(out@[k], old(self).cid, datagrams@[k]@),
    {
        let ghost g_datagrams = datagrams@;
        let mut out: Vec<Ipv4Packet> = Vec::new();
        let mut rest = datagrams;
        let mut k: usize = 0;
        let n = rest.len();
        while k < n
            invariant
                !self.closed,
                self.cid == old(self).cid,
                self.token == old(self).token,
                n == g_datagrams.len(),
                rest@ == g_datagrams,
                k <= n,
                out@.len() == k,
                forall|j: int| 0 <= j < k ==> is_udp_reply(out@[j], old(self).cid, g_datagrams[j]@),
            decreases n - k,
        {
            let data = rest[k].clone();
            let mut one = self.process_receive(data);
            let packet = one.packets.pop().unwrap();
            out.push(packet);
            k = k + 1;
        }
        out
    }

    /// Immediate teardown (UDP has no close handshake): release the
    /// selector registration and ask the caller to close the socket.
    pub fn shutdown(&mut self, selector: &mut Selector) -> (out: RelayOutput)
        requires
            old(selector).wf(),
        ensures
            final(selector).wf(),
            final(selector).next_token == old(selector).next_token,
            forall|u: usize| final(selector).has_token(u) ==> old(selector).has_token(u),
            final(self).cid == old(self).cid,
            final(self).token == old(self).token,
            final(self).closed,
            old(self).closed ==> {
                &&& *final(self) == *old(self)
                &&& *final(selector) == *old(selector)
                &&& out.actions@.len() == 0
                &&& out.packets@.len() == 0
            },
            !old(self).closed ==> {
                &&& !final(selector).has_token(old(self).token)
                &&& out.packets@.len() == 0
                &&& out.actions@.len() == 1
                &&& out.actions@[0] == (SocketAction::CloseSocket { token: old(self).token })
            },
    {
        let mut out = RelayOutput::empty();
        if self.closed {
            return out;
        }
        selector.deregister(self.token);
        self.closed = true;
        out.push_action(SocketAction::CloseSocket { token: self.token });
        out
    }

    /// Advance the idle clock by one sweep tick; the count saturates at
    /// the timeout, past which the connection reports itself expired.
    pub fn tick(&mut self)
        ensures
            final(self).cid == old(self).cid,
            final(self).token == old(self).token,
            final(self).closed == old(self).closed,
            final(self).idle == (if old(self).idle < UDP_IDLE_TIMEOUT_TICKS {
                old(self).idle + 1
            } else {
                old(self).idle as int
            }),
    {
        if self.idle < UDP_IDLE_TIMEOUT_TICKS {
            self.idle = self.idle + 1;
        }
    }
}

impl Connection for UdpConnection {
    open spec fn id_spec(&self) -> ConnectionId {
        self.cid
    }

    open spec fn token_spec(&self) -> usize {
        self.token
    }

    open spec fn closed_spec(&self) -> bool {
        self.closed
    }

    open spec fn expired_spec(&self) -> bool {
        self.idle >= UDP_IDLE_TIMEOUT_TICKS
    }

    fn id(&self) -> (r: &ConnectionId) {
        &self.cid
    }

    fn send_to_network(&mut self, selector: &mut Selector, ipv4_packet: &Ipv4Packet) -> (out:
        RelayOutput) {
        self.process_send(ipv4_packet)
    }

    fn close(&mut self, selector: &mut Selector) -> (out: RelayOutput) {
        self.shutdown(selector)
    }

    fn is_expired(&self) -> (r: bool) {
        self.idle >= UDP_IDLE_TIMEOUT_TICKS
    }

    fn is_closed(&self) -> (r: bool) {
        self.closed
    }
}

} // verus!
