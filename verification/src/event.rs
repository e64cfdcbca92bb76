use vstd::prelude::*;

use crate::connection::SocketAddr4;
use crate::ipv4_header::Protocol;
use crate::ipv4_packet::Ipv4Packet;

verus! {

/// One piece of socket work the core asks its caller to perform.
/// The core never touches a socket itself: it owns the decisions, the
/// event loop around it owns the descriptors. `token` names the
/// selector registration of the connection the work belongs to.
#[derive(Clone, Debug, PartialEq, Eq)]
pub enum SocketAction {
    /// Dial a socket to `addr`: a stream socket for a TCP flow, a
    /// datagram socket for a UDP flow.
    Connect { token: usize, protocol: Protocol, addr: SocketAddr4 },
    /// Attempt one stream write of `data`; the caller reports back how
    /// many bytes the socket took.
    Write { token: usize, data: Vec<u8> },
    /// Send `data` as one datagram, preserving its boundary.
    SendDatagram { token: usize, data: Vec<u8> },
    /// Close the socket and release its descriptor.
    CloseSocket { token: usize },
}

/// Everything one step of a connection produces: socket work for the
/// caller to perform, and synthetic packets to write back to the
/// virtual interface.
#[derive(Clone, Debug, PartialEq, Eq)]
pub struct RelayOutput {
    pub actions: Vec<SocketAction>,
    pub packets: Vec<Ipv4Packet>,
}

impl RelayOutput {
    pub fn empty() -> (r: Self)
        ensures
            r.actions@ == Seq::<SocketAction>::empty(),
            r.packets@ == Seq::<Ipv4Packet>::empty(),
    {
        RelayOutput { actions: Vec::new(), packets: Vec::new() }
    }

    pub fn push_action(&mut self, action: SocketAction)
        ensures
            final(self).actions@ == old(self).actions@.push(action),
            final(self).packets@ == old(self).packets@,
    {
        self.actions.push(action);
    }

    /// Move everything `other` holds onto the end of `self`, keeping
    /// order.
    pub fn extend_with(&mut self, other: &mut RelayOutput)
        ensures
            final(self).actions@ == old(self).actions@ + old(other).actions@,
            final(self).packets@ == old(self).packets@ + old(other).packets@,
            final(other).actions@.len() == 0,
            final(other).packets@.len() == 0,
    {
        self.actions.append(&mut other.actions);
        self.packets.append(&mut other.packets);
    }

    pub fn push_packet(&mut self, packet: Ipv4Packet)
        ensures
            final(self).actions@ == old(self).actions@,
            final(self).packets@ == old(self).packets@.push(packet),
    {
        self.packets.push(packet);
    }
}

} // verus!
