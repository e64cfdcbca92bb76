use vstd::prelude::*;

use crate::connection::{rewritten_destination, rewritten_destination_spec, Connection,
    ConnectionId};
use crate::event::{RelayOutput, SocketAction};
use crate::ipv4_header::{Ipv4HeaderData, Protocol};
use crate::ipv4_packet::Ipv4Packet;
use crate::selector::{Interest, Selector};
use crate::transport_header::{TcpHeaderData, TransportHeaderData};

verus! {

/// Sweep ticks a TCP flow may stay idle before it is reclaimed.
pub const TCP_IDLE_TIMEOUT_TICKS: u64 = 300;

/// The most payload the relay is ever willing to hold for one flow's
/// socket; the advertised window never promises more than the free part
/// of it, so the client's stack cannot overrun the outbound buffer.
pub const TCP_WINDOW_CAPACITY: u16 = 0x4000;

/// Largest payload one IPv4 packet can carry; anything bigger cannot
/// come out of a well-formed decode and is dropped as malformed.
pub const MAX_PACKET_PAYLOAD: usize = 0x10000;

/// Addition in the 32-bit wrapping sequence-number space.
pub open spec fn seq_add(x: u32, y: u32) -> u32 {
    if x + y > u32::MAX {
        (x + y - 0x1_0000_0000) as u32
    } else {
        (x + y) as u32
    }
}

/// The window advertised to the client: the capacity not yet taken by
/// buffered payload.
pub open spec fn window_spec(buffered: nat) -> u16 {
    if buffered >= TCP_WINDOW_CAPACITY {
        0
    } else {
        (TCP_WINDOW_CAPACITY - buffered) as u16
    }
}

/// States of one relayed TCP flow, initial to terminal. `Closed` is
/// absorbing: no event makes a closed connection emit anything again.
#[derive(Clone, Copy, Debug, PartialEq, Eq, Structural)]
pub enum TcpState {
    /// The client's SYN was seen and the socket dial is under way.
    SynReceived,
    /// The socket is connected; payload is relayed both ways.
    Established,
    /// The client sent FIN; buffered payload is still draining toward
    /// the socket.
    CloseWait,
    /// The socket reached end of stream; our FIN is already out and
    /// buffered payload is still draining toward the socket.
    FinWait,
    /// Teardown is complete; the instance only waits for the sweep.
    Closed,
}

/// The synthetic TCP-over-IPv4 packet the relay writes back to the
/// client: endpoints of `cid` swapped, our own sequence numbering, the
/// ACK bit always set.
pub open spec fn is_tcp_to_client(
    p: Ipv4Packet,
    cid: ConnectionId,
    seqn: u32,
    ackn: u32,
    window: u16,
    syn: bool,
    fin: bool,
    rst: bool,
    payload: Seq<u8>,
) -> bool {
    &&& p.header == (Ipv4HeaderData {
        protocol: Protocol::Tcp,
        source: cid.destination_ip_spec(),
        destination: cid.source_ip_spec(),
    })
    &&& p.transport == TransportHeaderData::Tcp(
        TcpHeaderData {
            source_port: cid.destination_port_spec(),
            destination_port: cid.source_port_spec(),
            sequence_number: seqn,
            acknowledgement_number: ackn,
            window,
            syn,
            ack: true,
            fin,
            rst,
        },
    )
    &&& p.payload@ == payload
}

/// How one inbound client packet transforms a TCP flow: the complete
/// relation between the state, the selector registration and the
/// emitted output, case by case over the header's flags. This is the
/// whole contract of `process_send`, named so that the router can pass
/// it on to its own callers.
pub open spec fn tcp_send_transition(
    pre: TcpConnection,
    post: TcpConnection,
    pre_sel: Selector,
    post_sel: Selector,
    packet: Ipv4Packet,
    out: RelayOutput,
) -> bool {
    &&& post.cid == pre.cid
    &&& post.token == pre.token
    &&& ((pre.state is Closed || !(packet.transport is Tcp) || packet.payload@.len()
        >= MAX_PACKET_PAYLOAD) ==> {
        &&& post == pre
        &&& post_sel == pre_sel
        &&& out.actions@.len() == 0
        &&& out.packets@.len() == 0
    })
    &&& forall|th: TcpHeaderData|
        {
            &&& pre.state !is Closed
            &&& packet.transport == TransportHeaderData::Tcp(th)
            &&& packet.payload@.len() < MAX_PACKET_PAYLOAD
        } ==> {
            &&& (th.rst ==> {
                &&& post.state is Closed
                &&& !post_sel.has_token(pre.token)
                &&& out.packets@.len() == 0
                &&& out.actions@.len() == 1
                &&& out.actions@[0] == (SocketAction::CloseSocket { token: pre.token })
            })
            &&& (!th.rst && pre.state is SynReceived ==> {
                &&& post.state is SynReceived
                &&& post.buffer@ == pre.buffer@
                &&& post.local_seq == pre.local_seq
                &&& out.actions@.len() == 0
                &&& out.packets@.len() == 0
                &&& (th.syn ==> post.client_ack == seq_add(th.sequence_number, 1) && post.idle
                    == 0)
                &&& (!th.syn ==> post == pre)
            })
            &&& (!th.rst && (pre.state is CloseWait || pre.state is FinWait) ==> {
                &&& post == pre
                &&& post_sel == pre_sel
                &&& out.actions@.len() == 0
                &&& out.packets@.len() == 0
            })
            &&& (!th.rst && th.syn && pre.state is Established ==> {
                &&& post == pre
                &&& post_sel == pre_sel
                &&& out.actions@.len() == 0
                &&& out.packets@.len() == 0
            })
            &&& (!th.rst && !th.syn && pre.state is Established ==> {
                &&& post.buffer@ == pre.buffer@ + packet.payload@
                &&& post.client_ack == seq_add(
                    seq_add(pre.client_ack, packet.payload@.len() as u32),
                    if th.fin {
                        1
                    } else {
                        0
                    },
                )
                &&& post.idle == 0
                &&& (th.fin && post.buffer@.len() == 0 ==> {
                    &&& post.state is Closed
                    &&& post.local_seq == seq_add(pre.local_seq, 1)
                    &&& !post_sel.has_token(pre.token)
                    &&& out.packets@.len() == 1
                    &&& is_tcp_to_client(
                        out.packets@[0],
                        pre.cid,
                        pre.local_seq,
                        post.client_ack,
                        window_spec(0),
                        false,
                        true,
                        false,
                        Seq::empty(),
                    )
                    &&& out.actions@.len() == 1
                    &&& out.actions@[0] == (SocketAction::CloseSocket { token: pre.token })
                })
                &&& (th.fin && post.buffer@.len() > 0 ==> {
                    &&& post.state is CloseWait
                    &&& post.local_seq == pre.local_seq
                    &&& out.actions@.len() == 0
                    &&& out.packets@.len() == 1
                    &&& is_tcp_to_client(
                        out.packets@[0],
                        pre.cid,
                        pre.local_seq,
                        post.client_ack,
                        window_spec(post.buffer@.len()),
                        false,
                        false,
                        false,
                        Seq::empty(),
                    )
                    &&& (pre_sel.has_token(pre.token) ==> post_sel.interest_of(pre.token)
                        == (Interest { readable: true, writable: true }))
                })
                &&& (!th.fin ==> {
                    &&& post.state is Established
                    &&& post.local_seq == pre.local_seq
                    &&& out.actions@.len() == 0
                    &&& (packet.payload@.len() == 0 ==> out.packets@.len() == 0 && post_sel
                        == pre_sel)
                    &&& (packet.payload@.len() > 0 ==> {
                        &&& out.packets@.len() == 1
                        &&& is_tcp_to_client(
                            out.packets@[0],
                            pre.cid,
                            pre.local_seq,
                            post.client_ack,
                            window_spec(post.buffer@.len()),
                            false,
                            false,
                            false,
                            Seq::empty(),
                        )
                        &&& (pre_sel.has_token(pre.token) ==> post_sel.interest_of(pre.token)
                            == (Interest { readable: true, writable: true }))
                    })
                })
            })
        }
}

/// One relayed TCP flow. The real socket has its own, unrelated
/// sequence numbers, so the connection keeps the sequence space shown
/// to the client itself: `local_seq` is the next number we present,
/// `client_ack` the next byte we expect from the client. Payload the
/// socket has not yet taken waits in `buffer`; loss recovery is the
/// client stack's business, never this layer's.
pub struct TcpConnection {
    pub cid: ConnectionId,
    pub token: usize,
    pub state: TcpState,
    pub local_seq: u32,
    pub client_ack: u32,
    pub buffer: Vec<u8>,
    pub idle: u64,
}

impl TcpConnection {
    /// Open a flow for `cid` on the client's SYN: register with the
    /// selector and ask the caller to dial a stream socket to the
    /// rewritten destination. `isn` is the initial sequence number the
    /// relay will present to the client; the caller picks the policy.
    pub fn new(cid: ConnectionId, isn: u32, selector: &mut Selector) -> (r: (
        TcpConnection,
        RelayOutput,
    ))
        requires
            old(selector).wf(),
            old(selector).next_token < usize::MAX,
        ensures
            final(selector).wf(),
            r.0.cid == cid,
            r.0.token == old(selector).next_token,
            r.0.state == TcpState::SynReceived,
            r.0.local_seq == isn,
            r.0.buffer@.len() == 0,
            r.0.idle == 0,
            !old(selector).has_token(r.0.token),
            final(selector).has_token(r.0.token),
            r.1.packets@.len() == 0,
            r.1.actions@.len() == 1,
            (r.1.actions@[0] matches SocketAction::Connect { token, protocol, addr } && token
                == r.0.token && protocol == Protocol::Tcp && addr == rewritten_destination_spec(
                cid.destination_ip_spec(),
                cid.destination_port_spec(),
            )),
    {
        let token = selector.register(Interest::new(true, true));
        let addr = rewritten_destination(cid.destination_ip(), cid.destination_port());
        let mut out = RelayOutput::empty();
        out.push_action(SocketAction::Connect { token, protocol: Protocol::Tcp, addr });
        (
            TcpConnection {
                cid,
                token,
                state: TcpState::SynReceived,
                local_seq: isn,
                client_ack: 0,
                buffer: Vec::new(),
                idle: 0,
            },
            out,
        )
    }

    /// The window currently advertised to the client.
    pub fn window(&self) -> (r: u16)
        ensures
            r == window_spec(self.buffer@.len()),
    {
        let len = self.buffer.len();
        if len >= TCP_WINDOW_CAPACITY as usize {
            0
        } else {
            (TCP_WINDOW_CAPACITY as usize - len) as u16
        }
    }

    /// Build one packet for the client carrying the connection's
    /// current acknowledgement number and window.
    fn make_packet(&self, syn: bool, fin: bool, rst: bool, seqn: u32, payload: Vec<u8>) -> (p:
        Ipv4Packet)
        ensures
            is_tcp_to_client(
                p,
                self.cid,
                seqn,
                self.client_ack,
                window_spec(self.buffer@.len()),
                syn,
                fin,
                rst,
                payload@,
            ),
    {
        let header = Ipv4HeaderData::new(
            Protocol::Tcp,
            self.cid.destination_ip(),
            self.cid.source_ip(),
        );
        let transport = TransportHeaderData::Tcp(
            TcpHeaderData {
                source_port: self.cid.destination_port(),
                destination_port: self.cid.source_port(),
                sequence_number: seqn,
                acknowledgement_number: self.client_ack,
                window: self.window(),
                syn,
                ack: true,
                fin,
                rst,
            },
        );
        Ipv4Packet::new(header, transport, payload)
    }

    /// Accept one decoded inbound packet from the client. Data is
    /// buffered toward the socket and acknowledged at once; a FIN is
    /// acknowledged and, once nothing is left to drain, answered with
    /// our own FIN; an RST tears the flow down silently. A closed
    /// connection ignores everything. The whole behaviour is
    /// `tcp_send_transition`.
    pub fn process_send(&mut self, selector: &mut Selector, ipv4_packet: &Ipv4Packet) -> (out:
        RelayOutput)
        requires
            old(selector).wf(),
        ensures
            final(selector).wf(),
            final(selector).next_token == old(selector).next_token,
            forall|u: usize| final(selector).has_token(u) ==> old(selector).has_token(u),
            tcp_send_transition(
                *old(self),
                *final(self),
                *old(selector),
                *final(selector),
                *ipv4_packet,
                out,
            ),
    {
        let mut out = RelayOutput::empty();
        if self.state == TcpState::Closed {
            return out;
        }
        if ipv4_packet.payload.len() >= MAX_PACKET_PAYLOAD {
            return out;
        }
        let th = match &ipv4_packet.transport {
            TransportHeaderData::Tcp(th) => *th,
            TransportHeaderData::Udp(_) => {
                return out;
            },
        };
        if th.rst {
            selector.deregister(self.token);
            self.state = TcpState::Closed;
            out.push_action(SocketAction::CloseSocket { token: self.token });
            return out;
        }
        match self.state {
            TcpState::SynReceived => {
                if th.syn {
                    self.client_ack = th.sequence_number.wrapping_add(1);
                    self.idle = 0;
                }
                out
            },
            TcpState::Established => {
                if th.syn {
                    return out;
                }
                let payload_len = ipv4_packet.payload.len();
                if payload_len > 0 {
                    let mut data = ipv4_packet.payload.clone();
                    self.buffer.append(&mut data);
                    self.client_ack = self.client_ack.wrapping_add(payload_len as u32);
                }
                if th.fin {
                    self.client_ack = self.client_ack.wrapping_add(1);
                }
                self.idle = 0;
                if th.fin && self.buffer.len() == 0 {
                    let p = self.make_packet(false, true, false, self.local_seq, Vec::new());
                    self.local_seq = self.local_seq.wrapping_add(1);
                    self.state = TcpState::Closed;
                    selector.deregister(self.token);
                    out.push_packet(p);
                    out.push_action(SocketAction::CloseSocket { token: self.token });
                } else if th.fin {
                    self.state = TcpState::CloseWait;
                    let p = self.make_packet(false, false, false, self.local_seq, Vec::new());
                    out.push_packet(p);
                    selector.update_interest(self.token, Interest::new(true, true));
                } else if payload_len > 0 {
                    let p = self.make_packet(false, false, false, self.local_seq, Vec::new());
                    out.push_packet(p);
                    selector.update_interest(self.token, Interest::new(true, true));
                }
                out
            },
            TcpState::CloseWait => out,
            TcpState::FinWait => out,
            TcpState::Closed => out,
        }
    }

    /// The socket dial completed: answer the client's SYN with our
    /// SYN-ACK and enter the established state.
    pub fn on_socket_connected(&mut self, selector: &mut Selector) -> (out: RelayOutput)
        requires
            old(selector).wf(),
        ensures
            final(selector).wf(),
            *final(selector) == *old(selector),
            final(self).cid == old(self).cid,
            final(self).token == old(self).token,
            old(self).state !is SynReceived ==> {
                &&& *final(self) == *old(self)
                &&& out.actions@.len() == 0
                &&& out.packets@.len() == 0
            },
            old(self).state is SynReceived ==> {
                &&& final(self).state is Established
                &&& final(self).local_seq == seq_add(old(self).local_seq, 1)
                &&& final(self).client_ack == old(self).client_ack
                &&& final(self).buffer@ == old(self).buffer@
                &&& final(self).idle == 0
                &&& out.actions@.len() == 0
                &&& out.packets@.len() == 1
                &&& is_tcp_to_client(
                    out.packets@[0],
                    old(self).cid,
                    old(self).local_seq,
                    old(self).client_ack,
                    window_spec(old(self).buffer@.len()),
                    true,
                    false,
                    false,
                    Seq::empty(),
                )
            },
    {
        let mut out = RelayOutput::empty();
        if self.state != TcpState::SynReceived {
            return out;
        }
        let p = self.make_packet(true, false, false, self.local_seq, Vec::new());
        self.local_seq = self.local_seq.wrapping_add(1);
        self.state = TcpState::Established;
        self.idle = 0;
        out.push_packet(p);
        out
    }

    /// The payload one write attempt should offer the socket: the whole
    /// buffer, or nothing when nothing is pending. One readiness
    /// notification earns exactly one attempt; the caller reports the
    /// accepted byte count to `complete_write`.
    pub fn pending_write(&self) -> (r: Option<Vec<u8>>)
        ensures
            (self.state is Closed || self.buffer@.len() == 0) ==> r is None,
            !(self.state is Closed) && self.buffer@.len() > 0 ==> {
                &&& r is Some
                &&& r->0@ == self.buffer@
            },
    {
        if self.state == TcpState::Closed || self.buffer.len() == 0 {
            None
        } else {
            Some(self.buffer.clone())
        }
    }

    /// Record that the socket took `written` bytes of the last attempt:
    /// the remainder stays buffered for the next writable event. When a
    /// drained buffer was the last thing a client FIN waited for, the
    /// flow answers with its own FIN and closes.
    pub fn complete_write(&mut self, selector: &mut Selector, written: usize) -> (out: RelayOutput)
        requires
            old(selector).wf(),
            written <= old(self).buffer@.len(),
        ensures
            final(selector).wf(),
            final(selector).next_token == old(selector).next_token,
            forall|u: usize| final(selector).has_token(u) ==> old(selector).has_token(u),
            final(self).cid == old(self).cid,
            final(self).token == old(self).token,
            old(self).state is Closed ==> {
                &&& *final(self) == *old(self)
                &&& *final(selector) == *old(selector)
                &&& out.actions@.len() == 0
                &&& out.packets@.len() == 0
            },
            old(self).state !is Closed ==> {
                &&& final(self).buffer@ == old(self).buffer@.skip(written as int)
                &&& final(self).client_ack == old(self).client_ack
                &&& final(self).idle == 0
                &&& (old(self).state is CloseWait && final(self).buffer@.len() == 0 ==> {
                    &&& final(self).state is Closed
                    &&& final(self).local_seq == seq_add(old(self).local_seq, 1)
                    &&& !final(selector).has_token(old(self).token)
                    &&& out.packets@.len() == 1
                    &&& is_tcp_to_client(
                        out.packets@[0],
                        old(self).cid,
                        old(self).local_seq,
                        old(self).client_ack,
                        window_spec(0),
                        false,
                        true,
                        false,
                        Seq::empty(),
                    )
                    &&& out.actions@.len() == 1
                    &&& out.actions@[0] == (SocketAction::CloseSocket {
                        token: old(self).token,
                    })
                })
                &&& (old(self).state is FinWait && final(self).buffer@.len() == 0 ==> {
                    &&& final(self).state is Closed
                    &&& final(self).local_seq == old(self).local_seq
                    &&& !final(selector).has_token(old(self).token)
                    &&& out.packets@.len() == 0
                    &&& out.actions@.len() == 1
                    &&& out.actions@[0] == (SocketAction::CloseSocket {
                        token: old(self).token,
                    })
                })
                &&& (!((old(self).state is CloseWait || old(self).state is FinWait)
                    && final(self).buffer@.len() == 0) ==> {
                    &&& final(self).state == old(self).state
                    &&& final(self).local_seq == old(self).local_seq
                    &&& out.actions@.len() == 0
                    &&& out.packets@.len() == 0
                    &&& (old(selector).has_token(old(self).token)
                        ==> final(selector).interest_of(old(self).token) == (Interest {
                        readable: true,
                        writable: final(self).buffer@.len() > 0,
                    }))
                })
            },
    {
        let mut out = RelayOutput::empty();
        if self.state == TcpState::Closed {
            return out;
        }
        let rest = self.buffer.split_off(written);
        self.buffer = rest;
        self.idle = 0;
        if self.state == TcpState::CloseWait && self.buffer.len() == 0 {
            let p = self.make_packet(false, true, false, self.local_seq, Vec::new());
            self.local_seq = self.local_seq.wrapping_add(1);
            self.state = TcpState::Closed;
            selector.deregister(self.token);
            out.push_packet(p);
            out.push_action(SocketAction::CloseSocket { token: self.token });
        } else if self.state == TcpState::FinWait && self.buffer.len() == 0 {
            self.state = TcpState::Closed;
            selector.deregister(self.token);
            out.push_action(SocketAction::CloseSocket { token: self.token });
        } else {
            let writable = self.buffer.len() > 0;
            selector.update_interest(self.token, Interest::new(true, writable));
        }
        out
    }

    /// Wrap bytes read from the socket into one synthetic packet for
    /// the client, advancing the presented sequence number by its
    /// length. Nothing is emitted before the handshake is answered or
    /// after the flow closed.
    pub fn process_receive(&mut self, data: Vec<u8>) -> (out: RelayOutput)
        requires
            data@.len() < MAX_PACKET_PAYLOAD,
        ensures
            final(self).cid == old(self).cid,
            final(self).token == old(self).token,
            (old(self).state is Closed || old(self).state is SynReceived || old(self).state
                is FinWait) ==> {
                &&& *final(self) == *old(self)
                &&& out.actions@.len() == 0
                &&& out.packets@.len() == 0
            },
            (old(self).state is Established || old(self).state is CloseWait) ==> {
                &&& final(self).state == old(self).state
                &&& final(self).buffer@ == old(self).buffer@
                &&& final(self).client_ack == old(self).client_ack
                &&& final(self).local_seq == seq_add(old(self).local_seq, data@.len() as u32)
                &&& final(self).idle == 0
                &&& out.actions@.len() == 0
                &&& out.packets@.len() == 1
                &&& is_tcp_to_client(
                    out.packets@[0],
                    old(self).cid,
                    old(self).local_seq,
                    old(self).client_ack,
                    window_spec(old(self).buffer@.len()),
                    false,
                    false,
                    false,
                    data@,
                )
            },
    {
        let mut out = RelayOutput::empty();
        if self.state == TcpState::Closed || self.state == TcpState::SynReceived || self.state
            == TcpState::FinWait {
            return out;
        }
        let len = data.len();
        let p = self.make_packet(false, false, false, self.local_seq, data);
        self.local_seq = self.local_seq.wrapping_add(len as u32);
        self.idle = 0;
        out.push_packet(p);
        out
    }

    /// The socket reached end of stream: mirror it as our FIN to the
    /// client. With nothing left to drain the teardown finishes here;
    /// otherwise the flow lingers in `FinWait` until `complete_write`
    /// has emptied the buffer.
    pub fn on_socket_eof(&mut self, selector: &mut Selector) -> (out: RelayOutput)
        requires
            old(selector).wf(),
        ensures
            final(selector).wf(),
            final(selector).next_token == old(selector).next_token,
            forall|u: usize| final(selector).has_token(u) ==> old(selector).has_token(u),
            final(self).cid == old(self).cid,
            final(self).token == old(self).token,
            (old(self).state is Closed || old(self).state is FinWait) ==> {
                &&& *final(self) == *old(self)
                &&& *final(selector) == *old(selector)
                &&& out.actions@.len() == 0
                &&& out.packets@.len() == 0
            },
            !(old(self).state is Closed || old(self).state is FinWait) ==> {
                &&& final(self).local_seq == seq_add(old(self).local_seq, 1)
                &&& final(self).buffer@ == old(self).buffer@
                &&& out.packets@.len() == 1
                &&& is_tcp_to_client(
                    out.packets@[0],
                    old(self).cid,
                    old(self).local_seq,
                    old(self).client_ack,
                    window_spec(old(self).buffer@.len()),
                    false,
                    true,
                    false,
                    Seq::empty(),
                )
                &&& (old(self).buffer@.len() == 0 ==> {
                    &&& final(self).state is Closed
                    &&& !final(selector).has_token(old(self).token)
                    &&& out.actions@.len() == 1
                    &&& out.actions@[0] == (SocketAction::CloseSocket {
                        token: old(self).token,
                    })
                })
                &&& (old(self).buffer@.len() > 0 ==> {
                    &&& final(self).state is FinWait
                    &&& out.actions@.len() == 0
                    &&& (old(selector).has_token(old(self).token)
                        ==> final(selector).interest_of(old(self).token) == (Interest {
                        readable: false,
                        writable: true,
                    }))
                })
            },
    {
        let mut out = RelayOutput::empty();
        if self.state == TcpState::Closed || self.state == TcpState::FinWait {
            return out;
        }
        let p = self.make_packet(false, true, false, self.local_seq, Vec::new());
        self.local_seq = self.local_seq.wrapping_add(1);
        out.push_packet(p);
        if self.buffer.len() == 0 {
            self.state = TcpState::Closed;
            selector.deregister(self.token);
            out.push_action(SocketAction::CloseSocket { token: self.token });
        } else {
            self.state = TcpState::FinWait;
            selector.update_interest(self.token, Interest::new(false, true));
        }
        out
    }

    /// A socket connect, read or write failure: synthesize an RST back
    /// to the client and close at once. The failure stays local to this
    /// flow.
    pub fn on_socket_error(&mut self, selector: &mut Selector) -> (out: RelayOutput)
        requires
            old(selector).wf(),
        ensures
            final(selector).wf(),
            final(selector).next_token == old(selector).next_token,
            forall|u: usize| final(selector).has_token(u) ==> old(selector).has_token(u),
            final(self).cid == old(self).cid,
            final(self).token == old(self).token,
            final(self).state is Closed,
            old(self).state is Closed ==> {
                &&& *final(self) == *old(self)
                &&& *final(selector) == *old(selector)
                &&& out.actions@.len() == 0
                &&& out.packets@.len() == 0
            },
            old(self).state !is Closed ==> {
                &&& !final(selector).has_token(old(self).token)
                &&& out.packets@.len() == 1
                &&& is_tcp_to_client(
                    out.packets@[0],
                    old(self).cid,
                    old(self).local_seq,
                    old(self).client_ack,
                    window_spec(old(self).buffer@.len()),
                    false,
                    false,
                    true,
                    Seq::empty(),
                )
                &&& out.actions@.len() == 1
                &&& out.actions@[0] == (SocketAction::CloseSocket { token: old(self).token })
            },
    {
        let mut out = RelayOutput::empty();
        if self.state == TcpState::Closed {
            return out;
        }
        let p = self.make_packet(false, false, true, self.local_seq, Vec::new());
        self.state = TcpState::Closed;
        selector.deregister(self.token);
        out.push_packet(p);
        out.push_action(SocketAction::CloseSocket { token: self.token });
        out
    }

    /// Forced teardown (the sweep's path, and the router's on request):
    /// mirror a clean shutdown to the client with our FIN where one is
    /// not out yet, release the selector registration, and ask the
    /// caller to close the socket. Payload still buffered is abandoned.
    pub fn shutdown(&mut self, selector: &mut Selector) -> (out: RelayOutput)
        requires
            old(selector).wf(),
        ensures
            final(selector).wf(),
            final(selector).next_token == old(selector).next_token,
            forall|u: usize| final(selector).has_token(u) ==> old(selector).has_token(u),
            final(self).cid == old(self).cid,
            final(self).token == old(self).token,
            final(self).state is Closed,
            old(self).state is Closed ==> {
                &&& *final(self) == *old(self)
                &&& *final(selector) == *old(selector)
                &&& out.actions@.len() == 0
                &&& out.packets@.len() == 0
            },
            old(self).state !is Closed ==> {
                &&& !final(selector).has_token(old(self).token)
                &&& out.actions@.len() == 1
                &&& out.actions@[0] == (SocketAction::CloseSocket { token: old(self).token })
                &&& (old(self).state is FinWait ==> out.packets@.len() == 0
                    && final(self).local_seq == old(self).local_seq)
                &&& (old(self).state !is FinWait ==> {
                    &&& final(self).local_seq == seq_add(old(self).local_seq, 1)
                    &&& out.packets@.len() == 1
                    &&& is_tcp_to_client(
                        out.packets@[0],
                        old(self).cid,
                        old(self).local_seq,
                        old(self).client_ack,
                        window_spec(old(self).buffer@.len()),
                        false,
                        true,
                        false,
                        Seq::empty(),
                    )
                })
            },
    {
        let mut out = RelayOutput::empty();
        if self.state == TcpState::Closed {
            return out;
        }
        if self.state != TcpState::FinWait {
            let p = self.make_packet(false, true, false, self.local_seq, Vec::new());
            self.local_seq = self.local_seq.wrapping_add(1);
            out.push_packet(p);
        }
        self.state = TcpState::Closed;
        selector.deregister(self.token);
        out.push_action(SocketAction::CloseSocket { token: self.token });
        out
    }

    /// Advance the idle clock by one sweep tick; the count saturates at
    /// the timeout, past which the connection reports itself expired.
    pub fn tick(&mut self)
        ensures
            final(self).cid == old(self).cid,
            final(self).token == old(self).token,
            final(self).state == old(self).state,
            final(self).idle == (if old(self).idle < TCP_IDLE_TIMEOUT_TICKS {
                old(self).idle + 1
            } else {
                old(self).idle as int
            }),
    {
        if self.idle < TCP_IDLE_TIMEOUT_TICKS {
            self.idle = self.idle + 1;
        }
    }
}

impl Connection for TcpConnection {
    open spec fn id_spec(&self) -> ConnectionId {
        self.cid
    }

    open spec fn token_spec(&self) -> usize {
        self.token
    }

    open spec fn closed_spec(&self) -> bool {
        self.state is Closed
    }

    open spec fn expired_spec(&self) -> bool {
        self.idle >= TCP_IDLE_TIMEOUT_TICKS
    }

    fn id(&self) -> (r: &ConnectionId) {
        &self.cid
    }

    fn send_to_network(&mut self, selector: &mut Selector, ipv4_packet: &Ipv4Packet) -> (out:
        RelayOutput) {
        self.process_send(selector, ipv4_packet)
    }

    fn close(&mut self, selector: &mut Selector) -> (out: RelayOutput) {
        self.shutdown(selector)
    }

    fn is_expired(&self) -> (r: bool) {
        self.idle >= TCP_IDLE_TIMEOUT_TICKS
    }

    fn is_closed(&self) -> (r: bool) {
        self.state == TcpState::Closed
    }
}

} // verus!
