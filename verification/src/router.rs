use vstd::prelude::*;

use crate::connection::{rewritten_destination_spec, Connection, ConnectionId};
use crate::event::{RelayOutput, SocketAction};
use crate::ipv4_packet::Ipv4Packet;
use crate::selector::Selector;
use crate::tcp_connection::{tcp_send_transition, TcpConnection, TCP_IDLE_TIMEOUT_TICKS};
use crate::udp_connection::{udp_send_transition, UdpConnection, UDP_IDLE_TIMEOUT_TICKS};
use crate::ipv4_header::Protocol;

verus! {

/// The closed set of connection variants the router can hold. The
/// router only ever uses the shared `Connection` capability set; it
/// never looks inside a variant.
pub enum RelayConnection {
    Tcp(TcpConnection),
    Udp(UdpConnection),
}

/// How one inbound client packet transforms whichever variant a table
/// entry holds: the variant is kept and its own send transition holds.
/// A UDP step never touches the selector.
pub open spec fn relay_send_transition(
    pre: RelayConnection,
    post: RelayConnection,
    pre_sel: Selector,
    post_sel: Selector,
    packet: Ipv4Packet,
    out: RelayOutput,
) -> bool {
    match (pre, post) {
        (RelayConnection::Tcp(c1), RelayConnection::Tcp(c2)) => tcp_send_transition(
            c1,
            c2,
            pre_sel,
            post_sel,
            packet,
            out,
        ),
        (RelayConnection::Udp(c1), RelayConnection::Udp(c2)) => udp_send_transition(
            c1,
            c2,
            packet,
            out,
        ) && post_sel == pre_sel,
        _ => false,
    }
}

impl RelayConnection {
    /// The variant's idle clock.
    pub open spec fn idle_spec(&self) -> u64 {
        match self {
            RelayConnection::Tcp(c) => c.idle,
            RelayConnection::Udp(c) => c.idle,
        }
    }

    /// The variant's protocol-specific idle timeout.
    pub open spec fn timeout_spec(&self) -> u64 {
        match self {
            RelayConnection::Tcp(_) => TCP_IDLE_TIMEOUT_TICKS,
            RelayConnection::Udp(_) => UDP_IDLE_TIMEOUT_TICKS,
        }
    }

    /// Advance the idle clock of whichever variant this is by one sweep
    /// tick, saturating at the variant's timeout; past it the
    /// connection reports itself expired.
    pub fn tick(&mut self)
        ensures
            final(self).id_spec() == old(self).id_spec(),
            final(self).token_spec() == old(self).token_spec(),
            final(self).closed_spec() == old(self).closed_spec(),
            final(self).timeout_spec() == old(self).timeout_spec(),
            final(self).idle_spec() == (if old(self).idle_spec() < old(self).timeout_spec() {
                old(self).idle_spec() + 1
            } else {
                old(self).idle_spec() as int
            }),
            final(self).expired_spec() == (final(self).idle_spec()
                >= final(self).timeout_spec()),
    {
        match self {
            RelayConnection::Tcp(c) => c.tick(),
            RelayConnection::Udp(c) => c.tick(),
        }
    }

    /// Hand one inbound packet to whichever variant this is; the
    /// variant's own send transition describes everything that happens.
    pub fn process_send(&mut self, selector: &mut Selector, ipv4_packet: &Ipv4Packet) -> (out:
        RelayOutput)
        requires
            old(selector).wf(),
        ensures
            final(selector).wf(),
            final(selector).next_token == old(selector).next_token,
            forall|u: usize| final(selector).has_token(u) ==> old(selector).has_token(u),
            relay_send_transition(
                *old(self),
                *final(self),
                *old(selector),
                *final(selector),
                *ipv4_packet,
                out,
            ),
    {
        match self {
            RelayConnection::Tcp(c) => c.process_send(selector, ipv4_packet),
            RelayConnection::Udp(c) => c.process_send(ipv4_packet),
        }
    }
}

impl Connection for RelayConnection {
    open spec fn id_spec(&self) -> ConnectionId {
        match self {
            RelayConnection::Tcp(c) => c.cid,
            RelayConnection::Udp(c) => c.cid,
        }
    }

    open spec fn token_spec(&self) -> usize {
        match self {
            RelayConnection::Tcp(c) => c.token,
            RelayConnection::Udp(c) => c.token,
        }
    }

    open spec fn closed_spec(&self) -> bool {
        match self {
            RelayConnection::Tcp(c) => c.closed_spec(),
            RelayConnection::Udp(c) => c.closed_spec(),
        }
    }

    open spec fn expired_spec(&self) -> bool {
        match self {
            RelayConnection::Tcp(c) => c.expired_spec(),
            RelayConnection::Udp(c) => c.expired_spec(),
        }
    }

    fn id(&self) -> (r: &ConnectionId) {
        match self {
            RelayConnection::Tcp(c) => c.id(),
            RelayConnection::Udp(c) => c.id(),
        }
    }

    fn send_to_network(&mut self, selector: &mut Selector, ipv4_packet: &Ipv4Packet) -> (out:
        RelayOutput) {
        self.process_send(selector, ipv4_packet)
    }

    fn close(&mut self, selector: &mut Selector) -> (out: RelayOutput) {
        match self {
            RelayConnection::Tcp(c) => c.close(selector),
            RelayConnection::Udp(c) => c.close(selector),
        }
    }

    fn is_expired(&self) -> (r: bool) {
        match self {
            RelayConnection::Tcp(c) => c.is_expired(),
            RelayConnection::Udp(c) => c.is_expired(),
        }
    }

    fn is_closed(&self) -> (r: bool) {
        match self {
            RelayConnection::Tcp(c) => c.is_closed(),
            RelayConnection::Udp(c) => c.is_closed(),
        }
    }
}

/// The identifier a decoded packet routes by.
pub open spec fn packet_id(p: Ipv4Packet) -> ConnectionId {
    ConnectionId::from_headers_spec(p.header, p.transport)
}

/// Owner of the connection table: looks connections up by identifier,
/// creates them on first-seen packets, and reclaims them once they
/// report themselves closed or expired. One router instance is passed
/// explicitly through the event loop; there is no global registry.
pub struct Router {
    pub connections: Vec<RelayConnection>,
    pub next_isn: u32,
}

impl Router {
    /// The table invariant: identifiers are pairwise distinct, so at
    /// most one live connection exists per flow at any instant.
    pub open spec fn wf(self) -> bool {
        forall|i: int, j: int|
            0 <= i < j < self.connections@.len() ==> self.connections@[i].id_spec()
                != self.connections@[j].id_spec()
    }

    /// Whether some connection in the table serves `cid`.
    pub open spec fn has_id(self, cid: ConnectionId) -> bool {
        exists|i: int|
            0 <= i < self.connections@.len() && self.connections@[i].id_spec() == cid
    }

    pub fn new() -> (r: Self)
        ensures
            r.wf(),
            r.connections@.len() == 0,
    {
        Router { connections: Vec::new(), next_isn: 0x1000 }
    }

    /// Hand one decoded inbound packet to the connection that serves
    /// its identifier, creating that connection first if the identifier
    /// was never seen (or was reclaimed). The table gains at most the
    /// packet's own identifier and loses none; a connection that
    /// already completed teardown produces nothing.
    pub fn dispatch(&mut self, selector: &mut Selector, ipv4_packet: &Ipv4Packet) -> (out:
        RelayOutput)
        requires
            old(self).wf(),
            old(selector).wf(),
            old(selector).next_token < usize::MAX,
        ensures
            final(self).wf(),
            final(selector).wf(),
            final(self).has_id(packet_id(*ipv4_packet)),
            forall|cid: ConnectionId| old(self).has_id(cid) ==> final(self).has_id(cid),
            forall|cid: ConnectionId|
                final(self).has_id(cid) ==> old(self).has_id(cid) || cid == packet_id(
                    *ipv4_packet,
                ),
            old(self).has_id(packet_id(*ipv4_packet)) ==> final(self).connections@.len() == old(
                self,
            ).connections@.len(),
            !old(self).has_id(packet_id(*ipv4_packet)) ==> {
                &&& final(self).connections@.len() == old(self).connections@.len() + 1
                &&& out.actions@.len() >= 1
                &&& (out.actions@[0] matches SocketAction::Connect { token, protocol, addr }
                    && protocol == packet_id(*ipv4_packet).protocol_spec() && addr
                    == rewritten_destination_spec(
                    packet_id(*ipv4_packet).destination_ip_spec(),
                    packet_id(*ipv4_packet).destination_port_spec(),
                ))
            },
            forall|i: int|
                0 <= i < old(self).connections@.len() && old(self).connections@[i].id_spec()
                    == packet_id(*ipv4_packet) && old(self).connections@[i].closed_spec() ==> {
                    &&& out.actions@.len() == 0
                    &&& out.packets@.len() == 0
                },
            forall|i: int|
                0 <= i < old(self).connections@.len() && old(self).connections@[i].id_spec()
                    == packet_id(*ipv4_packet) ==> {
                    &&& relay_send_transition(
                        old(self).connections@[i],
                        final(self).connections@[i],
                        *old(selector),
                        *final(selector),
                        *ipv4_packet,
                        out,
                    )
                    &&& forall|j: int|
                        0 <= j < old(self).connections@.len() && j != i
                            ==> final(self).connections@[j] == old(self).connections@[j]
                },
    {
        let cid = ConnectionId::from_headers(&ipv4_packet.header, &ipv4_packet.transport);
        let n = self.connections.len();
        let mut i: usize = 0;
        while i < n
            invariant
                n == self.connections@.len(),
                i <= n,
                *self == *old(self),
                *selector == *old(selector),
                old(self).wf(),
                old(selector).wf(),
                old(selector).next_token < usize::MAX,
                cid == packet_id(*ipv4_packet),
                forall|k: int| 0 <= k < i ==> self.connections@[k].id_spec() != cid,
            decreases n - i,
        {
            if *self.connections[i].id() == cid {
                let conn = &mut self.connections[i];
                let out = conn.process_send(selector, ipv4_packet);
                proof {
                    assert(self.connections@[i as int].id_spec() == cid);
                    assert forall|i2: int|
                        0 <= i2 < old(self).connections@.len() && old(
                            self,
                        ).connections@[i2].id_spec() == cid implies i2 == i as int by {
                        if i2 < i {
                            assert(old(self).connections@[i2].id_spec() != old(
                                self,
                            ).connections@[i as int].id_spec());
                        }
                        if i2 > i {
                            assert(old(self).connections@[i as int].id_spec() != old(
                                self,
                            ).connections@[i2].id_spec());
                        }
                    };
                    assert forall|k1: int, k2: int|
                        0 <= k1 < k2 < self.connections@.len() implies self.connections@[k1].id_spec()
                        != self.connections@[k2].id_spec() by {
                        assert(old(self).connections@[k1].id_spec() != old(
                            self,
                        ).connections@[k2].id_spec());
                    };
                    assert forall|c2: ConnectionId| old(self).has_id(c2) implies self.has_id(
                        c2,
                    ) by {
                        let k = choose|k: int|
                            0 <= k < old(self).connections@.len() && old(
                                self,
                            ).connections@[k].id_spec() == c2;
                        assert(self.connections@[k].id_spec() == c2);
                    };
                    assert forall|c2: ConnectionId| self.has_id(c2) implies old(self).has_id(
                        c2,
                    ) by {
                        let k = choose|k: int|
                            0 <= k < self.connections@.len() && self.connections@[k].id_spec()
                                == c2;
                        assert(old(self).connections@[k].id_spec() == c2);
                    };
                }
                return out;
            }
            i = i + 1;
        }
        // First packet of this identifier: create the connection and
        // let it process the packet in the same iteration.
        let mut out;
        let created;
        match cid.protocol() {
            Protocol::Tcp => {
                let isn = self.next_isn;
                self.next_isn = self.next_isn.wrapping_add(0x10000);
                let (mut conn, first) = TcpConnection::new(cid, isn, selector);
                out = first;
                let mut more = conn.process_send(selector, ipv4_packet);
                out.extend_with(&mut more);
                created = RelayConnection::Tcp(conn);
            },
            Protocol::Udp => {
                let (mut conn, first) = UdpConnection::new(cid, selector);
                out = first;
                let mut more = conn.process_send(ipv4_packet);
                out.extend_with(&mut more);
                created = RelayConnection::Udp(conn);
            },
        }
        self.connections.push(created);
        proof {
            let len = self.connections@.len();
            assert(self.connections@[len - 1].id_spec() == cid);
            assert forall|c2: ConnectionId| old(self).has_id(c2) implies self.has_id(c2) by {
                let k = choose|k: int|
                    0 <= k < old(self).connections@.len() && old(self).connections@[k].id_spec()
                        == c2;
                assert(self.connections@[k].id_spec() == c2);
            };
            assert forall|c2: ConnectionId|
                self.has_id(c2) && c2 != cid implies old(self).has_id(c2) by {
                let k = choose|k: int|
                    0 <= k < self.connections@.len() && self.connections@[k].id_spec() == c2;
                assert(k < len - 1);
                assert(old(self).connections@[k].id_spec() == c2);
            };
        }
        out
    }

    /// Advance every connection's idle clock by one sweep tick,
    /// saturating at each variant's timeout; identifiers, tokens and
    /// closed states are untouched, so only time passes here.
    pub fn tick(&mut self)
        requires
            old(self).wf(),
        ensures
            final(self).wf(),
            final(self).connections@.len() == old(self).connections@.len(),
            forall|k: int|
                0 <= k < old(self).connections@.len() ==> {
                    &&& final(self).connections@[k].id_spec() == old(
                        self,
                    ).connections@[k].id_spec()
                    &&& final(self).connections@[k].token_spec() == old(
                        self,
                    ).connections@[k].token_spec()
                    &&& final(self).connections@[k].closed_spec() == old(
                        self,
                    ).connections@[k].closed_spec()
                    &&& final(self).connections@[k].timeout_spec() == old(
                        self,
                    ).connections@[k].timeout_spec()
                    &&& final(self).connections@[k].idle_spec() == (if old(
                        self,
                    ).connections@[k].idle_spec() < old(self).connections@[k].timeout_spec() {
                        old(self).connections@[k].idle_spec() + 1
                    } else {
                        old(self).connections@[k].idle_spec() as int
                    })
                },
    {
        let n = self.connections.len();
        let mut i: usize = 0;
        while i < n
            invariant
                n == self.connections@.len(),
                i <= n,
                old(self).wf(),
                forall|k: int| i <= k < n ==> self.connections@[k] == old(self).connections@[k],
                forall|k: int|
                    0 <= k < i ==> {
                        &&& self.connections@[k].id_spec() == old(
                            self,
                        ).connections@[k].id_spec()
                        &&& self.connections@[k].token_spec() == old(
                            self,
                        ).connections@[k].token_spec()
                        &&& self.connections@[k].closed_spec() == old(
                            self,
                        ).connections@[k].closed_spec()
                        &&& self.connections@[k].timeout_spec() == old(
                            self,
                        ).connections@[k].timeout_spec()
                        &&& self.connections@[k].idle_spec() == (if old(
                            self,
                        ).connections@[k].idle_spec() < old(
                            self,
                        ).connections@[k].timeout_spec() {
                            old(self).connections@[k].idle_spec() + 1
                        } else {
                            old(self).connections@[k].idle_spec() as int
                        })
                    },
            decreases n - i,
        {
            let conn = &mut self.connections[i];
            conn.tick();
            i = i + 1;
        }
        proof {
            assert forall|k1: int, k2: int|
                0 <= k1 < k2 < self.connections@.len() implies self.connections@[k1].id_spec()
                != self.connections@[k2].id_spec() by {
                assert(old(self).connections@[k1].id_spec() != old(
                    self,
                ).connections@[k2].id_spec());
            };
        }
    }

    /// Remove every connection that reports itself closed or expired,
    /// closing the resources of expired ones first. After the sweep no
    /// closed or expired connection is left, so a reclaimed identifier
    /// can never receive further dispatch: a later packet for it makes
    /// a fresh connection.
    #[verifier::rlimit(100)]
    #[verifier::spinoff_prover]
    pub fn sweep(&mut self, selector: &mut Selector) -> (out: RelayOutput)
        requires
            old(self).wf(),
            old(selector).wf(),
        ensures
            final(self).wf(),
            final(selector).wf(),
            forall|k: int|
                0 <= k < final(self).connections@.len() ==> {
                    &&& !final(self).connections@[k].closed_spec()
                    &&& !final(self).connections@[k].expired_spec()
                    &&& old(self).connections@.contains(final(self).connections@[k])
                },
            forall|k: int|
                0 <= k < old(self).connections@.len() && !old(self).connections@[k].closed_spec()
                    && !old(self).connections@[k].expired_spec() ==> final(self).has_id(
                    old(self).connections@[k].id_spec(),
                ),
            forall|k: int|
                0 <= k < old(self).connections@.len() && (old(
                    self,
                ).connections@[k].closed_spec() || old(self).connections@[k].expired_spec())
                    ==> !final(self).has_id(old(self).connections@[k].id_spec()),
            final(selector).next_token == old(selector).next_token,
            forall|k: int|
                0 <= k < old(self).connections@.len() && old(
                    self,
                ).connections@[k].expired_spec() && !old(self).connections@[k].closed_spec()
                    ==> {
                    &&& !final(selector).has_token(old(self).connections@[k].token_spec())
                    &&& exists|a: int|
                        0 <= a < out.actions@.len() && out.actions@[a] == (
                        SocketAction::CloseSocket {
                            token: old(self).connections@[k].token_spec(),
                        })
                },
    {
        let mut out = RelayOutput::empty();
        let mut kept: Vec<RelayConnection> = Vec::new();
        let ghost orig = old(self).connections@;
        while self.connections.len() > 0
            invariant
                old(self).wf(),
                selector.wf(),
                orig == old(self).connections@,
                self.connections@.len() <= orig.len(),
                forall|k: int|
                    0 <= k < self.connections@.len() ==> self.connections@[k] == orig[k],
                forall|k: int|
                    0 <= k < kept@.len() ==> {
                        &&& !kept@[k].closed_spec()
                        &&& !kept@[k].expired_spec()
                        &&& exists|j: int|
                            self.connections@.len() <= j < orig.len() && kept@[k] == orig[j]
                    },
                forall|k: int|
                    self.connections@.len() <= k < orig.len() && !orig[k].closed_spec()
                        && !orig[k].expired_spec() ==> exists|m: int|
                        0 <= m < kept@.len() && kept@[m] == orig[k],
                forall|k1: int, k2: int|
                    0 <= k1 < k2 < kept@.len() ==> kept@[k1].id_spec() != kept@[k2].id_spec(),
                selector.next_token == old(selector).next_token,
                forall|k: int|
                    self.connections@.len() <= k < orig.len() && orig[k].expired_spec()
                        && !orig[k].closed_spec() ==> {
                        &&& !selector.has_token(orig[k].token_spec())
                        &&& exists|a: int|
                            0 <= a < out.actions@.len() && out.actions@[a] == (
                            SocketAction::CloseSocket { token: orig[k].token_spec() })
                    },
            decreases self.connections@.len(),
        {
            let ghost m = self.connections@.len() - 1;
            let mut conn = self.connections.pop().unwrap();
            proof {
                assert(conn == orig[m]);
            }
            let closed = conn.is_closed();
            let expired = conn.is_expired();
            if closed {
                // Already fully torn down; nothing left to release.
            } else if expired {
                let ghost out_before = out.actions@;
                let ghost sel_before = *selector;
                let mut o = conn.close(selector);
                out.extend_with(&mut o);
                proof {
                    let tok = orig[m].token_spec();
                    assert(out.actions@[out_before.len() as int] == (SocketAction::CloseSocket {
                        token: tok,
                    }));
                    assert forall|k: int|
                        m <= k < orig.len() && orig[k].expired_spec()
                            && !orig[k].closed_spec() implies {
                        &&& !selector.has_token(orig[k].token_spec())
                        &&& exists|a: int|
                            0 <= a < out.actions@.len() && out.actions@[a] == (
                            SocketAction::CloseSocket { token: orig[k].token_spec() })
                    } by {
                        if k == m {
                            assert(!selector.has_token(tok));
                            assert(out.actions@[out_before.len() as int] == (
                            SocketAction::CloseSocket { token: orig[k].token_spec() }));
                        } else {
                            if selector.has_token(orig[k].token_spec()) {
                                assert(sel_before.has_token(orig[k].token_spec()));
                            }
                            let a = choose|a: int|
                                0 <= a < out_before.len() && out_before[a] == (
                                SocketAction::CloseSocket { token: orig[k].token_spec() });
                            assert(out.actions@[a] == out_before[a]);
                        }
                    };
                }
            } else {
                proof {
                    assert forall|k: int|
                        0 <= k < kept@.len() implies kept@[k].id_spec() != conn.id_spec() by {
                        let j = choose|j: int|
                            m + 1 <= j < orig.len() && kept@[k] == orig[j];
                        assert(orig[m].id_spec() != orig[j].id_spec());
                    };
                }
                let ghost kept_before = kept@;
                kept.push(conn);
                proof {
                    assert(kept@[kept@.len() - 1] == orig[m]);
                    assert forall|k: int|
                        m <= k < orig.len() && !orig[k].closed_spec()
                            && !orig[k].expired_spec() implies exists|m2: int|
                        0 <= m2 < kept@.len() && kept@[m2] == orig[k] by {
                        if k == m {
                            assert(kept@[kept@.len() - 1] == orig[k]);
                        } else {
                            let m2 = choose|m2: int|
                                0 <= m2 < kept_before.len() && kept_before[m2] == orig[k];
                            assert(kept@[m2] == orig[k]);
                        }
                    };
                }
            }
        }
        self.connections = kept;
        proof {
            assert forall|k: int|
                0 <= k < self.connections@.len() implies orig.contains(
                self.connections@[k],
            ) by {
                let j = choose|j: int|
                    0 <= j < orig.len() && self.connections@[k] == orig[j];
                assert(orig[j] == self.connections@[k]);
            };
            assert forall|k: int|
                0 <= k < orig.len() && !orig[k].closed_spec() && !orig[k].expired_spec()
                    implies self.has_id(orig[k].id_spec()) by {
                let m2 = choose|m2: int|
                    0 <= m2 < self.connections@.len() && self.connections@[m2] == orig[k];
                assert(self.connections@[m2].id_spec() == orig[k].id_spec());
            };
            assert forall|k: int|
                0 <= k < orig.len() && (orig[k].closed_spec() || orig[k].expired_spec())
                    implies !self.has_id(orig[k].id_spec()) by {
                if self.has_id(orig[k].id_spec()) {
                    let m2 = choose|m2: int|
                        0 <= m2 < self.connections@.len() && self.connections@[m2].id_spec()
                            == orig[k].id_spec();
                    let j = choose|j: int|
                        0 <= j < orig.len() && self.connections@[m2] == orig[j];
                    assert(!orig[j].closed_spec() && !orig[j].expired_spec());
                    assert(j != k);
                    if j < k {
                        assert(orig[j].id_spec() != orig[k].id_spec());
                    } else {
                        assert(orig[k].id_spec() != orig[j].id_spec());
                    }
                }
            };
        }
        out
    }
}

/// The lifecycle invariant of the table, as a statement about any two
/// entries: a well-formed router never holds two live connections for
/// one identifier.
pub proof fn lemma_at_most_one_connection_per_id(r: Router, i: int, j: int)
    requires
        r.wf(),
        0 <= i < r.connections@.len(),
        0 <= j < r.connections@.len(),
        r.connections@[i].id_spec() == r.connections@[j].id_spec(),
    ensures
        i == j,
{
    if i < j {
        assert(r.connections@[i].id_spec() != r.connections@[j].id_spec());
    }
    if j < i {
        assert(r.connections@[j].id_spec() != r.connections@[i].id_spec());
    }
}

} // verus!
