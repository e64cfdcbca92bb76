use rustrelay::connection::{Connection, ConnectionId};
use rustrelay::event::SocketAction;
use rustrelay::ipv4_header::{Ipv4HeaderData, Protocol};
use rustrelay::ipv4_packet::Ipv4Packet;
use rustrelay::router::{RelayConnection, Router};
use rustrelay::selector::Selector;
use rustrelay::transport_header::{TcpHeaderData, TransportHeaderData, UdpHeaderData};
use rustrelay::udp_connection::UDP_IDLE_TIMEOUT_TICKS;

fn udp_packet(source_port: u16, payload: Vec<u8>) -> Ipv4Packet {
    Ipv4Packet::new(
        Ipv4HeaderData::new(Protocol::Udp, 0xC0A80001, 0x08080808),
        TransportHeaderData::Udp(UdpHeaderData {
            source_port,
            destination_port: 53,
        }),
        payload,
    )
}

fn tcp_syn(destination_ip: u32, destination_port: u16) -> Ipv4Packet {
    Ipv4Packet::new(
        Ipv4HeaderData::new(Protocol::Tcp, 0xC0A80001, destination_ip),
        TransportHeaderData::Tcp(TcpHeaderData {
            source_port: 40000,
            destination_port,
            sequence_number: 1,
            acknowledgement_number: 0,
            window: 8192,
            syn: true,
            ack: false,
            fin: false,
            rst: false,
        }),
        vec![],
    )
}

#[test]
fn one_connection_per_identifier() {
    let mut selector = Selector::new();
    let mut router = Router::new();

    router.dispatch(&mut selector, &udp_packet(1111, b"a".to_vec()));
    assert_eq!(router.connections.len(), 1);

    // Same identifier again: routed to the existing connection.
    router.dispatch(&mut selector, &udp_packet(1111, b"b".to_vec()));
    assert_eq!(router.connections.len(), 1);

    // A different identifier makes a second connection.
    router.dispatch(&mut selector, &udp_packet(2222, b"c".to_vec()));
    assert_eq!(router.connections.len(), 2);

    let first = router.connections[0].id().clone();
    let second = router.connections[1].id().clone();
    assert_ne!(first, second);
}

#[test]
fn dispatch_to_sentinel_dials_loopback() {
    let mut selector = Selector::new();
    let mut router = Router::new();
    let out = router.dispatch(&mut selector, &tcp_syn(0x0A000202, 80));
    let dial = out
        .actions
        .iter()
        .find_map(|a| match a {
            SocketAction::Connect { addr, .. } => Some(*addr),
            _ => None,
        })
        .expect("a dial is requested");
    assert_eq!(dial.ip, 0x7F000001);
    assert_eq!(dial.port, 80);
}

#[test]
fn sweep_removes_expired_connections_and_closes_them_first() {
    let mut selector = Selector::new();
    let mut router = Router::new();
    router.dispatch(&mut selector, &udp_packet(1111, b"a".to_vec()));
    router.dispatch(&mut selector, &udp_packet(2222, b"b".to_vec()));

    // Only the first flow stays active.
    for _ in 0..UDP_IDLE_TIMEOUT_TICKS {
        router.tick();
        router.dispatch(&mut selector, &udp_packet(1111, b"keepalive".to_vec()));
    }

    let out = router.sweep(&mut selector);
    assert_eq!(router.connections.len(), 1);
    assert_eq!(router.connections[0].id().source_port(), 1111);
    // The expired flow's socket was released on the way out.
    assert!(out
        .actions
        .iter()
        .any(|a| matches!(a, SocketAction::CloseSocket { .. })));
}

#[test]
fn closed_connection_is_removed_by_the_next_sweep_and_never_dispatched_again() {
    let mut selector = Selector::new();
    let mut router = Router::new();
    let packet = udp_packet(1111, b"a".to_vec());
    router.dispatch(&mut selector, &packet);

    match &mut router.connections[0] {
        RelayConnection::Udp(c) => {
            c.close(&mut selector);
        }
        _ => panic!("expected a UDP connection"),
    }

    // Not yet swept: the packet reaches the closed connection, which
    // stays silent.
    let out = router.dispatch(&mut selector, &packet);
    assert!(out.actions.is_empty() && out.packets.is_empty());

    router.sweep(&mut selector);
    assert_eq!(router.connections.len(), 0);

    // The identifier is free again: the next packet makes a fresh
    // connection that does real work.
    let out = router.dispatch(&mut selector, &packet);
    assert_eq!(router.connections.len(), 1);
    assert!(!router.connections[0].is_closed());
    assert!(out
        .actions
        .iter()
        .any(|a| matches!(a, SocketAction::SendDatagram { .. })));
}

#[test]
fn per_flow_failure_stays_isolated() {
    let mut selector = Selector::new();
    let mut router = Router::new();
    router.dispatch(&mut selector, &tcp_syn(0x08080404, 443));
    router.dispatch(&mut selector, &udp_packet(1111, b"a".to_vec()));

    match &mut router.connections[0] {
        RelayConnection::Tcp(c) => {
            let out = c.on_socket_error(&mut selector);
            assert_eq!(out.packets.len(), 1);
        }
        _ => panic!("expected a TCP connection"),
    }

    router.sweep(&mut selector);
    assert_eq!(router.connections.len(), 1);
    assert_eq!(router.connections[0].id().protocol(), Protocol::Udp);

    // The surviving flow still relays.
    let out = router.dispatch(&mut selector, &udp_packet(1111, b"b".to_vec()));
    assert!(out
        .actions
        .iter()
        .any(|a| matches!(a, SocketAction::SendDatagram { .. })));
}
