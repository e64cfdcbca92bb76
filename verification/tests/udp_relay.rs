use rustrelay::connection::{Connection, ConnectionId};
use rustrelay::event::SocketAction;
use rustrelay::ipv4_header::{Ipv4HeaderData, Protocol};
use rustrelay::ipv4_packet::Ipv4Packet;
use rustrelay::selector::Selector;
use rustrelay::transport_header::{TransportHeaderData, UdpHeaderData};
use rustrelay::udp_connection::{UdpConnection, UDP_IDLE_TIMEOUT_TICKS};

fn udp_packet(payload: Vec<u8>) -> Ipv4Packet {
    Ipv4Packet::new(
        Ipv4HeaderData::new(Protocol::Udp, 0xC0A80001, 0x08080808),
        TransportHeaderData::Udp(UdpHeaderData {
            source_port: 5353,
            destination_port: 53,
        }),
        payload,
    )
}

fn udp_connection(selector: &mut Selector) -> UdpConnection {
    let packet = udp_packet(vec![]);
    let cid = ConnectionId::from_headers(&packet.header, &packet.transport);
    let (conn, out) = UdpConnection::new(cid, selector);
    assert_eq!(out.actions.len(), 1);
    match &out.actions[0] {
        SocketAction::Connect { addr, .. } => {
            assert_eq!(addr.ip, 0x08080808);
            assert_eq!(addr.port, 53);
        }
        other => panic!("expected a dial, got {:?}", other),
    }
    conn
}

#[test]
fn each_inbound_datagram_leaves_as_one_datagram() {
    let mut selector = Selector::new();
    let mut conn = udp_connection(&mut selector);
    let payloads: [&[u8]; 3] = [b"first", b"second", b""];
    for payload in payloads {
        let out = conn.send_to_network(&mut selector, &udp_packet(payload.to_vec()));
        assert_eq!(out.packets.len(), 0);
        assert_eq!(out.actions.len(), 1);
        match &out.actions[0] {
            SocketAction::SendDatagram { data, .. } => assert_eq!(&data[..], payload),
            other => panic!("expected a datagram send, got {:?}", other),
        }
    }
}

#[test]
fn n_received_datagrams_become_n_packets_in_order() {
    let mut selector = Selector::new();
    let mut conn = udp_connection(&mut selector);
    let datagrams = vec![b"alpha".to_vec(), b"beta".to_vec(), b"gamma".to_vec(), vec![]];
    let packets = conn.process_received_batch(datagrams.clone());
    assert_eq!(packets.len(), datagrams.len());
    for (packet, datagram) in packets.iter().zip(datagrams.iter()) {
        assert_eq!(&packet.payload, datagram);
        assert_eq!(packet.header.protocol, Protocol::Udp);
        // Endpoints come back swapped: the reply flows toward the client.
        assert_eq!(packet.header.source, 0x08080808);
        assert_eq!(packet.header.destination, 0xC0A80001);
        match packet.transport {
            TransportHeaderData::Udp(h) => {
                assert_eq!(h.source_port, 53);
                assert_eq!(h.destination_port, 5353);
            }
            _ => panic!("expected a UDP transport header"),
        }
    }
}

#[test]
fn udp_expires_only_after_its_idle_timeout() {
    let mut selector = Selector::new();
    let mut conn = udp_connection(&mut selector);
    for _ in 0..UDP_IDLE_TIMEOUT_TICKS - 1 {
        conn.tick();
        assert!(!conn.is_expired());
    }
    conn.tick();
    assert!(conn.is_expired());

    // Activity resets the idle clock.
    let _ = conn.process_receive(b"late".to_vec());
    assert!(!conn.is_expired());
}

#[test]
fn closed_udp_connection_emits_nothing() {
    let mut selector = Selector::new();
    let mut conn = udp_connection(&mut selector);
    let out = conn.close(&mut selector);
    assert!(conn.is_closed());
    assert!(matches!(out.actions[0], SocketAction::CloseSocket { .. }));

    let out = conn.send_to_network(&mut selector, &udp_packet(b"x".to_vec()));
    assert!(out.actions.is_empty() && out.packets.is_empty());
    let out = conn.process_receive(b"y".to_vec());
    assert!(out.actions.is_empty() && out.packets.is_empty());
}
