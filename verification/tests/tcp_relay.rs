use rustrelay::connection::{Connection, ConnectionId};
use rustrelay::event::SocketAction;
use rustrelay::ipv4_header::{Ipv4HeaderData, Protocol};
use rustrelay::ipv4_packet::Ipv4Packet;
use rustrelay::selector::Selector;
use rustrelay::tcp_connection::{TcpConnection, TcpState, TCP_WINDOW_CAPACITY};
use rustrelay::transport_header::{TcpHeaderData, TransportHeaderData};

const CLIENT_IP: u32 = 0xC0A80001;
const SERVER_IP: u32 = 0x08080404;
const CLIENT_PORT: u16 = 45000;
const SERVER_PORT: u16 = 80;
const CLIENT_ISN: u32 = 7000;
const RELAY_ISN: u32 = 100;

fn tcp_packet(syn: bool, fin: bool, rst: bool, sequence_number: u32, payload: Vec<u8>) -> Ipv4Packet {
    Ipv4Packet::new(
        Ipv4HeaderData::new(Protocol::Tcp, CLIENT_IP, SERVER_IP),
        TransportHeaderData::Tcp(TcpHeaderData {
            source_port: CLIENT_PORT,
            destination_port: SERVER_PORT,
            sequence_number,
            acknowledgement_number: 0,
            window: 8192,
            syn,
            ack: !syn,
            fin,
            rst,
        }),
        payload,
    )
}

fn reply_header(packet: &Ipv4Packet) -> TcpHeaderData {
    assert_eq!(packet.header.protocol, Protocol::Tcp);
    assert_eq!(packet.header.source, SERVER_IP);
    assert_eq!(packet.header.destination, CLIENT_IP);
    match packet.transport {
        TransportHeaderData::Tcp(h) => {
            assert_eq!(h.source_port, SERVER_PORT);
            assert_eq!(h.destination_port, CLIENT_PORT);
            h
        }
        _ => panic!("expected a TCP transport header"),
    }
}

/// A connection that has just seen the client's SYN and dialed out.
fn syn_received(selector: &mut Selector) -> TcpConnection {
    let syn = tcp_packet(true, false, false, CLIENT_ISN, vec![]);
    let cid = ConnectionId::from_headers(&syn.header, &syn.transport);
    let (mut conn, out) = TcpConnection::new(cid, RELAY_ISN, selector);
    assert_eq!(conn.state, TcpState::SynReceived);
    assert!(matches!(out.actions[0], SocketAction::Connect { .. }));
    let out = conn.send_to_network(selector, &syn);
    assert!(out.packets.is_empty() && out.actions.is_empty());
    conn
}

/// A connection whose socket dial has completed.
fn established(selector: &mut Selector) -> TcpConnection {
    let mut conn = syn_received(selector);
    let out = conn.on_socket_connected(selector);
    let h = reply_header(&out.packets[0]);
    assert!(h.syn && h.ack && !h.fin && !h.rst);
    assert_eq!(h.sequence_number, RELAY_ISN);
    assert_eq!(h.acknowledgement_number, CLIENT_ISN.wrapping_add(1));
    assert_eq!(h.window, TCP_WINDOW_CAPACITY);
    assert_eq!(conn.state, TcpState::Established);
    conn
}

#[test]
fn syn_data_fin_walks_the_states_once_and_then_stays_silent() {
    let mut selector = Selector::new();
    let mut conn = established(&mut selector);

    // Client data: buffered toward the socket and acknowledged at once.
    let data = tcp_packet(false, false, false, CLIENT_ISN.wrapping_add(1), b"GET /".to_vec());
    let out = conn.send_to_network(&mut selector, &data);
    assert_eq!(conn.state, TcpState::Established);
    assert_eq!(conn.buffer, b"GET /".to_vec());
    let h = reply_header(&out.packets[0]);
    assert!(h.ack && !h.syn && !h.fin && !h.rst);
    assert_eq!(h.acknowledgement_number, CLIENT_ISN.wrapping_add(6));

    // The socket takes the whole buffer.
    let attempt = conn.pending_write().expect("payload is pending");
    assert_eq!(attempt, b"GET /".to_vec());
    let out = conn.complete_write(&mut selector, attempt.len());
    assert!(out.packets.is_empty() && out.actions.is_empty());
    assert!(conn.buffer.is_empty());

    // Client FIN with nothing left to drain: our FIN comes back and the
    // flow is closed, exactly once.
    let fin = tcp_packet(false, true, false, CLIENT_ISN.wrapping_add(6), vec![]);
    let out = conn.send_to_network(&mut selector, &fin);
    assert_eq!(conn.state, TcpState::Closed);
    assert!(conn.is_closed());
    assert_eq!(out.packets.len(), 1);
    let h = reply_header(&out.packets[0]);
    assert!(h.fin && h.ack && !h.rst);
    assert_eq!(h.acknowledgement_number, CLIENT_ISN.wrapping_add(7));
    assert!(matches!(out.actions[0], SocketAction::CloseSocket { .. }));

    // After CLOSED nothing is ever synthesized again.
    let late = tcp_packet(false, false, false, CLIENT_ISN.wrapping_add(7), b"late".to_vec());
    let out = conn.send_to_network(&mut selector, &late);
    assert!(out.packets.is_empty() && out.actions.is_empty());
    let out = conn.on_socket_connected(&mut selector);
    assert!(out.packets.is_empty() && out.actions.is_empty());
    let out = conn.process_receive(b"late".to_vec());
    assert!(out.packets.is_empty() && out.actions.is_empty());
    let out = conn.on_socket_eof(&mut selector);
    assert!(out.packets.is_empty() && out.actions.is_empty());
    assert_eq!(conn.state, TcpState::Closed);
}

#[test]
fn one_write_attempt_per_readiness_and_partial_writes_rebuffer() {
    let mut selector = Selector::new();
    let mut conn = established(&mut selector);

    let data = tcp_packet(false, false, false, CLIENT_ISN.wrapping_add(1), b"abcdefgh".to_vec());
    conn.send_to_network(&mut selector, &data);

    // One readiness notification: exactly one attempt, offering the
    // whole buffer.
    let attempt = conn.pending_write().expect("payload is pending");
    assert_eq!(attempt, b"abcdefgh".to_vec());

    // The socket took only three bytes: the remainder is re-buffered.
    let out = conn.complete_write(&mut selector, 3);
    assert!(out.packets.is_empty() && out.actions.is_empty());
    assert_eq!(conn.buffer, b"defgh".to_vec());

    // Next notification offers exactly the remainder.
    let attempt = conn.pending_write().expect("payload is still pending");
    assert_eq!(attempt, b"defgh".to_vec());
    let _ = conn.complete_write(&mut selector, attempt.len());
    assert!(conn.pending_write().is_none());
}

#[test]
fn advertised_window_reflects_buffer_occupancy() {
    let mut selector = Selector::new();
    let mut conn = established(&mut selector);
    assert_eq!(conn.window(), TCP_WINDOW_CAPACITY);

    let data = tcp_packet(false, false, false, CLIENT_ISN.wrapping_add(1), vec![7u8; 1000]);
    let out = conn.send_to_network(&mut selector, &data);
    let h = reply_header(&out.packets[0]);
    assert_eq!(h.window, TCP_WINDOW_CAPACITY - 1000);
    assert_eq!(conn.window(), TCP_WINDOW_CAPACITY - 1000);
}

#[test]
fn fin_with_pending_payload_drains_before_closing() {
    let mut selector = Selector::new();
    let mut conn = established(&mut selector);

    let data = tcp_packet(false, false, false, CLIENT_ISN.wrapping_add(1), b"tail".to_vec());
    conn.send_to_network(&mut selector, &data);

    let fin = tcp_packet(false, true, false, CLIENT_ISN.wrapping_add(5), vec![]);
    let out = conn.send_to_network(&mut selector, &fin);
    assert_eq!(conn.state, TcpState::CloseWait);
    let h = reply_header(&out.packets[0]);
    assert!(h.ack && !h.fin);

    // Draining the buffer finishes the close.
    let attempt = conn.pending_write().expect("payload is pending");
    let out = conn.complete_write(&mut selector, attempt.len());
    assert_eq!(conn.state, TcpState::Closed);
    let h = reply_header(&out.packets[0]);
    assert!(h.fin && h.ack);
    assert!(matches!(out.actions[0], SocketAction::CloseSocket { .. }));
}

#[test]
fn socket_data_becomes_packets_with_our_own_sequencing() {
    let mut selector = Selector::new();
    let mut conn = established(&mut selector);

    let out = conn.process_receive(b"hello".to_vec());
    let h = reply_header(&out.packets[0]);
    assert_eq!(out.packets[0].payload, b"hello".to_vec());
    assert_eq!(h.sequence_number, RELAY_ISN.wrapping_add(1));
    assert!(h.ack && !h.syn && !h.fin && !h.rst);

    let out = conn.process_receive(b"world".to_vec());
    let h = reply_header(&out.packets[0]);
    assert_eq!(h.sequence_number, RELAY_ISN.wrapping_add(6));
}

#[test]
fn socket_error_synthesizes_rst_and_closes() {
    let mut selector = Selector::new();
    let mut conn = established(&mut selector);
    let out = conn.on_socket_error(&mut selector);
    assert_eq!(conn.state, TcpState::Closed);
    let h = reply_header(&out.packets[0]);
    assert!(h.rst);
    assert!(matches!(out.actions[0], SocketAction::CloseSocket { .. }));
    // The failure stays local: nothing more comes out of this flow.
    let out = conn.process_receive(b"x".to_vec());
    assert!(out.packets.is_empty() && out.actions.is_empty());
}

#[test]
fn socket_eof_mirrors_fin_to_the_client() {
    let mut selector = Selector::new();
    let mut conn = established(&mut selector);
    let out = conn.on_socket_eof(&mut selector);
    assert_eq!(conn.state, TcpState::Closed);
    let h = reply_header(&out.packets[0]);
    assert!(h.fin && h.ack && !h.rst);
}

#[test]
fn socket_eof_with_pending_payload_drains_before_closing() {
    let mut selector = Selector::new();
    let mut conn = established(&mut selector);

    let data = tcp_packet(false, false, false, CLIENT_ISN.wrapping_add(1), b"tail".to_vec());
    conn.send_to_network(&mut selector, &data);

    // The server is done talking but the client's payload has not been
    // written yet: our FIN goes out, the socket stays until drained.
    let out = conn.on_socket_eof(&mut selector);
    assert_eq!(conn.state, TcpState::FinWait);
    let h = reply_header(&out.packets[0]);
    assert!(h.fin && h.ack);
    assert!(out.actions.is_empty());

    // No second FIN on a repeated end-of-stream report.
    let out = conn.on_socket_eof(&mut selector);
    assert!(out.packets.is_empty() && out.actions.is_empty());

    let attempt = conn.pending_write().expect("payload is pending");
    let out = conn.complete_write(&mut selector, attempt.len());
    assert_eq!(conn.state, TcpState::Closed);
    assert!(out.packets.is_empty());
    assert!(matches!(out.actions[0], SocketAction::CloseSocket { .. }));
}

#[test]
fn shutdown_releases_resources_and_mirrors_one_fin() {
    let mut selector = Selector::new();
    let mut conn = established(&mut selector);
    let registered = selector.entries.len();

    let out = conn.shutdown(&mut selector);
    assert_eq!(conn.state, TcpState::Closed);
    let h = reply_header(&out.packets[0]);
    assert!(h.fin && h.ack);
    assert!(matches!(out.actions[0], SocketAction::CloseSocket { .. }));
    assert_eq!(selector.entries.len(), registered - 1);
    assert!(selector.entries.iter().all(|e| e.token != conn.token));

    // A flow whose FIN is already out gets no second one.
    let mut selector = Selector::new();
    let mut conn = established(&mut selector);
    let data = tcp_packet(false, false, false, CLIENT_ISN.wrapping_add(1), b"tail".to_vec());
    conn.send_to_network(&mut selector, &data);
    conn.on_socket_eof(&mut selector);
    assert_eq!(conn.state, TcpState::FinWait);
    let out = conn.shutdown(&mut selector);
    assert!(out.packets.is_empty());
    assert!(matches!(out.actions[0], SocketAction::CloseSocket { .. }));
    assert_eq!(conn.state, TcpState::Closed);
}

#[test]
fn client_rst_tears_down_silently() {
    let mut selector = Selector::new();
    let mut conn = established(&mut selector);
    let rst = tcp_packet(false, false, true, CLIENT_ISN.wrapping_add(1), vec![]);
    let out = conn.send_to_network(&mut selector, &rst);
    assert_eq!(conn.state, TcpState::Closed);
    assert!(out.packets.is_empty());
    assert!(matches!(out.actions[0], SocketAction::CloseSocket { .. }));
}
