use rustrelay::connection::{rewritten_destination, ConnectionId, LOCALHOST, LOCALHOST_FORWARD};
use rustrelay::ipv4_header::{Ipv4HeaderData, Protocol};
use rustrelay::transport_header::{TcpHeaderData, TransportHeaderData, UdpHeaderData};

fn tcp_header(source_port: u16, destination_port: u16) -> TransportHeaderData {
    TransportHeaderData::Tcp(TcpHeaderData {
        source_port,
        destination_port,
        sequence_number: 0,
        acknowledgement_number: 0,
        window: 0,
        syn: false,
        ack: false,
        fin: false,
        rst: false,
    })
}

#[test]
fn from_headers_reads_all_five_fields() {
    let ip = Ipv4HeaderData::new(Protocol::Tcp, 0x0A000001, 0x0A000002);
    let id = ConnectionId::from_headers(&ip, &tcp_header(1234, 80));
    assert_eq!(id.protocol(), Protocol::Tcp);
    assert_eq!(id.source_ip(), 0x0A000001);
    assert_eq!(id.source_port(), 1234);
    assert_eq!(id.destination_ip(), 0x0A000002);
    assert_eq!(id.destination_port(), 80);
    assert_eq!(id.source().ip, 0x0A000001);
    assert_eq!(id.source().port, 1234);
    assert_eq!(id.destination().ip, 0x0A000002);
    assert_eq!(id.destination().port, 80);
}

#[test]
fn from_headers_is_deterministic() {
    let ip = Ipv4HeaderData::new(Protocol::Udp, 0xC0A80001, 0x08080808);
    let th = TransportHeaderData::Udp(UdpHeaderData {
        source_port: 5353,
        destination_port: 53,
    });
    let a = ConnectionId::from_headers(&ip, &th);
    let b = ConnectionId::from_headers(&ip, &th);
    assert_eq!(a, b);
}

#[test]
fn from_headers_is_injective_over_distinct_tuples() {
    let base_ip = Ipv4HeaderData::new(Protocol::Tcp, 1, 2);
    let base = ConnectionId::from_headers(&base_ip, &tcp_header(3, 4));

    let other_protocol = ConnectionId::from_headers(
        &Ipv4HeaderData::new(Protocol::Udp, 1, 2),
        &TransportHeaderData::Udp(UdpHeaderData {
            source_port: 3,
            destination_port: 4,
        }),
    );
    let other_source = ConnectionId::from_headers(&Ipv4HeaderData::new(Protocol::Tcp, 9, 2), &tcp_header(3, 4));
    let other_destination =
        ConnectionId::from_headers(&Ipv4HeaderData::new(Protocol::Tcp, 1, 9), &tcp_header(3, 4));
    let other_source_port = ConnectionId::from_headers(&base_ip, &tcp_header(9, 4));
    let other_destination_port = ConnectionId::from_headers(&base_ip, &tcp_header(3, 9));

    assert_ne!(base, other_protocol);
    assert_ne!(base, other_source);
    assert_ne!(base, other_destination);
    assert_ne!(base, other_source_port);
    assert_ne!(base, other_destination_port);
}

#[test]
fn sentinel_destination_rewrites_to_loopback() {
    for port in [1u16, 80, 443, 65535] {
        let addr = rewritten_destination(LOCALHOST_FORWARD, port);
        assert_eq!(addr.ip, LOCALHOST);
        assert_eq!(addr.ip, 0x7F000001);
        assert_eq!(addr.port, port);
    }
}

#[test]
fn other_destinations_pass_through_unchanged() {
    for ip in [0u32, 0x08080808, 0x7F000001, 0x0A000201, 0xFFFFFFFF] {
        let addr = rewritten_destination(ip, 8080);
        assert_eq!(addr.ip, ip);
        assert_eq!(addr.port, 8080);
    }
}
