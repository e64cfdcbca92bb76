//! A user-space IP relay core: connection identifiers, destination
//! rewriting, per-protocol connection state machines, a readiness
//! selector model, and the router that owns the connection table.
//!
//! The core is deliberately free of I/O: socket work is described by
//! `SocketAction` values handed to the caller, and socket readiness
//! comes back in as events, so the whole decision logic is verified.

pub mod ipv4_header;
pub mod transport_header;
pub mod ipv4_packet;
pub mod connection;
pub mod selector;
pub mod event;
pub mod udp_connection;
pub mod tcp_connection;
pub mod router;
