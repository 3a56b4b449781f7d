//! The forwarding core of a tunnel-to-network bridge.
//!
//! Raw IP packets that arrive on a tunnel device are turned into TCP flows and
//! UDP sessions by a virtual network stack; each of them is forwarded through a
//! real socket bound to a chosen interface, and the replies travel back the same
//! way. This crate holds the rules of that bridge: how device frames are built
//! and taken apart, the life cycle of a TCP flow, the registry of UDP sessions,
//! and the steps by which an outbound socket is set up. The sockets, the device
//! and the scheduler belong to the program around it.

pub mod endpoint;
pub mod framing;
pub mod socket_factory;
pub mod tcp_flow;
pub mod udp_session;
