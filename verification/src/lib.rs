//! Core of a phone-as-trackpad server: connection arbitration between two
//! transports, a human-approval handshake, the UDP session protocol with a
//! liveness timeout, the WebSocket session protocol, and the coordinate
//! mapping contract of the pointer sink.
//!
//! Everything here is pure protocol state and logic. The surrounding process
//! (sockets, timers, the operator prompt, the OS pointer driver) drives these
//! state machines and performs the actions they return.

pub mod config;
pub mod connection;
pub mod mouse;
pub mod udp;
pub mod websocket;
