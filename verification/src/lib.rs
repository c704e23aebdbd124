//! A tunneling proxy core: a TLS-disguised byte-stream tunnel that carries
//! SOCKS5-style connection requests from a client to a server, which relays
//! them to the real destination.  Connections that fail the handshake or its
//! authentication are relayed to a decoy destination instead, so that probing
//! traffic sees an ordinary HTTPS server.
//!
//! This crate holds the protocol logic: the destination wire codec, the
//! handshake frame, the SOCKS5 front-end parsing, the per-connection state
//! machines of both sides, and the plain-text companion responders.  The
//! surrounding I/O (sockets, TLS, WebSocket framing, DNS, configuration
//! files) lives outside it and hands the logic plain values.

pub mod bytes;
pub mod client;
pub mod config;
pub mod destination;
pub mod digest;
pub mod errors;
pub mod http;
pub mod protocol;
pub mod relay;
pub mod server;
pub mod socks5;
