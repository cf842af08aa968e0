//! A SOCKS5 forwarding relay, as a library of verified decisions.
//!
//! The crate holds the protocol rules of a local SOCKS5 listener that hands
//! every accepted connection on to an upstream SOCKS5 proxy: the wire format
//! of the server-side handshake, the per-session state machine, and the
//! bounded start-up probe of the upstream address. Sockets, timers and tasks
//! belong to the caller, which performs what the machines ask for and reports
//! back what happened.

pub mod decode;
pub mod destination;
pub mod error;
pub mod handshake;
pub mod prober;
pub mod session;
pub mod stream;
pub mod text;
pub mod trace;
pub mod wire;
