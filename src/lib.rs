//! Decision core of a transparent TLS interception engine.
//!
//! The engine terminates a client's TLS session, opens its own TLS session to
//! the real destination, and splices the two plaintext streams through a
//! protocol dispatcher. Everything that touches sockets, timers or
//! cryptography is performed by the caller; this crate decides, step by step,
//! what has to happen next and what the outcome of an attempt is.
pub mod alpn;
pub mod dispatch;
pub mod session;
