//! Core logic of a small HTTP/3 server: routing, per-connection dispatch,
//! WebTransport session handling, and the echo transforms of its sub-streams.

pub mod clock;
pub mod config;
pub mod dispatch;
pub mod echo;
pub mod fingerprint;
pub mod handlers;
pub mod hex;
pub mod response;
pub mod router;
pub mod server;
pub mod session;
pub mod text;
pub mod tls;
