//! What the server fixes before it listens: the protocols it offers, the
//! limits of its transport, and the options of its HTTP/3 connections.

use crate::config::ServerConfig;
use vstd::prelude::*;
use vstd::string::*;

verus! {

/// Seconds between two keep-alive packets.
pub const KEEP_ALIVE_SECS: u64 = 2;

/// Bytes of early data that the server accepts.
pub const MAX_EARLY_DATA: u32 = 0xffff_ffff;

/// WebTransport sessions that one connection may hold.
pub const MAX_WEBTRANSPORT_SESSIONS: u64 = 10;

/// The least idle timeout, in milliseconds, that the transport cannot
/// express: it counts milliseconds in 62 bits.
pub const IDLE_TIMEOUT_LIMIT_MS: u64 = 0x4000_0000_0000_0000;

/// The application protocols offered in the TLS handshake, most wanted
/// first: HTTP/3 and four of its drafts.
pub open spec fn alpn_protocols_spec() -> Seq<Seq<char>> {
    seq!["h3"@, "h3-32"@, "h3-31"@, "h3-30"@, "h3-29"@]
}

/// The application protocols offered in the TLS handshake.
pub fn alpn_protocols() -> (protocols: Vec<&'static str>)
    ensures
        protocols@.len() == alpn_protocols_spec().len(),
        forall|i: int| 0 <= i < protocols@.len() ==> protocols@[i]@ == alpn_protocols_spec()[i],
{
    vec!["h3", "h3-32", "h3-31", "h3-30", "h3-29"]
}

/// The limits of the transport and the options of its connections.
#[derive(Clone, Copy, Debug, PartialEq, Eq)]
pub struct TransportSettings {
    /// Milliseconds of inactivity after which a connection is given up.
    pub idle_timeout_ms: u64,
    /// Milliseconds between two keep-alive packets.
    pub keep_alive_ms: u64,
    /// Bytes of early data that the server accepts.
    pub max_early_data: u32,
    /// WebTransport sessions that one connection may hold.
    pub max_webtransport_sessions: u64,
    /// Whether connections accept WebTransport.
    pub webtransport: bool,
    /// Whether connections accept the extended CONNECT method.
    pub extended_connect: bool,
    /// Whether connections carry datagrams.
    pub datagrams: bool,
    /// Whether connections send reserved values to keep peers tolerant.
    pub grease: bool,
}

/// The settings that follow from an idle timeout in seconds; `None` where
/// the timeout is more than the transport can express.
pub open spec fn transport_settings_spec(idle_timeout_secs: u64) -> Option<TransportSettings> {
    if idle_timeout_secs * 1000 < IDLE_TIMEOUT_LIMIT_MS {
        Some(
            TransportSettings {
                idle_timeout_ms: (idle_timeout_secs * 1000) as u64,
                keep_alive_ms: (KEEP_ALIVE_SECS * 1000) as u64,
                max_early_data: MAX_EARLY_DATA,
                max_webtransport_sessions: MAX_WEBTRANSPORT_SESSIONS,
                webtransport: true,
                extended_connect: true,
                datagrams: true,
                grease: true,
            },
        )
    } else {
        None
    }
}

/// The settings of a server with this configuration; `None` where its idle
/// timeout is more than the transport can express.
pub fn transport_settings(config: &ServerConfig) -> (settings: Option<TransportSettings>)
    ensures
        settings == transport_settings_spec(config.idle_timeout_secs),
{
    if config.idle_timeout_secs >= IDLE_TIMEOUT_LIMIT_MS / 1000 + 1 {
        return None;
    }
    Some(
        TransportSettings {
            idle_timeout_ms: config.idle_timeout_secs * 1000,
            keep_alive_ms: KEEP_ALIVE_SECS * 1000,
            max_early_data: MAX_EARLY_DATA,
            max_webtransport_sessions: MAX_WEBTRANSPORT_SESSIONS,
            webtransport: true,
            extended_connect: true,
            datagrams: true,
            grease: true,
        },
    )
}

} // verus!
