//! Configuration of the server and of the client.

use vstd::prelude::*;
use vstd::string::*;

verus! {

/// The address of a host.
#[derive(Clone, Copy, Debug, PartialEq, Eq)]
pub enum HostAddress {
    /// An IPv4 address, by its four octets.
    V4([u8; 4]),
    /// An IPv6 address, by its eight segments.
    V6([u16; 8]),
}

/// The address of a socket: a host and a port.
#[derive(Clone, Copy, Debug, PartialEq, Eq)]
pub struct SocketAddress {
    pub host: HostAddress,
    pub port: u16,
}

/// The port that the server listens on unless told otherwise.
pub const DEFAULT_PORT: u16 = 4433;

/// The idle timeout in seconds unless told otherwise.
pub const DEFAULT_IDLE_TIMEOUT_SECS: u64 = 30;

/// The name of the local host.
pub const LOCALHOST: &'static str = "localhost";

/// The address `127.0.0.1:4433`.
pub open spec fn default_address() -> SocketAddress {
    SocketAddress { host: HostAddress::V4([127u8, 0u8, 0u8, 1u8]), port: DEFAULT_PORT }
}

impl SocketAddress {
    /// The address `127.0.0.1:4433`.
    pub fn local() -> (address: Self)
        ensures
            address == default_address(),
    {
        SocketAddress { host: HostAddress::V4([127u8, 0u8, 0u8, 1u8]), port: DEFAULT_PORT }
    }
}

/// Server configuration options.
#[derive(Debug, Clone)]
pub struct ServerConfig {
    /// Address to bind the server to.
    pub bind_addr: SocketAddress,
    /// Hostnames for the self-signed certificate.
    pub cert_hostnames: Vec<String>,
    /// Idle timeout in seconds.
    pub idle_timeout_secs: u64,
}

/// The texts of a list of strings.
pub open spec fn names_view(names: Seq<String>) -> Seq<Seq<char>> {
    Seq::new(names.len(), |i: int| names[i]@)
}

impl ServerConfig {
    /// Whether this is the configuration for `bind_addr` with everything
    /// else at its default: a certificate for `localhost`, and thirty
    /// seconds of idle timeout.
    pub open spec fn is_default_for(&self, bind_addr: SocketAddress) -> bool {
        &&& self.bind_addr == bind_addr
        &&& names_view(self.cert_hostnames@) == seq![LOCALHOST@]
        &&& self.idle_timeout_secs == DEFAULT_IDLE_TIMEOUT_SECS
    }

    /// The default configuration for a server bound to `bind_addr`.
    pub fn new(bind_addr: SocketAddress) -> (config: Self)
        ensures
            config.is_default_for(bind_addr),
    {
        let cert_hostnames: Vec<String> = vec![LOCALHOST.to_owned()];
        assert(names_view(cert_hostnames@) =~= seq![LOCALHOST@]);
        ServerConfig { bind_addr, cert_hostnames, idle_timeout_secs: DEFAULT_IDLE_TIMEOUT_SECS }
    }

    /// The same configuration with other hostnames for the certificate.
    pub fn with_hostnames(self, hostnames: Vec<String>) -> (config: Self)
        ensures
            config.bind_addr == self.bind_addr,
            config.cert_hostnames == hostnames,
            config.idle_timeout_secs == self.idle_timeout_secs,
    {
        ServerConfig {
            bind_addr: self.bind_addr,
            cert_hostnames: hostnames,
            idle_timeout_secs: self.idle_timeout_secs,
        }
    }

    /// The same configuration with another idle timeout.
    pub fn with_idle_timeout(self, secs: u64) -> (config: Self)
        ensures
            config.bind_addr == self.bind_addr,
            config.cert_hostnames == self.cert_hostnames,
            config.idle_timeout_secs == secs,
    {
        ServerConfig {
            bind_addr: self.bind_addr,
            cert_hostnames: self.cert_hostnames,
            idle_timeout_secs: secs,
        }
    }
}

impl Default for ServerConfig {
    /// A server on `127.0.0.1:4433`.
    fn default() -> (config: Self)
        ensures
            config.is_default_for(default_address()),
    {
        ServerConfig::new(SocketAddress::local())
    }
}

/// Client configuration options.
#[derive(Debug, Clone)]
pub struct ClientConfig {
    /// Server address to connect to.
    pub server_addr: SocketAddress,
    /// Server name for TLS (SNI).
    pub server_name: String,
    /// Whether to skip certificate verification (for self-signed certificates).
    pub insecure: bool,
}

impl ClientConfig {
    /// A client for the server at `server_addr` that goes by `server_name`.
    /// It skips certificate verification until told otherwise.
    pub fn new(server_addr: SocketAddress, server_name: &str) -> (config: Self)
        ensures
            config.server_addr == server_addr,
            config.server_name@ == server_name@,
            config.insecure,
    {
        ClientConfig { server_addr, server_name: server_name.to_owned(), insecure: true }
    }

    /// The same configuration with certificate verification.
    pub fn secure(self) -> (config: Self)
        ensures
            config.server_addr == self.server_addr,
            config.server_name == self.server_name,
            !config.insecure,
    {
        ClientConfig {
            server_addr: self.server_addr,
            server_name: self.server_name,
            insecure: false,
        }
    }
}

impl Default for ClientConfig {
    /// A client for `localhost` at `127.0.0.1:4433`, without certificate verification.
    fn default() -> (config: Self)
        ensures
            config.server_addr == default_address(),
            config.server_name@ == LOCALHOST@,
            config.insecure,
    {
        ClientConfig::new(SocketAddress::local(), LOCALHOST)
    }
}

} // verus!
