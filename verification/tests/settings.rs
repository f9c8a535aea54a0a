use simple_http3::config::{
    ClientConfig, HostAddress, ServerConfig, SocketAddress, DEFAULT_IDLE_TIMEOUT_SECS,
    DEFAULT_PORT, LOCALHOST,
};
use simple_http3::server::{
    alpn_protocols, transport_settings, TransportSettings, IDLE_TIMEOUT_LIMIT_MS, KEEP_ALIVE_SECS,
    MAX_EARLY_DATA, MAX_WEBTRANSPORT_SESSIONS,
};
use simple_http3::tls::{
    insecure_verifier, InsecureCertVerifier, VerifyScheme, WEBTRANSPORT_CERT_DAYS,
};

#[test]
fn local_address_is_the_loopback_on_4433() {
    let address = SocketAddress::local();
    assert_eq!(address, SocketAddress { host: HostAddress::V4([127, 0, 0, 1]), port: 4433 });
    assert_eq!(DEFAULT_PORT, 4433);
}

#[test]
fn server_config_defaults() {
    let config = ServerConfig::default();
    assert_eq!(config.bind_addr, SocketAddress::local());
    assert_eq!(config.cert_hostnames, vec!["localhost".to_string()]);
    assert_eq!(config.idle_timeout_secs, 30);
    assert_eq!(DEFAULT_IDLE_TIMEOUT_SECS, 30);
    assert_eq!(LOCALHOST, "localhost");
}

#[test]
fn server_config_for_an_address() {
    let address = SocketAddress { host: HostAddress::V6([0, 0, 0, 0, 0, 0, 0, 1]), port: 8443 };
    let config = ServerConfig::new(address);
    assert_eq!(config.bind_addr, address);
    assert_eq!(config.cert_hostnames, vec!["localhost".to_string()]);
    assert_eq!(config.idle_timeout_secs, 30);
}

#[test]
fn server_config_builders_change_one_field() {
    let names = vec!["localhost".to_string(), "127.0.0.1".to_string()];
    let config = ServerConfig::default().with_hostnames(names.clone()).with_idle_timeout(10);
    assert_eq!(config.bind_addr, SocketAddress::local());
    assert_eq!(config.cert_hostnames, names);
    assert_eq!(config.idle_timeout_secs, 10);
    let config = config.with_hostnames(Vec::new());
    assert!(config.cert_hostnames.is_empty());
    assert_eq!(config.idle_timeout_secs, 10);
}

#[test]
fn client_config_defaults() {
    let config = ClientConfig::default();
    assert_eq!(config.server_addr, SocketAddress::local());
    assert_eq!(config.server_name, "localhost");
    assert!(config.insecure);
}

#[test]
fn client_config_for_a_server() {
    let address = SocketAddress { host: HostAddress::V4([10, 0, 0, 7]), port: 443 };
    let config = ClientConfig::new(address, "example.org");
    assert_eq!(config.server_addr, address);
    assert_eq!(config.server_name, "example.org");
    assert!(config.insecure);
    let config = config.secure();
    assert_eq!(config.server_addr, address);
    assert_eq!(config.server_name, "example.org");
    assert!(!config.insecure);
}

#[test]
fn offered_protocols() {
    assert_eq!(alpn_protocols(), vec!["h3", "h3-32", "h3-31", "h3-30", "h3-29"]);
}

#[test]
fn settings_of_the_default_server() {
    assert_eq!(
        transport_settings(&ServerConfig::default()),
        Some(TransportSettings {
            idle_timeout_ms: 30_000,
            keep_alive_ms: 2_000,
            max_early_data: u32::MAX,
            max_webtransport_sessions: 10,
            webtransport: true,
            extended_connect: true,
            datagrams: true,
            grease: true,
        })
    );
    assert_eq!(KEEP_ALIVE_SECS, 2);
    assert_eq!(MAX_EARLY_DATA, u32::MAX);
    assert_eq!(MAX_WEBTRANSPORT_SESSIONS, 10);
    assert_eq!(IDLE_TIMEOUT_LIMIT_MS, 1 << 62);
}

#[test]
fn settings_follow_the_idle_timeout() {
    let config = ServerConfig::default().with_idle_timeout(10);
    assert_eq!(transport_settings(&config).map(|s| s.idle_timeout_ms), Some(10_000));
    let config = ServerConfig::default().with_idle_timeout(0);
    assert_eq!(transport_settings(&config).map(|s| s.idle_timeout_ms), Some(0));
}

#[test]
fn idle_timeout_at_the_limit_of_the_transport() {
    let most = ((1u64 << 62) - 1) / 1000;
    let config = ServerConfig::default().with_idle_timeout(most);
    assert_eq!(transport_settings(&config).map(|s| s.idle_timeout_ms), Some(most * 1000));
    let config = ServerConfig::default().with_idle_timeout(most + 1);
    assert_eq!(transport_settings(&config), None);
    let config = ServerConfig::default().with_idle_timeout(u64::MAX);
    assert_eq!(transport_settings(&config), None);
}

#[test]
fn insecure_verifier_accepts_everything() {
    let verifier = insecure_verifier();
    assert!(verifier.accepts_certificate(b""));
    assert!(verifier.accepts_certificate(b"not a certificate"));
    assert!(verifier.accepts_signature(b"message", b"certificate"));
    let plain = InsecureCertVerifier;
    assert!(plain.accepts_certificate(&[0, 1, 2]));
}

#[test]
fn insecure_verifier_announces_ten_schemes() {
    assert_eq!(
        insecure_verifier().supported_verify_schemes(),
        vec![
            VerifyScheme::RsaPkcs1Sha256,
            VerifyScheme::RsaPkcs1Sha384,
            VerifyScheme::RsaPkcs1Sha512,
            VerifyScheme::EcdsaNistp256Sha256,
            VerifyScheme::EcdsaNistp384Sha384,
            VerifyScheme::EcdsaNistp521Sha512,
            VerifyScheme::RsaPssSha256,
            VerifyScheme::RsaPssSha384,
            VerifyScheme::RsaPssSha512,
            VerifyScheme::Ed25519,
        ]
    );
}

#[test]
fn webtransport_certificate_lasts_two_weeks() {
    assert_eq!(WEBTRANSPORT_CERT_DAYS, 14);
}
