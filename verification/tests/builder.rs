use rustls::builder::ConfigBuilder;
use rustls::builder::WantsCipherSuites;
use rustls::client::ClientConfig;
use rustls::crypto::CryptoProvider;
use rustls::crypto::DefaultProvider;
use rustls::crypto::SupportedKxGroup;
use rustls::error::Error;
use rustls::server::ServerConfig;
use rustls::suites::default_cipher_suites;
use rustls::suites::SupportedCipherSuite;
use rustls::versions::default_versions;
use rustls::versions::EnabledVersions;
use rustls::versions::ProtocolVersion;
use rustls::versions::SupportedProtocolVersion;

fn suite12() -> SupportedCipherSuite {
    SupportedCipherSuite {
        suite: 0xc02b,
        version: ProtocolVersion::TLSv1_2,
    }
}

fn suite13() -> SupportedCipherSuite {
    SupportedCipherSuite {
        suite: 0x1301,
        version: ProtocolVersion::TLSv1_3,
    }
}

fn v12() -> SupportedProtocolVersion {
    SupportedProtocolVersion {
        version: ProtocolVersion::TLSv1_2,
    }
}

fn v13() -> SupportedProtocolVersion {
    SupportedProtocolVersion {
        version: ProtocolVersion::TLSv1_3,
    }
}

fn x25519() -> SupportedKxGroup {
    SupportedKxGroup { name: 0x001d }
}

fn client_builder() -> ConfigBuilder<ClientConfig<DefaultProvider>, WantsCipherSuites> {
    ClientConfig::<DefaultProvider>::builder()
}

#[test]
fn versions_step_rejects_suite_without_candidate_version() {
    // A TLS 1.3-only suite offered for TLS 1.2 only: no usable suite.
    let r = client_builder()
        .with_cipher_suites(vec![suite13()])
        .with_kx_groups(vec![x25519()])
        .with_protocol_versions(vec![v12()]);
    assert_eq!(r.err(), Some(Error::NoUsableCipherSuites));
}

#[test]
fn versions_step_rejects_empty_kx_groups() {
    // The suite/version pairing is valid, yet the empty group list is still
    // rejected: the two checks are independent.
    let r = client_builder()
        .with_cipher_suites(vec![suite12()])
        .with_kx_groups(vec![])
        .with_protocol_versions(vec![v12()]);
    assert_eq!(r.err(), Some(Error::NoKxGroups));
}

#[test]
fn versions_step_accepts_valid_selection() {
    let r = client_builder()
        .with_cipher_suites(vec![suite12(), suite13()])
        .with_kx_groups(vec![x25519()])
        .with_protocol_versions(vec![v12(), v13()]);
    let done = r.expect("a valid selection must be accepted");
    assert_eq!(done.cipher_suites().as_slice(), &[suite12(), suite13()]);
    assert_eq!(done.kx_groups().as_slice(), &[x25519()]);
    let enabled = done.enabled_versions();
    assert!(enabled.contains(ProtocolVersion::TLSv1_2));
    assert!(enabled.contains(ProtocolVersion::TLSv1_3));
}

#[test]
fn suite_version_check_is_reported_first() {
    // Both checks fail at once; the suite/version failure is the one named.
    let r = client_builder()
        .with_cipher_suites(vec![suite13()])
        .with_kx_groups(vec![])
        .with_protocol_versions(vec![v12()]);
    assert_eq!(r.err(), Some(Error::NoUsableCipherSuites));
}

#[test]
fn versions_step_rejects_empty_candidate_list() {
    let r = client_builder()
        .with_cipher_suites(vec![suite12()])
        .with_kx_groups(vec![x25519()])
        .with_protocol_versions(vec![]);
    assert_eq!(r.err(), Some(Error::NoUsableCipherSuites));
}

#[test]
fn safe_defaults_never_fail() {
    let done = client_builder().with_safe_defaults();
    assert!(!done.cipher_suites().is_empty());
    assert_eq!(done.kx_groups().len(), 3);
    let enabled = done.enabled_versions();
    assert!(enabled.contains(ProtocolVersion::TLSv1_2));
    assert!(enabled.contains(ProtocolVersion::TLSv1_3));
}

#[test]
fn safe_defaults_match_stepwise_defaults() {
    let shortcut = client_builder().with_safe_defaults();
    let stepped = client_builder()
        .with_safe_default_cipher_suites()
        .with_safe_default_kx_groups()
        .with_safe_default_protocol_versions()
        .expect("the default chain must succeed");
    assert_eq!(shortcut.cipher_suites(), stepped.cipher_suites());
    assert_eq!(shortcut.kx_groups(), stepped.kx_groups());
    assert_eq!(shortcut.enabled_versions(), stepped.enabled_versions());
}

#[test]
fn server_side_builds_the_same_defaults() {
    let client = ClientConfig::<DefaultProvider>::builder().with_safe_defaults();
    let server = ServerConfig::<DefaultProvider>::builder().with_safe_defaults();
    assert_eq!(client.cipher_suites(), server.cipher_suites());
    assert_eq!(client.kx_groups(), server.kx_groups());
    assert_eq!(client.enabled_versions(), server.enabled_versions());
}

#[test]
fn default_cipher_suites_are_curated() {
    let suites = default_cipher_suites();
    assert_eq!(suites.len(), 9);
    // Every default suite belongs to a default version.
    for s in suites.iter() {
        assert!(default_versions().iter().any(|v| v.version == s.version));
    }
    // No null-encryption or export-grade code point is offered.
    for s in suites.iter() {
        assert!(s.suite >= 0x1301);
    }
}

#[test]
fn default_versions_enable_everything() {
    let vs = default_versions();
    assert_eq!(
        vs.as_slice(),
        &[v13(), v12()],
        "defaults are every implemented version, newest first"
    );
    let enabled = EnabledVersions::new(&vs);
    assert!(enabled.contains(ProtocolVersion::TLSv1_2));
    assert!(enabled.contains(ProtocolVersion::TLSv1_3));
}

#[test]
fn enabled_versions_normalize_duplicates() {
    let enabled = EnabledVersions::new(&vec![v12(), v12()]);
    assert!(enabled.contains(ProtocolVersion::TLSv1_2));
    assert!(!enabled.contains(ProtocolVersion::TLSv1_3));
}

#[test]
fn enabled_versions_of_empty_list_enable_nothing() {
    let enabled = EnabledVersions::new(&vec![]);
    assert!(!enabled.contains(ProtocolVersion::TLSv1_2));
    assert!(!enabled.contains(ProtocolVersion::TLSv1_3));
}

#[test]
fn errors_are_distinguishable() {
    assert_ne!(Error::NoUsableCipherSuites, Error::NoKxGroups);
}

#[test]
fn chosen_suites_are_stored_in_order() {
    let step = client_builder().with_cipher_suites(vec![suite13(), suite12()]);
    let done = step
        .with_kx_groups(vec![x25519()])
        .with_protocol_versions(vec![v12(), v13()])
        .expect("valid");
    assert_eq!(done.cipher_suites().as_slice(), &[suite13(), suite12()]);
}

#[test]
fn provider_table_is_used_for_default_groups() {
    let done = client_builder().with_safe_defaults();
    assert_eq!(done.kx_groups(), &DefaultProvider::all_kx_groups());
}
