use rustls::crypto::SupportedKxGroup;
use rustls::hash_hs::HandshakeHash;
use rustls::key::Certificate;
use rustls::kx::KeyExchange;
use rustls::msgs::handshake::SessionID;
use rustls::server::common::ClientCertDetails;
use rustls::server::common::HandshakeDetails;
use rustls::server::common::ServerKxDetails;

#[test]
fn fresh_handshake_details_are_empty() {
    let hs = HandshakeDetails::new();
    assert!(hs.transcript.transcript().is_empty());
    assert!(hs.session_id.is_empty());
    assert!(hs.session_id.bytes().is_empty());
}

#[test]
fn transcript_reflects_appends_in_order() {
    let mut hs = HandshakeDetails::new();
    hs.transcript.update_raw(&[1, 2, 3]);
    hs.transcript.update_raw(&[]);
    hs.transcript.update_raw(&[4, 5]);
    assert_eq!(hs.transcript.transcript().as_slice(), &[1, 2, 3, 4, 5]);
}

#[test]
fn transcript_append_is_the_only_mutation() {
    let mut t = HandshakeHash::new();
    t.update_raw(&[0xde, 0xad]);
    let before = t.transcript().clone();
    t.update_raw(&[0xbe, 0xef]);
    // The earlier bytes are still there, untouched and in place.
    assert_eq!(&t.transcript()[..2], before.as_slice());
    assert_eq!(t.transcript().as_slice(), &[0xde, 0xad, 0xbe, 0xef]);
}

#[test]
fn session_id_round_trips() {
    let id = SessionID::new(vec![7; 32]);
    assert!(!id.is_empty());
    assert_eq!(id.bytes().as_slice(), &[7; 32]);
    assert!(SessionID::empty().is_empty());
}

#[test]
fn server_kx_details_return_the_artifact_unchanged() {
    let kx = KeyExchange::new(SupportedKxGroup { name: 0x001d }, vec![9, 8, 7]);
    let details = ServerKxDetails::new(kx.clone());
    // Every read sees exactly the stored artifact.
    assert_eq!(details.kx(), &kx);
    assert_eq!(details.kx(), &kx);
    assert_eq!(details.kx.group, SupportedKxGroup { name: 0x001d });
    assert_eq!(details.kx.pubkey, vec![9, 8, 7]);
}

#[test]
fn client_cert_details_preserve_chain_order() {
    let c1 = Certificate(vec![1]);
    let c2 = Certificate(vec![2]);
    let c3 = Certificate(vec![3]);
    let details = ClientCertDetails::new(vec![c1.clone(), c2.clone(), c3.clone()]);
    assert_eq!(
        details.chain().as_slice(),
        &[c1.clone(), c2.clone(), c3.clone()]
    );
    // A repeated read returns the same chain, never reordered or deduplicated.
    assert_eq!(details.chain().as_slice(), &[c1, c2, c3]);
}

#[test]
fn duplicate_certificates_are_kept() {
    let c = Certificate(vec![0xaa]);
    let details = ClientCertDetails::new(vec![c.clone(), c.clone()]);
    assert_eq!(details.chain().len(), 2);
    assert_eq!(details.chain()[0], details.chain()[1]);
}
