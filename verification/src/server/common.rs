use vstd::prelude::*;
use crate::hash_hs::HandshakeHash;
use crate::key::Certificate;
use crate::kx::KeyExchange;
use crate::msgs::handshake::SessionID;

verus! {

/// Per-connection handshake state, created once when a handshake starts and
/// mutated only by the handshake driver as the protocol progresses.
pub struct HandshakeDetails {
    /// The append-only transcript of every handshake message so far.
    pub transcript: HandshakeHash,
    /// The session identifier, empty until the protocol assigns one.
    pub session_id: SessionID,
}

impl HandshakeDetails {
    /// Fresh state for a new handshake: an empty transcript and an empty
    /// session identifier.
    pub fn new() -> (r: HandshakeDetails)
        ensures
            r.transcript@.len() == 0,
            r.session_id@.len() == 0,
    {
        HandshakeDetails { transcript: HandshakeHash::new(), session_id: SessionID::empty() }
    }
}

/// The server's completed key exchange, created once when the computation
/// finishes and held untouched until the driver extracts it to derive
/// traffic secrets.
pub struct ServerKxDetails {
    /// The exchange artifact, exactly as the key-exchange computation
    /// produced it.
    pub kx: KeyExchange,
}

impl ServerKxDetails {
    /// Wrap a completed key exchange.  The artifact is stored as given:
    /// every later read returns exactly this value.
    pub fn new(kx: KeyExchange) -> (r: ServerKxDetails)
        ensures
            r.kx == kx,
    {
        ServerKxDetails { kx }
    }

    /// The stored exchange artifact, unchanged.
    pub fn kx(&self) -> (r: &KeyExchange)
        ensures
            *r == self.kx,
    {
        &self.kx
    }
}

/// The client's certificate chain, created once when the certificate
/// message is parsed and stored losslessly for downstream verification.
pub struct ClientCertDetails {
    /// The chain exactly as the peer presented it, leaf first.
    pub cert_chain: Vec<Certificate>,
}

impl ClientCertDetails {
    /// Wrap a presented certificate chain.  The chain is stored in the
    /// exact order given — never reordered, filtered or deduplicated — so
    /// every later read returns it unchanged.
    pub fn new(chain: Vec<Certificate>) -> (r: ClientCertDetails)
        ensures
            r.cert_chain@ == chain@,
    {
        ClientCertDetails { cert_chain: chain }
    }

    /// The stored chain, in presentation order.
    pub fn chain(&self) -> (r: &Vec<Certificate>)
        ensures
            r@ == self.cert_chain@,
    {
        &self.cert_chain
    }
}

} // verus!
