use vstd::prelude::*;
use crate::crypto::SupportedKxGroup;

verus! {

/// A completed ephemeral key exchange: the negotiated group together with
/// the key material the exchange produced.  The core holds such a value
/// opaquely for the handshake driver; it never interprets or transforms it.
#[derive(Clone, PartialEq, Eq, Debug)]
pub struct KeyExchange {
    /// The named group the exchange was performed on.
    pub group: SupportedKxGroup,
    /// The endpoint's public share, exactly as sent on the wire.
    pub pubkey: Vec<u8>,
}

impl KeyExchange {
    /// Wrap the artifacts of a finished exchange.
    pub fn new(group: SupportedKxGroup, pubkey: Vec<u8>) -> (r: KeyExchange)
        ensures
            r.group == group,
            r.pubkey == pubkey,
    {
        KeyExchange { group, pubkey }
    }
}

} // verus!
