use vstd::prelude::*;

verus! {

/// A DER-encoded X.509 certificate, held as presented by the peer.
#[derive(Clone, PartialEq, Eq, Debug)]
pub struct Certificate(pub Vec<u8>);

} // verus!
