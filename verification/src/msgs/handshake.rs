use vstd::prelude::*;

verus! {

/// The longest session identifier the wire format allows.
pub const MAX_SESSION_ID_LEN: usize = 32;

/// An opaque identifier for a handshake, used for session resumption.  It
/// starts out empty and is assigned at most once by the protocol; the wire
/// format caps it at 32 bytes.
#[derive(Clone, PartialEq, Eq, Debug)]
pub struct SessionID {
    bytes: Vec<u8>,
}

impl View for SessionID {
    type V = Seq<u8>;

    closed spec fn view(&self) -> Seq<u8> {
        self.bytes@
    }
}

impl SessionID {
    /// The identifier of a session that has not been assigned one.
    pub fn empty() -> (r: SessionID)
        ensures
            r@.len() == 0,
    {
        SessionID { bytes: Vec::new() }
    }

    /// Wrap an identifier the protocol assigned.
    pub fn new(bytes: Vec<u8>) -> (r: SessionID)
        requires
            bytes@.len() <= MAX_SESSION_ID_LEN,
        ensures
            r@ == bytes@,
    {
        SessionID { bytes }
    }

    /// Whether no identifier has been assigned yet.
    pub fn is_empty(&self) -> (b: bool)
        ensures
            b == (self@.len() == 0),
    {
        self.bytes.len() == 0
    }

    /// The identifier's bytes.
    pub fn bytes(&self) -> (r: &Vec<u8>)
        ensures
            r@ == self@,
    {
        &self.bytes
    }
}

} // verus!
