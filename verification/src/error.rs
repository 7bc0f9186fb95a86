use vstd::prelude::*;

verus! {

/// A configuration-time failure.  Both kinds surface synchronously from the
/// protocol-versions step of the builder and are distinguishable, so a caller
/// can tell an incompatible suite/version selection apart from an empty
/// key-exchange group selection.
#[derive(Clone, Copy, PartialEq, Eq, Structural, Debug)]
pub enum Error {
    /// No chosen cipher suite belongs to any of the chosen protocol versions.
    NoUsableCipherSuites,
    /// The chosen key-exchange group list is empty.
    NoKxGroups,
}

} // verus!
