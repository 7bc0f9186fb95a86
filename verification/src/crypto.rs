use vstd::prelude::*;

verus! {

/// A named key-exchange group: an elliptic-curve or finite-field parameter
/// set usable for ephemeral key agreement.  The core stores and forwards
/// these values; their arithmetic is the provider's concern.
#[derive(Clone, Copy, PartialEq, Eq, Structural, Debug)]
pub struct SupportedKxGroup {
    /// The group's IANA "named group" code point.
    pub name: u16,
}

/// A pluggable cryptographic backend.  A provider publishes the table of
/// every key-exchange group it implements; the configuration builder reads
/// that table for its "safe default" key-exchange step and never invents
/// groups of its own.
pub trait CryptoProvider {
    /// The key-exchange group type the provider's operations accept.
    type SupportedGroup;

    /// The provider's group table, as contracts see it.
    spec fn all_kx_groups_spec() -> Seq<Self::SupportedGroup>;

    /// Every key-exchange group the provider implements, in the provider's
    /// preference order.
    fn all_kx_groups() -> (r: Vec<Self::SupportedGroup>)
        ensures
            r@ == Self::all_kx_groups_spec(),
    ;
}

/// The library's bundled software backend.  It implements the three
/// key-exchange groups every modern peer accepts: X25519, secp256r1 and
/// secp384r1.
pub struct DefaultProvider;

impl CryptoProvider for DefaultProvider {
    type SupportedGroup = SupportedKxGroup;

    open spec fn all_kx_groups_spec() -> Seq<SupportedKxGroup> {
        seq![
            // X25519
            SupportedKxGroup { name: 0x001d },
            // secp256r1
            SupportedKxGroup { name: 0x0017 },
            // secp384r1
            SupportedKxGroup { name: 0x0018 },
        ]
    }

    fn all_kx_groups() -> (r: Vec<SupportedKxGroup>) {
        let mut r: Vec<SupportedKxGroup> = Vec::new();
        r.push(SupportedKxGroup { name: 0x001d });
        r.push(SupportedKxGroup { name: 0x0017 });
        r.push(SupportedKxGroup { name: 0x0018 });
        proof {
            assert(r@ =~= Self::all_kx_groups_spec());
        }
        r
    }
}

} // verus!
