use vstd::prelude::*;
use crate::versions::ProtocolVersion;

verus! {

/// A cipher suite the library can negotiate.  The core treats a suite as an
/// atom: beyond the protocol version it belongs to, its contents are the
/// cryptographic backend's concern.
#[derive(Clone, Copy, PartialEq, Eq, Structural, Debug)]
pub struct SupportedCipherSuite {
    /// The suite's IANA-registered identifier.
    pub suite: u16,
    /// The protocol version the suite belongs to.
    pub version: ProtocolVersion,
}

impl SupportedCipherSuite {
    /// The protocol version this suite can be negotiated under.
    pub fn version(&self) -> (v: ProtocolVersion)
        ensures
            v == self.version,
    {
        self.version
    }
}

/// The library's curated default cipher suites: only safe, modern suites,
/// strongest first.  No deliberately weakened or null-encryption suite is
/// ever offered as a default.
pub open spec fn default_cipher_suites_spec() -> Seq<SupportedCipherSuite> {
    seq![
        // TLS 1.3 AES-256-GCM-SHA384
        SupportedCipherSuite { suite: 0x1302, version: ProtocolVersion::TLSv1_3 },
        // TLS 1.3 AES-128-GCM-SHA256
        SupportedCipherSuite { suite: 0x1301, version: ProtocolVersion::TLSv1_3 },
        // TLS 1.3 CHACHA20-POLY1305-SHA256
        SupportedCipherSuite { suite: 0x1303, version: ProtocolVersion::TLSv1_3 },
        // TLS 1.2 ECDHE-ECDSA with AES-256-GCM
        SupportedCipherSuite { suite: 0xc02c, version: ProtocolVersion::TLSv1_2 },
        // TLS 1.2 ECDHE-ECDSA with AES-128-GCM
        SupportedCipherSuite { suite: 0xc02b, version: ProtocolVersion::TLSv1_2 },
        // TLS 1.2 ECDHE-ECDSA with CHACHA20-POLY1305
        SupportedCipherSuite { suite: 0xcca9, version: ProtocolVersion::TLSv1_2 },
        // TLS 1.2 ECDHE-RSA with AES-256-GCM
        SupportedCipherSuite { suite: 0xc030, version: ProtocolVersion::TLSv1_2 },
        // TLS 1.2 ECDHE-RSA with AES-128-GCM
        SupportedCipherSuite { suite: 0xc02f, version: ProtocolVersion::TLSv1_2 },
        // TLS 1.2 ECDHE-RSA with CHACHA20-POLY1305
        SupportedCipherSuite { suite: 0xcca8, version: ProtocolVersion::TLSv1_2 },
    ]
}

/// Build the library's default cipher suite list.
pub fn default_cipher_suites() -> (r: Vec<SupportedCipherSuite>)
    ensures
        r@ == default_cipher_suites_spec(),
{
    let mut r: Vec<SupportedCipherSuite> = Vec::new();
    r.push(SupportedCipherSuite { suite: 0x1302, version: ProtocolVersion::TLSv1_3 });
    r.push(SupportedCipherSuite { suite: 0x1301, version: ProtocolVersion::TLSv1_3 });
    r.push(SupportedCipherSuite { suite: 0x1303, version: ProtocolVersion::TLSv1_3 });
    r.push(SupportedCipherSuite { suite: 0xc02c, version: ProtocolVersion::TLSv1_2 });
    r.push(SupportedCipherSuite { suite: 0xc02b, version: ProtocolVersion::TLSv1_2 });
    r.push(SupportedCipherSuite { suite: 0xcca9, version: ProtocolVersion::TLSv1_2 });
    r.push(SupportedCipherSuite { suite: 0xc030, version: ProtocolVersion::TLSv1_2 });
    r.push(SupportedCipherSuite { suite: 0xc02f, version: ProtocolVersion::TLSv1_2 });
    r.push(SupportedCipherSuite { suite: 0xcca8, version: ProtocolVersion::TLSv1_2 });
    proof {
        assert(r@ =~= default_cipher_suites_spec());
    }
    r
}

} // verus!
