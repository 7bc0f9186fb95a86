use vstd::prelude::*;

verus! {

/// A revision of the TLS protocol.
#[derive(Clone, Copy, PartialEq, Eq, Structural, Debug)]
pub enum ProtocolVersion {
    /// TLS 1.2.
    TLSv1_2,
    /// TLS 1.3.
    TLSv1_3,
}

/// A protocol version the library implements and a configuration may enable.
#[derive(Clone, Copy, PartialEq, Eq, Structural, Debug)]
pub struct SupportedProtocolVersion {
    /// The protocol revision this entry stands for.
    pub version: ProtocolVersion,
}

/// The library's default protocol versions: every version it implements,
/// newest first.
pub open spec fn default_versions_spec() -> Seq<SupportedProtocolVersion> {
    seq![
        SupportedProtocolVersion { version: ProtocolVersion::TLSv1_3 },
        SupportedProtocolVersion { version: ProtocolVersion::TLSv1_2 },
    ]
}

/// Build the library's default protocol version list.
pub fn default_versions() -> (r: Vec<SupportedProtocolVersion>)
    ensures
        r@ == default_versions_spec(),
{
    let mut r: Vec<SupportedProtocolVersion> = Vec::new();
    r.push(SupportedProtocolVersion { version: ProtocolVersion::TLSv1_3 });
    r.push(SupportedProtocolVersion { version: ProtocolVersion::TLSv1_2 });
    proof {
        assert(r@ =~= default_versions_spec());
    }
    r
}

/// Whether a candidate version list names the given protocol revision.
pub open spec fn contains_version(
    candidates: Seq<SupportedProtocolVersion>,
    needle: ProtocolVersion,
) -> bool {
    exists|i: int| 0 <= i < candidates.len() && candidates[i].version == needle
}

/// The validated, closed set of protocol versions a configuration enables,
/// normalized from a candidate list.
#[derive(Clone, Copy, PartialEq, Eq, Structural, Debug)]
pub struct EnabledVersions {
    /// Whether TLS 1.2 is enabled.
    pub tls12: bool,
    /// Whether TLS 1.3 is enabled.
    pub tls13: bool,
}

/// The set of versions a candidate list enables: one membership flag per
/// revision the library implements.
pub open spec fn enabled_of(candidates: Seq<SupportedProtocolVersion>) -> EnabledVersions {
    EnabledVersions {
        tls12: contains_version(candidates, ProtocolVersion::TLSv1_2),
        tls13: contains_version(candidates, ProtocolVersion::TLSv1_3),
    }
}

impl EnabledVersions {
    /// Normalize a candidate list into the closed enabled set: a revision is
    /// enabled exactly when some candidate names it.
    pub fn new(candidates: &Vec<SupportedProtocolVersion>) -> (r: EnabledVersions)
        ensures
            r == enabled_of(candidates@),
    {
        let mut tls12 = false;
        let mut tls13 = false;
        let mut i: usize = 0;
        while i < candidates.len()
            invariant
                i <= candidates.len(),
                tls12 == (exists|j: int|
                    0 <= j < i && candidates@[j].version == ProtocolVersion::TLSv1_2),
                tls13 == (exists|j: int|
                    0 <= j < i && candidates@[j].version == ProtocolVersion::TLSv1_3),
            decreases candidates.len() - i,
        {
            match candidates[i].version {
                ProtocolVersion::TLSv1_2 => {
                    tls12 = true;
                },
                ProtocolVersion::TLSv1_3 => {
                    tls13 = true;
                },
            }
            i = i + 1;
        }
        EnabledVersions { tls12, tls13 }
    }

    /// Whether this revision was enabled.
    pub open spec fn spec_contains(self, v: ProtocolVersion) -> bool {
        match v {
            ProtocolVersion::TLSv1_2 => self.tls12,
            ProtocolVersion::TLSv1_3 => self.tls13,
        }
    }

    /// Whether the given protocol revision is enabled.
    pub fn contains(&self, v: ProtocolVersion) -> (b: bool)
        ensures
            b == self.spec_contains(v),
    {
        match v {
            ProtocolVersion::TLSv1_2 => self.tls12,
            ProtocolVersion::TLSv1_3 => self.tls13,
        }
    }
}

} // verus!
