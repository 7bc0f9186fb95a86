use vstd::prelude::*;
use core::marker::PhantomData;
use crate::crypto::CryptoProvider;
use crate::error::Error;
use crate::sealed::Sealed;
use crate::suites::SupportedCipherSuite;
use crate::suites::default_cipher_suites;
use crate::suites::default_cipher_suites_spec;
use crate::versions::EnabledVersions;
use crate::versions::ProtocolVersion;
use crate::versions::SupportedProtocolVersion;
use crate::versions::contains_version;
use crate::versions::default_versions;
use crate::versions::default_versions_spec;
use crate::versions::enabled_of;

verus! {

/// Building a configuration in a complete and linker-friendly way.
///
/// Complete: the phase types make every required decision — cipher suites,
/// key-exchange groups, protocol versions — before a usable configuration
/// can exist.  Each phase consumes the current builder and returns the next;
/// an operation that is not valid for the current phase cannot be named.
///
/// Linker-friendly: a caller that selects its own suites, groups or versions
/// never references the default tables, so unused primitives stay
/// unreferenced and can be discarded at link time.
pub struct ConfigBuilder<Side: ConfigSide, State> {
    /// The current phase's data.  Phase values themselves cannot be forged:
    /// their fields are private to this crate, so the only way to reach a
    /// later phase is through the operations below.
    pub state: State,
    /// Marker tying the builder to its side and, through it, its provider.
    pub side: PhantomData<Side>,
}

/// Ties a configuration builder to the client or the server side, and each
/// side to exactly one cryptographic provider.  Sealed: only the two
/// built-in sides implement it, so no outside code can introduce a third
/// side or rebind a side to another provider.
pub trait ConfigSide: Sealed {
    /// The cryptographic provider backing this side.
    type CryptoProvider: CryptoProvider;
}

impl<C: CryptoProvider> ConfigSide for crate::client::ClientConfig<C> {
    type CryptoProvider = C;
}

impl<C: CryptoProvider> ConfigSide for crate::server::ServerConfig<C> {
    type CryptoProvider = C;
}

/// Builder phase 1: the caller must choose cipher suites.
pub struct WantsCipherSuites(pub(crate) ());

/// Builder phase 2: the caller must choose key-exchange groups.
pub struct WantsKxGroups {
    pub(crate) cipher_suites: Vec<SupportedCipherSuite>,
}

impl WantsKxGroups {
    /// The cipher suites chosen in phase 1.
    pub closed spec fn suites(self) -> Seq<SupportedCipherSuite> {
        self.cipher_suites@
    }
}

/// Builder phase 3: the caller must choose protocol versions.
pub struct WantsVersions<C: CryptoProvider> {
    pub(crate) cipher_suites: Vec<SupportedCipherSuite>,
    pub(crate) kx_groups: Vec<C::SupportedGroup>,
}

impl<C: CryptoProvider> WantsVersions<C> {
    /// The cipher suites chosen in phase 1.
    pub closed spec fn suites(self) -> Seq<SupportedCipherSuite> {
        self.cipher_suites@
    }

    /// The key-exchange groups chosen in phase 2.
    pub closed spec fn groups(self) -> Seq<C::SupportedGroup> {
        self.kx_groups@
    }
}

/// Builder phase 4: cipher suites, key-exchange groups and protocol versions
/// are all chosen and jointly satisfiable; what remains (verifier and
/// certificate selection) is side-specific and outside this core.
pub struct WantsVerifier<C: CryptoProvider> {
    pub(crate) cipher_suites: Vec<SupportedCipherSuite>,
    pub(crate) kx_groups: Vec<C::SupportedGroup>,
    pub(crate) versions: EnabledVersions,
}

impl<C: CryptoProvider> WantsVerifier<C> {
    /// The cipher suites the configuration will use.
    pub closed spec fn suites(self) -> Seq<SupportedCipherSuite> {
        self.cipher_suites@
    }

    /// The key-exchange groups the configuration will use.
    pub closed spec fn groups(self) -> Seq<C::SupportedGroup> {
        self.kx_groups@
    }

    /// The protocol versions the configuration enables.
    pub closed spec fn enabled(self) -> EnabledVersions {
        self.versions
    }
}

/// Whether some suite in the list belongs to one of the candidate versions:
/// the suite/version compatibility check of the versions step.
pub open spec fn any_usable_suite(
    suites: Seq<SupportedCipherSuite>,
    candidates: Seq<SupportedProtocolVersion>,
) -> bool {
    exists|i: int| 0 <= i < suites.len() && contains_version(candidates, suites[i].version)
}

/// When the versions step accepts a selection: some chosen suite is usable
/// under a candidate version, and at least one key-exchange group was
/// chosen.  Both checks are independent and both are enforced.
pub open spec fn selection_ok<G>(
    suites: Seq<SupportedCipherSuite>,
    groups: Seq<G>,
    candidates: Seq<SupportedProtocolVersion>,
) -> bool {
    any_usable_suite(suites, candidates) && groups.len() > 0
}

/// Whether a candidate list names the given protocol revision.
fn versions_name(candidates: &Vec<SupportedProtocolVersion>, needle: ProtocolVersion) -> (b: bool)
    ensures
        b == contains_version(candidates@, needle),
{
    let mut found = false;
    let mut i: usize = 0;
    while i < candidates.len()
        invariant
            i <= candidates.len(),
            found == (exists|j: int| 0 <= j < i && candidates@[j].version == needle),
        decreases candidates.len() - i,
    {
        if candidates[i].version == needle {
            found = true;
        }
        i = i + 1;
    }
    found
}

/// Whether some suite belongs to one of the candidate versions.
fn any_suite_usable(
    suites: &Vec<SupportedCipherSuite>,
    candidates: &Vec<SupportedProtocolVersion>,
) -> (b: bool)
    ensures
        b == any_usable_suite(suites@, candidates@),
{
    let mut found = false;
    let mut i: usize = 0;
    while i < suites.len()
        invariant
            i <= suites.len(),
            found == (exists|k: int|
                0 <= k < i && contains_version(candidates@, suites@[k].version)),
        decreases suites.len() - i,
    {
        let suite = suites[i];
        if versions_name(candidates, suite.version()) {
            found = true;
        }
        i = i + 1;
    }
    found
}

impl<S: ConfigSide> ConfigBuilder<S, WantsCipherSuites> {
    /// Take every safe default in one step: the curated default cipher
    /// suites, the provider's full key-exchange group table, and all
    /// protocol versions the library implements.
    ///
    /// Unlike taking the three steps one at a time, this shortcut cannot
    /// fail: the curated defaults are jointly satisfiable, so no check is
    /// needed.
    pub fn with_safe_defaults(self) -> (r: ConfigBuilder<S, WantsVerifier<S::CryptoProvider>>)
        ensures
            r.state.suites() == default_cipher_suites_spec(),
            r.state.groups() == <S::CryptoProvider as CryptoProvider>::all_kx_groups_spec(),
            r.state.enabled() == enabled_of(default_versions_spec()),
    {
        let suites = default_cipher_suites();
        let groups = <S::CryptoProvider as CryptoProvider>::all_kx_groups();
        let candidates = default_versions();
        ConfigBuilder {
            state: WantsVerifier {
                cipher_suites: suites,
                kx_groups: groups,
                versions: EnabledVersions::new(&candidates),
            },
            side: self.side,
        }
    }

    /// Choose a specific set of cipher suites.  Nothing is validated here:
    /// an unusable selection is caught by the versions step.
    pub fn with_cipher_suites(self, cipher_suites: Vec<SupportedCipherSuite>) -> (r:
        ConfigBuilder<S, WantsKxGroups>)
        ensures
            r.state.suites() == cipher_suites@,
    {
        ConfigBuilder { state: WantsKxGroups { cipher_suites }, side: self.side }
    }

    /// Choose the library's curated default cipher suites.
    pub fn with_safe_default_cipher_suites(self) -> (r: ConfigBuilder<S, WantsKxGroups>)
        ensures
            r.state.suites() == default_cipher_suites_spec(),
    {
        self.with_cipher_suites(default_cipher_suites())
    }
}

impl<S: ConfigSide> ConfigBuilder<S, WantsKxGroups> {
    /// Choose a specific set of key-exchange groups, carrying the chosen
    /// cipher suites forward unchanged.
    pub fn with_kx_groups(
        self,
        kx_groups: Vec<<S::CryptoProvider as CryptoProvider>::SupportedGroup>,
    ) -> (r: ConfigBuilder<S, WantsVersions<S::CryptoProvider>>)
        ensures
            r.state.suites() == self.state.suites(),
            r.state.groups() == kx_groups@,
    {
        ConfigBuilder {
            state: WantsVersions { cipher_suites: self.state.cipher_suites, kx_groups },
            side: self.side,
        }
    }

    /// Choose the provider's full default group table.
    pub fn with_safe_default_kx_groups(self) -> (r:
        ConfigBuilder<S, WantsVersions<S::CryptoProvider>>)
        ensures
            r.state.suites() == self.state.suites(),
            r.state.groups() == <S::CryptoProvider as CryptoProvider>::all_kx_groups_spec(),
    {
        let groups = <S::CryptoProvider as CryptoProvider>::all_kx_groups();
        self.with_kx_groups(groups)
    }
}

impl<S: ConfigSide, C: CryptoProvider> ConfigBuilder<S, WantsVersions<C>> {
    /// Accept the library's default protocol versions: every version it
    /// implements.
    pub fn with_safe_default_protocol_versions(self) -> (r: Result<
        ConfigBuilder<S, WantsVerifier<C>>,
        Error,
    >)
        ensures
            r is Ok <==> selection_ok(self.state.suites(), self.state.groups(),
                default_versions_spec()),
            r matches Ok(b) ==> b.state.suites() == self.state.suites()
                && b.state.groups() == self.state.groups()
                && b.state.enabled() == enabled_of(default_versions_spec()),
            !any_usable_suite(self.state.suites(), default_versions_spec())
                ==> (r matches Err(e) && e == Error::NoUsableCipherSuites),
            any_usable_suite(self.state.suites(), default_versions_spec())
                && self.state.groups().len() == 0 ==> (r matches Err(e) && e == Error::NoKxGroups),
    {
        self.with_protocol_versions(default_versions())
    }

    /// Use a specific set of protocol versions.
    ///
    /// This is the only fallible builder step.  It succeeds exactly when
    /// some chosen cipher suite belongs to a candidate version and the
    /// key-exchange group list from phase 2 is non-empty; on success the
    /// suites and groups are carried forward unchanged and the candidate
    /// versions are normalized into the enabled set.  On failure nothing is
    /// produced and the error names the check that failed, the
    /// suite/version check first.
    pub fn with_protocol_versions(self, candidates: Vec<SupportedProtocolVersion>) -> (r: Result<
        ConfigBuilder<S, WantsVerifier<C>>,
        Error,
    >)
        ensures
            r is Ok <==> selection_ok(self.state.suites(), self.state.groups(), candidates@),
            r matches Ok(b) ==> b.state.suites() == self.state.suites()
                && b.state.groups() == self.state.groups()
                && b.state.enabled() == enabled_of(candidates@),
            !any_usable_suite(self.state.suites(), candidates@)
                ==> (r matches Err(e) && e == Error::NoUsableCipherSuites),
            any_usable_suite(self.state.suites(), candidates@)
                && self.state.groups().len() == 0 ==> (r matches Err(e) && e == Error::NoKxGroups),
    {
        let any_usable = any_suite_usable(&self.state.cipher_suites, &candidates);
        if !any_usable {
            return Err(Error::NoUsableCipherSuites);
        }
        if self.state.kx_groups.len() == 0 {
            return Err(Error::NoKxGroups);
        }
        let enabled = EnabledVersions::new(&candidates);
        Ok(
            ConfigBuilder {
                state: WantsVerifier {
                    cipher_suites: self.state.cipher_suites,
                    kx_groups: self.state.kx_groups,
                    versions: enabled,
                },
                side: self.side,
            },
        )
    }
}

impl<S: ConfigSide, C: CryptoProvider> ConfigBuilder<S, WantsVerifier<C>> {
    /// The cipher suites the configuration will use.
    pub fn cipher_suites(&self) -> (r: &Vec<SupportedCipherSuite>)
        ensures
            r@ == self.state.suites(),
    {
        &self.state.cipher_suites
    }

    /// The key-exchange groups the configuration will use.
    pub fn kx_groups(&self) -> (r: &Vec<C::SupportedGroup>)
        ensures
            r@ == self.state.groups(),
    {
        &self.state.kx_groups
    }

    /// The protocol versions the configuration enables.
    pub fn enabled_versions(&self) -> (r: EnabledVersions)
        ensures
            r == self.state.enabled(),
    {
        self.state.versions
    }
}

/// With every safe default taken, the versions step's checks always pass:
/// the curated default suites contain a suite for a default version, so any
/// provider that implements at least one key-exchange group yields a jointly
/// satisfiable selection.  The all-defaults shortcut therefore never fails —
/// it does not even return a `Result` — and neither does the equivalent
/// default-step-by-default-step chain.
pub proof fn lemma_safe_defaults_satisfiable<C: CryptoProvider>()
    requires
        C::all_kx_groups_spec().len() > 0,
    ensures
        selection_ok(
            default_cipher_suites_spec(),
            C::all_kx_groups_spec(),
            default_versions_spec(),
        ),
{
    assert(default_versions_spec()[0].version == ProtocolVersion::TLSv1_3);
    assert(contains_version(default_versions_spec(), ProtocolVersion::TLSv1_3));
    assert(default_cipher_suites_spec()[0].version == ProtocolVersion::TLSv1_3);
    assert(any_usable_suite(default_cipher_suites_spec(), default_versions_spec()));
}

/// The all-defaults shortcut is observationally equivalent to taking the
/// three default steps one at a time: a configuration produced by
/// [`ConfigBuilder::with_safe_defaults`] and one produced by the
/// default-suites, default-groups, default-versions chain carry the same
/// cipher suites, the same key-exchange groups and the same enabled
/// versions.  The premises are exactly those functions' postconditions.
pub proof fn lemma_safe_defaults_equivalent<S: ConfigSide>(
    shortcut: ConfigBuilder<S, WantsVerifier<S::CryptoProvider>>,
    stepped: ConfigBuilder<S, WantsVerifier<S::CryptoProvider>>,
)
    requires
        shortcut.state.suites() == default_cipher_suites_spec(),
        shortcut.state.groups() == <S::CryptoProvider as CryptoProvider>::all_kx_groups_spec(),
        shortcut.state.enabled() == enabled_of(default_versions_spec()),
        stepped.state.suites() == default_cipher_suites_spec(),
        stepped.state.groups() == <S::CryptoProvider as CryptoProvider>::all_kx_groups_spec(),
        stepped.state.enabled() == enabled_of(default_versions_spec()),
    ensures
        shortcut.state.suites() == stepped.state.suites(),
        shortcut.state.groups() == stepped.state.groups(),
        shortcut.state.enabled() == stepped.state.enabled(),
{
}

} // verus!
