pub mod common;

use vstd::prelude::*;
use core::marker::PhantomData;
use crate::builder::ConfigBuilder;
use crate::builder::WantsCipherSuites;
use crate::crypto::CryptoProvider;

verus! {

/// The server side of a connection, tied to the cryptographic provider `C`.
/// One of the two sides a configuration can be built for; the pairing of a
/// side with its provider is fixed before the first builder phase and cannot
/// change afterwards.
pub struct ServerConfig<C: CryptoProvider> {
    provider: PhantomData<C>,
}

impl<C: CryptoProvider> ServerConfig<C> {
    /// Begin building a server configuration: the first phase asks for
    /// cipher suites.
    pub fn builder() -> ConfigBuilder<ServerConfig<C>, WantsCipherSuites> {
        ConfigBuilder { state: WantsCipherSuites(()), side: PhantomData }
    }
}

} // verus!
