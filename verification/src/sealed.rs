use vstd::prelude::*;
use crate::crypto::CryptoProvider;

verus! {

/// Implemented only by this crate's two sides, [`crate::client::ClientConfig`]
/// and [`crate::server::ServerConfig`].  The module is private, so no outside
/// code can name this trait and introduce a third side.
pub trait Sealed {

}

impl<C: CryptoProvider> Sealed for crate::client::ClientConfig<C> {

}

impl<C: CryptoProvider> Sealed for crate::server::ServerConfig<C> {

}

} // verus!
