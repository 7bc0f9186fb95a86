//! Configuration construction and handshake session state for a TLS endpoint.
//!
//! The configuration builder forces every protocol-mandatory decision —
//! cipher suites, key-exchange groups, protocol versions — to be made, in
//! order, before a usable configuration can exist.  Each builder phase is a
//! distinct type, so an operation out of order simply cannot be named; the
//! only runtime-checked step is the protocol-versions step, whose contract
//! says exactly when it succeeds and which error it returns otherwise.
//!
//! The handshake session containers hold the per-connection artifacts an
//! external handshake driver produces and consumes: the append-only message
//! transcript, the server's completed key exchange, and the client's
//! certificate chain, stored losslessly and in order.

pub mod builder;
pub mod client;
pub mod crypto;
pub mod error;
pub mod hash_hs;
pub mod key;
pub mod kx;
pub mod msgs;
mod sealed;
pub mod server;
pub mod suites;
pub mod versions;

pub use builder::ConfigBuilder;
pub use builder::ConfigSide;
pub use builder::WantsCipherSuites;
pub use builder::WantsKxGroups;
pub use builder::WantsVerifier;
pub use builder::WantsVersions;
pub use client::ClientConfig;
pub use error::Error;
pub use server::ServerConfig;
