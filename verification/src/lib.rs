//! A registry for a single certificate of ownership.
//!
//! One registry tracks one mintable, transferable and burnable certificate
//! that is bound to an external item identifier. The registry is an explicit
//! state value: every operation takes the caller's identity, checks it against
//! the roles on record, and either changes the state or rejects the call and
//! leaves the state as it was.

pub mod error;
pub mod identity;
pub mod laws;
pub mod model;
pub mod registry;

pub use error::RegistryError;
pub use identity::Identity;
pub use model::{CertificateState, Phase, RegistryState, Role};
pub use registry::{Certificate, NFTContract};
