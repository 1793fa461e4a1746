//! The ways in which the registry rejects a call.

use vstd::prelude::*;

verus! {

/// Why a call was rejected. A rejected call changes nothing.
#[derive(Clone, Copy, Debug, PartialEq, Eq, Structural)]
pub enum RegistryError {
    /// No administrator has been set.
    Uninitialized,
    /// No certificate has been minted.
    NotFound,
    /// The caller holds none of the roles that the operation asks for.
    Unauthorized,
    /// The item identifier differs from the one on the certificate.
    Mismatch,
    /// The certificate to burn is burned already.
    AlreadyBurned,
    /// The certificate to transfer is burned.
    BurnedAssetImmutable,
}

} // verus!
