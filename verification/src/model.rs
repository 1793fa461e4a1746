//! The mathematical model of the registry: its state, the roles that a
//! caller may hold in it, and for every operation the check that decides
//! whether the call is accepted and the state that it leaves behind.

use vstd::prelude::*;
use crate::error::RegistryError;

verus! {

/// A role that an identity may hold in a registry.
#[derive(Clone, Copy, Debug, PartialEq, Eq, Structural)]
pub enum Role {
    /// The administrator that the registry was initialized with.
    Admin,
    /// The holder of the certificate.
    Owner,
}

/// Where a registry stands in its life.
#[derive(Clone, Copy, Debug, PartialEq, Eq, Structural)]
pub enum Phase {
    /// No administrator is set.
    Uninitialized,
    /// An administrator is set and nothing has been minted.
    NoCertificate,
    /// The certificate is in force.
    Live,
    /// The certificate was burned.
    Burned,
}

/// A certificate as the contracts speak of it.
pub struct CertificateState {
    pub owner: Seq<u8>,
    pub item_id: u32,
    pub is_burned: bool,
}

/// A registry as the contracts speak of it: the administrator, once set,
/// and the one certificate, once minted.
pub struct RegistryState {
    pub admin: Option<Seq<u8>>,
    pub certificate: Option<CertificateState>,
}

impl RegistryState {
    /// The registry in which nothing has happened yet.
    pub open spec fn empty() -> RegistryState {
        RegistryState { admin: None, certificate: None }
    }

    /// The registry that four stored values describe. A certificate is on
    /// record when both its owner and its item identifier are; a burned flag
    /// that was never written counts as `false`.
    pub open spec fn from_slots(
        admin: Option<Seq<u8>>,
        owner: Option<Seq<u8>>,
        item_id: Option<u32>,
        is_burned: Option<bool>,
    ) -> RegistryState {
        RegistryState {
            admin,
            certificate: if owner is Some && item_id is Some {
                Some(
                    CertificateState {
                        owner: owner->0,
                        item_id: item_id->0,
                        is_burned: is_burned == Some(true),
                    },
                )
            } else {
                None
            },
        }
    }

    /// A certificate is only ever minted under an administrator, so every
    /// state that the operations reach from the empty one is consistent.
    pub open spec fn consistent(self) -> bool {
        self.certificate is Some ==> self.admin is Some
    }

    /// Where the registry stands in its life.
    pub open spec fn phase(self) -> Phase {
        if self.admin is None {
            Phase::Uninitialized
        } else {
            match self.certificate {
                None => Phase::NoCertificate,
                Some(c) => if c.is_burned {
                    Phase::Burned
                } else {
                    Phase::Live
                },
            }
        }
    }

    /// Whether `who` holds `role`.
    pub open spec fn holds(self, who: Seq<u8>, role: Role) -> bool {
        match role {
            Role::Admin => self.admin == Some(who),
            Role::Owner => self.certificate is Some && self.certificate->0.owner == who,
        }
    }

    /// Whether `who` holds at least one of the roles in `required`.
    pub open spec fn holds_any(self, who: Seq<u8>, required: Seq<Role>) -> bool {
        exists|i: int| 0 <= i < required.len() && self.holds(who, #[trigger] required[i])
    }

    /// The answer to `who` asking to act under one of the roles in `required`.
    pub open spec fn authorization(self, who: Seq<u8>, required: Seq<Role>) -> Result<
        (),
        RegistryError,
    > {
        if self.holds_any(who, required) {
            Ok(())
        } else {
            Err(RegistryError::Unauthorized)
        }
    }

    /// The state after `admin` was made the administrator.
    pub open spec fn initialized(self, admin: Seq<u8>) -> RegistryState {
        RegistryState { admin: Some(admin), certificate: self.certificate }
    }

    /// Minting is for the administrator alone.
    pub open spec fn mint_check(self, caller: Seq<u8>) -> Result<(), RegistryError> {
        if self.admin is None {
            Err(RegistryError::Uninitialized)
        } else if !self.holds(caller, Role::Admin) {
            Err(RegistryError::Unauthorized)
        } else {
            Ok(())
        }
    }

    /// The state with a fresh certificate for `item_id` in the hands of `to`,
    /// in place of whatever certificate there was.
    pub open spec fn minted(self, to: Seq<u8>, item_id: u32) -> RegistryState {
        RegistryState {
            admin: self.admin,
            certificate: Some(CertificateState { owner: to, item_id, is_burned: false }),
        }
    }

    /// The state that a call to mint leaves behind: the fresh certificate if
    /// the call is accepted, the state as it was if not.
    pub open spec fn after_mint(self, caller: Seq<u8>, to: Seq<u8>, item_id: u32) -> RegistryState {
        if self.mint_check(caller) is Ok {
            self.minted(to, item_id)
        } else {
            self
        }
    }

    /// Burning is for the administrator and for the owner, names the
    /// certificate by its item identifier, and happens once. The first
    /// condition that fails decides the error.
    pub open spec fn burn_check(self, caller: Seq<u8>, item_id: u32) -> Result<(), RegistryError> {
        if self.admin is None {
            Err(RegistryError::Uninitialized)
        } else if self.certificate is None {
            Err(RegistryError::NotFound)
        } else if !self.holds(caller, Role::Admin) && !self.holds(caller, Role::Owner) {
            Err(RegistryError::Unauthorized)
        } else if self.certificate->0.item_id != item_id {
            Err(RegistryError::Mismatch)
        } else if self.certificate->0.is_burned {
            Err(RegistryError::AlreadyBurned)
        } else {
            Ok(())
        }
    }

    /// The state with the certificate, if there is one, marked as burned.
    pub open spec fn burned(self) -> RegistryState {
        RegistryState {
            admin: self.admin,
            certificate: match self.certificate {
                Some(c) => Some(CertificateState { is_burned: true, ..c }),
                None => None,
            },
        }
    }

    /// The state that a call to burn leaves behind: the certificate burned
    /// if the call is accepted, the state as it was if not.
    pub open spec fn after_burn(self, caller: Seq<u8>, item_id: u32) -> RegistryState {
        if self.burn_check(caller, item_id) is Ok {
            self.burned()
        } else {
            self
        }
    }

    /// Transferring is for the owner alone, names the certificate by its
    /// item identifier, and ends when the certificate is burned. The first
    /// condition that fails decides the error.
    pub open spec fn transfer_check(self, caller: Seq<u8>, item_id: u32) -> Result<
        (),
        RegistryError,
    > {
        if self.certificate is None {
            Err(RegistryError::NotFound)
        } else if !self.holds(caller, Role::Owner) {
            Err(RegistryError::Unauthorized)
        } else if self.certificate->0.item_id != item_id {
            Err(RegistryError::Mismatch)
        } else if self.certificate->0.is_burned {
            Err(RegistryError::BurnedAssetImmutable)
        } else {
            Ok(())
        }
    }

    /// The state with the certificate, if there is one, in the hands of `to`.
    pub open spec fn transferred(self, to: Seq<u8>) -> RegistryState {
        RegistryState {
            admin: self.admin,
            certificate: match self.certificate {
                Some(c) => Some(CertificateState { owner: to, ..c }),
                None => None,
            },
        }
    }

    /// The state that a call to transfer leaves behind: the certificate with
    /// its new owner if the call is accepted, the state as it was if not.
    pub open spec fn after_transfer(
        self,
        caller: Seq<u8>,
        to: Seq<u8>,
        item_id: u32,
    ) -> RegistryState {
        if self.transfer_check(caller, item_id) is Ok {
            self.transferred(to)
        } else {
            self
        }
    }

    /// Whether the certificate vouches for `item_id`: it was minted for that
    /// item and has not been burned. Without a certificate there is no answer.
    pub open spec fn validity(self, item_id: u32) -> Result<bool, RegistryError> {
        match self.certificate {
            None => Err(RegistryError::NotFound),
            Some(c) => Ok(c.item_id == item_id && !c.is_burned),
        }
    }
}

} // verus!
