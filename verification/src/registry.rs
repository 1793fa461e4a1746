//! The registry itself: the state that is kept, and the operations on it.

use vstd::prelude::*;
use crate::error::RegistryError;
use crate::identity::Identity;
use crate::model::{CertificateState, Phase, RegistryState, Role};

verus! {

/// The certificate that a registry tracks.
#[derive(Clone, Debug, PartialEq, Eq)]
pub struct Certificate {
    /// Who holds the certificate.
    pub owner: Identity,
    /// The item that the certificate vouches for.
    pub item_id: u32,
    /// Whether the certificate was burned. A burned certificate stays on
    /// record and is never valid again.
    pub is_burned: bool,
}

impl View for Certificate {
    type V = CertificateState;

    open spec fn view(&self) -> CertificateState {
        CertificateState { owner: self.owner@, item_id: self.item_id, is_burned: self.is_burned }
    }
}

/// A registry for one certificate, with the administrator that may mint it.
#[derive(Clone, Debug, PartialEq, Eq)]
pub struct NFTContract {
    admin: Option<Identity>,
    certificate: Option<Certificate>,
}

impl View for NFTContract {
    type V = RegistryState;

    closed spec fn view(&self) -> RegistryState {
        RegistryState {
            admin: match self.admin {
                Some(admin) => Some(admin@),
                None => None,
            },
            certificate: match self.certificate {
                Some(certificate) => Some(certificate@),
                None => None,
            },
        }
    }
}

impl NFTContract {
    /// A registry in which nothing has happened yet.
    pub fn new() -> (registry: NFTContract)
        ensures
            registry@ == RegistryState::empty(),
    {
        NFTContract { admin: None, certificate: None }
    }

    /// The registry that four stored values describe, each of which may be
    /// missing. A certificate is on record when both its owner and its item
    /// identifier are; a burned flag that was never written counts as `false`.
    pub fn from_slots(
        admin: Option<Identity>,
        owner: Option<Identity>,
        item_id: Option<u32>,
        is_burned: Option<bool>,
    ) -> (registry: NFTContract)
        ensures
            registry@ == RegistryState::from_slots(
                match admin {
                    Some(a) => Some(a@),
                    None => None,
                },
                match owner {
                    Some(o) => Some(o@),
                    None => None,
                },
                item_id,
                is_burned,
            ),
    {
        let certificate = match (owner, item_id) {
            (Some(owner), Some(item_id)) => Some(
                Certificate { owner, item_id, is_burned: is_burned.unwrap_or(false) },
            ),
            _ => None,
        };
        NFTContract { admin, certificate }
    }

    /// The administrator, once one is set.
    pub fn admin(&self) -> (admin: Option<&Identity>)
        ensures
            match admin {
                Some(a) => self@.admin == Some(a@),
                None => self@.admin is None,
            },
    {
        self.admin.as_ref()
    }

    /// The certificate, once one is minted.
    pub fn certificate(&self) -> (certificate: Option<&Certificate>)
        ensures
            match certificate {
                Some(c) => self@.certificate == Some(c@),
                None => self@.certificate is None,
            },
    {
        self.certificate.as_ref()
    }

    /// Where the registry stands in its life.
    pub fn phase(&self) -> (phase: Phase)
        ensures
            phase == self@.phase(),
    {
        if self.admin.is_none() {
            Phase::Uninitialized
        } else {
            match &self.certificate {
                None => Phase::NoCertificate,
                Some(certificate) => if certificate.is_burned {
                    Phase::Burned
                } else {
                    Phase::Live
                },
            }
        }
    }

    fn holds(&self, who: &Identity, role: Role) -> (held: bool)
        ensures
            held == self@.holds(who@, role),
    {
        match role {
            Role::Admin => match &self.admin {
                Some(admin) => admin.same_as(who),
                None => false,
            },
            Role::Owner => match &self.certificate {
                Some(certificate) => certificate.owner.same_as(who),
                None => false,
            },
        }
    }

    /// Accepts `caller` if it holds at least one of the roles in `required`,
    /// and answers `Unauthorized` if it holds none.
    pub fn authorize(&self, caller: &Identity, required: &[Role]) -> (answer: Result<
        (),
        RegistryError,
    >)
        ensures
            answer == self@.authorization(caller@, required@),
    {
        let mut i: usize = 0;
        while i < required.len()
            invariant
                i <= required.len(),
                forall|j: int| 0 <= j < i ==> !self@.holds(caller@, #[trigger] required@[j]),
            decreases required.len() - i,
        {
            if self.holds(caller, required[i]) {
                return Ok(());
            }
            i += 1;
        }
        Err(RegistryError::Unauthorized)
    }

    /// Makes `admin` the administrator, in place of any earlier one. The
    /// certificate is left as it is.
    pub fn initialize(&mut self, admin: Identity)
        ensures
            final(self)@ == old(self)@.initialized(admin@),
    {
        self.admin = Some(admin);
    }

    /// Mints a fresh certificate for `item_id` into the hands of `to`, in
    /// place of whatever certificate there was, burned or not. Only the
    /// administrator may mint.
    pub fn mint_nft(&mut self, caller: &Identity, to: Identity, item_id: u32) -> (outcome: Result<
        (),
        RegistryError,
    >)
        ensures
            outcome == old(self)@.mint_check(caller@),
            final(self)@ == old(self)@.after_mint(caller@, to@, item_id),
    {
        if self.admin.is_none() {
            return Err(RegistryError::Uninitialized);
        }
        let required = [Role::Admin];
        self.authorize(caller, required.as_slice())?;
        self.certificate = Some(Certificate { owner: to, item_id, is_burned: false });
        Ok(())
    }

    /// Burns the certificate for `item_id`, for good. The administrator and
    /// the owner may burn.
    pub fn burn_nft(&mut self, caller: &Identity, item_id: u32) -> (outcome: Result<
        (),
        RegistryError,
    >)
        ensures
            outcome == old(self)@.burn_check(caller@, item_id),
            final(self)@ == old(self)@.after_burn(caller@, item_id),
    {
        if self.admin.is_none() {
            return Err(RegistryError::Uninitialized);
        }
        if self.certificate.is_none() {
            return Err(RegistryError::NotFound);
        }
        let required = [Role::Admin, Role::Owner];
        self.authorize(caller, required.as_slice())?;
        match &mut self.certificate {
            None => Err(RegistryError::NotFound),
            Some(certificate) => {
                if certificate.item_id != item_id {
                    Err(RegistryError::Mismatch)
                } else if certificate.is_burned {
                    Err(RegistryError::AlreadyBurned)
                } else {
                    certificate.is_burned = true;
                    Ok(())
                }
            },
        }
    }

    /// Whether the certificate vouches for `item_id`: it was minted for that
    /// item and has not been burned. Anyone may ask. Before anything was
    /// minted the answer is `NotFound`, not `false`.
    pub fn is_valid_certificate(&self, item_id: u32) -> (answer: Result<bool, RegistryError>)
        ensures
            answer == self@.validity(item_id),
    {
        match &self.certificate {
            None => Err(RegistryError::NotFound),
            Some(certificate) => Ok(certificate.item_id == item_id && !certificate.is_burned),
        }
    }

    /// Hands the certificate for `item_id` to `to`. Only the owner may
    /// transfer, and only while the certificate is not burned.
    pub fn transfer_nft(&mut self, caller: &Identity, to: Identity, item_id: u32) -> (outcome:
        Result<(), RegistryError>)
        ensures
            outcome == old(self)@.transfer_check(caller@, item_id),
            final(self)@ == old(self)@.after_transfer(caller@, to@, item_id),
    {
        if self.certificate.is_none() {
            return Err(RegistryError::NotFound);
        }
        let required = [Role::Owner];
        self.authorize(caller, required.as_slice())?;
        match &mut self.certificate {
            None => Err(RegistryError::NotFound),
            Some(certificate) => {
                if certificate.item_id != item_id {
                    Err(RegistryError::Mismatch)
                } else if certificate.is_burned {
                    Err(RegistryError::BurnedAssetImmutable)
                } else {
                    certificate.owner = to;
                    Ok(())
                }
            },
        }
    }
}

} // verus!
