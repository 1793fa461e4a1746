//! What holds of the registry whatever the calls and whoever the callers.
//!
//! Each statement is about the model in [`crate::model`], in whose terms the
//! operations of [`crate::registry::NFTContract`] state what they return and
//! what they leave behind.

use vstd::prelude::*;
use crate::error::RegistryError;
use crate::model::{Phase, RegistryState, Role};

verus! {

/// Nobody but the administrator mints: once `admin` is the administrator, a
/// mint by any other identity is rejected as unauthorized and changes nothing.
pub proof fn law_only_admin_mints(
    s: RegistryState,
    admin: Seq<u8>,
    caller: Seq<u8>,
    to: Seq<u8>,
    item_id: u32,
)
    requires
        caller != admin,
    ensures
        s.initialized(admin).mint_check(caller) == Err::<(), RegistryError>(
            RegistryError::Unauthorized,
        ),
        s.initialized(admin).after_mint(caller, to, item_id) == s.initialized(admin),
{
}

/// The administrator always mints, and the fresh certificate is in force in
/// the hands of the one it was minted to, whatever certificate there was.
pub proof fn law_admin_mints(s: RegistryState, caller: Seq<u8>, to: Seq<u8>, item_id: u32)
    requires
        s.admin == Some(caller),
    ensures
        s.mint_check(caller) is Ok,
        s.after_mint(caller, to, item_id).admin == s.admin,
        s.after_mint(caller, to, item_id).holds(to, Role::Owner),
        s.after_mint(caller, to, item_id).validity(item_id) == Ok::<bool, RegistryError>(true),
{
}

/// An identity that is neither the administrator nor the owner cannot burn:
/// its call is rejected as unauthorized, whatever item it names, and changes
/// nothing.
pub proof fn law_stranger_cannot_burn(s: RegistryState, caller: Seq<u8>, item_id: u32)
    requires
        s.admin is Some,
        s.certificate is Some,
        !s.holds(caller, Role::Admin),
        !s.holds(caller, Role::Owner),
    ensures
        s.burn_check(caller, item_id) == Err::<(), RegistryError>(RegistryError::Unauthorized),
        s.after_burn(caller, item_id) == s,
{
}

/// A certificate burns once. After an accepted burn, a second burn of the
/// same item by the administrator or the owner is rejected as already burned
/// and changes nothing, and the certificate is valid for no item.
pub proof fn law_burn_once(
    s: RegistryState,
    first: Seq<u8>,
    second: Seq<u8>,
    item_id: u32,
    asked: u32,
)
    requires
        s.burn_check(first, item_id) is Ok,
        s.holds(second, Role::Admin) || s.holds(second, Role::Owner),
    ensures
        s.after_burn(first, item_id).burn_check(second, item_id) == Err::<(), RegistryError>(
            RegistryError::AlreadyBurned,
        ),
        s.after_burn(first, item_id).after_burn(second, item_id) == s.after_burn(first, item_id),
        s.after_burn(first, item_id).validity(asked) == Ok::<bool, RegistryError>(false),
{
}

/// A burn that names another item than the one on the certificate is
/// rejected as a mismatch and changes nothing, whether the caller is the
/// administrator or the owner and whether or not the certificate is burned.
pub proof fn law_mismatch_guard(s: RegistryState, caller: Seq<u8>, item_id: u32)
    requires
        s.consistent(),
        s.certificate is Some,
        s.certificate->0.item_id != item_id,
        s.holds(caller, Role::Admin) || s.holds(caller, Role::Owner),
    ensures
        s.burn_check(caller, item_id) == Err::<(), RegistryError>(RegistryError::Mismatch),
        s.after_burn(caller, item_id) == s,
{
}

/// Nobody but the owner transfers: a transfer by any other identity, the
/// administrator included, is rejected as unauthorized, and the certificate
/// stays with its owner.
pub proof fn law_only_owner_transfers(
    s: RegistryState,
    caller: Seq<u8>,
    to: Seq<u8>,
    item_id: u32,
)
    requires
        s.certificate is Some,
        s.certificate->0.owner != caller,
    ensures
        s.transfer_check(caller, item_id) == Err::<(), RegistryError>(
            RegistryError::Unauthorized,
        ),
        s.after_transfer(caller, to, item_id) == s,
{
}

/// A burned certificate does not move. After an accepted burn every transfer
/// is rejected and changes nothing; the owner's transfer of the burned item
/// is rejected because the certificate is burned.
pub proof fn law_burned_is_immutable(
    s: RegistryState,
    burner: Seq<u8>,
    item_id: u32,
    caller: Seq<u8>,
    to: Seq<u8>,
    asked: u32,
)
    requires
        s.burn_check(burner, item_id) is Ok,
    ensures
        s.after_burn(burner, item_id).transfer_check(caller, asked) is Err,
        s.after_burn(burner, item_id).after_transfer(caller, to, asked) == s.after_burn(
            burner,
            item_id,
        ),
        s.after_burn(burner, item_id).holds(caller, Role::Owner) && asked == item_id ==> s.after_burn(
            burner,
            item_id,
        ).transfer_check(caller, asked) == Err::<(), RegistryError>(
            RegistryError::BurnedAssetImmutable,
        ),
{
}

/// Burning is final for every operation but minting: on a burned certificate
/// a burn, a transfer and a change of administrator all leave it burned, with
/// its owner and its item.
pub proof fn law_burned_stays_burned(
    s: RegistryState,
    admin: Seq<u8>,
    caller: Seq<u8>,
    to: Seq<u8>,
    item_id: u32,
)
    requires
        s.certificate is Some,
        s.certificate->0.is_burned,
    ensures
        s.after_burn(caller, item_id) == s,
        s.after_transfer(caller, to, item_id) == s,
        s.initialized(admin).certificate == s.certificate,
{
}

/// Before anything is minted there is no answer to a query, for any item:
/// not `false`, but `NotFound`. Setting the administrator, a burn, a transfer
/// and a rejected mint do not change that.
pub proof fn law_no_answer_before_mint(
    s: RegistryState,
    admin: Seq<u8>,
    caller: Seq<u8>,
    to: Seq<u8>,
    item_id: u32,
    asked: u32,
)
    requires
        s.certificate is None,
    ensures
        s.validity(asked) == Err::<bool, RegistryError>(RegistryError::NotFound),
        s.initialized(admin).validity(asked) == Err::<bool, RegistryError>(
            RegistryError::NotFound,
        ),
        s.after_burn(caller, item_id) == s,
        s.after_transfer(caller, to, item_id) == s,
        s.mint_check(caller) is Err ==> s.after_mint(caller, to, item_id) == s,
{
}

/// A certificate that is minted, transferred by its first owner and burned
/// by its second is valid no more: every step is accepted, and the query for
/// the item answers `false`.
pub proof fn law_lifecycle_ends_invalid(
    s: RegistryState,
    admin: Seq<u8>,
    owner: Seq<u8>,
    new_owner: Seq<u8>,
    item_id: u32,
)
    ensures
        ({
            let s0 = s.initialized(admin);
            let s1 = s0.after_mint(admin, owner, item_id);
            let s2 = s1.after_transfer(owner, new_owner, item_id);
            let s3 = s2.after_burn(new_owner, item_id);
            &&& s0.mint_check(admin) is Ok
            &&& s1.transfer_check(owner, item_id) is Ok
            &&& s2.burn_check(new_owner, item_id) is Ok
            &&& s1.validity(item_id) == Ok::<bool, RegistryError>(true)
            &&& s2.validity(item_id) == Ok::<bool, RegistryError>(true)
            &&& s3.validity(item_id) == Ok::<bool, RegistryError>(false)
        }),
{
}

/// No certificate without an administrator: this holds of the empty registry
/// and every operation keeps it, accepted or not.
pub proof fn law_consistency_is_kept(
    s: RegistryState,
    admin: Seq<u8>,
    caller: Seq<u8>,
    to: Seq<u8>,
    item_id: u32,
)
    ensures
        RegistryState::empty().consistent(),
        s.consistent() ==> s.initialized(admin).consistent(),
        s.consistent() ==> s.after_mint(caller, to, item_id).consistent(),
        s.consistent() ==> s.after_burn(caller, item_id).consistent(),
        s.consistent() ==> s.after_transfer(caller, to, item_id).consistent(),
{
}

/// In a consistent registry nothing succeeds before an administrator is set:
/// no mint, no burn, no transfer and no query.
pub proof fn law_nothing_without_admin(s: RegistryState, caller: Seq<u8>, item_id: u32)
    requires
        s.consistent(),
        s.admin is None,
    ensures
        s.mint_check(caller) is Err,
        s.burn_check(caller, item_id) is Err,
        s.transfer_check(caller, item_id) is Err,
        s.validity(item_id) is Err,
{
}

/// The life of a registry. It starts uninitialized; setting the
/// administrator leaves that phase for good; an accepted mint makes the
/// certificate live from any phase; an accepted burn leads from live to
/// burned; an accepted transfer leads from live to live.
pub proof fn law_phases(
    s: RegistryState,
    admin: Seq<u8>,
    caller: Seq<u8>,
    to: Seq<u8>,
    item_id: u32,
)
    requires
        s.consistent(),
    ensures
        RegistryState::empty().phase() == Phase::Uninitialized,
        s.initialized(admin).phase() != Phase::Uninitialized,
        s.phase() == Phase::Uninitialized ==> s.initialized(admin).phase() == Phase::NoCertificate,
        s.phase() != Phase::Uninitialized ==> s.initialized(admin).phase() == s.phase(),
        s.mint_check(caller) is Ok ==> s.after_mint(caller, to, item_id).phase() == Phase::Live,
        s.burn_check(caller, item_id) is Ok ==> s.phase() == Phase::Live && s.after_burn(
            caller,
            item_id,
        ).phase() == Phase::Burned,
        s.transfer_check(caller, item_id) is Ok ==> s.phase() == Phase::Live && s.after_transfer(
            caller,
            to,
            item_id,
        ).phase() == Phase::Live,
{
}

} // verus!
