//! Registries rebuilt from stored values, and identities.

use certificate_registry::{Certificate, Identity, NFTContract, Phase, RegistryError};

fn id(name: &str) -> Identity {
    Identity::new(name.as_bytes().to_vec())
}

#[test]
fn nothing_stored_is_the_empty_registry() {
    assert_eq!(NFTContract::from_slots(None, None, None, None), NFTContract::new());
}

#[test]
fn a_missing_burned_flag_counts_as_false() {
    let admin = id("GADMIN");
    let owner = id("GOWNER");
    let mut registry = NFTContract::from_slots(Some(admin), Some(owner.clone()), Some(4), None);

    assert_eq!(
        registry.certificate(),
        Some(&Certificate { owner: owner.clone(), item_id: 4, is_burned: false })
    );
    assert_eq!(registry.phase(), Phase::Live);
    assert_eq!(registry.is_valid_certificate(4), Ok(true));
    assert_eq!(registry.transfer_nft(&owner, id("GNEXT"), 4), Ok(()));
    assert_eq!(registry.burn_nft(&id("GNEXT"), 4), Ok(()));
}

#[test]
fn a_stored_burned_flag_is_kept() {
    let admin = id("GADMIN");
    let owner = id("GOWNER");

    let burned =
        NFTContract::from_slots(Some(admin.clone()), Some(owner.clone()), Some(4), Some(true));
    assert_eq!(burned.phase(), Phase::Burned);
    assert_eq!(burned.is_valid_certificate(4), Ok(false));
    assert!(burned.certificate().unwrap().is_burned);

    let live = NFTContract::from_slots(Some(admin), Some(owner), Some(4), Some(false));
    assert_eq!(live.phase(), Phase::Live);
    assert_eq!(live.is_valid_certificate(4), Ok(true));
}

#[test]
fn a_certificate_needs_its_owner_and_its_item() {
    let admin = id("GADMIN");
    let owner = id("GOWNER");

    let no_item = NFTContract::from_slots(Some(admin.clone()), Some(owner), None, Some(false));
    assert_eq!(no_item.certificate(), None);
    assert_eq!(no_item.phase(), Phase::NoCertificate);
    assert_eq!(no_item.is_valid_certificate(1), Err(RegistryError::NotFound));

    let no_owner = NFTContract::from_slots(Some(admin.clone()), None, Some(1), Some(true));
    assert_eq!(no_owner.certificate(), None);
    assert_eq!(no_owner.is_valid_certificate(1), Err(RegistryError::NotFound));

    let flag_only = NFTContract::from_slots(Some(admin.clone()), None, None, Some(true));
    assert_eq!(flag_only.certificate(), None);
    assert_eq!(flag_only.admin(), Some(&admin));
}

#[test]
fn stored_values_come_back_after_each_operation() {
    let admin = id("GADMIN");
    let owner = id("GOWNER");
    let mut registry = NFTContract::new();
    registry.initialize(admin.clone());
    assert_eq!(registry.mint_nft(&admin, owner, 9), Ok(()));

    let reloaded = NFTContract::from_slots(
        registry.admin().cloned(),
        registry.certificate().map(|c| c.owner.clone()),
        registry.certificate().map(|c| c.item_id),
        registry.certificate().map(|c| c.is_burned),
    );
    assert_eq!(reloaded, registry);
}

#[test]
fn an_admin_is_kept_without_a_certificate() {
    let admin = id("GADMIN");
    let registry = NFTContract::from_slots(Some(admin.clone()), None, None, None);
    assert_eq!(registry.admin(), Some(&admin));
    assert_eq!(registry.certificate(), None);
    assert_eq!(registry.phase(), Phase::NoCertificate);
}

#[test]
fn phases_of_stored_registries() {
    assert_eq!(NFTContract::from_slots(None, None, None, None).phase(), Phase::Uninitialized);
    assert_eq!(
        NFTContract::from_slots(None, Some(id("GOWNER")), Some(1), Some(false)).phase(),
        Phase::Uninitialized
    );
    assert_eq!(
        NFTContract::from_slots(Some(id("GADMIN")), None, None, None).phase(),
        Phase::NoCertificate
    );
    assert_eq!(
        NFTContract::from_slots(Some(id("GADMIN")), Some(id("GOWNER")), Some(1), None).phase(),
        Phase::Live
    );
    assert_eq!(
        NFTContract::from_slots(Some(id("GADMIN")), Some(id("GOWNER")), Some(1), Some(true))
            .phase(),
        Phase::Burned
    );
}

#[test]
fn identities_are_equal_when_their_bytes_are() {
    let a = Identity::new(vec![1, 2, 3]);
    let b = Identity::new(vec![1, 2, 3]);
    let c = Identity::new(vec![1, 2, 4]);
    let shorter = Identity::new(vec![1, 2]);
    let empty = Identity::new(vec![]);

    assert!(a.same_as(&a));
    assert!(a.same_as(&b));
    assert!(b.same_as(&a));
    assert!(!a.same_as(&c));
    assert!(!a.same_as(&shorter));
    assert!(!shorter.same_as(&a));
    assert!(!a.same_as(&empty));
    assert!(empty.same_as(&Identity::new(vec![])));
    assert_eq!(a, b);
    assert_ne!(a, c);
}

#[test]
fn an_identity_gives_its_bytes_back() {
    let bytes = vec![71, 65, 0, 255];
    assert_eq!(Identity::new(bytes.clone()).as_bytes(), &bytes[..]);
    assert_eq!(Identity::new(vec![]).as_bytes(), &[] as &[u8]);
}
