use partner_registry::registry::Registry;
use partner_registry::types::{Error, Event, PartnerType, RegistryConfig};

fn grants_registry() -> Registry {
    let mut reg = Registry::new(RegistryConfig {
        max_name_len: 32,
        max_description_len: 64,
        max_certifications: 4,
        max_partners_per_type: 8,
    });
    reg.register_partner(1, PartnerType::Producer, b"A".to_vec(), Vec::new(), 1)
        .unwrap();
    reg.register_partner(2, PartnerType::Retailer, b"B".to_vec(), Vec::new(), 1)
        .unwrap();
    reg
}

#[test]
fn grant_scenario_read_only_with_expiry() {
    let mut reg = grants_registry();
    let ev = reg
        .grant_permission(1, 2, b"temperature".to_vec(), true, false, Some(100))
        .unwrap();
    assert_eq!(
        ev,
        Event::PermissionGranted {
            grantor: 1,
            grantee: 2
        }
    );
    assert!(reg.has_permission(1, 2, &b"temperature".to_vec(), false, 50));
    assert!(!reg.has_permission(1, 2, &b"temperature".to_vec(), true, 50));
    assert!(!reg.has_permission(1, 2, &b"temperature".to_vec(), false, 150));
}

#[test]
fn permission_expiry_boundary_is_strict() {
    let mut reg = grants_registry();
    reg.grant_permission(1, 2, b"t".to_vec(), true, true, Some(100))
        .unwrap();
    assert!(reg.has_permission(1, 2, &b"t".to_vec(), false, 99));
    assert!(!reg.has_permission(1, 2, &b"t".to_vec(), false, 100));
    assert!(!reg.has_permission(1, 2, &b"t".to_vec(), false, 101));
}

#[test]
fn permission_without_expiry_never_lapses() {
    let mut reg = grants_registry();
    reg.grant_permission(1, 2, b"t".to_vec(), true, true, None)
        .unwrap();
    assert!(reg.has_permission(1, 2, &b"t".to_vec(), false, 0));
    assert!(reg.has_permission(1, 2, &b"t".to_vec(), true, u64::MAX));
}

#[test]
fn permission_is_directional_and_per_category() {
    let mut reg = grants_registry();
    reg.grant_permission(1, 2, b"temperature".to_vec(), true, false, None)
        .unwrap();
    assert!(reg.has_permission(1, 2, &b"temperature".to_vec(), false, 5));
    assert!(!reg.has_permission(2, 1, &b"temperature".to_vec(), false, 5));
    assert!(!reg.has_permission(1, 2, &b"humidity".to_vec(), false, 5));
}

#[test]
fn grant_requires_both_parties_registered() {
    let mut reg = grants_registry();
    assert_eq!(
        reg.grant_permission(1, 9, b"t".to_vec(), true, false, None),
        Err(Error::NotFound)
    );
    assert_eq!(
        reg.grant_permission(9, 2, b"t".to_vec(), true, false, None),
        Err(Error::NotFound)
    );
    assert_eq!(reg.grant_count(), 0);
}

#[test]
fn grants_may_hold_duplicates_for_one_category() {
    let mut reg = grants_registry();
    reg.grant_permission(1, 2, b"t".to_vec(), true, false, None)
        .unwrap();
    reg.grant_permission(1, 2, b"t".to_vec(), true, false, None)
        .unwrap();
    assert_eq!(reg.grant_count(), 2);
}

#[test]
fn revoke_removes_every_grant_of_the_category() {
    let mut reg = grants_registry();
    reg.grant_permission(1, 2, b"t".to_vec(), true, false, None)
        .unwrap();
    reg.grant_permission(1, 2, b"t".to_vec(), true, true, Some(500))
        .unwrap();
    reg.grant_permission(1, 2, b"t".to_vec(), false, true, None)
        .unwrap();
    reg.grant_permission(1, 2, b"humidity".to_vec(), true, false, None)
        .unwrap();
    assert_eq!(reg.grant_count(), 4);
    let ev = reg.revoke_permission(1, 2, b"t".to_vec()).unwrap();
    assert_eq!(
        ev,
        Event::PermissionRevoked {
            grantor: 1,
            grantee: 2
        }
    );
    assert_eq!(reg.grant_count(), 1);
    assert!(!reg.has_permission(1, 2, &b"t".to_vec(), false, 5));
    assert!(!reg.has_permission(1, 2, &b"t".to_vec(), true, 5));
    assert!(reg.has_permission(1, 2, &b"humidity".to_vec(), false, 5));
}

#[test]
fn revoke_leaves_other_pairs_alone() {
    let mut reg = grants_registry();
    reg.register_partner(3, PartnerType::Auditor, b"C".to_vec(), Vec::new(), 1)
        .unwrap();
    reg.grant_permission(1, 2, b"t".to_vec(), true, false, None)
        .unwrap();
    reg.grant_permission(1, 3, b"t".to_vec(), true, false, None)
        .unwrap();
    reg.revoke_permission(1, 2, b"t".to_vec()).unwrap();
    assert!(!reg.has_permission(1, 2, &b"t".to_vec(), false, 5));
    assert!(reg.has_permission(1, 3, &b"t".to_vec(), false, 5));
}

#[test]
fn revoke_without_matching_grants_is_noop_success() {
    let mut reg = grants_registry();
    let ev = reg.revoke_permission(1, 2, b"t".to_vec());
    assert_eq!(
        ev,
        Ok(Event::PermissionRevoked {
            grantor: 1,
            grantee: 2
        })
    );
    assert_eq!(reg.grant_count(), 0);
}

#[test]
fn pending_and_suspended_partners_may_grant_and_receive() {
    let mut reg = grants_registry();
    let ev = reg.grant_permission(1, 2, b"t".to_vec(), true, false, None);
    assert!(ev.is_ok());
    assert!(reg.has_permission(1, 2, &b"t".to_vec(), false, 5));
}

#[test]
fn read_flag_alone_denies_write_queries() {
    let mut reg = grants_registry();
    reg.grant_permission(1, 2, b"t".to_vec(), false, true, None)
        .unwrap();
    assert!(reg.has_permission(1, 2, &b"t".to_vec(), true, 5));
    assert!(!reg.has_permission(1, 2, &b"t".to_vec(), false, 5));
}
