use partner_registry::registry::Registry;
use partner_registry::types::{Error, Event, PartnerStatus, PartnerType, RegistryConfig};

fn test_config() -> RegistryConfig {
    RegistryConfig {
        max_name_len: 32,
        max_description_len: 64,
        max_certifications: 2,
        max_partners_per_type: 2,
    }
}

fn fresh_registry() -> Registry {
    Registry::new(test_config())
}

fn registry_with_partner_in(status: PartnerStatus) -> Registry {
    let mut reg = fresh_registry();
    reg.register_partner(1, PartnerType::Producer, b"Acme".to_vec(), Vec::new(), 5)
        .unwrap();
    match status {
        PartnerStatus::Pending => {}
        PartnerStatus::Active => {
            reg.update_partner_status(1, PartnerStatus::Active).unwrap();
        }
        PartnerStatus::Suspended => {
            reg.update_partner_status(1, PartnerStatus::Active).unwrap();
            reg.update_partner_status(1, PartnerStatus::Suspended).unwrap();
        }
        PartnerStatus::Revoked => {
            reg.update_partner_status(1, PartnerStatus::Revoked).unwrap();
        }
    }
    reg
}

#[test]
fn register_creates_pending_record_with_starting_reputation() {
    let mut reg = fresh_registry();
    let ev = reg
        .register_partner(1, PartnerType::Producer, b"Acme".to_vec(), Vec::new(), 5)
        .unwrap();
    assert_eq!(
        ev,
        Event::PartnerRegistered {
            account_id: 1,
            partner_type: PartnerType::Producer
        }
    );
    let p = reg.get_partner(1).unwrap();
    assert_eq!(p.account_id, 1);
    assert_eq!(p.partner_type, PartnerType::Producer);
    assert_eq!(p.status, PartnerStatus::Pending);
    assert_eq!(p.name, b"Acme".to_vec());
    assert_eq!(p.description, Vec::<u8>::new());
    assert_eq!(p.registration_height, 5);
    assert!(p.certifications.is_empty());
    assert_eq!(p.reputation_score, 100);
    assert_eq!(reg.partner_count(), 1);
}

#[test]
fn register_rejects_duplicate_identity() {
    let mut reg = fresh_registry();
    reg.register_partner(1, PartnerType::Producer, b"Acme".to_vec(), Vec::new(), 5)
        .unwrap();
    let second = reg.register_partner(1, PartnerType::Retailer, b"Other".to_vec(), Vec::new(), 6);
    assert_eq!(second, Err(Error::AlreadyExists));
    assert_eq!(reg.partner_count(), 1);
    let p = reg.get_partner(1).unwrap();
    assert_eq!(p.partner_type, PartnerType::Producer);
    assert_eq!(p.name, b"Acme".to_vec());
}

#[test]
fn register_rejects_long_name_and_description() {
    let mut reg = fresh_registry();
    let long_name = vec![b'x'; 33];
    assert_eq!(
        reg.register_partner(1, PartnerType::Producer, long_name, Vec::new(), 5),
        Err(Error::NameTooLong)
    );
    let long_description = vec![b'y'; 65];
    assert_eq!(
        reg.register_partner(1, PartnerType::Producer, b"Acme".to_vec(), long_description, 5),
        Err(Error::DescriptionTooLong)
    );
    assert_eq!(reg.partner_count(), 0);
    assert!(reg.get_partner(1).is_none());
}

#[test]
fn register_respects_per_type_bound_without_orphan_record() {
    let mut reg = fresh_registry();
    reg.register_partner(1, PartnerType::Producer, b"Alpha".to_vec(), Vec::new(), 1)
        .unwrap();
    reg.register_partner(2, PartnerType::Producer, b"Beta".to_vec(), Vec::new(), 2)
        .unwrap();
    let third = reg.register_partner(3, PartnerType::Producer, b"Gamma".to_vec(), Vec::new(), 3);
    assert_eq!(third, Err(Error::IndexFull));
    assert!(reg.get_partner(3).is_none());
    assert_eq!(reg.partner_count(), 2);
    let other_type = reg.register_partner(4, PartnerType::Auditor, b"Audit".to_vec(), Vec::new(), 4);
    assert!(other_type.is_ok());
}

#[test]
fn lifecycle_scenario_activate_then_reject_pending() {
    let mut reg = fresh_registry();
    reg.register_partner(1, PartnerType::Producer, b"Acme".to_vec(), Vec::new(), 5)
        .unwrap();
    assert_eq!(reg.get_partner(1).unwrap().status, PartnerStatus::Pending);
    assert_eq!(reg.get_partner(1).unwrap().reputation_score, 100);
    let ev = reg.update_partner_status(1, PartnerStatus::Active).unwrap();
    assert_eq!(
        ev,
        Event::PartnerStatusUpdated {
            account_id: 1,
            old_status: PartnerStatus::Pending,
            new_status: PartnerStatus::Active
        }
    );
    let back = reg.update_partner_status(1, PartnerStatus::Pending);
    assert_eq!(back, Err(Error::InvalidStatusTransition));
    assert_eq!(reg.get_partner(1).unwrap().status, PartnerStatus::Active);
}

#[test]
fn status_transition_table_is_exhaustive() {
    let all = [
        PartnerStatus::Pending,
        PartnerStatus::Active,
        PartnerStatus::Suspended,
        PartnerStatus::Revoked,
    ];
    let legal = [
        (PartnerStatus::Pending, PartnerStatus::Active),
        (PartnerStatus::Active, PartnerStatus::Suspended),
        (PartnerStatus::Suspended, PartnerStatus::Active),
        (PartnerStatus::Pending, PartnerStatus::Revoked),
        (PartnerStatus::Active, PartnerStatus::Revoked),
        (PartnerStatus::Suspended, PartnerStatus::Revoked),
    ];
    for &from in &all {
        for &to in &all {
            let mut reg = registry_with_partner_in(from);
            let result = reg.update_partner_status(1, to);
            if legal.contains(&(from, to)) {
                assert_eq!(
                    result,
                    Ok(Event::PartnerStatusUpdated {
                        account_id: 1,
                        old_status: from,
                        new_status: to
                    })
                );
                assert_eq!(reg.get_partner(1).unwrap().status, to);
            } else {
                assert_eq!(result, Err(Error::InvalidStatusTransition));
                assert_eq!(reg.get_partner(1).unwrap().status, from);
            }
        }
    }
}

#[test]
fn update_status_unknown_identity_not_found() {
    let mut reg = fresh_registry();
    assert_eq!(
        reg.update_partner_status(9, PartnerStatus::Active),
        Err(Error::NotFound)
    );
}

#[test]
fn update_partner_changes_only_provided_fields() {
    let mut reg = fresh_registry();
    reg.register_partner(1, PartnerType::Producer, b"Acme".to_vec(), b"old".to_vec(), 5)
        .unwrap();
    let ev = reg
        .update_partner(1, Some(b"Acme v2".to_vec()), None)
        .unwrap();
    assert_eq!(ev, Event::PartnerUpdated { account_id: 1 });
    let p = reg.get_partner(1).unwrap();
    assert_eq!(p.name, b"Acme v2".to_vec());
    assert_eq!(p.description, b"old".to_vec());
    reg.update_partner(1, None, Some(b"new".to_vec())).unwrap();
    let p = reg.get_partner(1).unwrap();
    assert_eq!(p.name, b"Acme v2".to_vec());
    assert_eq!(p.description, b"new".to_vec());
}

#[test]
fn update_partner_rejects_bad_inputs_without_partial_write() {
    let mut reg = fresh_registry();
    assert_eq!(
        reg.update_partner(9, Some(b"x".to_vec()), None),
        Err(Error::NotFound)
    );
    reg.register_partner(1, PartnerType::Producer, b"Acme".to_vec(), b"d".to_vec(), 5)
        .unwrap();
    let long_name = vec![b'x'; 33];
    assert_eq!(
        reg.update_partner(1, Some(long_name), Some(b"ok".to_vec())),
        Err(Error::NameTooLong)
    );
    let long_description = vec![b'y'; 65];
    assert_eq!(
        reg.update_partner(1, Some(b"fine".to_vec()), Some(long_description)),
        Err(Error::DescriptionTooLong)
    );
    let p = reg.get_partner(1).unwrap();
    assert_eq!(p.name, b"Acme".to_vec());
    assert_eq!(p.description, b"d".to_vec());
}

#[test]
fn add_certification_appends_until_bound() {
    let mut reg = fresh_registry();
    assert_eq!(
        reg.add_certification(9, b"iso".to_vec()),
        Err(Error::NotFound)
    );
    reg.register_partner(1, PartnerType::Certifier, b"C".to_vec(), Vec::new(), 5)
        .unwrap();
    let ev = reg.add_certification(1, b"iso-9001".to_vec()).unwrap();
    assert_eq!(
        ev,
        Event::CertificationAdded {
            account_id: 1,
            certification: b"iso-9001".to_vec()
        }
    );
    reg.add_certification(1, b"fair-trade".to_vec()).unwrap();
    assert_eq!(
        reg.add_certification(1, b"organic".to_vec()),
        Err(Error::TooManyCertifications)
    );
    let p = reg.get_partner(1).unwrap();
    assert_eq!(
        p.certifications,
        vec![b"iso-9001".to_vec(), b"fair-trade".to_vec()]
    );
}

#[test]
fn lookups_report_status_and_type() {
    let mut reg = fresh_registry();
    assert!(!reg.is_active_partner(1));
    assert_eq!(reg.get_partner_type(1), None);
    assert!(!reg.is_partner_type(1, PartnerType::Producer));
    reg.register_partner(1, PartnerType::Producer, b"Acme".to_vec(), Vec::new(), 5)
        .unwrap();
    assert!(!reg.is_active_partner(1));
    reg.update_partner_status(1, PartnerStatus::Active).unwrap();
    assert!(reg.is_active_partner(1));
    assert_eq!(reg.get_partner_type(1), Some(PartnerType::Producer));
    assert!(reg.is_partner_type(1, PartnerType::Producer));
    assert!(!reg.is_partner_type(1, PartnerType::Auditor));
    reg.update_partner_status(1, PartnerStatus::Suspended).unwrap();
    assert!(!reg.is_active_partner(1));
}
