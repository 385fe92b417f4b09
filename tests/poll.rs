use do_dyndns::poll::{family_step, same_address, Addresses, Config, ConfigError, Family, FamilyStep};
use do_dyndns::reconcile::{plan_reconcile, Action, Plan, WriteRequest};
use do_dyndns::record::{DomainRecord, RecordKind};

fn config(ipv4: bool, ipv6: bool, ttl: u32, interval: u64) -> Config {
    Config {
        ipv4,
        ipv6,
        dry_run: false,
        once: true,
        interval,
        ttl,
        subdomain: "@".to_string(),
        domain: "example.com".to_string(),
    }
}

#[test]
fn config_errors() {
    assert_eq!(config(false, false, 0, 0).validate(), Err(ConfigError::NoFamily));
    assert_eq!(config(true, false, 0, 0).validate(), Err(ConfigError::ZeroTtl));
    assert_eq!(config(false, true, 60, 0).validate(), Err(ConfigError::ZeroInterval));
    assert_eq!(config(true, true, 60, 300).validate(), Ok(()));
}

#[test]
fn family_steps() {
    let a = Some("198.51.100.7".to_string());
    let b = Some("198.51.100.8".to_string());
    assert_eq!(family_step(false, &None, &a), FamilyStep::Disabled);
    assert_eq!(family_step(true, &a, &a), FamilyStep::Unchanged);
    assert_eq!(family_step(true, &None, &None), FamilyStep::Unchanged);
    assert_eq!(family_step(true, &a, &None), FamilyStep::Missing);
    assert_eq!(family_step(true, &a, &b), FamilyStep::Reconcile);
    assert_eq!(family_step(true, &None, &b), FamilyStep::Reconcile);
    assert!(same_address(&a, &a.clone()));
    assert!(!same_address(&a, &b));
}

#[test]
fn unchanged_address_is_not_reconciled_again() {
    let c = config(true, false, 60, 300);
    let mut last = Addresses::new();
    let found = Addresses { ipv4: Some("198.51.100.7".to_string()), ipv6: None };
    assert_eq!(c.step(Family::Ipv4, &last, &found), FamilyStep::Reconcile);
    assert_eq!(c.step(Family::Ipv6, &last, &found), FamilyStep::Disabled);
    last.set(Family::Ipv4, "198.51.100.7".to_string());
    let again = Addresses { ipv4: Some("198.51.100.7".to_string()), ipv6: None };
    assert_eq!(c.step(Family::Ipv4, &last, &again), FamilyStep::Unchanged);
}

#[test]
fn end_to_end_create_on_empty_domain() {
    let c = config(true, false, 90, 300);
    let mut last = Addresses::new();
    let found = Addresses { ipv4: Some("198.51.100.7".to_string()), ipv6: None };
    assert_eq!(c.step(Family::Ipv4, &last, &found), FamilyStep::Reconcile);
    let address = found.get(Family::Ipv4).clone().unwrap();
    let d = c.desired_record(Family::Ipv4, address.clone());
    let plan = plan_reconcile(&d, &vec![]).unwrap();
    assert_eq!(plan.action(), Action::Created);
    match plan.write_request(d, false) {
        Some(WriteRequest::Create { record }) => {
            assert_eq!(record.name, "@");
            assert_eq!(record.kind.as_str(), "A");
            assert_eq!(record.data, "198.51.100.7");
            assert_eq!(record.ttl, 90);
        }
        other => panic!("unexpected write {:?}", other),
    }
    last.set(Family::Ipv4, address);
    assert_eq!(last.ipv4, Some("198.51.100.7".to_string()));
    assert_eq!(last.ipv6, None);
}

#[test]
fn end_to_end_existing_record_is_skipped() {
    let c = config(true, false, 90, 300);
    let d = c.desired_record(Family::Ipv4, "198.51.100.7".to_string());
    assert_eq!(d.kind, RecordKind::A);
    let remote = vec![DomainRecord {
        id: 11,
        name: "@".to_string(),
        data: "198.51.100.7".to_string(),
        ttl: 90,
        kind: "A".to_string(),
    }];
    let plan = plan_reconcile(&d, &remote).unwrap();
    assert_eq!(plan, Plan::Skip);
    assert_eq!(plan.action(), Action::Skip);
    assert!(plan.write_request(d, false).is_none());
}
