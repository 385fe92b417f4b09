use do_dyndns::reconcile::{plan_reconcile, Action, Plan, WriteRequest};
use do_dyndns::record::{DesiredRecord, DomainRecord, RecordKind};

fn remote(id: i64, name: &str, kind: &str, data: &str) -> DomainRecord {
    DomainRecord {
        id,
        name: name.to_string(),
        data: data.to_string(),
        ttl: 60,
        kind: kind.to_string(),
    }
}

fn desired(kind: RecordKind, name: &str, data: &str) -> DesiredRecord {
    DesiredRecord { kind, name: name.to_string(), data: data.to_string(), ttl: 120 }
}

#[test]
fn single_equal_record_is_skipped() {
    let d = desired(RecordKind::A, "home", "203.0.113.5");
    let r = vec![
        remote(1, "home", "A", "203.0.113.5"),
        remote(2, "home", "AAAA", "2001:db8::1"),
        remote(3, "other", "A", "203.0.113.9"),
    ];
    let plan = plan_reconcile(&d, &r).unwrap();
    assert_eq!(plan, Plan::Skip);
    assert_eq!(plan.action(), Action::Skip);
    assert!(plan.write_request(d, false).is_none());
}

#[test]
fn no_matching_record_is_created() {
    let d = desired(RecordKind::A, "home", "203.0.113.5");
    let r = vec![remote(3, "home.example.com", "A", "203.0.113.9"), remote(4, "home", "AAAA", "::1")];
    let plan = plan_reconcile(&d, &r).unwrap();
    assert_eq!(plan, Plan::Create);
    assert_eq!(plan.action(), Action::Created);
    match plan.write_request(d, false) {
        Some(WriteRequest::Create { record }) => {
            assert_eq!(record.name, "home");
            assert_eq!(record.kind, RecordKind::A);
            assert_eq!(record.data, "203.0.113.5");
            assert_eq!(record.ttl, 120);
        }
        other => panic!("unexpected write {:?}", other),
    }
}

#[test]
fn single_different_record_is_updated_by_id() {
    let d = desired(RecordKind::Aaaa, "@", "2001:db8::2");
    let r = vec![remote(7, "@", "A", "203.0.113.5"), remote(42, "@", "AAAA", "2001:db8::1")];
    let plan = plan_reconcile(&d, &r).unwrap();
    assert_eq!(plan, Plan::Update { id: 42 });
    assert_eq!(plan.action(), Action::Updated);
    match plan.write_request(d, false) {
        Some(WriteRequest::Update { id, record }) => {
            assert_eq!(id, 42);
            assert_eq!(record.data, "2001:db8::2");
            assert_eq!(record.kind, RecordKind::Aaaa);
            assert_eq!(record.name, "@");
        }
        other => panic!("unexpected write {:?}", other),
    }
}

#[test]
fn several_matching_records_are_ambiguous() {
    let d = desired(RecordKind::A, "www", "203.0.113.5");
    let r = vec![
        remote(1, "www", "A", "203.0.113.5"),
        remote(2, "www", "A", "203.0.113.6"),
        remote(3, "www", "A", "203.0.113.7"),
    ];
    let e = plan_reconcile(&d, &r).unwrap_err();
    assert_eq!(e.kind, RecordKind::A);
    assert_eq!(e.name, "www");
    assert_eq!(e.count, 3);
}

#[test]
fn dry_run_writes_nothing_and_reports_the_same() {
    let d = desired(RecordKind::A, "@", "198.51.100.7");
    let plan = plan_reconcile(&d, &vec![]).unwrap();
    assert_eq!(plan.action(), Action::Created);
    assert!(plan.write_request(d, true).is_none());

    let d = desired(RecordKind::A, "@", "198.51.100.7");
    let plan = plan_reconcile(&d, &vec![remote(5, "@", "A", "198.51.100.1")]).unwrap();
    assert_eq!(plan.action(), Action::Updated);
    assert!(plan.write_request(d, true).is_none());
}

#[test]
fn record_kind_names() {
    assert_eq!(RecordKind::A.as_str(), "A");
    assert_eq!(RecordKind::Aaaa.as_str(), "AAAA");
    assert_eq!(RecordKind::Aaaa.to_text(), "AAAA");
}

#[test]
fn record_matching_needs_name_and_kind() {
    let d = desired(RecordKind::A, "home", "x");
    assert!(remote(1, "home", "A", "y").matches(&d));
    assert!(!remote(1, "home", "AAAA", "y").matches(&d));
    assert!(!remote(1, "home.example.com", "A", "y").matches(&d));
}
