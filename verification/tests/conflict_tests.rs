use dnscore::conflict::{
    find_conflict_ids_client_side, make_overwrite_request, resolve_conflict, WriteAction,
};
use dnscore::types::{ConflictStrategy, DnsRecord, Provider, RecordCreateRequest};

fn record(id: &str, record_type: &str, name: &str) -> DnsRecord {
    DnsRecord {
        id: id.to_string(),
        provider: Provider::Dnspod,
        domain: "example.com".to_string(),
        record_type: record_type.to_string(),
        name: name.to_string(),
        content: "10.0.0.1".to_string(),
        ttl: 600,
        mx_priority: None,
        srv_priority: None,
        srv_weight: None,
        srv_port: None,
        caa_flags: None,
        caa_tag: None,
    }
}

fn create_req(record_type: &str, name: &str, strategy: ConflictStrategy) -> RecordCreateRequest {
    RecordCreateRequest {
        record_type: record_type.to_string(),
        name: name.to_string(),
        content: "10.0.0.2".to_string(),
        ttl: 300,
        conflict_strategy: strategy,
        mx_priority: None,
        srv_priority: None,
        srv_weight: None,
        srv_port: None,
        caa_flags: None,
        caa_tag: None,
    }
}

#[test]
fn zero_conflicts_always_creates() {
    let ids: Vec<String> = Vec::new();
    assert!(matches!(
        resolve_conflict(ConflictStrategy::DoNotCreate, &ids),
        Ok(WriteAction::CreateNew)
    ));
    assert!(matches!(
        resolve_conflict(ConflictStrategy::Overwrite, &ids),
        Ok(WriteAction::CreateNew)
    ));
}

#[test]
fn one_conflict_with_overwrite_rewrites_that_record() {
    let ids = vec!["rec-42".to_string()];
    match resolve_conflict(ConflictStrategy::Overwrite, &ids) {
        Ok(WriteAction::OverwriteExisting(id)) => assert_eq!(id, "rec-42"),
        _ => panic!("expected an overwrite of rec-42"),
    }
}

#[test]
fn any_conflict_with_do_not_create_fails_with_conflict() {
    let ids = vec!["rec-1".to_string()];
    let e = resolve_conflict(ConflictStrategy::DoNotCreate, &ids).unwrap_err();
    assert_eq!(e.code, "conflict");
    assert_eq!(e.message, "Record already exists");
    let two = vec!["rec-1".to_string(), "rec-2".to_string()];
    let e2 = resolve_conflict(ConflictStrategy::DoNotCreate, &two).unwrap_err();
    assert_eq!(e2.code, "conflict");
}

#[test]
fn two_conflicts_with_overwrite_fail_with_conflict() {
    let ids = vec!["rec-1".to_string(), "rec-2".to_string()];
    let e = resolve_conflict(ConflictStrategy::Overwrite, &ids).unwrap_err();
    assert_eq!(e.code, "conflict");
    assert_eq!(e.message, "Multiple conflicting records found");
}

#[test]
fn three_conflicts_with_overwrite_fail_with_conflict() {
    let ids = vec!["a".to_string(), "b".to_string(), "c".to_string()];
    let e = resolve_conflict(ConflictStrategy::Overwrite, &ids).unwrap_err();
    assert_eq!(e.code, "conflict");
}

#[test]
fn client_side_filter_matches_on_type_and_name() {
    let records = vec![
        record("1", "A", "www"),
        record("2", "AAAA", "www"),
        record("3", "A", "mail"),
        record("4", "A", "www"),
    ];
    let ids = find_conflict_ids_client_side(&records, "A", "www");
    assert_eq!(ids, vec!["1".to_string(), "4".to_string()]);
}

#[test]
fn client_side_filter_with_no_match_is_empty() {
    let records = vec![record("1", "A", "www")];
    let ids = find_conflict_ids_client_side(&records, "TXT", "www");
    assert!(ids.is_empty());
}

#[test]
fn overwrite_request_carries_new_values_under_the_existing_id() {
    let mut req = create_req("MX", "@", ConflictStrategy::Overwrite);
    req.mx_priority = Some(10);
    let u = make_overwrite_request(&req, "existing-id".to_string());
    assert_eq!(u.id, "existing-id");
    assert_eq!(u.record_type, "MX");
    assert_eq!(u.name, "@");
    assert_eq!(u.content, "10.0.0.2");
    assert_eq!(u.ttl, 300);
    assert_eq!(u.mx_priority, Some(10));
    assert_eq!(u.caa_tag, None);
}
