use dnscore::json::{json_to_string, JsonValue};
use dnscore::providers::rainyun;
use dnscore::providers::tencentcloud;

fn obj(pairs: Vec<(&str, JsonValue)>) -> JsonValue {
    JsonValue::Obj(pairs.into_iter().map(|(k, v)| (k.to_string(), v)).collect())
}

#[test]
fn rendering_matches_the_reference_serializer() {
    let v = obj(vec![
        ("Domain", JsonValue::Str("example.com".to_string())),
        ("DomainId", JsonValue::UInt(42)),
        ("Limit", JsonValue::UInt(500)),
        ("Offset", JsonValue::UInt(0)),
    ]);
    let mine = json_to_string(&v);
    let mut m = serde_json::Map::new();
    m.insert(
        "Domain".to_string(),
        serde_json::Value::String("example.com".to_string()),
    );
    m.insert("DomainId".to_string(), serde_json::Value::from(42u64));
    m.insert("Limit".to_string(), serde_json::Value::from(500u64));
    m.insert("Offset".to_string(), serde_json::Value::from(0u64));
    let reference = serde_json::Value::Object(m);
    assert_eq!(mine, serde_json::to_string(&reference).unwrap());
}

#[test]
fn rendering_escapes_like_the_reference_serializer() {
    let tricky = "a\"b\\c\nd\te\rf\u{8}g\u{c}h\u{1f}i中";
    let v = JsonValue::Str(tricky.to_string());
    let mine = json_to_string(&v);
    let reference = serde_json::to_string(&serde_json::Value::String(tricky.to_string())).unwrap();
    assert_eq!(mine, reference);
}

#[test]
fn rendering_covers_every_shape() {
    let v = obj(vec![
        ("a", JsonValue::Null),
        ("b", JsonValue::Bool(true)),
        ("c", JsonValue::Bool(false)),
        ("d", JsonValue::Int(-5)),
        ("e", JsonValue::Arr(vec![JsonValue::UInt(1), JsonValue::Str("x".to_string())])),
        ("f", JsonValue::Arr(Vec::new())),
        ("g", obj(Vec::new())),
    ]);
    assert_eq!(
        json_to_string(&v),
        "{\"a\":null,\"b\":true,\"c\":false,\"d\":-5,\"e\":[1,\"x\"],\"f\":[],\"g\":{}}"
    );
}

#[test]
fn lookup_reads_the_first_matching_member() {
    let v = obj(vec![("k", JsonValue::UInt(1)), ("k", JsonValue::UInt(2))]);
    match v.get("k") {
        Some(j) => assert_eq!(j.as_u64(), Some(1)),
        None => panic!("expected a member"),
    }
    assert!(v.get("missing").is_none());
    assert!(JsonValue::Null.get("k").is_none());
}

#[test]
fn candidate_key_lookup_takes_keys_in_order() {
    let v = obj(vec![
        ("name", JsonValue::Str("by-name".to_string())),
        ("domain", JsonValue::Str("by-domain".to_string())),
    ]);
    let r = rainyun::extract_string(&v, &["domain", "name"]);
    assert_eq!(r, Some("by-domain".to_string()));
    let r2 = rainyun::extract_string(&v, &["missing", "name"]);
    assert_eq!(r2, Some("by-name".to_string()));
    assert_eq!(rainyun::extract_string(&v, &["missing"]), None);
}

#[test]
fn candidate_key_lookup_renders_numbers_as_text() {
    let v = obj(vec![("id", JsonValue::UInt(42))]);
    assert_eq!(rainyun::extract_string(&v, &["id"]), Some("42".to_string()));
    let n = obj(vec![("id", JsonValue::Int(-3))]);
    assert_eq!(rainyun::extract_string(&n, &["id"]), Some("-3".to_string()));
}

#[test]
fn numeric_lookup_accepts_numbers_and_numeric_strings() {
    let v = obj(vec![("ttl", JsonValue::UInt(600))]);
    assert_eq!(rainyun::extract_u32(&v, &["ttl"]), Some(600));
    let s = obj(vec![("ttl", JsonValue::Str("300".to_string()))]);
    assert_eq!(rainyun::extract_u32(&s, &["ttl"]), Some(300));
    let big = obj(vec![("mx", JsonValue::UInt(70000))]);
    assert_eq!(rainyun::extract_u16(&big, &["mx"]), None);
}

#[test]
fn row_arrays_are_found_under_the_candidate_paths() {
    let direct = JsonValue::Arr(vec![JsonValue::UInt(1)]);
    assert!(rainyun::extract_array(&direct).is_some());
    let under_data = obj(vec![("data", JsonValue::Arr(vec![JsonValue::UInt(1)]))]);
    assert!(rainyun::extract_array(&under_data).is_some());
    let under_data_data = obj(vec![(
        "data",
        obj(vec![("data", JsonValue::Arr(vec![JsonValue::UInt(1)]))]),
    )]);
    assert!(rainyun::extract_array(&under_data_data).is_some());
    let under_records = obj(vec![("records", JsonValue::Arr(Vec::new()))]);
    assert!(rainyun::extract_array(&under_records).is_some());
    let nothing = obj(vec![("x", JsonValue::UInt(1))]);
    assert!(rainyun::extract_array(&nothing).is_none());
}

#[test]
fn rainyun_record_rows_parse_into_the_uniform_model() {
    let row = obj(vec![
        ("record_id", JsonValue::UInt(7)),
        ("type", JsonValue::Str("A".to_string())),
        ("host", JsonValue::Str("www".to_string())),
        ("value", JsonValue::Str("10.0.0.1".to_string())),
        ("ttl", JsonValue::UInt(300)),
    ]);
    let rec = rainyun::parse_record_item(&row, "example.com").unwrap();
    assert_eq!(rec.id, "7");
    assert_eq!(rec.record_type, "A");
    assert_eq!(rec.name, "www");
    assert_eq!(rec.content, "10.0.0.1");
    assert_eq!(rec.ttl, 300);
    let missing = obj(vec![("type", JsonValue::Str("A".to_string()))]);
    assert!(rainyun::parse_record_item(&missing, "example.com").is_none());
}

#[test]
fn rainyun_domain_rows_parse_into_aggregate_entries() {
    let row = obj(vec![
        ("domain", JsonValue::Str("example.com".to_string())),
        ("id", JsonValue::UInt(5)),
        ("record_count", JsonValue::UInt(12)),
    ]);
    let item = rainyun::parse_domain_item(&row).unwrap();
    assert_eq!(item.name, "example.com");
    assert_eq!(item.provider_id, "5");
    assert_eq!(item.records_count, Some(12));
    let missing = obj(vec![("id", JsonValue::UInt(5))]);
    assert!(rainyun::parse_domain_item(&missing).is_none());
}

#[test]
fn derived_key_provider_bodies_render_in_canonical_member_order() {
    let selector = tencentcloud::domain_selector("42", "example.com").unwrap();
    let payload = tencentcloud::list_records_payload(selector);
    let body = json_to_string(&JsonValue::Obj(payload));
    assert_eq!(body, "{\"Domain\":\"example.com\",\"DomainId\":42,\"Limit\":500,\"Offset\":0}");
}

#[test]
fn zone_selector_requires_a_domain() {
    let e = tencentcloud::domain_selector("  ", "  ").unwrap_err();
    assert_eq!(e.code, "invalid_input");
    assert_eq!(e.message, "domain is required");
    // the zone id stands in where it looks like a domain name
    let pairs = tencentcloud::domain_selector("fallback.example", "").unwrap();
    let body = json_to_string(&JsonValue::Obj(pairs));
    assert_eq!(body, "{\"Domain\":\"fallback.example\"}");
}

#[test]
fn tencent_record_rows_parse_through_the_codec() {
    let row = obj(vec![
        ("RecordId", JsonValue::UInt(9)),
        ("Type", JsonValue::Str("SRV".to_string())),
        ("Name", JsonValue::Str("_sip._tcp".to_string())),
        ("Value", JsonValue::Str("1 2 3 sip.example.com".to_string())),
        ("TTL", JsonValue::UInt(600)),
    ]);
    let rec = tencentcloud::parse_record_item(&row, "example.com").unwrap();
    assert_eq!(rec.id, "9");
    assert_eq!(rec.content, "sip.example.com");
    assert_eq!(rec.srv_priority, Some(1));
    assert_eq!(rec.srv_weight, Some(2));
    assert_eq!(rec.srv_port, Some(3));
}

#[test]
fn tencent_zone_rows_normalize_their_change_time() {
    let row = obj(vec![
        ("Name", JsonValue::Str("example.com".to_string())),
        ("DomainId", JsonValue::UInt(3)),
        ("RecordCount", JsonValue::UInt(5)),
        ("UpdatedOn", JsonValue::Str("2024-01-02 03:04:05".to_string())),
    ]);
    let item = tencentcloud::parse_domain_item(&row);
    assert_eq!(item.name, "example.com");
    assert_eq!(item.provider_id, "3");
    assert_eq!(item.records_count, Some(5));
    assert_eq!(item.last_changed_at, Some("2024-01-02T03:04:05+00:00".to_string()));
    let bare = obj(vec![("Name", JsonValue::Str("example.com".to_string()))]);
    assert_eq!(tencentcloud::parse_domain_item(&bare).last_changed_at, None);
}

#[test]
fn tencent_write_responses_carry_the_returned_record_id() {
    let resp = obj(vec![("Response", obj(vec![("RecordId", JsonValue::UInt(1234))]))]);
    let rec = tencentcloud::parse_record_from_response(
        &resp,
        "example.com",
        "A",
        "www",
        "10.0.0.1",
        600,
        None,
        None,
    );
    assert_eq!(rec.id, "1234");
    let empty = obj(vec![]);
    let rec2 = tencentcloud::parse_record_from_response(
        &empty,
        "example.com",
        "A",
        "www",
        "10.0.0.1",
        600,
        None,
        Some(77),
    );
    assert_eq!(rec2.id, "77");
}
