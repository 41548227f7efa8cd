use dnscore::clock::normalize_rfc3339;
use dnscore::json::JsonValue;
use dnscore::providers::aliyun::{AliyunDomain, AliyunRecord};
use dnscore::providers::baidu::{build_record_payload, BaiduRecord};
use dnscore::providers::cloudflare::{
    build_cf_payload_common, conflict_query, record_ids, CfDnsRecord, CfError, CfResponse,
};
use dnscore::providers::dnscom::DnscomRecord;
use dnscore::providers::tencentcloud;
use dnscore::providers::dnspod::{
    common_params, create_record_params, delete_record_params, dnspod_value, login_token,
    DnspodRecord,
};
use dnscore::providers::huawei::{build_recordset_payload, HuaweiRecordset, HuaweiZone};
use dnscore::providers::rainyun::build_record_payload as rainyun_payload;
use dnscore::types::{ConflictStrategy, Provider, RecordCreateRequest};

fn create_req(record_type: &str, name: &str, content: &str) -> RecordCreateRequest {
    RecordCreateRequest {
        record_type: record_type.to_string(),
        name: name.to_string(),
        content: content.to_string(),
        ttl: 600,
        conflict_strategy: ConflictStrategy::Overwrite,
        mx_priority: None,
        srv_priority: None,
        srv_weight: None,
        srv_port: None,
        caa_flags: None,
        caa_tag: None,
    }
}

#[test]
fn token_provider_credential_joins_id_and_token() {
    assert_eq!(login_token("123", "abcdef"), "123,abcdef");
}

#[test]
fn token_provider_common_params_are_fixed() {
    let p = common_params("123,abcdef");
    assert_eq!(p, vec![
        ("login_token".to_string(), "123,abcdef".to_string()),
        ("format".to_string(), "json".to_string()),
    ]);
}

#[test]
fn token_provider_create_params_carry_the_encoded_value() {
    let mut req = create_req("SRV", "_sip._tcp", "sip.example.com");
    req.srv_priority = Some(1);
    req.srv_weight = Some(2);
    req.srv_port = Some(3);
    let p = create_record_params("lt", "42", &req);
    assert!(p.contains(&("value".to_string(), "1 2 3 sip.example.com".to_string())));
    assert!(p.contains(&("record_line".to_string(), "默认".to_string())));
    assert!(p.contains(&("ttl".to_string(), "600".to_string())));
    assert!(!p.iter().any(|(k, _)| k == "mx"));
}

#[test]
fn token_provider_sends_mx_priority_only_for_mx() {
    let mut req = create_req("MX", "@", "mail.example.com");
    req.mx_priority = Some(10);
    let p = create_record_params("lt", "42", &req);
    assert!(p.contains(&("mx".to_string(), "10".to_string())));
}

#[test]
fn token_provider_delete_params_carry_both_ids() {
    let p = delete_record_params("lt", "42", "r9");
    assert_eq!(p.last().unwrap(), &("record_id".to_string(), "r9".to_string()));
    assert!(p.contains(&("domain_id".to_string(), "42".to_string())));
}

#[test]
fn token_provider_rows_fall_back_to_request_values() {
    let row = DnspodRecord {
        id: "7".to_string(),
        name: "www".to_string(),
        record_type: None,
        value: None,
        ttl: None,
        mx: None,
    };
    let value = dnspod_value("SRV", "sip.example.com", Some(1), Some(2), Some(3), None, None);
    let rec = row.to_dns_record("example.com", Some("SRV"), Some(value), Some(600), None);
    assert_eq!(rec.record_type, "SRV");
    assert_eq!(rec.content, "sip.example.com");
    assert_eq!(rec.srv_priority, Some(1));
    assert_eq!(rec.ttl, 600);
    assert_eq!(rec.provider, Provider::Dnspod);
}

#[test]
fn token_provider_rows_prefer_their_own_fields() {
    let row = DnspodRecord {
        id: "7".to_string(),
        name: "www".to_string(),
        record_type: Some("A".to_string()),
        value: Some("10.0.0.1".to_string()),
        ttl: Some("120".to_string()),
        mx: Some("5".to_string()),
    };
    let rec = row.to_dns_record("example.com", None, None, None, None);
    assert_eq!(rec.record_type, "A");
    assert_eq!(rec.ttl, 120);
    assert_eq!(rec.mx_priority, Some(5));
}

#[test]
fn token_provider_rows_default_type_a_and_ttl_600() {
    let row = DnspodRecord {
        id: "7".to_string(),
        name: "www".to_string(),
        record_type: None,
        value: Some("10.0.0.1".to_string()),
        ttl: Some("notanumber".to_string()),
        mx: None,
    };
    let rec = row.to_dns_record("example.com", None, None, None, None);
    assert_eq!(rec.record_type, "A");
    assert_eq!(rec.ttl, 600);
}

#[test]
fn query_provider_rows_decode_through_the_codec() {
    let row = AliyunRecord {
        record_id: "r1".to_string(),
        rr: "www".to_string(),
        record_type: "SRV".to_string(),
        value: "1 2 3 sip.example.com".to_string(),
        ttl: 600,
        priority: Some(1),
    };
    let rec = row.to_dns_record("example.com");
    assert_eq!(rec.content, "sip.example.com");
    assert_eq!(rec.mx_priority, Some(1));
    assert_eq!(rec.srv_priority, Some(1));
    assert_eq!(rec.srv_weight, Some(2));
    assert_eq!(rec.srv_port, Some(3));
}

#[test]
fn query_provider_writes_carry_the_api_version() {
    let mut req = create_req("SRV", "_sip._tcp", "sip.example.com");
    req.srv_priority = Some(1);
    req.srv_weight = Some(2);
    req.srv_port = Some(3);
    let add = dnscore::providers::aliyun::add_record_params("id", "n", "t", "example.com", &req);
    let version = ("Version".to_string(), "2015-01-09".to_string());
    assert!(add.contains(&version));
    // Version stands between Value and Weight in the canonical order
    let keys: Vec<&str> = add.iter().map(|(k, _)| k.as_str()).collect();
    let vi = keys.iter().position(|k| *k == "Version").unwrap();
    assert_eq!(keys[vi - 1], "Value");
    assert_eq!(keys[vi + 1], "Weight");
    let upd = dnscore::types::RecordUpdateRequest {
        id: "r1".to_string(),
        record_type: "A".to_string(),
        name: "www".to_string(),
        content: "10.0.0.1".to_string(),
        ttl: 600,
        mx_priority: None,
        srv_priority: None,
        srv_weight: None,
        srv_port: None,
        caa_flags: None,
        caa_tag: None,
    };
    let update =
        dnscore::providers::aliyun::update_record_params("id", "n", "t", &upd);
    assert_eq!(update.last().unwrap(), &version);
}

#[test]
fn query_provider_zone_rows_normalize_their_change_time() {
    let row = AliyunDomain {
        domain_id: "d1".to_string(),
        domain_name: "example.com".to_string(),
        record_count: Some("12".to_string()),
        update_time: Some("2024-01-02T03:04:05+08:00".to_string()),
    };
    let item = row.to_domain_item();
    assert_eq!(item.records_count, Some(12));
    assert_eq!(item.last_changed_at, normalize_rfc3339("2024-01-02T03:04:05+08:00"));
    assert!(item.last_changed_at.is_some());
}

#[test]
fn clock_normalization_renders_utc() {
    let t = normalize_rfc3339("2024-01-02T03:04:05+08:00").unwrap();
    assert_eq!(t, "2024-01-01T19:04:05+00:00");
    assert!(normalize_rfc3339("not a time").is_none());
}

#[test]
fn header_provider_rows_decode_through_the_codec() {
    let row = BaiduRecord {
        id: "b1".to_string(),
        rr: "@".to_string(),
        record_type: "CAA".to_string(),
        value: "0 issue ca.example.net".to_string(),
        ttl: 300,
        priority: None,
    };
    let rec = row.to_dns_record("example.com");
    assert_eq!(rec.content, "ca.example.net");
    assert_eq!(rec.caa_flags, Some(0));
    assert_eq!(rec.caa_tag, Some("issue".to_string()));
}

#[test]
fn header_provider_payload_carries_the_flat_value() {
    let p = build_record_payload("www", "A", "10.0.0.1".to_string(), 600, None);
    assert_eq!(p.rr, "www");
    assert_eq!(p.record_type, "A");
    assert_eq!(p.value, "10.0.0.1");
    assert_eq!(p.ttl, 600);
    assert_eq!(p.priority, None);
}

#[test]
fn fqdn_provider_rows_read_the_first_record() {
    let row = HuaweiRecordset {
        id: "h1".to_string(),
        name: "www.example.com.".to_string(),
        record_type: "A".to_string(),
        ttl: 600,
        records: vec!["10.0.0.1".to_string(), "10.0.0.2".to_string()],
        priority: None,
    };
    let rec = row.to_dns_record("example.com");
    assert_eq!(rec.name, "www");
    assert_eq!(rec.content, "10.0.0.1");
}

#[test]
fn fqdn_provider_zone_rows_drop_the_trailing_dot() {
    let row = HuaweiZone {
        id: "z1".to_string(),
        name: "example.com.".to_string(),
        record_num: Some(3),
        update_at: None,
    };
    let item = row.to_domain_item();
    assert_eq!(item.name, "example.com");
    assert_eq!(item.records_count, Some(3));
    assert_eq!(item.last_changed_at, None);
}

#[test]
fn fqdn_provider_payload_uses_dot_terminated_names() {
    let p = build_recordset_payload("example.com", "www", "A", 600, "10.0.0.1".to_string());
    assert_eq!(p.name, "www.example.com.");
    assert_eq!(p.records, vec!["10.0.0.1".to_string()]);
}

#[test]
fn form_provider_rows_render_numeric_ids() {
    let row = DnscomRecord {
        id: 99,
        record: "www".to_string(),
        record_type: "A".to_string(),
        value: "10.0.0.1".to_string(),
        ttl: 600,
        mx: None,
    };
    let rec = row.to_dns_record("example.com");
    assert_eq!(rec.id, "99");
    assert_eq!(rec.provider, Provider::Dnscom);
}

#[test]
fn api_key_provider_payload_defaults() {
    let p = rainyun_payload("42", 0, "www", "A", "10.0.0.1", 600);
    assert_eq!(p.rain_product_id, 42);
    assert_eq!(p.record_id, 0);
    assert_eq!(p.line, "DEFAULT");
    assert_eq!(p.rain_product_type, "rcs");
    let bad = rainyun_payload("not-a-number", 7, "www", "A", "10.0.0.1", 600);
    assert_eq!(bad.rain_product_id, 0);
    assert_eq!(bad.record_id, 7);
}

#[test]
fn query_provider_write_results_echo_the_request() {
    let mut req = create_req("SRV", "_sip._tcp", "sip.example.com");
    req.srv_priority = Some(1);
    req.srv_weight = Some(2);
    req.srv_port = Some(3);
    let rec = dnscore::providers::aliyun::create_result("example.com", "new-id".to_string(), &req);
    assert_eq!(rec.id, "new-id");
    assert_eq!(rec.provider, Provider::Aliyun);
    assert_eq!(rec.srv_port, Some(3));
    let upd = dnscore::types::RecordUpdateRequest {
        id: "old-id".to_string(),
        record_type: "A".to_string(),
        name: "www".to_string(),
        content: "10.0.0.9".to_string(),
        ttl: 120,
        mx_priority: None,
        srv_priority: None,
        srv_weight: None,
        srv_port: None,
        caa_flags: None,
        caa_tag: None,
    };
    let rec2 = dnscore::providers::aliyun::update_result("example.com", &upd);
    assert_eq!(rec2.id, "old-id");
    assert_eq!(rec2.content, "10.0.0.9");
}

#[test]
fn token_provider_zone_rows_become_aggregate_entries() {
    let row = dnscore::providers::dnspod::DnspodDomain {
        id: 81,
        name: "example.com".to_string(),
        records: "14".to_string(),
        updated_on: "2024-01-02 03:04:05".to_string(),
    };
    let item = row.to_domain_item();
    assert_eq!(item.provider_id, "81");
    assert_eq!(item.records_count, Some(14));
    assert_eq!(item.last_changed_at, Some("2024-01-02T03:04:05+00:00".to_string()));
}

#[test]
fn datetime_normalization_accepts_both_forms() {
    assert_eq!(
        tencentcloud::normalize_datetime("2024-01-02 03:04:05"),
        Some("2024-01-02T03:04:05+00:00".to_string())
    );
    assert_eq!(
        tencentcloud::normalize_datetime("2024-01-02T03:04:05+08:00"),
        Some("2024-01-01T19:04:05+00:00".to_string())
    );
    assert_eq!(tencentcloud::normalize_datetime("yesterday"), None);
}

#[test]
fn envelope_error_messages_take_the_first_entry() {
    let resp: CfResponse<u32> = CfResponse {
        success: false,
        result: 0,
        errors: Some(vec![
            CfError { message: "first".to_string() },
            CfError { message: "second".to_string() },
        ]),
        result_info: None,
    };
    assert_eq!(resp.first_error_message(), "first");
    let silent: CfResponse<u32> = CfResponse {
        success: false,
        result: 0,
        errors: Some(Vec::new()),
        result_info: None,
    };
    assert_eq!(silent.first_error_message(), "Unknown error");
    let none: CfResponse<u32> = CfResponse {
        success: false,
        result: 0,
        errors: None,
        result_info: None,
    };
    assert_eq!(none.first_error_message(), "Unknown error");
}

#[test]
fn bearer_provider_conflict_query_is_percent_encoded() {
    assert_eq!(
        conflict_query("example.com", "A", "www"),
        "type=A&name=www.example.com"
    );
    assert_eq!(
        conflict_query("example.com", "TXT", "a b"),
        "type=TXT&name=a%20b.example.com"
    );
}

#[test]
fn bearer_provider_rows_read_structured_data() {
    let mut data: Vec<(String, JsonValue)> = Vec::new();
    data.push(("priority".to_string(), JsonValue::UInt(1)));
    data.push(("weight".to_string(), JsonValue::UInt(2)));
    data.push(("port".to_string(), JsonValue::UInt(3)));
    data.push(("target".to_string(), JsonValue::Str("sip.example.com".to_string())));
    let row = CfDnsRecord {
        id: "c1".to_string(),
        record_type: "SRV".to_string(),
        name: "_sip._tcp.example.com".to_string(),
        content: None,
        ttl: 600,
        priority: None,
        data: Some(JsonValue::Obj(data)),
    };
    let rec = row.to_dns_record("example.com");
    assert_eq!(rec.name, "_sip._tcp");
    assert_eq!(rec.content, "sip.example.com");
    assert_eq!(rec.srv_priority, Some(1));
    assert_eq!(rec.srv_weight, Some(2));
    assert_eq!(rec.srv_port, Some(3));
    assert_eq!(rec.mx_priority, None);
}

#[test]
fn bearer_provider_srv_payload_builds_the_structured_object() {
    let p = build_cf_payload_common(
        "example.com",
        "SRV",
        "_sip._tcp",
        "sip.example.com",
        600,
        None,
        Some(1),
        Some(2),
        Some(3),
        None,
        None,
    );
    assert_eq!(p.name, "_sip._tcp.example.com");
    assert!(p.content.is_none());
    assert!(p.priority.is_none());
    match p.data {
        Some(JsonValue::Obj(pairs)) => {
            assert_eq!(pairs.len(), 7);
            assert_eq!(pairs[0].0, "service");
            assert_eq!(pairs[6].0, "target");
        },
        _ => panic!("expected a structured data object"),
    }
}

#[test]
fn bearer_provider_mx_payload_is_flat_with_priority() {
    let p = build_cf_payload_common(
        "example.com",
        "MX",
        "@",
        "mail.example.com",
        600,
        Some(10),
        None,
        None,
        None,
        None,
        None,
    );
    assert_eq!(p.content, Some("mail.example.com".to_string()));
    assert_eq!(p.priority, Some(10));
    assert!(p.data.is_none());
}

#[test]
fn conflict_id_extraction_keeps_order() {
    let rows = vec![
        CfDnsRecord {
            id: "a".to_string(),
            record_type: "A".to_string(),
            name: "www.example.com".to_string(),
            content: None,
            ttl: 1,
            priority: None,
            data: None,
        },
        CfDnsRecord {
            id: "b".to_string(),
            record_type: "A".to_string(),
            name: "www.example.com".to_string(),
            content: None,
            ttl: 1,
            priority: None,
            data: None,
        },
    ];
    assert_eq!(record_ids(&rows), vec!["a".to_string(), "b".to_string()]);
}
