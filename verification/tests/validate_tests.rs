use dnscore::types::{ConflictStrategy, RecordCreateRequest};
use dnscore::validate::{is_valid_ipv4, is_valid_ipv6, validate_record_request};

fn req(record_type: &str, name: &str, content: &str, ttl: u32) -> RecordCreateRequest {
    RecordCreateRequest {
        record_type: record_type.to_string(),
        name: name.to_string(),
        content: content.to_string(),
        ttl,
        conflict_strategy: ConflictStrategy::DoNotCreate,
        mx_priority: None,
        srv_priority: None,
        srv_weight: None,
        srv_port: None,
        caa_flags: None,
        caa_tag: None,
    }
}

#[test]
fn ttl_30_is_rejected_as_invalid_ttl() {
    let e = validate_record_request(&req("A", "www", "10.0.0.1", 30)).unwrap_err();
    assert_eq!(e.code, "invalid_ttl");
    assert_eq!(e.message, "TTL 必须在 60-86400 秒之间");
}

#[test]
fn ttl_bounds_are_inclusive() {
    assert!(validate_record_request(&req("A", "www", "10.0.0.1", 60)).is_ok());
    assert!(validate_record_request(&req("A", "www", "10.0.0.1", 86400)).is_ok());
    assert!(validate_record_request(&req("A", "www", "10.0.0.1", 86401)).is_err());
}

#[test]
fn a_record_with_valid_ipv4_is_accepted() {
    assert!(validate_record_request(&req("A", "www", "10.0.0.1", 600)).is_ok());
}

#[test]
fn aaaa_record_with_bad_content_is_rejected() {
    let e = validate_record_request(&req("AAAA", "www", "bad", 600)).unwrap_err();
    assert_eq!(e.code, "invalid_content");
    assert_eq!(e.message, "AAAA 记录必须是有效的 IPv6 地址");
}

#[test]
fn aaaa_record_with_valid_ipv6_is_accepted() {
    assert!(validate_record_request(&req("AAAA", "www", "2001:db8::1", 600)).is_ok());
}

#[test]
fn srv_host_without_service_proto_shape_is_rejected() {
    let mut r = req("SRV", "sip.example", "0 5 5060 sip.example.com", 600);
    r.srv_priority = Some(0);
    r.srv_weight = Some(5);
    r.srv_port = Some(5060);
    let e = validate_record_request(&r).unwrap_err();
    assert_eq!(e.code, "invalid_name");
    assert_eq!(e.message, "SRV 主机记录需为 _service._proto 形式");
}

#[test]
fn srv_host_with_service_proto_shape_is_accepted() {
    let mut r = req("SRV", "_sip._tcp", "sip.example.com", 600);
    r.srv_priority = Some(0);
    r.srv_weight = Some(5);
    r.srv_port = Some(5060);
    assert!(validate_record_request(&r).is_ok());
}

#[test]
fn srv_without_structured_fields_is_rejected() {
    let e = validate_record_request(&req("SRV", "_sip._tcp", "sip.example.com", 600)).unwrap_err();
    assert_eq!(e.code, "missing_field");
}

#[test]
fn mx_without_priority_is_rejected() {
    let e = validate_record_request(&req("MX", "@", "mail.example.com", 600)).unwrap_err();
    assert_eq!(e.code, "missing_field");
}

#[test]
fn mx_with_priority_is_accepted() {
    let mut r = req("MX", "@", "mail.example.com", 600);
    r.mx_priority = Some(10);
    assert!(validate_record_request(&r).is_ok());
}

#[test]
fn unknown_record_type_is_rejected() {
    let e = validate_record_request(&req("PTR", "www", "x", 600)).unwrap_err();
    assert_eq!(e.code, "invalid_type");
    assert_eq!(e.message, "不支持的记录类型: PTR");
}

#[test]
fn empty_name_is_rejected() {
    let e = validate_record_request(&req("A", "  ", "10.0.0.1", 600)).unwrap_err();
    assert_eq!(e.code, "invalid_name");
}

#[test]
fn empty_content_is_rejected() {
    let e = validate_record_request(&req("A", "www", "  ", 600)).unwrap_err();
    assert_eq!(e.code, "invalid_content");
}

#[test]
fn cname_without_dot_is_rejected() {
    let e = validate_record_request(&req("CNAME", "www", "localhost", 600)).unwrap_err();
    assert_eq!(e.code, "invalid_content");
    assert_eq!(e.message, "记录值必须是有效域名");
}

#[test]
fn ns_with_dot_is_accepted() {
    assert!(validate_record_request(&req("NS", "sub", "ns1.example.com", 600)).is_ok());
}

#[test]
fn caa_with_blank_tag_is_rejected() {
    let mut r = req("CAA", "@", "ca.example.net", 600);
    r.caa_tag = Some("  ".to_string());
    let e = validate_record_request(&r).unwrap_err();
    assert_eq!(e.code, "invalid_caa_tag");
    assert_eq!(e.message, "CAA Tag 不能为空");
}

#[test]
fn caa_without_tag_is_accepted() {
    assert!(validate_record_request(&req("CAA", "@", "ca.example.net", 600)).is_ok());
}

#[test]
fn content_is_trimmed_before_the_shape_check() {
    assert!(validate_record_request(&req("A", "www", " 10.0.0.1 ", 600)).is_ok());
}

#[test]
fn ipv4_validation_follows_the_address_grammar() {
    let accepted = ["0.0.0.0", "255.255.255.255", "1.2.3.4", "10.0.0.1"];
    let rejected = [
        "256.1.1.1",
        "01.2.3.4",
        "1.2.3",
        "1.2.3.4.5",
        "1..3.4",
        "a.b.c.d",
        "1.2.3.4 ",
        "+1.2.3.4",
        "",
    ];
    for c in accepted {
        assert!(is_valid_ipv4(c), "should accept {:?}", c);
    }
    for c in rejected {
        assert!(!is_valid_ipv4(c), "should reject {:?}", c);
    }
}

#[test]
fn ipv6_validation_follows_the_address_grammar() {
    let accepted = [
        "::",
        "::1",
        "1::",
        "2001:db8::1",
        "1:2:3:4:5:6:7:8",
        "1:2:3:4:5:6:7::",
        "::ffff:1.2.3.4",
        "1:2:3:4:5:6:1.2.3.4",
        "::1.2.3.4",
        "fe80::1",
        "FE80::A:b",
    ];
    let rejected = [
        "1:2:3:4:5:6:7:8:9",
        "1:2:3:4:5:6:7",
        "1:2:3:4:5:6:7:8::",
        "1:2:3:4:5:6:7:1.2.3.4",
        "1.2.3.4",
        "12345::",
        "g::1",
        ":::",
        "1:::2",
        ":1:2:3:4:5:6:7",
        "1:2:3:4:5:6:7:",
        "1:2::3.4.5.6:7",
        "",
    ];
    for c in accepted {
        assert!(is_valid_ipv6(c), "should accept {:?}", c);
    }
    for c in rejected {
        assert!(!is_valid_ipv6(c), "should reject {:?}", c);
    }
}
