use dnscore::codec::{encode_record_value, parse_record_value};

#[test]
fn srv_encode_exact() {
    let v = encode_record_value("SRV", "sip.example.com", Some(10), Some(20), Some(5060), None, None);
    assert_eq!(v, "10 20 5060 sip.example.com");
}

#[test]
fn srv_encode_defaults_absent_fields_to_zero() {
    let v = encode_record_value("SRV", "t.example.", None, None, None, None, None);
    assert_eq!(v, "0 0 0 t.example.");
}

#[test]
fn caa_encode_exact() {
    let v = encode_record_value("CAA", "letsencrypt.org", None, None, None, Some(128), Some("issuewild"));
    assert_eq!(v, "128 issuewild letsencrypt.org");
}

#[test]
fn caa_encode_defaults_flags_zero_tag_issue() {
    let v = encode_record_value("CAA", "ca.example.net", None, None, None, None, None);
    assert_eq!(v, "0 issue ca.example.net");
}

#[test]
fn plain_encode_is_identity() {
    let v = encode_record_value("TXT", "hello world", Some(1), Some(2), Some(3), Some(4), Some("x"));
    assert_eq!(v, "hello world");
}

#[test]
fn srv_round_trip_through_codec() {
    let v = encode_record_value("SRV", "target.example.com", Some(1), Some(2), Some(3), None, None);
    let d = parse_record_value("SRV", &v);
    assert_eq!(d.0, "target.example.com");
    assert_eq!(d.1, Some(1));
    assert_eq!(d.2, Some(2));
    assert_eq!(d.3, Some(3));
    assert_eq!(d.4, None);
    assert_eq!(d.5, None);
}

#[test]
fn caa_round_trip_through_codec() {
    let v = encode_record_value("CAA", "ca.example.net", None, None, None, Some(0), Some("issue"));
    let d = parse_record_value("CAA", &v);
    assert_eq!(d.0, "ca.example.net");
    assert_eq!(d.4, Some(0));
    assert_eq!(d.5, Some("issue".to_string()));
}

#[test]
fn srv_decode_too_few_tokens_degrades_to_plain_content() {
    let d = parse_record_value("SRV", "10 20 5060");
    assert_eq!(d.0, "10 20 5060");
    assert_eq!(d.1, None);
    assert_eq!(d.2, None);
    assert_eq!(d.3, None);
}

#[test]
fn caa_decode_too_few_tokens_degrades_to_plain_content() {
    let d = parse_record_value("CAA", "0 issue");
    assert_eq!(d.0, "0 issue");
    assert_eq!(d.4, None);
    assert_eq!(d.5, None);
}

#[test]
fn srv_decode_joins_extra_tokens() {
    let d = parse_record_value("SRV", "1 2 3 a b c");
    assert_eq!(d.0, "a b c");
    assert_eq!(d.1, Some(1));
    assert_eq!(d.2, Some(2));
    assert_eq!(d.3, Some(3));
}

#[test]
fn caa_decode_joins_extra_tokens() {
    let d = parse_record_value("CAA", "0 iodef mailto:security@example.com extra");
    assert_eq!(d.0, "mailto:security@example.com extra");
    assert_eq!(d.4, Some(0));
    assert_eq!(d.5, Some("iodef".to_string()));
}

#[test]
fn srv_decode_bad_numbers_yield_none_fields() {
    let d = parse_record_value("SRV", "x y z target");
    assert_eq!(d.0, "target");
    assert_eq!(d.1, None);
    assert_eq!(d.2, None);
    assert_eq!(d.3, None);
}

#[test]
fn plain_decode_is_identity() {
    let d = parse_record_value("A", "10.0.0.1");
    assert_eq!(d.0, "10.0.0.1");
    assert_eq!(d.1, None);
    assert_eq!(d.4, None);
    assert_eq!(d.5, None);
}
