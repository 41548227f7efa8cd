use dnscore::names::{
    huawei_full_name, huawei_rr, normalize_full_name, parse_srv_service_proto, relative_host,
    trim_trailing_dots,
};

#[test]
fn apex_label_maps_to_the_bare_zone() {
    assert_eq!(normalize_full_name("example.com", "@"), "example.com");
}

#[test]
fn zone_name_itself_maps_to_the_bare_zone() {
    assert_eq!(normalize_full_name("example.com", "example.com"), "example.com");
}

#[test]
fn empty_host_maps_to_the_bare_zone() {
    assert_eq!(normalize_full_name("example.com", ""), "example.com");
}

#[test]
fn relative_host_gets_the_zone_appended() {
    assert_eq!(normalize_full_name("example.com", "www"), "www.example.com");
}

#[test]
fn host_already_carrying_the_zone_suffix_is_kept() {
    assert_eq!(normalize_full_name("example.com", "www.example.com"), "www.example.com");
}

#[test]
fn zone_itself_maps_back_to_the_apex_label() {
    assert_eq!(relative_host("example.com", "example.com"), "@");
}

#[test]
fn suffixed_name_maps_back_to_the_stripped_prefix() {
    assert_eq!(relative_host("example.com", "www.example.com"), "www");
}

#[test]
fn foreign_name_is_kept_as_is() {
    assert_eq!(relative_host("example.com", "other.net"), "other.net");
}

#[test]
fn normalize_then_denormalize_recovers_a_canonical_host() {
    for host in ["@", "www", "_sip._tcp", "a.b"] {
        let full = normalize_full_name("example.com", host);
        assert_eq!(relative_host("example.com", &full), host);
    }
}

#[test]
fn denormalized_names_end_in_the_zone() {
    for host in ["@", "www", "www.example.com", "example.com"] {
        let full = normalize_full_name("example.com", host);
        assert!(full.ends_with("example.com"));
    }
    assert_eq!(normalize_full_name("example.com", "@"), "example.com");
}

#[test]
fn srv_service_proto_is_read_from_the_first_two_labels() {
    assert_eq!(
        parse_srv_service_proto("_sip._tcp.example.com"),
        ("_sip".to_string(), "_tcp".to_string())
    );
    assert_eq!(parse_srv_service_proto("_xmpp._udp"), ("_xmpp".to_string(), "_udp".to_string()));
}

#[test]
fn srv_service_proto_falls_back_on_malformed_hosts() {
    assert_eq!(parse_srv_service_proto("sip.example"), ("_service".to_string(), "_tcp".to_string()));
    assert_eq!(parse_srv_service_proto("www"), ("_service".to_string(), "_tcp".to_string()));
}

#[test]
fn fqdn_provider_appends_a_trailing_dot() {
    assert_eq!(huawei_full_name("example.com", "@"), "example.com.");
    assert_eq!(huawei_full_name("example.com", "www"), "www.example.com.");
    assert_eq!(huawei_full_name("example.com", "www.example.com"), "www.example.com.");
}

#[test]
fn fqdn_names_map_back_to_relative_labels() {
    assert_eq!(huawei_rr("example.com.", "example.com"), "@");
    assert_eq!(huawei_rr("www.example.com.", "example.com"), "www");
    assert_eq!(huawei_rr("other.net.", "example.com"), "other.net");
}

#[test]
fn trailing_dots_are_all_removed() {
    assert_eq!(trim_trailing_dots("example.com..."), "example.com");
    assert_eq!(trim_trailing_dots("example.com"), "example.com");
    assert_eq!(trim_trailing_dots(""), "");
}
