use dnscore::aggregate::{
    domain_error_item, filter_domains, integrations_info, not_configured_item, vault_status_of,
    wants_provider,
};
use dnscore::types::{PlainVault, RainyunCreds, VaultFile};
use dnscore::errors::{
    aliyun_envelope_error, http_reason_message, http_status_error, json_decode_error,
    not_configured_error, tencent_envelope_error, transport_error, AppError,
};
use dnscore::providers::dnscom::DnscomResponse;
use dnscore::providers::dnspod::{ensure_ok, DnspodStatus};
use dnscore::types::{DomainItem, DomainStatus, Provider};

#[test]
fn timeouts_map_to_timeout() {
    let e = transport_error(true, false, "deadline elapsed");
    assert_eq!(e.code, "timeout");
    assert_eq!(e.message, "deadline elapsed");
}

#[test]
fn connection_failures_map_to_unreachable() {
    let e = transport_error(false, true, "connection refused");
    assert_eq!(e.code, "unreachable");
}

#[test]
fn other_transport_failures_map_to_network_error() {
    let e = transport_error(false, false, "tls");
    assert_eq!(e.code, "network_error");
}

#[test]
fn unauthorized_statuses_map_to_auth_failed() {
    assert_eq!(http_status_error(401, "fetch_failed", "m").code, "auth_failed");
    assert_eq!(http_status_error(403, "delete_failed", "m").code, "auth_failed");
}

#[test]
fn other_statuses_keep_the_operation_code() {
    assert_eq!(http_status_error(500, "fetch_failed", "m").code, "fetch_failed");
    assert_eq!(http_status_error(404, "delete_failed", "m").code, "delete_failed");
}

#[test]
fn http_messages_carry_status_and_body() {
    assert_eq!(http_reason_message(502, "Bad Gateway", "oops"), "HTTP 502: Bad Gateway (response text: oops)");
}

#[test]
fn decode_failures_keep_the_raw_body() {
    let e = json_decode_error("expected value", "<html>");
    assert_eq!(e.code, "json_decode_failed");
    assert_eq!(e.message, "Failed to decode response: expected value (response text: <html>)");
}

#[test]
fn query_provider_codes_naming_credentials_map_to_auth_failed() {
    assert_eq!(aliyun_envelope_error("InvalidAccessKeyId.NotFound", "m").code, "auth_failed");
    assert_eq!(aliyun_envelope_error("SignatureDoesNotMatch", "m").code, "auth_failed");
    assert_eq!(aliyun_envelope_error("Throttling.User", "m").code, "fetch_failed");
}

#[test]
fn derived_key_provider_codes_naming_credentials_map_to_auth_failed() {
    assert_eq!(tencent_envelope_error("AuthFailure.SignatureExpire", "m").code, "auth_failed");
    assert_eq!(tencent_envelope_error("UnauthorizedOperation", "m").code, "auth_failed");
    assert_eq!(tencent_envelope_error("FailedOperation", "m").code, "fetch_failed");
}

#[test]
fn token_provider_status_code_one_is_success() {
    let ok = DnspodStatus { code: "1".to_string(), message: "ok".to_string() };
    assert!(ensure_ok(&ok, "fetch_failed").is_ok());
    let bad = DnspodStatus { code: "-1".to_string(), message: "login denied".to_string() };
    let e = ensure_ok(&bad, "fetch_failed").unwrap_err();
    assert_eq!(e.code, "auth_failed");
    assert_eq!(e.message, "login denied");
}

#[test]
fn token_provider_other_codes_keep_the_operation_code() {
    let bad = DnspodStatus { code: "6".to_string(), message: "domain id invalid".to_string() };
    let e = ensure_ok(&bad, "fetch_failed").unwrap_err();
    assert_eq!(e.code, "fetch_failed");
    assert_eq!(e.message, "domain id invalid");
    let e2 = ensure_ok(&bad, "create_failed").unwrap_err();
    assert_eq!(e2.code, "create_failed");
}

#[test]
fn form_provider_code_zero_is_success() {
    let ok: DnscomResponse<u32> = DnscomResponse { code: 0, message: None, data: Some(1) };
    assert!(ok.ensure_ok("fetch_failed").is_ok());
    let bad: DnscomResponse<u32> = DnscomResponse {
        code: 2,
        message: Some("bad key".to_string()),
        data: None,
    };
    let e = bad.ensure_ok("fetch_failed").unwrap_err();
    assert_eq!(e.code, "fetch_failed");
    assert_eq!(e.message, "bad key");
    let silent: DnscomResponse<u32> = DnscomResponse { code: 5, message: None, data: None };
    let e2 = silent.ensure_ok("delete_failed").unwrap_err();
    assert_eq!(e2.code, "delete_failed");
    assert_eq!(e2.message, "DNS.COM API failed");
}

#[test]
fn missing_credentials_yield_not_configured() {
    let e = not_configured_error(Provider::Cloudflare);
    assert_eq!(e.code, "not_configured");
    assert_eq!(e.message, "Cloudflare is not configured");
    assert_eq!(not_configured_error(Provider::Tencentcloud).message, "Tencent Cloud is not configured");
}

#[test]
fn failed_listings_become_status_bearing_placeholders() {
    let e = AppError::new("auth_failed", "bad key");
    let item = domain_error_item(Provider::Cloudflare, "Cloudflare", &e);
    assert!(matches!(item.status, DomainStatus::AuthFailed));
    assert_eq!(item.name, "Cloudflare (错误: bad key)");
    assert_eq!(item.provider_id, "");
    let t = domain_error_item(Provider::Dnspod, "DNSPod", &AppError::new("timeout", "m"));
    assert!(matches!(t.status, DomainStatus::Unreachable));
    let u = domain_error_item(Provider::Dnspod, "DNSPod", &AppError::new("unreachable", "m"));
    assert!(matches!(u.status, DomainStatus::Unreachable));
    let f = domain_error_item(Provider::Dnspod, "DNSPod", &AppError::new("fetch_failed", "m"));
    assert!(matches!(f.status, DomainStatus::FetchFailed));
}

#[test]
fn unconfigured_providers_become_placeholders() {
    let item = not_configured_item(Provider::Aliyun);
    assert!(matches!(item.status, DomainStatus::NotConfigured));
    assert_eq!(item.name, "阿里云DNS");
    assert_eq!(item.provider_id, "");
}

#[test]
fn provider_filter_narrows_the_fan_out() {
    assert!(wants_provider(None, Provider::Baidu));
    assert!(wants_provider(Some(Provider::Baidu), Provider::Baidu));
    assert!(!wants_provider(Some(Provider::Baidu), Provider::Dnspod));
}

fn item(name: &str) -> DomainItem {
    DomainItem {
        provider: Provider::Cloudflare,
        name: name.to_string(),
        provider_id: "z".to_string(),
        status: DomainStatus::Okay,
        records_count: None,
        last_changed_at: None,
    }
}

#[test]
fn search_filters_case_insensitively() {
    let items = vec![item("Example.COM"), item("other.net"), item("sub.example.org")];
    let r = filter_domains(items, "EXAMPLE");
    assert_eq!(r.len(), 2);
    assert_eq!(r[0].name, "Example.COM");
    assert_eq!(r[1].name, "sub.example.org");
}

#[test]
fn empty_search_keeps_everything() {
    let items = vec![item("a"), item("b")];
    let r = filter_domains(items, "");
    assert_eq!(r.len(), 2);
}

fn vault_file() -> VaultFile {
    VaultFile {
        version: 1,
        kdf_salt_b64: String::new(),
        key_check_b64: String::new(),
        cloudflare_configured: true,
        dnspod_configured: false,
        aliyun_configured: false,
        huawei_configured: true,
        baidu_configured: false,
        dnscom_configured: false,
        rainyun_configured: true,
        tencentcloud_configured: false,
        nonce_b64: String::new(),
        ciphertext_b64: String::new(),
    }
}

fn empty_plain() -> PlainVault {
    PlainVault {
        cloudflare: None,
        dnspod: None,
        aliyun: None,
        huawei: None,
        baidu: None,
        dnscom: None,
        rainyun: None,
        tencentcloud: None,
    }
}

#[test]
fn vault_status_reads_the_configured_flags() {
    let s = vault_status_of(Some(&vault_file()));
    assert!(s.initialized);
    assert!(s.cloudflare_configured);
    assert!(!s.dnspod_configured);
    assert!(s.huawei_configured);
    assert!(s.rainyun_configured);
    let absent = vault_status_of(None);
    assert!(!absent.initialized);
    assert!(!absent.cloudflare_configured);
    assert!(!absent.tencentcloud_configured);
}

#[test]
fn integrations_summary_carries_verification_times() {
    let file = vault_file();
    let mut plain = empty_plain();
    plain.rainyun = Some(RainyunCreds {
        api_key: "k".to_string(),
        last_verified_at: Some("2024-01-02T03:04:05+00:00".to_string()),
    });
    let info = integrations_info(&file, &plain);
    assert!(info.rainyun.configured);
    assert_eq!(
        info.rainyun.last_verified_at,
        Some("2024-01-02T03:04:05+00:00".to_string())
    );
    assert!(info.cloudflare.configured);
    assert_eq!(info.cloudflare.last_verified_at, None);
    assert!(!info.dnspod.configured);
}
