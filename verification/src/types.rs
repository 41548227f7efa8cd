//! The domain model: providers, zones, records and the request payloads
//! of the uniform CRUD contract.

use vstd::prelude::*;

verus! {

/// The closed set of supported DNS providers.
#[derive(Clone, Copy, Debug, PartialEq, Eq, Structural)]
pub enum Provider {
    Cloudflare,
    Dnspod,
    Aliyun,
    Huawei,
    Baidu,
    Dnscom,
    Rainyun,
    Tencentcloud,
}

/// The status carried by a zone entry; a failing provider yields a
/// placeholder entry bearing one of the error statuses instead of
/// aborting the aggregate listing.
#[derive(Clone, Copy, Debug, PartialEq, Eq, Structural)]
pub enum DomainStatus {
    Okay,
    AuthFailed,
    Unreachable,
    FetchFailed,
    NotConfigured,
}

/// What `create_record` does on a `(record_type, name)` collision.
#[derive(Clone, Copy, Debug, PartialEq, Eq, Structural)]
pub enum ConflictStrategy {
    DoNotCreate,
    Overwrite,
}

/// One zone of one provider, or a status-bearing placeholder for a
/// provider whose zone list could not be fetched.
#[derive(Clone, Debug)]
pub struct DomainItem {
    pub provider: Provider,
    pub name: String,
    pub provider_id: String,
    pub status: DomainStatus,
    pub records_count: Option<u32>,
    pub last_changed_at: Option<String>,
}

/// One DNS record in the uniform model. Fields irrelevant to
/// `record_type` are `None`; zero is a legal value and is distinct
/// from "not applicable".
#[derive(Clone, Debug)]
pub struct DnsRecord {
    pub id: String,
    pub provider: Provider,
    pub domain: String,
    pub record_type: String,
    pub name: String,
    pub content: String,
    pub ttl: u32,
    pub mx_priority: Option<u16>,
    pub srv_priority: Option<u16>,
    pub srv_weight: Option<u16>,
    pub srv_port: Option<u16>,
    pub caa_flags: Option<u8>,
    pub caa_tag: Option<String>,
}

/// A user request to create a record.
#[derive(Clone, Debug)]
pub struct RecordCreateRequest {
    pub record_type: String,
    pub name: String,
    pub content: String,
    pub ttl: u32,
    pub conflict_strategy: ConflictStrategy,
    pub mx_priority: Option<u16>,
    pub srv_priority: Option<u16>,
    pub srv_weight: Option<u16>,
    pub srv_port: Option<u16>,
    pub caa_flags: Option<u8>,
    pub caa_tag: Option<String>,
}

/// A user request to rewrite an existing record, carrying the
/// provider-native id of the record being replaced.
#[derive(Clone, Debug)]
pub struct RecordUpdateRequest {
    pub id: String,
    pub record_type: String,
    pub name: String,
    pub content: String,
    pub ttl: u32,
    pub mx_priority: Option<u16>,
    pub srv_priority: Option<u16>,
    pub srv_weight: Option<u16>,
    pub srv_port: Option<u16>,
    pub caa_flags: Option<u8>,
    pub caa_tag: Option<String>,
}

/// Whether the vault exists and which providers have credentials.
#[derive(Clone, Debug)]
pub struct VaultStatus {
    pub initialized: bool,
    pub cloudflare_configured: bool,
    pub dnspod_configured: bool,
    pub aliyun_configured: bool,
    pub huawei_configured: bool,
    pub baidu_configured: bool,
    pub dnscom_configured: bool,
    pub rainyun_configured: bool,
    pub tencentcloud_configured: bool,
}

/// Per-provider configuration summary.
#[derive(Clone, Debug)]
pub struct IntegrationInfoItem {
    pub configured: bool,
    pub last_verified_at: Option<String>,
}

#[derive(Clone, Debug)]
pub struct IntegrationsInfo {
    pub cloudflare: IntegrationInfoItem,
    pub dnspod: IntegrationInfoItem,
    pub aliyun: IntegrationInfoItem,
    pub huawei: IntegrationInfoItem,
    pub baidu: IntegrationInfoItem,
    pub dnscom: IntegrationInfoItem,
    pub rainyun: IntegrationInfoItem,
    pub tencentcloud: IntegrationInfoItem,
}

/// Outcome of a credential test.
#[derive(Clone, Debug)]
pub struct IntegrationTestResult {
    pub ok: bool,
    pub message: String,
}

/// The on-disk shape of the encrypted credential vault. This layer never
/// reads the ciphertext; the fields are carried for the vault's owner.
#[derive(Clone, Debug)]
pub struct VaultFile {
    pub version: u32,
    pub kdf_salt_b64: String,
    pub key_check_b64: String,
    pub cloudflare_configured: bool,
    pub dnspod_configured: bool,
    pub aliyun_configured: bool,
    pub huawei_configured: bool,
    pub baidu_configured: bool,
    pub dnscom_configured: bool,
    pub rainyun_configured: bool,
    pub tencentcloud_configured: bool,
    pub nonce_b64: String,
    pub ciphertext_b64: String,
}

/// The decrypted credential bundle handed in by the vault.
#[derive(Clone, Debug)]
pub struct PlainVault {
    pub cloudflare: Option<CloudflareCreds>,
    pub dnspod: Option<DnspodCreds>,
    pub aliyun: Option<AliyunCreds>,
    pub huawei: Option<HuaweiCreds>,
    pub baidu: Option<BaiduCreds>,
    pub dnscom: Option<DnscomCreds>,
    pub rainyun: Option<RainyunCreds>,
    pub tencentcloud: Option<TencentCloudCreds>,
}

#[derive(Clone, Debug)]
pub struct CloudflareCreds {
    pub email: String,
    pub api_key: String,
    pub last_verified_at: Option<String>,
}

#[derive(Clone, Debug)]
pub struct DnspodCreds {
    pub token_id: String,
    pub token: String,
    pub last_verified_at: Option<String>,
}

#[derive(Clone, Debug)]
pub struct AliyunCreds {
    pub access_key_id: String,
    pub access_key_secret: String,
    pub last_verified_at: Option<String>,
}

#[derive(Clone, Debug)]
pub struct HuaweiCreds {
    pub token: String,
    pub last_verified_at: Option<String>,
}

#[derive(Clone, Debug)]
pub struct BaiduCreds {
    pub access_key_id: String,
    pub secret_access_key: String,
    pub last_verified_at: Option<String>,
}

#[derive(Clone, Debug)]
pub struct DnscomCreds {
    pub api_key: String,
    pub api_secret: String,
    pub last_verified_at: Option<String>,
}

#[derive(Clone, Debug)]
pub struct RainyunCreds {
    pub api_key: String,
    pub last_verified_at: Option<String>,
}

#[derive(Clone, Debug)]
pub struct TencentCloudCreds {
    pub app_id: String,
    pub secret_id: String,
    pub last_verified_at: Option<String>,
}

} // verus!
