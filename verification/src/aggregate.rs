//! The partial-failure-tolerant fan-out over all configured providers:
//! a failing provider yields one status-bearing placeholder entry
//! instead of aborting the aggregate listing, an unconfigured one a
//! `NotConfigured` placeholder, and the result can be narrowed by a
//! case-insensitive name search.

use vstd::prelude::*;
use vstd::string::*;
use crate::errors::AppError;
use crate::strings::{contains_seq, contains_str, opt_string_view};
use crate::types::{
    DomainItem, DomainStatus, IntegrationInfoItem, IntegrationsInfo, PlainVault, Provider,
    VaultFile, VaultStatus,
};

verus! {

/// The display name a provider carries in placeholder entries.
pub open spec fn spec_placeholder_name(p: Provider) -> Seq<char> {
    match p {
        Provider::Cloudflare => "Cloudflare"@,
        Provider::Dnspod => "DNSPod"@,
        Provider::Aliyun => "阿里云DNS"@,
        Provider::Huawei => "华为云DNS"@,
        Provider::Baidu => "百度智能云DNS"@,
        Provider::Dnscom => "DNS.COM"@,
        Provider::Rainyun => "雨云DNS"@,
        Provider::Tencentcloud => "腾讯云DNS"@,
    }
}

pub fn placeholder_name(p: Provider) -> (r: String)
    ensures
        r@ == spec_placeholder_name(p),
{
    let mut r = String::new();
    match p {
        Provider::Cloudflare => r.append("Cloudflare"),
        Provider::Dnspod => r.append("DNSPod"),
        Provider::Aliyun => r.append("阿里云DNS"),
        Provider::Huawei => r.append("华为云DNS"),
        Provider::Baidu => r.append("百度智能云DNS"),
        Provider::Dnscom => r.append("DNS.COM"),
        Provider::Rainyun => r.append("雨云DNS"),
        Provider::Tencentcloud => r.append("腾讯云DNS"),
    }
    r
}

/// The status a failed zone listing maps to: credential rejections and
/// transport failures are kept apart from generic fetch failures.
pub open spec fn spec_error_status(code: Seq<char>) -> DomainStatus {
    if code == "auth_failed"@ {
        DomainStatus::AuthFailed
    } else if code == "unreachable"@ || code == "timeout"@ {
        DomainStatus::Unreachable
    } else {
        DomainStatus::FetchFailed
    }
}

/// The placeholder entry synthesized when one provider's zone listing
/// fails: its display name with the error message attached, an empty
/// zone id, and the status read off the error code.
pub fn domain_error_item(provider: Provider, display_name: &str, e: &AppError) -> (r: DomainItem)
    ensures
        r.provider == provider,
        r.name@ == display_name@ + " (错误: "@ + e.message@ + ")"@,
        r.provider_id@ == Seq::<char>::empty(),
        r.status == spec_error_status(e.code@),
        r.records_count is None,
        r.last_changed_at is None,
{
    let status: DomainStatus = if crate::strings::str_eq(e.code.as_str(), "auth_failed") {
        DomainStatus::AuthFailed
    } else if crate::strings::str_eq(e.code.as_str(), "unreachable") || crate::strings::str_eq(
        e.code.as_str(),
        "timeout",
    ) {
        DomainStatus::Unreachable
    } else {
        DomainStatus::FetchFailed
    };
    proof {
        proof_status_codes_distinct();
    }
    let mut name = display_name.to_owned();
    name.append(" (错误: ");
    name.append(e.message.as_str());
    name.append(")");
    DomainItem {
        provider,
        name,
        provider_id: String::new(),
        status,
        records_count: None,
        last_changed_at: None,
    }
}

proof fn proof_status_codes_distinct()
    ensures
        "auth_failed"@ != "unreachable"@,
        "auth_failed"@ != "timeout"@,
        "unreachable"@ != "timeout"@,
{
    reveal_strlit("auth_failed");
    reveal_strlit("unreachable");
    reveal_strlit("timeout");
    assert("auth_failed"@.len() == 11 && "unreachable"@.len() == 11 && "timeout"@.len() == 7);
    assert("auth_failed"@[0] == 'a' && "unreachable"@[0] == 'u');
}

/// The placeholder entry for a provider without credentials.
pub fn not_configured_item(provider: Provider) -> (r: DomainItem)
    ensures
        r.provider == provider,
        r.name@ == spec_placeholder_name(provider),
        r.provider_id@ == Seq::<char>::empty(),
        r.status is NotConfigured,
        r.records_count is None,
        r.last_changed_at is None,
{
    DomainItem {
        provider,
        name: placeholder_name(provider),
        provider_id: String::new(),
        status: DomainStatus::NotConfigured,
        records_count: None,
        last_changed_at: None,
    }
}

/// Whether the fan-out covers a provider: no filter covers all, a
/// filter exactly itself.
pub fn wants_provider(filter: Option<Provider>, p: Provider) -> (r: bool)
    ensures
        r == (filter is None || filter == Some(p)),
{
    match filter {
        None => true,
        Some(f) => f == p,
    }
}

pub uninterp spec fn lowercase_of(s: Seq<char>) -> Seq<char>;

/// Relies on `str::to_lowercase`: the Unicode lowercase mapping of the
/// text, a function of the characters alone; empty text stays empty.
#[verifier::external_body]
pub fn to_lowercase_str(s: &str) -> (r: String)
    ensures
        r@ == lowercase_of(s@),
        s@.len() == 0 ==> r@.len() == 0,
{
    s.to_lowercase()
}

/// Which aggregate entries a search keeps: those whose lowercased name
/// contains the lowercased search text.
pub open spec fn spec_search_filter(items: Seq<DomainItem>, needle: Seq<char>) -> Seq<DomainItem>
    decreases items.len(),
{
    if items.len() == 0 {
        Seq::<DomainItem>::empty()
    } else {
        let rest = spec_search_filter(items.drop_last(), needle);
        if contains_seq(lowercase_of(items.last().name@), needle) {
            rest.push(items.last())
        } else {
            rest
        }
    }
}

/// Narrows the aggregate listing by a case-insensitive name search; an
/// empty search keeps everything.
pub fn filter_domains(items: Vec<DomainItem>, search: &str) -> (r: Vec<DomainItem>)
    ensures
        lowercase_of(search@).len() == 0 ==> r@ == items@,
        lowercase_of(search@).len() > 0 ==> r@ =~= spec_search_filter(
            items@,
            lowercase_of(search@),
        ),
{
    let needle = to_lowercase_str(search);
    if needle.as_str().unicode_len() == 0 {
        return items;
    }
    let mut r: Vec<DomainItem> = Vec::new();
    let mut i: usize = 0;
    while i < items.len()
        invariant
            i <= items.len(),
            needle@ == lowercase_of(search@),
            r@ =~= spec_search_filter(items@.take(i as int), needle@),
        decreases items.len() - i,
    {
        proof {
            assert(items@.take(i + 1).drop_last() =~= items@.take(i as int));
            assert(items@.take(i + 1).last() == items@[i as int]);
        }
        let lowered = to_lowercase_str(items[i].name.as_str());
        if contains_str(lowered.as_str(), needle.as_str()) {
            let item = copy_domain_item(&items[i]);
            r.push(item);
        }
        i = i + 1;
    }
    proof {
        assert(items@.take(items.len() as int) =~= items@);
    }
    r
}

/// A field-for-field copy of an aggregate entry.
fn copy_domain_item(d: &DomainItem) -> (r: DomainItem)
    ensures
        r == *d,
{
    DomainItem {
        provider: d.provider,
        name: d.name.clone(),
        provider_id: d.provider_id.clone(),
        status: d.status,
        records_count: d.records_count,
        last_changed_at: match &d.last_changed_at {
            Some(t) => Some(t.clone()),
            None => None,
        },
    }
}

/// Reads the per-provider configuration summary off the decrypted
/// vault.
pub fn integrations_info(file: &VaultFile, plain: &PlainVault) -> (r: IntegrationsInfo)
    ensures
        r.cloudflare.configured == file.cloudflare_configured,
        opt_string_view(r.cloudflare.last_verified_at) == (match plain.cloudflare {
            Some(c) => opt_string_view(c.last_verified_at),
            None => None,
        }),
        r.dnspod.configured == file.dnspod_configured,
        opt_string_view(r.dnspod.last_verified_at) == (match plain.dnspod {
            Some(c) => opt_string_view(c.last_verified_at),
            None => None,
        }),
        r.aliyun.configured == file.aliyun_configured,
        opt_string_view(r.aliyun.last_verified_at) == (match plain.aliyun {
            Some(c) => opt_string_view(c.last_verified_at),
            None => None,
        }),
        r.huawei.configured == file.huawei_configured,
        opt_string_view(r.huawei.last_verified_at) == (match plain.huawei {
            Some(c) => opt_string_view(c.last_verified_at),
            None => None,
        }),
        r.baidu.configured == file.baidu_configured,
        opt_string_view(r.baidu.last_verified_at) == (match plain.baidu {
            Some(c) => opt_string_view(c.last_verified_at),
            None => None,
        }),
        r.dnscom.configured == file.dnscom_configured,
        opt_string_view(r.dnscom.last_verified_at) == (match plain.dnscom {
            Some(c) => opt_string_view(c.last_verified_at),
            None => None,
        }),
        r.rainyun.configured == file.rainyun_configured,
        opt_string_view(r.rainyun.last_verified_at) == (match plain.rainyun {
            Some(c) => opt_string_view(c.last_verified_at),
            None => None,
        }),
        r.tencentcloud.configured == file.tencentcloud_configured,
        opt_string_view(r.tencentcloud.last_verified_at) == (match plain.tencentcloud {
            Some(c) => opt_string_view(c.last_verified_at),
            None => None,
        }),
{
    IntegrationsInfo {
        cloudflare: IntegrationInfoItem {
            configured: file.cloudflare_configured,
            last_verified_at: match &plain.cloudflare {
                Some(c) => match &c.last_verified_at {
                    Some(t) => Some(t.clone()),
                    None => None,
                },
                None => None,
            },
        },
        dnspod: IntegrationInfoItem {
            configured: file.dnspod_configured,
            last_verified_at: match &plain.dnspod {
                Some(c) => match &c.last_verified_at {
                    Some(t) => Some(t.clone()),
                    None => None,
                },
                None => None,
            },
        },
        aliyun: IntegrationInfoItem {
            configured: file.aliyun_configured,
            last_verified_at: match &plain.aliyun {
                Some(c) => match &c.last_verified_at {
                    Some(t) => Some(t.clone()),
                    None => None,
                },
                None => None,
            },
        },
        huawei: IntegrationInfoItem {
            configured: file.huawei_configured,
            last_verified_at: match &plain.huawei {
                Some(c) => match &c.last_verified_at {
                    Some(t) => Some(t.clone()),
                    None => None,
                },
                None => None,
            },
        },
        baidu: IntegrationInfoItem {
            configured: file.baidu_configured,
            last_verified_at: match &plain.baidu {
                Some(c) => match &c.last_verified_at {
                    Some(t) => Some(t.clone()),
                    None => None,
                },
                None => None,
            },
        },
        dnscom: IntegrationInfoItem {
            configured: file.dnscom_configured,
            last_verified_at: match &plain.dnscom {
                Some(c) => match &c.last_verified_at {
                    Some(t) => Some(t.clone()),
                    None => None,
                },
                None => None,
            },
        },
        rainyun: IntegrationInfoItem {
            configured: file.rainyun_configured,
            last_verified_at: match &plain.rainyun {
                Some(c) => match &c.last_verified_at {
                    Some(t) => Some(t.clone()),
                    None => None,
                },
                None => None,
            },
        },
        tencentcloud: IntegrationInfoItem {
            configured: file.tencentcloud_configured,
            last_verified_at: match &plain.tencentcloud {
                Some(c) => match &c.last_verified_at {
                    Some(t) => Some(t.clone()),
                    None => None,
                },
                None => None,
            },
        },
    }
}

/// Reads the vault status off the vault file; an absent vault is
/// entirely unconfigured.
pub fn vault_status_of(file: Option<&VaultFile>) -> (r: VaultStatus)
    ensures
        r.initialized == (file is Some),
        file matches Some(f) ==> r.cloudflare_configured == f.cloudflare_configured
            && r.dnspod_configured == f.dnspod_configured && r.aliyun_configured
            == f.aliyun_configured && r.huawei_configured == f.huawei_configured
            && r.baidu_configured == f.baidu_configured && r.dnscom_configured
            == f.dnscom_configured && r.rainyun_configured == f.rainyun_configured
            && r.tencentcloud_configured == f.tencentcloud_configured,
        file is None ==> !r.cloudflare_configured && !r.dnspod_configured && !r.aliyun_configured
            && !r.huawei_configured && !r.baidu_configured && !r.dnscom_configured
            && !r.rainyun_configured && !r.tencentcloud_configured,
{
    match file {
        Some(f) => VaultStatus {
            initialized: true,
            cloudflare_configured: f.cloudflare_configured,
            dnspod_configured: f.dnspod_configured,
            aliyun_configured: f.aliyun_configured,
            huawei_configured: f.huawei_configured,
            baidu_configured: f.baidu_configured,
            dnscom_configured: f.dnscom_configured,
            rainyun_configured: f.rainyun_configured,
            tencentcloud_configured: f.tencentcloud_configured,
        },
        None => VaultStatus {
            initialized: false,
            cloudflare_configured: false,
            dnspod_configured: false,
            aliyun_configured: false,
            huawei_configured: false,
            baidu_configured: false,
            dnscom_configured: false,
            rainyun_configured: false,
            tencentcloud_configured: false,
        },
    }
}

} // verus!
