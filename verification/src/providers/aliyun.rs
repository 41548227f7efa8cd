//! The query-signing provider: every call is a GET whose parameters are
//! canonicalized into a sorted percent-encoded query string, signed with
//! HMAC-SHA1 under the account secret plus `"&"`, and carries a fresh
//! nonce and UTC timestamp.

use vstd::prelude::*;
use vstd::string::*;
use vstd::utf8::encode_utf8;
use crate::clock::{rfc3339_norm_of, normalize_rfc3339, utc_now_iso8601z};
use crate::codec::{encode_record_value, spec_record_value};
use crate::crypto::{hmac_sha1, hmac_sha1_of, random_nonce_hex};
use crate::encoding::{base64_encode, base64_of, pct_str, percent_encode};
use crate::strings::{
    dec_str, opt_str_view, opt_string_view, parse_uint, push_pair, str_eq, u16_to_string,
    u32_to_string,
};
use crate::types::{DnsRecord, DomainItem, DomainStatus, Provider, RecordCreateRequest,
    RecordUpdateRequest};

verus! {

/// One zone row of the domain list.
pub struct AliyunDomain {
    pub domain_id: String,
    pub domain_name: String,
    pub record_count: Option<String>,
    pub update_time: Option<String>,
}

/// One record row of the record list.
pub struct AliyunRecord {
    pub record_id: String,
    pub rr: String,
    pub record_type: String,
    pub value: String,
    pub ttl: u32,
    pub priority: Option<u16>,
}

/// The provider's flat record value for a request.
pub fn aliyun_value(
    record_type: &str,
    content: &str,
    srv_priority: Option<u16>,
    srv_weight: Option<u16>,
    srv_port: Option<u16>,
    caa_flags: Option<u8>,
    caa_tag: Option<&str>,
) -> (r: String)
    ensures
        r@ == spec_record_value(
            record_type@,
            content@,
            srv_priority,
            srv_weight,
            srv_port,
            caa_flags,
            opt_str_view(caa_tag),
        ),
{
    encode_record_value(record_type, content, srv_priority, srv_weight, srv_port, caa_flags, caa_tag)
}

/// A fresh signing context: a random hexadecimal nonce and the current
/// UTC timestamp as `%Y-%m-%dT%H:%M:%SZ`, different on every call.
pub fn request_context() -> (String, String) {
    (random_nonce_hex(), utc_now_iso8601z())
}

/// The canonicalized query: `key=value` with both sides
/// percent-encoded, joined by `&`, in the order given (the builders
/// below supply the keys already sorted).
pub open spec fn spec_canonical_kv(params: Seq<(Seq<char>, Seq<char>)>) -> Seq<char>
    decreases params.len(),
{
    if params.len() == 0 {
        Seq::<char>::empty()
    } else if params.len() == 1 {
        pct_str(params[0].0) + seq!['='] + pct_str(params[0].1)
    } else {
        spec_canonical_kv(params.drop_last()) + seq!['&'] + pct_str(params.last().0) + seq!['=']
            + pct_str(params.last().1)
    }
}

/// Builds the canonicalized query string from the parameter list.
pub fn canonical_query(params: &Vec<(String, String)>) -> (r: String)
    ensures
        r@ == spec_canonical_kv(params.deep_view()),
{
    let mut r = String::new();
    let mut i: usize = 0;
    while i < params.len()
        invariant
            i <= params.len(),
            r@ == spec_canonical_kv(params.deep_view().take(i as int)),
        decreases params.len() - i,
    {
        if i > 0 {
            r.append("&");
        }
        let ek = percent_encode(params[i].0.as_str());
        r.append(ek.as_str());
        r.append("=");
        let ev = percent_encode(params[i].1.as_str());
        r.append(ev.as_str());
        proof {
            let dv = params.deep_view();
            assert(dv.take(i + 1).drop_last() =~= dv.take(i as int));
            assert(dv.take(i + 1).last() == dv[i as int]);
            assert(dv[i as int].0 == params@[i as int].0@);
            assert(dv[i as int].1 == params@[i as int].1@);
            reveal_strlit("&");
            reveal_strlit("=");
            assert("&"@ =~= seq!['&']);
            assert("="@ =~= seq!['=']);
            if i == 0 {
                assert(r@ =~= spec_canonical_kv(dv.take(1)));
            } else {
                assert(r@ =~= spec_canonical_kv(dv.take(i + 1)));
            }
        }
        i = i + 1;
    }
    proof {
        assert(params.deep_view().take(params.len() as int) =~= params.deep_view());
    }
    r
}

/// The signature of a parameter list: the canonicalized query wrapped
/// into `GET&%2F&{encoded query}`, MACed with HMAC-SHA1 under the
/// secret followed by `&`, base64-encoded.
pub open spec fn spec_signature(params: Seq<(Seq<char>, Seq<char>)>, secret: Seq<char>) -> Seq<
    char,
> {
    base64_of(
        hmac_sha1_of(
            encode_utf8(secret + "&"@),
            encode_utf8("GET&%2F&"@ + pct_str(spec_canonical_kv(params))),
        ),
    )
}

/// Signs a parameter list with the account secret.
pub fn sign_params(params: &Vec<(String, String)>, access_key_secret: &str) -> (r: String)
    ensures
        r@ == spec_signature(params.deep_view(), access_key_secret@),
{
    let canonical = canonical_query(params);
    let mut sts = String::new();
    sts.append("GET&%2F&");
    let enc = percent_encode(canonical.as_str());
    sts.append(enc.as_str());
    let mut key = access_key_secret.to_owned();
    key.append("&");
    let mac = hmac_sha1(key.as_str().as_bytes(), sts.as_str().as_bytes());
    base64_encode(mac.as_slice())
}

/// The zone list query, in canonical key order.
pub fn describe_domains_params(access_key_id: &str, nonce: &str, timestamp: &str) -> (params: Vec<
    (String, String),
>)
    ensures
        params.deep_view() =~~= seq![
            ("AccessKeyId"@, access_key_id@),
            ("Action"@, "DescribeDomains"@),
            ("Format"@, "JSON"@),
            ("PageSize"@, "500"@),
            ("SignatureMethod"@, "HMAC-SHA1"@),
            ("SignatureNonce"@, nonce@),
            ("SignatureVersion"@, "1.0"@),
            ("Timestamp"@, timestamp@),
            ("Version"@, "2015-01-09"@),
        ],
{
    let mut params: Vec<(String, String)> = Vec::new();
    push_pair(&mut params, "AccessKeyId", access_key_id.to_owned());
    push_pair(&mut params, "Action", "DescribeDomains".to_owned());
    push_pair(&mut params, "Format", "JSON".to_owned());
    push_pair(&mut params, "PageSize", "500".to_owned());
    push_pair(&mut params, "SignatureMethod", "HMAC-SHA1".to_owned());
    push_pair(&mut params, "SignatureNonce", nonce.to_owned());
    push_pair(&mut params, "SignatureVersion", "1.0".to_owned());
    push_pair(&mut params, "Timestamp", timestamp.to_owned());
    push_pair(&mut params, "Version", "2015-01-09".to_owned());
    params
}

/// The record list query for a zone, in canonical key order.
pub fn describe_records_params(access_key_id: &str, nonce: &str, timestamp: &str, domain_name: &str)
    -> (params: Vec<(String, String)>)
    ensures
        params.deep_view() =~~= seq![
            ("AccessKeyId"@, access_key_id@),
            ("Action"@, "DescribeDomainRecords"@),
            ("DomainName"@, domain_name@),
            ("Format"@, "JSON"@),
            ("PageSize"@, "500"@),
            ("SignatureMethod"@, "HMAC-SHA1"@),
            ("SignatureNonce"@, nonce@),
            ("SignatureVersion"@, "1.0"@),
            ("Timestamp"@, timestamp@),
            ("Version"@, "2015-01-09"@),
        ],
{
    let mut params: Vec<(String, String)> = Vec::new();
    push_pair(&mut params, "AccessKeyId", access_key_id.to_owned());
    push_pair(&mut params, "Action", "DescribeDomainRecords".to_owned());
    push_pair(&mut params, "DomainName", domain_name.to_owned());
    push_pair(&mut params, "Format", "JSON".to_owned());
    push_pair(&mut params, "PageSize", "500".to_owned());
    push_pair(&mut params, "SignatureMethod", "HMAC-SHA1".to_owned());
    push_pair(&mut params, "SignatureNonce", nonce.to_owned());
    push_pair(&mut params, "SignatureVersion", "1.0".to_owned());
    push_pair(&mut params, "Timestamp", timestamp.to_owned());
    push_pair(&mut params, "Version", "2015-01-09".to_owned());
    params
}

/// The priority sent with a write: the MX priority, or failing that the
/// SRV priority, where the record type carries one.
pub open spec fn spec_write_priority(req_mx: Option<u16>, req_srv: Option<u16>) -> Option<u16> {
    match req_mx {
        Some(p) => Some(p),
        None => req_srv,
    }
}

/// The middle pairs of a write: the optional SRV port and the optional
/// priority, in canonical key order.
pub open spec fn spec_write_extras(
    rt: Seq<char>,
    port: Option<u16>,
    prio: Option<u16>,
    weight: Option<u16>,
) -> (Seq<(Seq<char>, Seq<char>)>, Seq<(Seq<char>, Seq<char>)>) {
    let mid = if rt == "SRV"@ && port is Some {
        seq![("Port"@, dec_str(port->0 as nat))]
    } else {
        Seq::<(Seq<char>, Seq<char>)>::empty()
    } + if (rt == "MX"@ || rt == "SRV"@) && prio is Some {
        seq![("Priority"@, dec_str(prio->0 as nat))]
    } else {
        Seq::<(Seq<char>, Seq<char>)>::empty()
    };
    let tail = if rt == "SRV"@ && weight is Some {
        seq![("Weight"@, dec_str(weight->0 as nat))]
    } else {
        Seq::<(Seq<char>, Seq<char>)>::empty()
    };
    (mid, tail)
}

/// The record creation query, in canonical key order.
pub fn add_record_params(
    access_key_id: &str,
    nonce: &str,
    timestamp: &str,
    domain_name: &str,
    req: &RecordCreateRequest,
) -> (params: Vec<(String, String)>)
    ensures
        ({
            let value = spec_record_value(
                req.record_type@,
                req.content@,
                req.srv_priority,
                req.srv_weight,
                req.srv_port,
                req.caa_flags,
                opt_string_view(req.caa_tag),
            );
            let prio = spec_write_priority(req.mx_priority, req.srv_priority);
            let (mid, tail) = spec_write_extras(
                req.record_type@,
                req.srv_port,
                prio,
                req.srv_weight,
            );
            params.deep_view() =~~= seq![
                ("AccessKeyId"@, access_key_id@),
                ("Action"@, "AddDomainRecord"@),
                ("DomainName"@, domain_name@),
                ("Format"@, "JSON"@),
            ] + mid + seq![
                ("RR"@, req.name@),
                ("SignatureMethod"@, "HMAC-SHA1"@),
                ("SignatureNonce"@, nonce@),
                ("SignatureVersion"@, "1.0"@),
                ("TTL"@, dec_str(req.ttl as nat)),
                ("Timestamp"@, timestamp@),
                ("Type"@, req.record_type@),
                ("Value"@, value),
                ("Version"@, "2015-01-09"@),
            ] + tail
        }),
{
    let mut params: Vec<(String, String)> = Vec::new();
    push_pair(&mut params, "AccessKeyId", access_key_id.to_owned());
    push_pair(&mut params, "Action", "AddDomainRecord".to_owned());
    push_pair(&mut params, "DomainName", domain_name.to_owned());
    push_pair(&mut params, "Format", "JSON".to_owned());
    let is_srv = str_eq(req.record_type.as_str(), "SRV");
    let is_mx = str_eq(req.record_type.as_str(), "MX");
    if is_srv {
        match req.srv_port {
            Some(port) => {
                push_pair(&mut params, "Port", u16_to_string(port));
            },
            None => {},
        }
    }
    if is_mx || is_srv {
        let prio: Option<u16> = match req.mx_priority {
            Some(p) => Some(p),
            None => req.srv_priority,
        };
        match prio {
            Some(p) => {
                push_pair(&mut params, "Priority", u16_to_string(p));
            },
            None => {},
        }
    }
    push_pair(&mut params, "RR", req.name.clone());
    push_pair(&mut params, "SignatureMethod", "HMAC-SHA1".to_owned());
    push_pair(&mut params, "SignatureNonce", nonce.to_owned());
    push_pair(&mut params, "SignatureVersion", "1.0".to_owned());
    push_pair(&mut params, "TTL", u32_to_string(req.ttl));
    push_pair(&mut params, "Timestamp", timestamp.to_owned());
    push_pair(&mut params, "Type", req.record_type.clone());
    let tag: Option<&str> = match &req.caa_tag {
        Some(t) => Some(t.as_str()),
        None => None,
    };
    let value = aliyun_value(
        req.record_type.as_str(),
        req.content.as_str(),
        req.srv_priority,
        req.srv_weight,
        req.srv_port,
        req.caa_flags,
        tag,
    );
    push_pair(&mut params, "Value", value);
    push_pair(&mut params, "Version", "2015-01-09".to_owned());
    if is_srv {
        match req.srv_weight {
            Some(w) => {
                push_pair(&mut params, "Weight", u16_to_string(w));
            },
            None => {},
        }
    }
    params
}

/// The record rewrite query, in canonical key order.
pub fn update_record_params(
    access_key_id: &str,
    nonce: &str,
    timestamp: &str,
    req: &RecordUpdateRequest,
) -> (params: Vec<(String, String)>)
    ensures
        ({
            let value = spec_record_value(
                req.record_type@,
                req.content@,
                req.srv_priority,
                req.srv_weight,
                req.srv_port,
                req.caa_flags,
                opt_string_view(req.caa_tag),
            );
            let prio = spec_write_priority(req.mx_priority, req.srv_priority);
            let (mid, tail) = spec_write_extras(
                req.record_type@,
                req.srv_port,
                prio,
                req.srv_weight,
            );
            params.deep_view() =~~= seq![
                ("AccessKeyId"@, access_key_id@),
                ("Action"@, "UpdateDomainRecord"@),
                ("Format"@, "JSON"@),
            ] + mid + seq![
                ("RR"@, req.name@),
                ("RecordId"@, req.id@),
                ("SignatureMethod"@, "HMAC-SHA1"@),
                ("SignatureNonce"@, nonce@),
                ("SignatureVersion"@, "1.0"@),
                ("TTL"@, dec_str(req.ttl as nat)),
                ("Timestamp"@, timestamp@),
                ("Type"@, req.record_type@),
                ("Value"@, value),
                ("Version"@, "2015-01-09"@),
            ] + tail
        }),
{
    let mut params: Vec<(String, String)> = Vec::new();
    push_pair(&mut params, "AccessKeyId", access_key_id.to_owned());
    push_pair(&mut params, "Action", "UpdateDomainRecord".to_owned());
    push_pair(&mut params, "Format", "JSON".to_owned());
    let is_srv = str_eq(req.record_type.as_str(), "SRV");
    let is_mx = str_eq(req.record_type.as_str(), "MX");
    if is_srv {
        match req.srv_port {
            Some(port) => {
                push_pair(&mut params, "Port", u16_to_string(port));
            },
            None => {},
        }
    }
    if is_mx || is_srv {
        let prio: Option<u16> = match req.mx_priority {
            Some(p) => Some(p),
            None => req.srv_priority,
        };
        match prio {
            Some(p) => {
                push_pair(&mut params, "Priority", u16_to_string(p));
            },
            None => {},
        }
    }
    push_pair(&mut params, "RR", req.name.clone());
    push_pair(&mut params, "RecordId", req.id.clone());
    push_pair(&mut params, "SignatureMethod", "HMAC-SHA1".to_owned());
    push_pair(&mut params, "SignatureNonce", nonce.to_owned());
    push_pair(&mut params, "SignatureVersion", "1.0".to_owned());
    push_pair(&mut params, "TTL", u32_to_string(req.ttl));
    push_pair(&mut params, "Timestamp", timestamp.to_owned());
    push_pair(&mut params, "Type", req.record_type.clone());
    let tag: Option<&str> = match &req.caa_tag {
        Some(t) => Some(t.as_str()),
        None => None,
    };
    let value = aliyun_value(
        req.record_type.as_str(),
        req.content.as_str(),
        req.srv_priority,
        req.srv_weight,
        req.srv_port,
        req.caa_flags,
        tag,
    );
    push_pair(&mut params, "Value", value);
    push_pair(&mut params, "Version", "2015-01-09".to_owned());
    if is_srv {
        match req.srv_weight {
            Some(w) => {
                push_pair(&mut params, "Weight", u16_to_string(w));
            },
            None => {},
        }
    }
    params
}

/// The record removal query, in canonical key order.
pub fn delete_record_params(access_key_id: &str, nonce: &str, timestamp: &str, record_id: &str)
    -> (params: Vec<(String, String)>)
    ensures
        params.deep_view() =~~= seq![
            ("AccessKeyId"@, access_key_id@),
            ("Action"@, "DeleteDomainRecord"@),
            ("Format"@, "JSON"@),
            ("RecordId"@, record_id@),
            ("SignatureMethod"@, "HMAC-SHA1"@),
            ("SignatureNonce"@, nonce@),
            ("SignatureVersion"@, "1.0"@),
            ("Timestamp"@, timestamp@),
            ("Version"@, "2015-01-09"@),
        ],
{
    let mut params: Vec<(String, String)> = Vec::new();
    push_pair(&mut params, "AccessKeyId", access_key_id.to_owned());
    push_pair(&mut params, "Action", "DeleteDomainRecord".to_owned());
    push_pair(&mut params, "Format", "JSON".to_owned());
    push_pair(&mut params, "RecordId", record_id.to_owned());
    push_pair(&mut params, "SignatureMethod", "HMAC-SHA1".to_owned());
    push_pair(&mut params, "SignatureNonce", nonce.to_owned());
    push_pair(&mut params, "SignatureVersion", "1.0".to_owned());
    push_pair(&mut params, "Timestamp", timestamp.to_owned());
    push_pair(&mut params, "Version", "2015-01-09".to_owned());
    params
}

/// The record a successful creation reports: the provider returns only
/// the new id, so the row is rebuilt from the request under it.
pub fn create_result(domain_name: &str, record_id: String, req: &RecordCreateRequest) -> (r:
    DnsRecord)
    ensures
        r.id@ == record_id@,
        r.provider == Provider::Aliyun,
        r.domain@ == domain_name@,
        r.record_type@ == req.record_type@,
        r.name@ == req.name@,
        r.content@ == req.content@,
        r.ttl == req.ttl,
        r.mx_priority == req.mx_priority,
        r.srv_priority == req.srv_priority,
        r.srv_weight == req.srv_weight,
        r.srv_port == req.srv_port,
        r.caa_flags == req.caa_flags,
        opt_string_view(r.caa_tag) == opt_string_view(req.caa_tag),
{
    DnsRecord {
        id: record_id,
        provider: Provider::Aliyun,
        domain: domain_name.to_owned(),
        record_type: req.record_type.clone(),
        name: req.name.clone(),
        content: req.content.clone(),
        ttl: req.ttl,
        mx_priority: req.mx_priority,
        srv_priority: req.srv_priority,
        srv_weight: req.srv_weight,
        srv_port: req.srv_port,
        caa_flags: req.caa_flags,
        caa_tag: match &req.caa_tag {
            Some(t) => Some(t.clone()),
            None => None,
        },
    }
}

/// The record a successful rewrite reports, rebuilt from the request
/// under the id it carried.
pub fn update_result(domain_name: &str, req: &RecordUpdateRequest) -> (r: DnsRecord)
    ensures
        r.id@ == req.id@,
        r.provider == Provider::Aliyun,
        r.domain@ == domain_name@,
        r.record_type@ == req.record_type@,
        r.name@ == req.name@,
        r.content@ == req.content@,
        r.ttl == req.ttl,
        r.mx_priority == req.mx_priority,
        r.srv_priority == req.srv_priority,
        r.srv_weight == req.srv_weight,
        r.srv_port == req.srv_port,
        r.caa_flags == req.caa_flags,
        opt_string_view(r.caa_tag) == opt_string_view(req.caa_tag),
{
    DnsRecord {
        id: req.id.clone(),
        provider: Provider::Aliyun,
        domain: domain_name.to_owned(),
        record_type: req.record_type.clone(),
        name: req.name.clone(),
        content: req.content.clone(),
        ttl: req.ttl,
        mx_priority: req.mx_priority,
        srv_priority: req.srv_priority,
        srv_weight: req.srv_weight,
        srv_port: req.srv_port,
        caa_flags: req.caa_flags,
        caa_tag: match &req.caa_tag {
            Some(t) => Some(t.clone()),
            None => None,
        },
    }
}

impl AliyunRecord {
    /// Converts a record row into the uniform model: the provider keeps
    /// SRV and CAA values flat in `value`, which the shared codec
    /// unpacks, and reports one numeric priority field used as the MX
    /// priority.
    pub fn to_dns_record(self, domain_name: &str) -> (r: DnsRecord)
        ensures
            ({
                let d = crate::codec::spec_decode_value(self.record_type@, self.value@);
                r.id@ == self.record_id@ && r.provider == Provider::Aliyun && r.domain@
                    == domain_name@ && r.record_type@ == self.record_type@ && r.name@ == self.rr@
                    && r.content@ == d.0 && r.ttl == self.ttl && r.mx_priority == self.priority
                    && r.srv_priority == d.1 && r.srv_weight == d.2 && r.srv_port == d.3
                    && r.caa_flags == d.4 && opt_string_view(r.caa_tag) == d.5
            }),
    {
        let decoded = crate::codec::parse_record_value(self.record_type.as_str(), self.value.as_str());
        DnsRecord {
            id: self.record_id,
            provider: Provider::Aliyun,
            domain: domain_name.to_owned(),
            record_type: self.record_type,
            name: self.rr,
            content: decoded.0,
            ttl: self.ttl,
            mx_priority: self.priority,
            srv_priority: decoded.1,
            srv_weight: decoded.2,
            srv_port: decoded.3,
            caa_flags: decoded.4,
            caa_tag: decoded.5,
        }
    }
}

impl AliyunDomain {
    /// Converts a zone row into a healthy domain item; the record count
    /// and change time are best-effort and degrade to `None`.
    pub fn to_domain_item(self) -> (r: DomainItem)
        ensures
            r.provider == Provider::Aliyun,
            r.name@ == self.domain_name@,
            r.provider_id@ == self.domain_id@,
            r.status is Okay,
            r.records_count == crate::providers::dnspod::spec_opt_parse_u32(
                opt_string_view(self.record_count),
            ),
            opt_string_view(r.last_changed_at) == (match opt_string_view(self.update_time) {
                Some(t) => rfc3339_norm_of(t),
                None => None,
            }),
    {
        let records_count: Option<u32> = match &self.record_count {
            Some(c) => match parse_uint(c.as_str(), 0xffff_ffff) {
                Some(n) => Some(n as u32),
                None => None,
            },
            None => None,
        };
        let last_changed_at: Option<String> = match &self.update_time {
            Some(t) => normalize_rfc3339(t.as_str()),
            None => None,
        };
        DomainItem {
            provider: Provider::Aliyun,
            name: self.domain_name,
            provider_id: self.domain_id,
            status: DomainStatus::Okay,
            records_count,
            last_changed_at,
        }
    }
}

} // verus!
