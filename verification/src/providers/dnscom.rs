//! The form-signing provider: parameters (including the API key and a
//! Unix timestamp) are joined into a sorted `k=v` string, signed with
//! hex HMAC-SHA256 over `METHOD\nPATH\nparams`, and the signature is
//! sent as one more parameter.

use vstd::prelude::*;
use vstd::string::*;
use vstd::utf8::encode_utf8;
use crate::codec::{
    encode_record_value, parse_record_value, spec_decode_value, spec_record_value,
};
use crate::crypto::{hmac_sha256, hmac_sha256_of};
use crate::encoding::{hex_encode, hex_of};
use crate::errors::AppError;
use crate::strings::{
    dec_str, dec_str_i64, i64_to_string, opt_str_view, opt_string_view, push_pair, str_eq,
    u16_to_string, u32_to_string,
};
use crate::types::{DnsRecord, DomainItem, DomainStatus, Provider, RecordCreateRequest,
    RecordUpdateRequest};

verus! {

/// The `{code, message, data}` envelope of every response; zero is
/// success.
pub struct DnscomResponse<T> {
    pub code: i32,
    pub message: Option<String>,
    pub data: Option<T>,
}

/// One zone row.
pub struct DnscomDomain {
    pub id: u64,
    pub domain: String,
    pub record_count: Option<u32>,
    pub updated_at: Option<String>,
}

/// One record row.
pub struct DnscomRecord {
    pub id: u64,
    pub record: String,
    pub record_type: String,
    pub value: String,
    pub ttl: u32,
    pub mx: Option<u16>,
}

impl<T> DnscomResponse<T> {
    /// Success check: a non-zero code is reported as the operation's own
    /// failure, carrying the provider's message or a fixed fallback.
    /// This envelope names no distinguishable credential-rejection code,
    /// so none of its codes maps to `auth_failed`.
    pub fn ensure_ok(&self, op_code: &str) -> (r: Result<(), AppError>)
        ensures
            (r is Ok) == (self.code == 0),
            r matches Err(e) ==> e.code@ == op_code@ && e.message@ == (
            match opt_string_view(self.message) {
                Some(m) => m,
                None => "DNS.COM API failed"@,
            }),
    {
        if self.code == 0 {
            Ok(())
        } else {
            match &self.message {
                Some(m) => Err(AppError::new(op_code, m.as_str())),
                None => Err(AppError::new(op_code, "DNS.COM API failed")),
            }
        }
    }
}

/// The provider's flat record value for a request.
pub fn dnscom_value(
    record_type: &str,
    content: &str,
    srv_priority: Option<u16>,
    srv_weight: Option<u16>,
    srv_port: Option<u16>,
    caa_flags: Option<u8>,
    caa_tag: Option<&str>,
) -> (r: String)
    ensures
        r@ == spec_record_value(
            record_type@,
            content@,
            srv_priority,
            srv_weight,
            srv_port,
            caa_flags,
            opt_str_view(caa_tag),
        ),
{
    encode_record_value(record_type, content, srv_priority, srv_weight, srv_port, caa_flags, caa_tag)
}

/// Decodes a flat record value into
/// `(content, srv_priority, srv_weight, srv_port, caa_flags, caa_tag)`.
pub fn parse_dnscom_record_value(record_type: &str, value: &str) -> (r: (
    String,
    Option<u16>,
    Option<u16>,
    Option<u16>,
    Option<u8>,
    Option<String>,
))
    ensures
        ({
            let d = spec_decode_value(record_type@, value@);
            r.0@ == d.0 && r.1 == d.1 && r.2 == d.2 && r.3 == d.3 && r.4 == d.4
                && opt_string_view(r.5) == d.5
        }),
{
    parse_record_value(record_type, value)
}

/// The raw `k=v` canonical string, `&`-joined, no encoding, in the
/// order given (the builders below supply the keys already sorted).
pub open spec fn spec_canonical_params(params: Seq<(Seq<char>, Seq<char>)>) -> Seq<char>
    decreases params.len(),
{
    if params.len() == 0 {
        Seq::<char>::empty()
    } else if params.len() == 1 {
        params[0].0 + seq!['='] + params[0].1
    } else {
        spec_canonical_params(params.drop_last()) + seq!['&'] + params.last().0 + seq!['=']
            + params.last().1
    }
}

fn canonical_params(params: &Vec<(String, String)>) -> (r: String)
    ensures
        r@ == spec_canonical_params(params.deep_view()),
{
    let mut r = String::new();
    let mut i: usize = 0;
    while i < params.len()
        invariant
            i <= params.len(),
            r@ == spec_canonical_params(params.deep_view().take(i as int)),
        decreases params.len() - i,
    {
        if i > 0 {
            r.append("&");
        }
        r.append(params[i].0.as_str());
        r.append("=");
        r.append(params[i].1.as_str());
        proof {
            let dv = params.deep_view();
            assert(dv.take(i + 1).drop_last() =~= dv.take(i as int));
            assert(dv.take(i + 1).last() == dv[i as int]);
            assert(dv[i as int].0 == params@[i as int].0@);
            assert(dv[i as int].1 == params@[i as int].1@);
            reveal_strlit("&");
            reveal_strlit("=");
            assert("&"@ =~= seq!['&']);
            assert("="@ =~= seq!['=']);
            if i == 0 {
                assert(r@ =~= spec_canonical_params(dv.take(1)));
            } else {
                assert(r@ =~= spec_canonical_params(dv.take(i + 1)));
            }
        }
        i = i + 1;
    }
    proof {
        assert(params.deep_view().take(params.len() as int) =~= params.deep_view());
    }
    r
}

/// The signature of a call: hex HMAC-SHA256 of
/// `METHOD\nPATH\ncanonical params` under the API secret.
pub open spec fn spec_signature(
    api_secret: Seq<char>,
    method: Seq<char>,
    path: Seq<char>,
    params: Seq<(Seq<char>, Seq<char>)>,
) -> Seq<char> {
    hex_of(
        hmac_sha256_of(
            encode_utf8(api_secret),
            encode_utf8(method + "\n"@ + path + "\n"@ + spec_canonical_params(params)),
        ),
    )
}

/// Signs a parameter list. The callers pass the method uppercased and
/// the parameters sorted by key, with the API key and timestamp already
/// among them.
pub fn sign_params(api_secret: &str, method: &str, path: &str, params: &Vec<(String, String)>) -> (
    r: String)
    ensures
        r@ == spec_signature(api_secret@, method@, path@, params.deep_view()),
{
    let canonical = canonical_params(params);
    let mut sts = method.to_owned();
    sts.append("\n");
    sts.append(path);
    sts.append("\n");
    sts.append(canonical.as_str());
    let mac = hmac_sha256(api_secret.as_bytes(), sts.as_str().as_bytes());
    hex_encode(mac.as_slice())
}

/// The zone list parameters, sorted by key.
pub fn list_domains_params(api_key: &str, timestamp: i64) -> (params: Vec<(String, String)>)
    ensures
        params.deep_view() =~~= seq![
            ("api_key"@, api_key@),
            ("page"@, "1"@),
            ("paginate"@, "500"@),
            ("timestamp"@, dec_str_i64(timestamp as int)),
        ],
{
    let mut params: Vec<(String, String)> = Vec::new();
    push_pair(&mut params, "api_key", api_key.to_owned());
    push_pair(&mut params, "page", "1".to_owned());
    push_pair(&mut params, "paginate", "500".to_owned());
    push_pair(&mut params, "timestamp", i64_to_string(timestamp));
    params
}

/// The record list parameters for a zone, sorted by key.
pub fn list_records_params(api_key: &str, timestamp: i64, domain_name: &str) -> (params: Vec<
    (String, String),
>)
    ensures
        params.deep_view() =~~= seq![
            ("api_key"@, api_key@),
            ("domain"@, domain_name@),
            ("page"@, "1"@),
            ("paginate"@, "500"@),
            ("timestamp"@, dec_str_i64(timestamp as int)),
        ],
{
    let mut params: Vec<(String, String)> = Vec::new();
    push_pair(&mut params, "api_key", api_key.to_owned());
    push_pair(&mut params, "domain", domain_name.to_owned());
    push_pair(&mut params, "page", "1".to_owned());
    push_pair(&mut params, "paginate", "500".to_owned());
    push_pair(&mut params, "timestamp", i64_to_string(timestamp));
    params
}

/// The record creation parameters, sorted by key; `mx` is sent exactly
/// for MX records carrying a priority, and the view is always the
/// default view.
pub fn create_record_params(
    api_key: &str,
    timestamp: i64,
    domain_name: &str,
    req: &RecordCreateRequest,
) -> (params: Vec<(String, String)>)
    ensures
        ({
            let value = spec_record_value(
                req.record_type@,
                req.content@,
                req.srv_priority,
                req.srv_weight,
                req.srv_port,
                req.caa_flags,
                opt_string_view(req.caa_tag),
            );
            let mx = if req.record_type@ == "MX"@ && req.mx_priority is Some {
                seq![("mx"@, dec_str(req.mx_priority->0 as nat))]
            } else {
                Seq::<(Seq<char>, Seq<char>)>::empty()
            };
            params.deep_view() =~~= seq![("api_key"@, api_key@), ("domain"@, domain_name@)] + mx
                + seq![
                ("record"@, req.name@),
                ("timestamp"@, dec_str_i64(timestamp as int)),
                ("ttl"@, dec_str(req.ttl as nat)),
                ("type"@, req.record_type@),
                ("value"@, value),
                ("view_id"@, "1"@),
            ]
        }),
{
    let mut params: Vec<(String, String)> = Vec::new();
    push_pair(&mut params, "api_key", api_key.to_owned());
    push_pair(&mut params, "domain", domain_name.to_owned());
    if str_eq(req.record_type.as_str(), "MX") {
        match req.mx_priority {
            Some(mx) => {
                push_pair(&mut params, "mx", u16_to_string(mx));
            },
            None => {},
        }
    }
    push_pair(&mut params, "record", req.name.clone());
    push_pair(&mut params, "timestamp", i64_to_string(timestamp));
    push_pair(&mut params, "ttl", u32_to_string(req.ttl));
    push_pair(&mut params, "type", req.record_type.clone());
    let tag: Option<&str> = match &req.caa_tag {
        Some(t) => Some(t.as_str()),
        None => None,
    };
    let value = dnscom_value(
        req.record_type.as_str(),
        req.content.as_str(),
        req.srv_priority,
        req.srv_weight,
        req.srv_port,
        req.caa_flags,
        tag,
    );
    push_pair(&mut params, "value", value);
    push_pair(&mut params, "view_id", "1".to_owned());
    params
}

/// The record rewrite parameters: those of creation plus the record id,
/// sorted by key.
pub fn update_record_params(
    api_key: &str,
    timestamp: i64,
    domain_name: &str,
    req: &RecordUpdateRequest,
) -> (params: Vec<(String, String)>)
    ensures
        ({
            let value = spec_record_value(
                req.record_type@,
                req.content@,
                req.srv_priority,
                req.srv_weight,
                req.srv_port,
                req.caa_flags,
                opt_string_view(req.caa_tag),
            );
            let mx = if req.record_type@ == "MX"@ && req.mx_priority is Some {
                seq![("mx"@, dec_str(req.mx_priority->0 as nat))]
            } else {
                Seq::<(Seq<char>, Seq<char>)>::empty()
            };
            params.deep_view() =~~= seq![("api_key"@, api_key@), ("domain"@, domain_name@)] + mx
                + seq![
                ("record"@, req.name@),
                ("record_id"@, req.id@),
                ("timestamp"@, dec_str_i64(timestamp as int)),
                ("ttl"@, dec_str(req.ttl as nat)),
                ("type"@, req.record_type@),
                ("value"@, value),
                ("view_id"@, "1"@),
            ]
        }),
{
    let mut params: Vec<(String, String)> = Vec::new();
    push_pair(&mut params, "api_key", api_key.to_owned());
    push_pair(&mut params, "domain", domain_name.to_owned());
    if str_eq(req.record_type.as_str(), "MX") {
        match req.mx_priority {
            Some(mx) => {
                push_pair(&mut params, "mx", u16_to_string(mx));
            },
            None => {},
        }
    }
    push_pair(&mut params, "record", req.name.clone());
    push_pair(&mut params, "record_id", req.id.clone());
    push_pair(&mut params, "timestamp", i64_to_string(timestamp));
    push_pair(&mut params, "ttl", u32_to_string(req.ttl));
    push_pair(&mut params, "type", req.record_type.clone());
    let tag: Option<&str> = match &req.caa_tag {
        Some(t) => Some(t.as_str()),
        None => None,
    };
    let value = dnscom_value(
        req.record_type.as_str(),
        req.content.as_str(),
        req.srv_priority,
        req.srv_weight,
        req.srv_port,
        req.caa_flags,
        tag,
    );
    push_pair(&mut params, "value", value);
    push_pair(&mut params, "view_id", "1".to_owned());
    params
}

/// The record removal parameters, sorted by key.
pub fn delete_record_params(api_key: &str, timestamp: i64, domain_name: &str, record_id: &str) -> (
    params: Vec<(String, String)>)
    ensures
        params.deep_view() =~~= seq![
            ("api_key"@, api_key@),
            ("domain"@, domain_name@),
            ("record_id"@, record_id@),
            ("timestamp"@, dec_str_i64(timestamp as int)),
        ],
{
    let mut params: Vec<(String, String)> = Vec::new();
    push_pair(&mut params, "api_key", api_key.to_owned());
    push_pair(&mut params, "domain", domain_name.to_owned());
    push_pair(&mut params, "record_id", record_id.to_owned());
    push_pair(&mut params, "timestamp", i64_to_string(timestamp));
    params
}

impl DnscomRecord {
    /// Converts a record row into the uniform model through the shared
    /// codec; the numeric id is rendered in decimal.
    pub fn to_dns_record(self, domain_name: &str) -> (r: DnsRecord)
        ensures
            ({
                let d = spec_decode_value(self.record_type@, self.value@);
                r.id@ == dec_str(self.id as nat) && r.provider == Provider::Dnscom && r.domain@
                    == domain_name@ && r.record_type@ == self.record_type@ && r.name@
                    == self.record@ && r.content@ == d.0 && r.ttl == self.ttl && r.mx_priority
                    == self.mx && r.srv_priority == d.1 && r.srv_weight == d.2 && r.srv_port == d.3
                    && r.caa_flags == d.4 && opt_string_view(r.caa_tag) == d.5
            }),
    {
        let decoded = parse_dnscom_record_value(self.record_type.as_str(), self.value.as_str());
        DnsRecord {
            id: crate::strings::u64_to_string(self.id),
            provider: Provider::Dnscom,
            domain: domain_name.to_owned(),
            record_type: self.record_type,
            name: self.record,
            content: decoded.0,
            ttl: self.ttl,
            mx_priority: self.mx,
            srv_priority: decoded.1,
            srv_weight: decoded.2,
            srv_port: decoded.3,
            caa_flags: decoded.4,
            caa_tag: decoded.5,
        }
    }
}

impl DnscomDomain {
    /// Converts a zone row into a healthy domain item; the change time
    /// is carried through as the provider reports it.
    pub fn to_domain_item(self) -> (r: DomainItem)
        ensures
            r.provider == Provider::Dnscom,
            r.name@ == self.domain@,
            r.provider_id@ == dec_str(self.id as nat),
            r.status is Okay,
            r.records_count == self.record_count,
            opt_string_view(r.last_changed_at) == opt_string_view(self.updated_at),
    {
        DomainItem {
            provider: Provider::Dnscom,
            name: self.domain,
            provider_id: crate::strings::u64_to_string(self.id),
            status: DomainStatus::Okay,
            records_count: self.record_count,
            last_changed_at: self.updated_at,
        }
    }
}

} // verus!
