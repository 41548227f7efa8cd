//! The token-header provider: authenticates with a `login_token` form
//! field, speaks `application/x-www-form-urlencoded` requests, and
//! reports its status in a `{code, message}` envelope where `"1"` means
//! success.

use vstd::prelude::*;
use vstd::string::*;
use crate::codec::{encode_record_value, parse_record_value, spec_decode_value, spec_record_value};
use crate::errors::AppError;
use crate::strings::{
    dec_str, opt_str_view, opt_string_view, parse_uint, parses_as_uint, push_pair, str_eq,
    u16_to_string, u32_to_string, uint_val,
};
use crate::types::{DnsRecord, Provider, RecordCreateRequest, RecordUpdateRequest};

verus! {

/// The status envelope of every response.
pub struct DnspodStatus {
    pub code: String,
    pub message: String,
}

/// One zone row of the domain list.
pub struct DnspodDomain {
    pub id: u64,
    pub name: String,
    pub records: String,
    pub updated_on: String,
}

/// One record row; every field but the id may be absent and is then
/// filled from the request that produced the row.
pub struct DnspodRecord {
    pub id: String,
    pub name: String,
    pub record_type: Option<String>,
    pub value: Option<String>,
    pub ttl: Option<String>,
    pub mx: Option<String>,
}

/// The `login_token` credential: token id and token joined by a comma.
pub fn login_token(token_id: &str, token: &str) -> (r: String)
    ensures
        r@ == token_id@ + ","@ + token@,
{
    let mut r = token_id.to_owned();
    r.append(",");
    r.append(token);
    r
}

/// The parameters carried by every call: the credential and the answer
/// format.
pub fn common_params(login_token: &str) -> (params: Vec<(String, String)>)
    ensures
        params.deep_view() =~~= seq![("login_token"@, login_token@), ("format"@, "json"@)],
{
    let mut params: Vec<(String, String)> = Vec::new();
    push_pair(&mut params, "login_token", login_token.to_owned());
    push_pair(&mut params, "format", "json".to_owned());
    params
}

/// Success check on the status envelope: code `"1"` is success. The
/// login-failure code `"-1"` is the provider's credential rejection and
/// maps to `auth_failed`; every other code is the operation's own
/// failure, carrying the provider's message either way.
pub fn ensure_ok(status: &DnspodStatus, op_code: &str) -> (r: Result<(), AppError>)
    ensures
        (r is Ok) == (status.code@ == "1"@),
        r matches Err(e) ==> e.code@ == (if status.code@ == "-1"@ {
            "auth_failed"@
        } else {
            op_code@
        }) && e.message@ == status.message@,
{
    if str_eq(status.code.as_str(), "1") {
        Ok(())
    } else if str_eq(status.code.as_str(), "-1") {
        Err(AppError::new("auth_failed", status.message.as_str()))
    } else {
        Err(AppError::new(op_code, status.message.as_str()))
    }
}

/// The provider's flat record value for a request.
pub fn dnspod_value(
    record_type: &str,
    content: &str,
    srv_priority: Option<u16>,
    srv_weight: Option<u16>,
    srv_port: Option<u16>,
    caa_flags: Option<u8>,
    caa_tag: Option<&str>,
) -> (r: String)
    ensures
        r@ == spec_record_value(
            record_type@,
            content@,
            srv_priority,
            srv_weight,
            srv_port,
            caa_flags,
            opt_str_view(caa_tag),
        ),
{
    encode_record_value(record_type, content, srv_priority, srv_weight, srv_port, caa_flags, caa_tag)
}

/// The form parameters of a record list call.
pub fn list_records_params(login_token: &str, domain_id: &str) -> (params: Vec<(String, String)>)
    ensures
        params.deep_view() =~~= seq![
            ("login_token"@, login_token@),
            ("format"@, "json"@),
            ("domain_id"@, domain_id@),
        ],
{
    let mut params = common_params(login_token);
    push_pair(&mut params, "domain_id", domain_id.to_owned());
    params
}

/// The form parameters of a record creation call: the record line is
/// always the default line, and the `mx` field is sent exactly for MX
/// records carrying a priority.
pub fn create_record_params(login_token: &str, domain_id: &str, req: &RecordCreateRequest) -> (
    params: Vec<(String, String)>)
    ensures
        ({
            let value = spec_record_value(
                req.record_type@,
                req.content@,
                req.srv_priority,
                req.srv_weight,
                req.srv_port,
                req.caa_flags,
                opt_string_view(req.caa_tag),
            );
            let base = seq![
                ("login_token"@, login_token@),
                ("format"@, "json"@),
                ("domain_id"@, domain_id@),
                ("sub_domain"@, req.name@),
                ("record_type"@, req.record_type@),
                ("record_line"@, "默认"@),
                ("value"@, value),
                ("ttl"@, dec_str(req.ttl as nat)),
            ];
            if req.record_type@ == "MX"@ && req.mx_priority is Some {
                params.deep_view() =~~= base.push(("mx"@, dec_str(req.mx_priority->0 as nat)))
            } else {
                params.deep_view() =~~= base
            }
        }),
{
    let mut params = list_records_params(login_token, domain_id);
    push_pair(&mut params, "sub_domain", req.name.clone());
    push_pair(&mut params, "record_type", req.record_type.clone());
    push_pair(&mut params, "record_line", "默认".to_owned());
    let tag: Option<&str> = match &req.caa_tag {
        Some(t) => Some(t.as_str()),
        None => None,
    };
    let value = dnspod_value(
        req.record_type.as_str(),
        req.content.as_str(),
        req.srv_priority,
        req.srv_weight,
        req.srv_port,
        req.caa_flags,
        tag,
    );
    push_pair(&mut params, "value", value);
    push_pair(&mut params, "ttl", u32_to_string(req.ttl));
    if str_eq(req.record_type.as_str(), "MX") {
        match req.mx_priority {
            Some(mx) => {
                push_pair(&mut params, "mx", u16_to_string(mx));
            },
            None => {},
        }
    }
    params
}

/// The form parameters of a record modification call: those of creation
/// plus the record id.
pub fn update_record_params(login_token: &str, domain_id: &str, req: &RecordUpdateRequest) -> (
    params: Vec<(String, String)>)
    ensures
        ({
            let value = spec_record_value(
                req.record_type@,
                req.content@,
                req.srv_priority,
                req.srv_weight,
                req.srv_port,
                req.caa_flags,
                opt_string_view(req.caa_tag),
            );
            let base = seq![
                ("login_token"@, login_token@),
                ("format"@, "json"@),
                ("domain_id"@, domain_id@),
                ("record_id"@, req.id@),
                ("sub_domain"@, req.name@),
                ("record_type"@, req.record_type@),
                ("record_line"@, "默认"@),
                ("value"@, value),
                ("ttl"@, dec_str(req.ttl as nat)),
            ];
            if req.record_type@ == "MX"@ && req.mx_priority is Some {
                params.deep_view() =~~= base.push(("mx"@, dec_str(req.mx_priority->0 as nat)))
            } else {
                params.deep_view() =~~= base
            }
        }),
{
    let mut params = list_records_params(login_token, domain_id);
    push_pair(&mut params, "record_id", req.id.clone());
    push_pair(&mut params, "sub_domain", req.name.clone());
    push_pair(&mut params, "record_type", req.record_type.clone());
    push_pair(&mut params, "record_line", "默认".to_owned());
    let tag: Option<&str> = match &req.caa_tag {
        Some(t) => Some(t.as_str()),
        None => None,
    };
    let value = dnspod_value(
        req.record_type.as_str(),
        req.content.as_str(),
        req.srv_priority,
        req.srv_weight,
        req.srv_port,
        req.caa_flags,
        tag,
    );
    push_pair(&mut params, "value", value);
    push_pair(&mut params, "ttl", u32_to_string(req.ttl));
    if str_eq(req.record_type.as_str(), "MX") {
        match req.mx_priority {
            Some(mx) => {
                push_pair(&mut params, "mx", u16_to_string(mx));
            },
            None => {},
        }
    }
    params
}

/// The form parameters of a record removal call.
pub fn delete_record_params(login_token: &str, domain_id: &str, record_id: &str) -> (params: Vec<
    (String, String),
>)
    ensures
        params.deep_view() =~~= seq![
            ("login_token"@, login_token@),
            ("format"@, "json"@),
            ("domain_id"@, domain_id@),
            ("record_id"@, record_id@),
        ],
{
    let mut params = list_records_params(login_token, domain_id);
    push_pair(&mut params, "record_id", record_id.to_owned());
    params
}

/// What `parse::<u32>().ok()` yields on an optional text field.
pub open spec fn spec_opt_parse_u32(o: Option<Seq<char>>) -> Option<u32> {
    match o {
        Some(s) => if parses_as_uint(s, 0xffff_ffff) {
            Some(uint_val(s) as u32)
        } else {
            None
        },
        None => None,
    }
}

/// What `parse::<u16>().ok()` yields on an optional text field.
pub open spec fn spec_opt_parse_u16(o: Option<Seq<char>>) -> Option<u16> {
    match o {
        Some(s) => if parses_as_uint(s, 0xffff) {
            Some(uint_val(s) as u16)
        } else {
            None
        },
        None => None,
    }
}

impl DnspodDomain {
    /// Converts a zone row into a healthy domain item: the numeric id
    /// is rendered in decimal, the record count parsed best-effort, and
    /// the change time normalized from `%Y-%m-%d %H:%M:%S`.
    pub fn to_domain_item(self) -> (r: crate::types::DomainItem)
        ensures
            r.provider == Provider::Dnspod,
            r.name@ == self.name@,
            r.provider_id@ == dec_str(self.id as nat),
            r.status is Okay,
            r.records_count == spec_opt_parse_u32(Some(self.records@)),
            opt_string_view(r.last_changed_at) == crate::clock::ymd_hms_norm_of(self.updated_on@),
    {
        let records_count: Option<u32> = match parse_uint(self.records.as_str(), 0xffff_ffff) {
            Some(n) => Some(n as u32),
            None => None,
        };
        let last_changed_at = crate::clock::normalize_ymd_hms(self.updated_on.as_str());
        crate::types::DomainItem {
            provider: Provider::Dnspod,
            name: self.name,
            provider_id: crate::strings::u64_to_string(self.id),
            status: crate::types::DomainStatus::Okay,
            records_count,
            last_changed_at,
        }
    }
}

impl DnspodRecord {
    /// Converts a record row into the uniform model. Absent fields fall
    /// back to the values of the originating request; the record type
    /// defaults to `A`, the TTL to 600. The flat value is decoded by
    /// the shared codec.
    pub fn to_dns_record(
        self,
        domain_name: &str,
        default_record_type: Option<&str>,
        default_value: Option<String>,
        default_ttl: Option<u32>,
        default_mx: Option<u16>,
    ) -> (r: DnsRecord)
        ensures
            ({
                let rt = match self.record_type {
                    Some(t) => t@,
                    None => match opt_str_view(default_record_type) {
                        Some(t) => t,
                        None => "A"@,
                    },
                };
                let value = match self.value {
                    Some(v) => v@,
                    None => match opt_string_view(default_value) {
                        Some(v) => v,
                        None => Seq::<char>::empty(),
                    },
                };
                let d = spec_decode_value(rt, value);
                r.id@ == self.id@ && r.provider == Provider::Dnspod && r.domain@ == domain_name@
                    && r.record_type@ == rt && r.name@ == self.name@ && r.content@ == d.0 && r.ttl
                    == (match spec_opt_parse_u32(opt_string_view(self.ttl)) {
                    Some(t) => t,
                    None => match default_ttl {
                        Some(t) => t,
                        None => 600,
                    },
                }) && r.mx_priority == (match spec_opt_parse_u16(opt_string_view(self.mx)) {
                    Some(m) => Some(m),
                    None => default_mx,
                }) && r.srv_priority == d.1 && r.srv_weight == d.2 && r.srv_port == d.3
                    && r.caa_flags == d.4 && opt_string_view(r.caa_tag) == d.5
            }),
    {
        let record_type: String = match self.record_type {
            Some(t) => t,
            None => match default_record_type {
                Some(t) => t.to_owned(),
                None => "A".to_owned(),
            },
        };
        let value: String = match self.value {
            Some(v) => v,
            None => match default_value {
                Some(v) => v,
                None => String::new(),
            },
        };
        let decoded = parse_record_value(record_type.as_str(), value.as_str());
        let ttl: u32 = match self.ttl {
            Some(t) => match parse_uint(t.as_str(), 0xffff_ffff) {
                Some(n) => n as u32,
                None => match default_ttl {
                    Some(d) => d,
                    None => 600,
                },
            },
            None => match default_ttl {
                Some(d) => d,
                None => 600,
            },
        };
        let mx: Option<u16> = match self.mx {
            Some(m) => match parse_uint(m.as_str(), 0xffff) {
                Some(n) => Some(n as u16),
                None => default_mx,
            },
            None => default_mx,
        };
        DnsRecord {
            id: self.id,
            provider: Provider::Dnspod,
            domain: domain_name.to_owned(),
            record_type,
            name: self.name,
            content: decoded.0,
            ttl,
            mx_priority: mx,
            srv_priority: decoded.1,
            srv_weight: decoded.2,
            srv_port: decoded.3,
            caa_flags: decoded.4,
            caa_tag: decoded.5,
        }
    }
}

} // verus!
