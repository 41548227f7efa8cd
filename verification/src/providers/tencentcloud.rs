//! The derived-key provider: each call is a POST whose JSON body is
//! hashed into a canonical request, signed through the three-step
//! date, service and signing key derivation chain, and sent under a
//! composite `Authorization` header. The timestamp and date are read
//! once and reused across the header and the signature.

use vstd::prelude::*;
use vstd::string::*;
use vstd::utf8::encode_utf8;
use crate::clock::{normalize_rfc3339, normalize_ymd_hms, rfc3339_norm_of, ymd_hms_norm_of};
use crate::codec::{
    encode_record_value, parse_record_value, spec_decode_value, spec_record_value,
};
use crate::crypto::{hmac_sha256, hmac_sha256_of, sha256, sha256_of};
use crate::encoding::{hex_encode, hex_of};
use crate::errors::AppError;
use crate::json::{spec_as_str, spec_as_u64, spec_get, JsonValue};
use crate::strings::{
    contains_char, dec_str, has_char, i64_to_string, opt_string_view, parse_uint, parses_as_uint,
    trim_spec, trim_str, u64_to_string, uint_val,
};
use crate::types::{DnsRecord, DomainItem, DomainStatus, Provider};

verus! {

/// What `str::trim` plus `parse::<u64>().ok()` yields.
pub open spec fn spec_parse_u64(s: Seq<char>) -> Option<u64> {
    if parses_as_uint(trim_spec(s), 0xffff_ffff_ffff_ffff) {
        Some(uint_val(trim_spec(s)) as u64)
    } else {
        None
    }
}

/// Parses a numeric id, ignoring surrounding whitespace.
pub fn parse_u64(value: &str) -> (r: Option<u64>)
    ensures
        r == spec_parse_u64(value@),
{
    parse_uint(trim_str(value), 0xffff_ffff_ffff_ffff)
}

/// A string field of a response object: a string value, or an unsigned
/// integer rendered in decimal.
pub open spec fn spec_extract_string(v: JsonValue, key: Seq<char>) -> Option<Seq<char>> {
    match spec_get(v, key) {
        Some(j) => match spec_as_str(j) {
            Some(s) => Some(s),
            None => match spec_as_u64(j) {
                Some(n) => Some(dec_str(n as nat)),
                None => None,
            },
        },
        None => None,
    }
}

/// Reads a string field, accepting a number rendered in decimal.
pub fn extract_string(value: &JsonValue, key: &str) -> (r: Option<String>)
    ensures
        opt_string_view(r) == spec_extract_string(*value, key@),
{
    match value.get(key) {
        Some(j) => {
            match j.as_str() {
                Some(s) => {
                    return Some(s.to_owned());
                },
                None => {},
            }
            match j.as_u64() {
                Some(n) => {
                    return Some(u64_to_string(n));
                },
                None => {},
            }
            None
        },
        None => None,
    }
}

/// A `u32` field of a response object: an in-range unsigned value or a
/// parsed string.
pub open spec fn spec_extract_u32(v: JsonValue, key: Seq<char>) -> Option<u32> {
    match spec_get(v, key) {
        Some(j) => match spec_as_u64(j) {
            Some(n) => if n <= 0xffff_ffff {
                Some(n as u32)
            } else {
                None
            },
            None => match spec_as_str(j) {
                Some(s) => if parses_as_uint(s, 0xffff_ffff) {
                    Some(uint_val(s) as u32)
                } else {
                    None
                },
                None => None,
            },
        },
        None => None,
    }
}

pub fn extract_u32(value: &JsonValue, key: &str) -> (r: Option<u32>)
    ensures
        r == spec_extract_u32(*value, key@),
{
    match value.get(key) {
        Some(j) => {
            match j.as_u64() {
                Some(n) => {
                    if n <= 0xffff_ffff {
                        return Some(n as u32);
                    } else {
                        return None;
                    }
                },
                None => {},
            }
            match j.as_str() {
                Some(s) => {
                    match parse_uint(s, 0xffff_ffff) {
                        Some(n) => Some(n as u32),
                        None => None,
                    }
                },
                None => None,
            }
        },
        None => None,
    }
}

/// A `u16` field of a response object.
pub open spec fn spec_extract_u16(v: JsonValue, key: Seq<char>) -> Option<u16> {
    match spec_get(v, key) {
        Some(j) => match spec_as_u64(j) {
            Some(n) => if n <= 0xffff {
                Some(n as u16)
            } else {
                None
            },
            None => match spec_as_str(j) {
                Some(s) => if parses_as_uint(s, 0xffff) {
                    Some(uint_val(s) as u16)
                } else {
                    None
                },
                None => None,
            },
        },
        None => None,
    }
}

pub fn extract_u16(value: &JsonValue, key: &str) -> (r: Option<u16>)
    ensures
        r == spec_extract_u16(*value, key@),
{
    match value.get(key) {
        Some(j) => {
            match j.as_u64() {
                Some(n) => {
                    if n <= 0xffff {
                        return Some(n as u16);
                    } else {
                        return None;
                    }
                },
                None => {},
            }
            match j.as_str() {
                Some(s) => {
                    match parse_uint(s, 0xffff) {
                        Some(n) => Some(n as u16),
                        None => None,
                    }
                },
                None => None,
            }
        },
        None => None,
    }
}

/// Normalizes a timestamp that arrives either in RFC 3339 form or as
/// `%Y-%m-%d %H:%M:%S`, re-rendered in RFC 3339 form.
pub fn normalize_datetime(value: &str) -> (r: Option<String>)
    ensures
        opt_string_view(r) == (match rfc3339_norm_of(value@) {
            Some(t) => Some(t),
            None => ymd_hms_norm_of(value@),
        }),
{
    match normalize_rfc3339(value) {
        Some(t) => Some(t),
        None => normalize_ymd_hms(value),
    }
}

/// The provider's flat record value for a request.
pub fn tencent_value(
    record_type: &str,
    content: &str,
    srv_priority: Option<u16>,
    srv_weight: Option<u16>,
    srv_port: Option<u16>,
    caa_flags: Option<u8>,
    caa_tag: Option<&str>,
) -> (r: String)
    ensures
        r@ == spec_record_value(
            record_type@,
            content@,
            srv_priority,
            srv_weight,
            srv_port,
            caa_flags,
            crate::strings::opt_str_view(caa_tag),
        ),
{
    encode_record_value(record_type, content, srv_priority, srv_weight, srv_port, caa_flags, caa_tag)
}

/// The zone selector of every payload: the zone name is required (the
/// id stands in where the name is empty but looks like a domain), and a
/// positive numeric id is sent alongside.
pub fn domain_selector(domain_id: &str, domain_name: &str) -> (r: Result<
    Vec<(String, JsonValue)>,
    AppError,
>)
    ensures
        ({
            let name = trim_spec(domain_name@);
            let fallback = trim_spec(domain_id@);
            let chosen = if name.len() > 0 {
                name
            } else if fallback.len() > 0 && has_char(fallback, '.') {
                fallback
            } else {
                name
            };
            let id = match spec_parse_u64(domain_id@) {
                Some(n) => n,
                None => 0,
            };
            &&& (r is Ok) == (chosen.len() > 0)
            &&& r matches Ok(pairs) ==> pairs@.len() == (if id > 0 {
                2int
            } else {
                1int
            }) && pairs@[0].0@ == "Domain"@ && spec_as_str(pairs@[0].1) == Some(chosen) && (id > 0
                ==> pairs@[1].0@ == "DomainId"@ && pairs@[1].1 == JsonValue::UInt(id))
            &&& r matches Err(e) ==> e.code@ == "invalid_input"@ && e.message@
                == "domain is required"@
        }),
{
    let name_trimmed = trim_str(domain_name);
    let fallback = trim_str(domain_id);
    let use_fallback = name_trimmed.unicode_len() == 0 && fallback.unicode_len() > 0
        && contains_char(fallback, '.');
    let chosen: &str = if use_fallback {
        fallback
    } else {
        name_trimmed
    };
    if chosen.unicode_len() == 0 {
        return Err(AppError::new("invalid_input", "domain is required"));
    }
    let mut pairs: Vec<(String, JsonValue)> = Vec::new();
    pairs.push(("Domain".to_owned(), JsonValue::Str(chosen.to_owned())));
    let id: u64 = match parse_u64(domain_id) {
        Some(n) => n,
        None => 0,
    };
    if id > 0 {
        pairs.push(("DomainId".to_owned(), JsonValue::UInt(id)));
    }
    Ok(pairs)
}

/// The canonical request of a call: a fixed POST preamble over the two
/// signed headers and the hex SHA-256 of the body.
pub open spec fn spec_canonical_request(payload: Seq<char>) -> Seq<char> {
    "POST\n/\n\ncontent-type:application/json; charset=utf-8\nhost:dnspod.tencentcloudapi.com\n\ncontent-type;host\n"@
        + hex_of(sha256_of(encode_utf8(payload)))
}

/// The credential scope of a date.
pub open spec fn spec_credential_scope(date: Seq<char>) -> Seq<char> {
    date + "/dnspod/tc3_request"@
}

/// The string to sign: algorithm, timestamp, scope and the hex SHA-256
/// of the canonical request.
pub open spec fn spec_string_to_sign(timestamp: int, date: Seq<char>, payload: Seq<char>) -> Seq<
    char,
> {
    "TC3-HMAC-SHA256\n"@ + crate::strings::dec_str_i64(timestamp) + "\n"@ + spec_credential_scope(
        date,
    ) + "\n"@ + hex_of(sha256_of(encode_utf8(spec_canonical_request(payload))))
}

/// The three-step derived signing key: date key under `"TC3" + secret`,
/// then service key, then signing key.
pub open spec fn spec_signing_key(secret_key: Seq<char>, date: Seq<char>) -> Seq<u8> {
    let secret_date = hmac_sha256_of(encode_utf8("TC3"@ + secret_key), encode_utf8(date));
    let secret_service = hmac_sha256_of(secret_date, encode_utf8("dnspod"@));
    hmac_sha256_of(secret_service, encode_utf8("tc3_request"@))
}

/// The signature of a call.
pub open spec fn spec_signature(
    secret_key: Seq<char>,
    timestamp: int,
    date: Seq<char>,
    payload: Seq<char>,
) -> Seq<char> {
    hex_of(
        hmac_sha256_of(
            spec_signing_key(secret_key, date),
            encode_utf8(spec_string_to_sign(timestamp, date, payload)),
        ),
    )
}

/// The composite `Authorization` value.
pub open spec fn spec_authorization(
    secret_id: Seq<char>,
    secret_key: Seq<char>,
    timestamp: int,
    date: Seq<char>,
    payload: Seq<char>,
) -> Seq<char> {
    "TC3-HMAC-SHA256 Credential="@ + secret_id + "/"@ + spec_credential_scope(date)
        + ", SignedHeaders=content-type;host, Signature="@ + spec_signature(
        secret_key,
        timestamp,
        date,
        payload,
    )
}

/// Signs a call: the timestamp and date must come from one reading of
/// the clock, and `payload` must be the exact body sent.
pub fn authorization(
    secret_id: &str,
    secret_key: &str,
    timestamp: i64,
    date: &str,
    payload: &str,
) -> (r: String)
    ensures
        r@ == spec_authorization(secret_id@, secret_key@, timestamp as int, date@, payload@),
{
    let body_hash = sha256(payload.as_bytes());
    let body_hash_hex = hex_encode(body_hash.as_slice());
    let mut canonical = String::new();
    canonical.append(
        "POST\n/\n\ncontent-type:application/json; charset=utf-8\nhost:dnspod.tencentcloudapi.com\n\ncontent-type;host\n",
    );
    canonical.append(body_hash_hex.as_str());
    let mut scope = date.to_owned();
    scope.append("/dnspod/tc3_request");
    let canonical_hash = sha256(canonical.as_str().as_bytes());
    let canonical_hash_hex = hex_encode(canonical_hash.as_slice());
    let mut sts = String::new();
    sts.append("TC3-HMAC-SHA256\n");
    let ts = i64_to_string(timestamp);
    sts.append(ts.as_str());
    sts.append("\n");
    sts.append(scope.as_str());
    sts.append("\n");
    sts.append(canonical_hash_hex.as_str());
    let mut tc3_key = String::new();
    tc3_key.append("TC3");
    tc3_key.append(secret_key);
    let secret_date = hmac_sha256(tc3_key.as_str().as_bytes(), date.as_bytes());
    let secret_service = hmac_sha256(secret_date.as_slice(), "dnspod".as_bytes());
    let secret_signing = hmac_sha256(secret_service.as_slice(), "tc3_request".as_bytes());
    let mac = hmac_sha256(secret_signing.as_slice(), sts.as_str().as_bytes());
    let signature = hex_encode(mac.as_slice());
    let mut r = String::new();
    r.append("TC3-HMAC-SHA256 Credential=");
    r.append(secret_id);
    r.append("/");
    r.append(scope.as_str());
    r.append(", SignedHeaders=content-type;host, Signature=");
    r.append(signature.as_str());
    r
}

/// The body of the zone list call, in the provider's serialized member
/// order.
pub fn list_domains_payload() -> (pairs: Vec<(String, JsonValue)>)
    ensures
        pairs@.len() == 2,
        pairs@[0].0@ == "Limit"@ && pairs@[0].1 == JsonValue::UInt(200),
        pairs@[1].0@ == "Offset"@ && pairs@[1].1 == JsonValue::UInt(0),
{
    let mut pairs: Vec<(String, JsonValue)> = Vec::new();
    pairs.push(("Limit".to_owned(), JsonValue::UInt(200)));
    pairs.push(("Offset".to_owned(), JsonValue::UInt(0)));
    pairs
}

/// Appends `Limit` and `Offset` to a zone selector to form the record
/// list body, in the provider's serialized member order.
pub fn list_records_payload(selector: Vec<(String, JsonValue)>) -> (pairs: Vec<
    (String, JsonValue),
>)
    ensures
        pairs@.len() == selector@.len() + 2,
        forall|i: int| 0 <= i < selector@.len() ==> pairs@[i] == selector@[i],
        pairs@[selector@.len() as int].0@ == "Limit"@ && pairs@[selector@.len() as int].1
            == JsonValue::UInt(500),
        pairs@[selector@.len() as int + 1].0@ == "Offset"@ && pairs@[selector@.len() as int + 1].1
            == JsonValue::UInt(0),
{
    let mut pairs = selector;
    pairs.push(("Limit".to_owned(), JsonValue::UInt(500)));
    pairs.push(("Offset".to_owned(), JsonValue::UInt(0)));
    pairs
}

/// Appends the record fields to a zone selector to form a write body,
/// in the provider's serialized member order: the optional `MX`, the
/// optional `RecordId` of a rewrite, the default record line, type,
/// subdomain (empty host means the apex), TTL and flat value.
pub fn write_record_payload(
    selector: Vec<(String, JsonValue)>,
    record_id: Option<u64>,
    name: &str,
    record_type: &str,
    value: String,
    ttl: u32,
    mx: Option<u16>,
) -> (pairs: Vec<(String, JsonValue)>)
    ensures
        ({
            let n = selector@.len() as int;
            let mx_n: int = if mx is Some {
                1
            } else {
                0
            };
            let rid_n: int = if record_id is Some {
                1
            } else {
                0
            };
            let sub = if trim_spec(name@).len() == 0 {
                "@"@
            } else {
                name@
            };
            &&& pairs@.len() == n + mx_n + rid_n + 5
            &&& forall|i: int| 0 <= i < n ==> pairs@[i] == selector@[i]
            &&& (mx is Some ==> pairs@[n].0@ == "MX"@ && pairs@[n].1 == JsonValue::UInt(
                mx->0 as u64,
            ))
            &&& (record_id is Some ==> pairs@[n + mx_n].0@ == "RecordId"@ && pairs@[n + mx_n].1
                == JsonValue::UInt(record_id->0))
            &&& pairs@[n + mx_n + rid_n].0@ == "RecordLine"@ && spec_as_str(
                pairs@[n + mx_n + rid_n].1,
            ) == Some("默认"@)
            &&& pairs@[n + mx_n + rid_n + 1].0@ == "RecordType"@ && spec_as_str(
                pairs@[n + mx_n + rid_n + 1].1,
            ) == Some(record_type@)
            &&& pairs@[n + mx_n + rid_n + 2].0@ == "SubDomain"@ && spec_as_str(
                pairs@[n + mx_n + rid_n + 2].1,
            ) == Some(sub)
            &&& pairs@[n + mx_n + rid_n + 3].0@ == "TTL"@ && pairs@[n + mx_n + rid_n + 3].1
                == JsonValue::UInt(ttl as u64)
            &&& pairs@[n + mx_n + rid_n + 4].0@ == "Value"@ && spec_as_str(
                pairs@[n + mx_n + rid_n + 4].1,
            ) == Some(value@)
        }),
{
    let mut pairs = selector;
    match mx {
        Some(m) => {
            pairs.push(("MX".to_owned(), JsonValue::UInt(m as u64)));
        },
        None => {},
    }
    match record_id {
        Some(rid) => {
            pairs.push(("RecordId".to_owned(), JsonValue::UInt(rid)));
        },
        None => {},
    }
    pairs.push(("RecordLine".to_owned(), JsonValue::Str("默认".to_owned())));
    pairs.push(("RecordType".to_owned(), JsonValue::Str(record_type.to_owned())));
    let sub: String = if trim_str(name).unicode_len() == 0 {
        "@".to_owned()
    } else {
        name.to_owned()
    };
    pairs.push(("SubDomain".to_owned(), JsonValue::Str(sub)));
    pairs.push(("TTL".to_owned(), JsonValue::UInt(ttl as u64)));
    pairs.push(("Value".to_owned(), JsonValue::Str(value)));
    pairs
}

/// Appends the record id to a zone selector to form the removal body.
pub fn delete_record_payload(selector: Vec<(String, JsonValue)>, record_id: u64) -> (pairs: Vec<
    (String, JsonValue),
>)
    ensures
        pairs@.len() == selector@.len() + 1,
        forall|i: int| 0 <= i < selector@.len() ==> pairs@[i] == selector@[i],
        pairs@[selector@.len() as int].0@ == "RecordId"@ && pairs@[selector@.len() as int].1
            == JsonValue::UInt(record_id),
{
    let mut pairs = selector;
    pairs.push(("RecordId".to_owned(), JsonValue::UInt(record_id)));
    pairs
}

/// Reads one record row of a list response: the id is required, the
/// rest falls back to defaults, and the flat value is decoded by the
/// shared codec.
pub fn parse_record_item(value: &JsonValue, domain_name: &str) -> (r: Option<DnsRecord>)
    ensures
        ({
            let id = spec_extract_string(*value, "RecordId"@);
            let rt = match spec_extract_string(*value, "Type"@) {
                Some(t) => t,
                None => "A"@,
            };
            let raw = match spec_extract_string(*value, "Value"@) {
                Some(v) => v,
                None => Seq::<char>::empty(),
            };
            let d = spec_decode_value(rt, raw);
            &&& (r is Some) == (id is Some)
            &&& r matches Some(rec) ==> Some(rec.id@) == id && rec.provider
                == Provider::Tencentcloud && rec.domain@ == domain_name@ && rec.record_type@ == rt
                && rec.name@ == (match spec_extract_string(*value, "Name"@) {
                Some(n) => n,
                None => "@"@,
            }) && rec.content@ == d.0 && rec.ttl == (match spec_extract_u32(*value, "TTL"@) {
                Some(t) => t,
                None => 600,
            }) && rec.mx_priority == spec_extract_u16(*value, "MX"@) && rec.srv_priority == d.1
                && rec.srv_weight == d.2 && rec.srv_port == d.3 && rec.caa_flags == d.4
                && opt_string_view(rec.caa_tag) == d.5
        }),
{
    let id = match extract_string(value, "RecordId") {
        Some(n) => n,
        None => {
            return None;
        },
    };
    let record_type: String = match extract_string(value, "Type") {
        Some(t) => t,
        None => "A".to_owned(),
    };
    let name: String = match extract_string(value, "Name") {
        Some(n) => n,
        None => "@".to_owned(),
    };
    let raw_value: String = match extract_string(value, "Value") {
        Some(v) => v,
        None => String::new(),
    };
    let ttl: u32 = match extract_u32(value, "TTL") {
        Some(t) => t,
        None => 600,
    };
    let mx_priority = extract_u16(value, "MX");
    let decoded = parse_record_value(record_type.as_str(), raw_value.as_str());
    Some(
        DnsRecord {
            id,
            provider: Provider::Tencentcloud,
            domain: domain_name.to_owned(),
            record_type,
            name,
            content: decoded.0,
            ttl,
            mx_priority,
            srv_priority: decoded.1,
            srv_weight: decoded.2,
            srv_port: decoded.3,
            caa_flags: decoded.4,
            caa_tag: decoded.5,
        },
    )
}

/// Reads the record out of a write response: the id under
/// `Response.RecordId`, or the known id of a rewrite, or zero; the
/// fields come from the request that was sent, decoded by the shared
/// codec.
pub fn parse_record_from_response(
    value: &JsonValue,
    domain_name: &str,
    record_type: &str,
    name: &str,
    content_raw: &str,
    ttl: u32,
    mx_priority: Option<u16>,
    record_id: Option<u64>,
) -> (r: DnsRecord)
    ensures
        ({
            let rid = match spec_get(*value, "Response"@) {
                Some(resp) => match spec_get(resp, "RecordId"@) {
                    Some(j) => spec_as_u64(j),
                    None => None,
                },
                None => None,
            };
            let chosen = match rid {
                Some(n) => n,
                None => match record_id {
                    Some(n) => n,
                    None => 0,
                },
            };
            let d = spec_decode_value(record_type@, content_raw@);
            &&& r.id@ == dec_str(chosen as nat)
            &&& r.provider == Provider::Tencentcloud
            &&& r.domain@ == domain_name@
            &&& r.record_type@ == record_type@
            &&& r.name@ == name@
            &&& r.content@ == d.0
            &&& r.ttl == ttl
            &&& r.mx_priority == mx_priority
            &&& r.srv_priority == d.1 && r.srv_weight == d.2 && r.srv_port == d.3 && r.caa_flags
                == d.4 && opt_string_view(r.caa_tag) == d.5
        }),
{
    let rid: Option<u64> = match value.get("Response") {
        Some(resp) => match resp.get("RecordId") {
            Some(j) => j.as_u64(),
            None => None,
        },
        None => None,
    };
    let chosen: u64 = match rid {
        Some(n) => n,
        None => match record_id {
            Some(n) => n,
            None => 0,
        },
    };
    let decoded = parse_record_value(record_type, content_raw);
    DnsRecord {
        id: u64_to_string(chosen),
        provider: Provider::Tencentcloud,
        domain: domain_name.to_owned(),
        record_type: record_type.to_owned(),
        name: name.to_owned(),
        content: decoded.0,
        ttl,
        mx_priority,
        srv_priority: decoded.1,
        srv_weight: decoded.2,
        srv_port: decoded.3,
        caa_flags: decoded.4,
        caa_tag: decoded.5,
    }
}

/// Reads one zone row of the zone list.
pub fn parse_domain_item(value: &JsonValue) -> (r: DomainItem)
    ensures
        r.provider == Provider::Tencentcloud,
        Some(r.name@) == (match spec_extract_string(*value, "Name"@) {
            Some(n) => Some(n),
            None => Some(Seq::<char>::empty()),
        }),
        Some(r.provider_id@) == (match spec_extract_string(*value, "DomainId"@) {
            Some(n) => Some(n),
            None => Some(Seq::<char>::empty()),
        }),
        r.status is Okay,
        r.records_count == spec_extract_u32(*value, "RecordCount"@),
        opt_string_view(r.last_changed_at) == (match spec_get(*value, "UpdatedOn"@) {
            Some(j) => match spec_as_str(j) {
                Some(s) => match rfc3339_norm_of(s) {
                    Some(t) => Some(t),
                    None => ymd_hms_norm_of(s),
                },
                None => None,
            },
            None => None,
        }),
{
    let name: String = match extract_string(value, "Name") {
        Some(n) => n,
        None => String::new(),
    };
    let id: String = match extract_string(value, "DomainId") {
        Some(n) => n,
        None => String::new(),
    };
    let records_count = extract_u32(value, "RecordCount");
    let last_changed_at: Option<String> = match value.get("UpdatedOn") {
        Some(j) => match j.as_str() {
            Some(s) => normalize_datetime(s),
            None => None,
        },
        None => None,
    };
    DomainItem {
        provider: Provider::Tencentcloud,
        name,
        provider_id: id,
        status: DomainStatus::Okay,
        records_count,
        last_changed_at,
    }
}

} // verus!
