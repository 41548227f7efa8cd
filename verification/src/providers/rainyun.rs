//! The API-key provider with loosely-typed responses: authentication is
//! a bare `x-api-key` header, and domain and record rows may arrive
//! under several candidate key names, read through an ordered lookup
//! over the structured value model.

use vstd::prelude::*;
use vstd::string::*;
use crate::json::{spec_as_i64, spec_as_str, spec_as_u64, spec_get, JsonValue};
use crate::strings::{
    dec_str, dec_str_i64, i64_to_string, opt_string_view, parse_uint, parses_as_uint, trim_spec,
    trim_str, u64_to_string, uint_val,
};
use crate::types::{DnsRecord, DomainItem, DomainStatus, Provider};

verus! {

/// The JSON payload of a record write; a record id of zero means a
/// creation.
pub struct RainyunRecordPayload {
    pub host: String,
    pub level: u32,
    pub line: String,
    pub rain_product_id: u64,
    pub rain_product_type: String,
    pub record_id: u64,
    pub ttl: u32,
    pub record_type: String,
    pub value: String,
}

/// What `str::trim` plus `parse::<u64>().ok()` yields.
pub open spec fn spec_parse_u64(s: Seq<char>) -> Option<u64> {
    if parses_as_uint(trim_spec(s), 0xffff_ffff_ffff_ffff) {
        Some(uint_val(trim_spec(s)) as u64)
    } else {
        None
    }
}

/// Parses a numeric id, ignoring surrounding whitespace.
pub fn parse_u64(value: &str) -> (r: Option<u64>)
    ensures
        r == spec_parse_u64(value@),
{
    parse_uint(trim_str(value), 0xffff_ffff_ffff_ffff)
}

/// Builds the write payload: default level and line, the product id
/// parsed from the zone id (zero where it does not parse), and the
/// record id of the record being rewritten, or zero for a creation.
pub fn build_record_payload(
    domain_id: &str,
    record_id: u64,
    host: &str,
    record_type: &str,
    value: &str,
    ttl: u32,
) -> (p: RainyunRecordPayload)
    ensures
        p.host@ == host@,
        p.level == 0,
        p.line@ == "DEFAULT"@,
        p.rain_product_id == (match spec_parse_u64(domain_id@) {
            Some(n) => n,
            None => 0,
        }),
        p.rain_product_type@ == "rcs"@,
        p.record_id == record_id,
        p.ttl == ttl,
        p.record_type@ == record_type@,
        p.value@ == value@,
{
    let rain_product_id: u64 = match parse_u64(domain_id) {
        Some(n) => n,
        None => 0,
    };
    RainyunRecordPayload {
        host: host.to_owned(),
        level: 0,
        line: "DEFAULT".to_owned(),
        rain_product_id,
        rain_product_type: "rcs".to_owned(),
        record_id,
        ttl,
        record_type: record_type.to_owned(),
        value: value.to_owned(),
    }
}

/// What one candidate key yields for a text field: a string value, or a
/// signed or unsigned integer rendered in decimal.
pub open spec fn spec_string_of(j: JsonValue) -> Option<Seq<char>> {
    match spec_as_str(j) {
        Some(s) => Some(s),
        None => match spec_as_i64(j) {
            Some(n) => Some(dec_str_i64(n as int)),
            None => match spec_as_u64(j) {
                Some(n) => Some(dec_str(n as nat)),
                None => None,
            },
        },
    }
}

/// The first candidate key whose value reads as text.
pub open spec fn spec_extract_string(v: JsonValue, keys: Seq<Seq<char>>) -> Option<Seq<char>>
    decreases keys.len(),
{
    if keys.len() == 0 {
        None
    } else {
        match spec_get(v, keys[0]) {
            Some(j) => match spec_string_of(j) {
                Some(s) => Some(s),
                None => spec_extract_string(v, keys.skip(1)),
            },
            None => spec_extract_string(v, keys.skip(1)),
        }
    }
}

/// Reads a text field under the first matching candidate key, as the
/// original candidate-key lookup does: strings are taken as they are,
/// integers rendered in decimal.
pub fn extract_string(value: &JsonValue, keys: &[&str]) -> (r: Option<String>)
    ensures
        opt_string_view(r) == spec_extract_string(*value, keys.deep_view()),
{
    let ghost kdv = keys.deep_view();
    let mut i: usize = 0;
    proof {
        assert(kdv.skip(0) =~= kdv);
    }
    while i < keys.len()
        invariant
            i <= keys.len(),
            kdv == keys.deep_view(),
            kdv.len() == keys@.len(),
            spec_extract_string(*value, kdv.skip(i as int)) == spec_extract_string(*value, kdv),
        decreases keys.len() - i,
    {
        proof {
            assert(kdv.skip(i as int)[0] == kdv[i as int]);
            assert(kdv[i as int] == keys@[i as int]@);
            assert(kdv.skip(i as int).skip(1) =~= kdv.skip(i + 1));
        }
        match value.get(keys[i]) {
            Some(j) => {
                match j.as_str() {
                    Some(s) => {
                        return Some(s.to_owned());
                    },
                    None => {},
                }
                match j.as_i64() {
                    Some(n) => {
                        return Some(i64_to_string(n));
                    },
                    None => {},
                }
                match j.as_u64() {
                    Some(n) => {
                        return Some(u64_to_string(n));
                    },
                    None => {},
                }
            },
            None => {},
        }
        i = i + 1;
    }
    proof {
        assert(kdv.skip(keys@.len() as int).len() == 0);
    }
    None
}

/// What one candidate key yields for a `u32` field: an in-range
/// unsigned value (out of range stops the search), or a parsed string.
pub open spec fn spec_extract_u32(v: JsonValue, keys: Seq<Seq<char>>) -> Option<u32>
    decreases keys.len(),
{
    if keys.len() == 0 {
        None
    } else {
        match spec_get(v, keys[0]) {
            Some(j) => match spec_as_u64(j) {
                Some(n) => if n <= 0xffff_ffff {
                    Some(n as u32)
                } else {
                    None
                },
                None => match spec_as_str(j) {
                    Some(s) => if parses_as_uint(s, 0xffff_ffff) {
                        Some(uint_val(s) as u32)
                    } else {
                        spec_extract_u32(v, keys.skip(1))
                    },
                    None => spec_extract_u32(v, keys.skip(1)),
                },
            },
            None => spec_extract_u32(v, keys.skip(1)),
        }
    }
}

/// Reads a `u32` field under the first matching candidate key.
pub fn extract_u32(value: &JsonValue, keys: &[&str]) -> (r: Option<u32>)
    ensures
        r == spec_extract_u32(*value, keys.deep_view()),
{
    let ghost kdv = keys.deep_view();
    let mut i: usize = 0;
    proof {
        assert(kdv.skip(0) =~= kdv);
    }
    while i < keys.len()
        invariant
            i <= keys.len(),
            kdv == keys.deep_view(),
            kdv.len() == keys@.len(),
            spec_extract_u32(*value, kdv.skip(i as int)) == spec_extract_u32(*value, kdv),
        decreases keys.len() - i,
    {
        proof {
            assert(kdv.skip(i as int)[0] == kdv[i as int]);
            assert(kdv[i as int] == keys@[i as int]@);
            assert(kdv.skip(i as int).skip(1) =~= kdv.skip(i + 1));
        }
        match value.get(keys[i]) {
            Some(j) => {
                match j.as_u64() {
                    Some(n) => {
                        if n <= 0xffff_ffff {
                            return Some(n as u32);
                        } else {
                            return None;
                        }
                    },
                    None => {},
                }
                match j.as_str() {
                    Some(s) => {
                        match parse_uint(s, 0xffff_ffff) {
                            Some(n) => {
                                return Some(n as u32);
                            },
                            None => {},
                        }
                    },
                    None => {},
                }
            },
            None => {},
        }
        i = i + 1;
    }
    proof {
        assert(kdv.skip(keys@.len() as int).len() == 0);
    }
    None
}

/// What one candidate key yields for a `u16` field.
pub open spec fn spec_extract_u16(v: JsonValue, keys: Seq<Seq<char>>) -> Option<u16>
    decreases keys.len(),
{
    if keys.len() == 0 {
        None
    } else {
        match spec_get(v, keys[0]) {
            Some(j) => match spec_as_u64(j) {
                Some(n) => if n <= 0xffff {
                    Some(n as u16)
                } else {
                    None
                },
                None => match spec_as_str(j) {
                    Some(s) => if parses_as_uint(s, 0xffff) {
                        Some(uint_val(s) as u16)
                    } else {
                        spec_extract_u16(v, keys.skip(1))
                    },
                    None => spec_extract_u16(v, keys.skip(1)),
                },
            },
            None => spec_extract_u16(v, keys.skip(1)),
        }
    }
}

/// Reads a `u16` field under the first matching candidate key.
pub fn extract_u16(value: &JsonValue, keys: &[&str]) -> (r: Option<u16>)
    ensures
        r == spec_extract_u16(*value, keys.deep_view()),
{
    let ghost kdv = keys.deep_view();
    let mut i: usize = 0;
    proof {
        assert(kdv.skip(0) =~= kdv);
    }
    while i < keys.len()
        invariant
            i <= keys.len(),
            kdv == keys.deep_view(),
            kdv.len() == keys@.len(),
            spec_extract_u16(*value, kdv.skip(i as int)) == spec_extract_u16(*value, kdv),
        decreases keys.len() - i,
    {
        proof {
            assert(kdv.skip(i as int)[0] == kdv[i as int]);
            assert(kdv[i as int] == keys@[i as int]@);
            assert(kdv.skip(i as int).skip(1) =~= kdv.skip(i + 1));
        }
        match value.get(keys[i]) {
            Some(j) => {
                match j.as_u64() {
                    Some(n) => {
                        if n <= 0xffff {
                            return Some(n as u16);
                        } else {
                            return None;
                        }
                    },
                    None => {},
                }
                match j.as_str() {
                    Some(s) => {
                        match parse_uint(s, 0xffff) {
                            Some(n) => {
                                return Some(n as u16);
                            },
                            None => {},
                        }
                    },
                    None => {},
                }
            },
            None => {},
        }
        i = i + 1;
    }
    proof {
        assert(kdv.skip(keys@.len() as int).len() == 0);
    }
    None
}

pub open spec fn spec_as_arr(v: JsonValue) -> Option<Seq<JsonValue>> {
    match v {
        JsonValue::Arr(items) => Some(items@),
        _ => None,
    }
}

/// The row array of a response, looked for under the candidate paths in
/// order: the value itself, `data`, `data.data`, `data.list`, `list`,
/// `records`, `items`.
pub open spec fn spec_extract_array(v: JsonValue) -> Option<Seq<JsonValue>> {
    let direct = spec_as_arr(v);
    let d = spec_get(v, "data"@);
    let d_arr = match d {
        Some(x) => spec_as_arr(x),
        None => None,
    };
    let dd_arr = match d {
        Some(x) => match spec_get(x, "data"@) {
            Some(y) => spec_as_arr(y),
            None => None,
        },
        None => None,
    };
    let dl_arr = match d {
        Some(x) => match spec_get(x, "list"@) {
            Some(y) => spec_as_arr(y),
            None => None,
        },
        None => None,
    };
    let l_arr = match spec_get(v, "list"@) {
        Some(y) => spec_as_arr(y),
        None => None,
    };
    let r_arr = match spec_get(v, "records"@) {
        Some(y) => spec_as_arr(y),
        None => None,
    };
    let i_arr = match spec_get(v, "items"@) {
        Some(y) => spec_as_arr(y),
        None => None,
    };
    if direct is Some {
        direct
    } else if d_arr is Some {
        d_arr
    } else if dd_arr is Some {
        dd_arr
    } else if dl_arr is Some {
        dl_arr
    } else if l_arr is Some {
        l_arr
    } else if r_arr is Some {
        r_arr
    } else {
        i_arr
    }
}

/// The candidate paths under which a response hides its row array: the
/// value itself, `data`, `data.data`, `data.list`, `list`, `records`,
/// or `items`.
pub fn extract_array<'a>(value: &'a JsonValue) -> (r: Option<&'a Vec<JsonValue>>)
    ensures
        r matches Some(a) ==> spec_extract_array(*value) == Some(a@),
        r is None ==> spec_extract_array(*value) is None,
{
    match value.as_array() {
        Some(a) => {
            return Some(a);
        },
        None => {},
    }
    match value.get("data") {
        Some(d) => {
            match d.as_array() {
                Some(a) => {
                    return Some(a);
                },
                None => {},
            }
            match d.get("data") {
                Some(dd) => {
                    match dd.as_array() {
                        Some(a) => {
                            return Some(a);
                        },
                        None => {},
                    }
                },
                None => {},
            }
            match d.get("list") {
                Some(dl) => {
                    match dl.as_array() {
                        Some(a) => {
                            return Some(a);
                        },
                        None => {},
                    }
                },
                None => {},
            }
        },
        None => {},
    }
    match value.get("list") {
        Some(l) => {
            match l.as_array() {
                Some(a) => {
                    return Some(a);
                },
                None => {},
            }
        },
        None => {},
    }
    match value.get("records") {
        Some(l) => {
            match l.as_array() {
                Some(a) => {
                    return Some(a);
                },
                None => {},
            }
        },
        None => {},
    }
    match value.get("items") {
        Some(l) => {
            match l.as_array() {
                Some(a) => {
                    return Some(a);
                },
                None => {},
            }
        },
        None => {},
    }
    None
}

/// Reads one zone row: the name and id are required, the record count
/// and change time best-effort.
pub fn parse_domain_item(value: &JsonValue) -> (r: Option<DomainItem>)
    ensures
        ({
            let name = spec_extract_string(*value, seq!["domain"@, "name"@, "domain_name"@]);
            let id = spec_extract_string(*value, seq!["id"@, "domain_id"@, "domainId"@]);
            &&& (r is Some) == (name is Some && id is Some)
            &&& r matches Some(item) ==> item.provider == Provider::Rainyun && Some(item.name@)
                == name && Some(item.provider_id@) == id && item.status is Okay
                && item.records_count == spec_extract_u32(
                *value,
                seq!["record_count"@, "records_count"@, "recordCount"@],
            ) && opt_string_view(item.last_changed_at) == spec_extract_string(
                *value,
                seq!["updated_at"@, "update_time"@, "updatedAt"@],
            )
        }),
{
    let name_keys: [&str; 3] = ["domain", "name", "domain_name"];
    let id_keys: [&str; 3] = ["id", "domain_id", "domainId"];
    let count_keys: [&str; 3] = ["record_count", "records_count", "recordCount"];
    let time_keys: [&str; 3] = ["updated_at", "update_time", "updatedAt"];
    proof {
        assert(name_keys.deep_view() =~~= seq!["domain"@, "name"@, "domain_name"@]);
        assert(id_keys.deep_view() =~~= seq!["id"@, "domain_id"@, "domainId"@]);
        assert(count_keys.deep_view() =~~= seq!["record_count"@, "records_count"@, "recordCount"@]);
        assert(time_keys.deep_view() =~~= seq!["updated_at"@, "update_time"@, "updatedAt"@]);
    }
    let name = match extract_string(value, name_keys.as_slice()) {
        Some(n) => n,
        None => {
            return None;
        },
    };
    let id = match extract_string(value, id_keys.as_slice()) {
        Some(n) => n,
        None => {
            return None;
        },
    };
    let records_count = extract_u32(value, count_keys.as_slice());
    let last_changed_at = extract_string(value, time_keys.as_slice());
    Some(
        DomainItem {
            provider: Provider::Rainyun,
            name,
            provider_id: id,
            status: DomainStatus::Okay,
            records_count,
            last_changed_at,
        },
    )
}

/// Reads one record row: id, type, host and content are required, the
/// rest best-effort; the provider reports structured fields under its
/// own key names.
pub fn parse_record_item(value: &JsonValue, domain_name: &str) -> (r: Option<DnsRecord>)
    ensures
        ({
            let id = spec_extract_string(*value, seq!["record_id"@, "id"@]);
            let rt = spec_extract_string(*value, seq!["type"@, "record_type"@, "recordType"@]);
            let host = spec_extract_string(*value, seq!["host"@, "name"@, "rr"@]);
            let content = spec_extract_string(*value, seq!["value"@, "content"@]);
            &&& (r is Some) == (id is Some && rt is Some && host is Some && content is Some)
            &&& r matches Some(rec) ==> Some(rec.id@) == id && rec.provider == Provider::Rainyun
                && rec.domain@ == domain_name@ && Some(rec.record_type@) == rt && Some(rec.name@)
                == host && Some(rec.content@) == content && rec.ttl == (
            match spec_extract_u32(*value, seq!["ttl"@]) {
                Some(t) => t,
                None => 600,
            }) && rec.mx_priority == spec_extract_u16(
                *value,
                seq!["mx"@, "priority"@, "mx_priority"@],
            ) && rec.srv_priority == spec_extract_u16(*value, seq!["srv_priority"@, "priority"@])
                && rec.srv_weight == spec_extract_u16(*value, seq!["srv_weight"@, "weight"@])
                && rec.srv_port == spec_extract_u16(*value, seq!["srv_port"@, "port"@])
                && rec.caa_flags is None && opt_string_view(rec.caa_tag) == spec_extract_string(
                *value,
                seq!["caa_tag"@, "tag"@],
            )
        }),
{
    let id_keys: [&str; 2] = ["record_id", "id"];
    let rt_keys: [&str; 3] = ["type", "record_type", "recordType"];
    let host_keys: [&str; 3] = ["host", "name", "rr"];
    let content_keys: [&str; 2] = ["value", "content"];
    let ttl_keys: [&str; 1] = ["ttl"];
    let mx_keys: [&str; 3] = ["mx", "priority", "mx_priority"];
    let sp_keys: [&str; 2] = ["srv_priority", "priority"];
    let sw_keys: [&str; 2] = ["srv_weight", "weight"];
    let spo_keys: [&str; 2] = ["srv_port", "port"];
    let tag_keys: [&str; 2] = ["caa_tag", "tag"];
    proof {
        assert(id_keys.deep_view() =~~= seq!["record_id"@, "id"@]);
        assert(rt_keys.deep_view() =~~= seq!["type"@, "record_type"@, "recordType"@]);
        assert(host_keys.deep_view() =~~= seq!["host"@, "name"@, "rr"@]);
        assert(content_keys.deep_view() =~~= seq!["value"@, "content"@]);
        assert(ttl_keys.deep_view() =~~= seq!["ttl"@]);
        assert(mx_keys.deep_view() =~~= seq!["mx"@, "priority"@, "mx_priority"@]);
        assert(sp_keys.deep_view() =~~= seq!["srv_priority"@, "priority"@]);
        assert(sw_keys.deep_view() =~~= seq!["srv_weight"@, "weight"@]);
        assert(spo_keys.deep_view() =~~= seq!["srv_port"@, "port"@]);
        assert(tag_keys.deep_view() =~~= seq!["caa_tag"@, "tag"@]);
    }
    let id = match extract_string(value, id_keys.as_slice()) {
        Some(n) => n,
        None => {
            return None;
        },
    };
    let record_type = match extract_string(value, rt_keys.as_slice()) {
        Some(n) => n,
        None => {
            return None;
        },
    };
    let host = match extract_string(value, host_keys.as_slice()) {
        Some(n) => n,
        None => {
            return None;
        },
    };
    let content = match extract_string(value, content_keys.as_slice()) {
        Some(n) => n,
        None => {
            return None;
        },
    };
    let ttl: u32 = match extract_u32(value, ttl_keys.as_slice()) {
        Some(t) => t,
        None => 600,
    };
    Some(
        DnsRecord {
            id,
            provider: Provider::Rainyun,
            domain: domain_name.to_owned(),
            record_type,
            name: host,
            content,
            ttl,
            mx_priority: extract_u16(value, mx_keys.as_slice()),
            srv_priority: extract_u16(value, sp_keys.as_slice()),
            srv_weight: extract_u16(value, sw_keys.as_slice()),
            srv_port: extract_u16(value, spo_keys.as_slice()),
            caa_flags: None,
            caa_tag: extract_string(value, tag_keys.as_slice()),
        },
    )
}

/// The part of a write response that carries the record row:
/// `data.record` where present, else `data`, else the body itself.
pub open spec fn spec_response_record(v: JsonValue) -> JsonValue {
    match spec_get(v, "data"@) {
        Some(d) => match spec_get(d, "record"@) {
            Some(rec) => rec,
            None => d,
        },
        None => v,
    }
}

/// Whether a row parses as a record: the id, type, host and content
/// candidates all yield a value.
pub open spec fn spec_row_parses(row: JsonValue) -> bool {
    spec_extract_string(row, seq!["record_id"@, "id"@]) is Some && spec_extract_string(
        row,
        seq!["type"@, "record_type"@, "recordType"@],
    ) is Some && spec_extract_string(row, seq!["host"@, "name"@, "rr"@]) is Some
        && spec_extract_string(row, seq!["value"@, "content"@]) is Some
}

/// Reads the record out of a write response, looking under
/// `data.record`, then `data`, then the body itself; where none parses,
/// the row is reconstructed from the request that was sent, under the
/// known record id or `"0"`.
pub fn parse_record_from_response(
    value: &JsonValue,
    domain_name: &str,
    record_id: Option<u64>,
    record_type: &str,
    name: &str,
    content: &str,
    ttl: u32,
    mx_priority: Option<u16>,
    srv_priority: Option<u16>,
    srv_weight: Option<u16>,
    srv_port: Option<u16>,
    caa_flags: Option<u8>,
    caa_tag: Option<&String>,
) -> (r: DnsRecord)
    ensures
        r.provider == Provider::Rainyun,
        r.domain@ == domain_name@,
        ({
            let row = spec_response_record(*value);
            if spec_row_parses(row) {
                Some(r.id@) == spec_extract_string(row, seq!["record_id"@, "id"@]) && Some(
                    r.record_type@,
                ) == spec_extract_string(row, seq!["type"@, "record_type"@, "recordType"@]) && Some(
                    r.name@,
                ) == spec_extract_string(row, seq!["host"@, "name"@, "rr"@]) && Some(r.content@)
                    == spec_extract_string(row, seq!["value"@, "content"@])
            } else {
                r.id@ == (match record_id {
                    Some(v) => dec_str(v as nat),
                    None => "0"@,
                }) && r.record_type@ == record_type@ && r.name@ == name@ && r.content@ == content@
                    && r.ttl == ttl && r.mx_priority == mx_priority && r.srv_priority
                    == srv_priority && r.srv_weight == srv_weight && r.srv_port == srv_port
                    && r.caa_flags == caa_flags && opt_string_view(r.caa_tag) == (match caa_tag {
                    Some(t) => Some(t@),
                    None => None,
                })
            }
        }),
{
    let record_value: &JsonValue = match value.get("data") {
        Some(d) => match d.get("record") {
            Some(rec) => rec,
            None => d,
        },
        None => value,
    };
    match parse_record_item(record_value, domain_name) {
        Some(record) => record,
        None => {
            let id: String = match record_id {
                Some(v) => u64_to_string(v),
                None => "0".to_owned(),
            };
            DnsRecord {
                id,
                provider: Provider::Rainyun,
                domain: domain_name.to_owned(),
                record_type: record_type.to_owned(),
                name: name.to_owned(),
                content: content.to_owned(),
                ttl,
                mx_priority,
                srv_priority,
                srv_weight,
                srv_port,
                caa_flags,
                caa_tag: match caa_tag {
                    Some(t) => Some(t.clone()),
                    None => None,
                },
            }
        },
    }
}

} // verus!
