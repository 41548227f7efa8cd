//! The bearer-header provider: credentials travel verbatim in
//! `X-Auth-Email` and `X-Auth-Key`, responses carry a
//! `{success, result, errors}` envelope, and SRV and CAA fields live in
//! a structured `data` object rather than a flat value.

use vstd::prelude::*;
use vstd::string::*;
use crate::encoding::pct_str;
use crate::json::{spec_as_str, spec_as_u64, spec_get, JsonValue};
use crate::names::{normalize_full_name, relative_host, spec_normalize_full_name,
    spec_relative_host, parse_srv_service_proto, spec_srv_service_proto};
use crate::strings::{opt_string_view, str_eq};
use crate::types::{DnsRecord, Provider};

verus! {

/// An error entry of the response envelope.
pub struct CfError {
    pub message: String,
}

/// The pagination block of a list response.
pub struct CfResultInfo {
    pub total_count: Option<u32>,
}

/// The `{success, result, errors, result_info}` envelope.
pub struct CfResponse<T> {
    pub success: bool,
    pub result: T,
    pub errors: Option<Vec<CfError>>,
    pub result_info: Option<CfResultInfo>,
}

/// One zone row.
pub struct CfZone {
    pub id: String,
    pub name: String,
    pub modified_on: Option<String>,
}

/// One record row; for SRV and CAA records the structured fields sit in
/// `data`.
pub struct CfDnsRecord {
    pub id: String,
    pub record_type: String,
    pub name: String,
    pub content: Option<String>,
    pub ttl: u32,
    pub priority: Option<u16>,
    pub data: Option<JsonValue>,
}

/// The payload of a record write; `data` carries the structured SRV or
/// CAA object where the type calls for one.
pub struct CfRecordPayload {
    pub record_type: String,
    pub name: String,
    pub content: Option<String>,
    pub ttl: u32,
    pub priority: Option<u16>,
    pub data: Option<JsonValue>,
}

impl<T> CfResponse<T> {
    /// The first error message of a failed response, or a fixed
    /// fallback.
    pub fn first_error_message(&self) -> (r: String)
        ensures
            r@ == (match self.errors {
                Some(es) => if es@.len() > 0 {
                    es@[0].message@
                } else {
                    "Unknown error"@
                },
                None => "Unknown error"@,
            }),
    {
        match &self.errors {
            Some(es) => {
                if es.len() > 0 {
                    es[0].message.clone()
                } else {
                    "Unknown error".to_owned()
                }
            },
            None => "Unknown error".to_owned(),
        }
    }
}

/// The filtered query `type={t}&name={n}` of server-side conflict
/// detection, percent-encoded, with the host in absolute form.
pub fn conflict_query(zone_name: &str, record_type: &str, host: &str) -> (r: String)
    ensures
        r@ == "type="@ + pct_str(record_type@) + "&name="@ + pct_str(
            spec_normalize_full_name(zone_name@, host@),
        ),
{
    let full_name = normalize_full_name(zone_name, host);
    let mut r = String::new();
    r.append("type=");
    let et = crate::encoding::percent_encode(record_type);
    r.append(et.as_str());
    r.append("&name=");
    let en = crate::encoding::percent_encode(full_name.as_str());
    r.append(en.as_str());
    r
}

/// The ids of the records in a filtered list response.
pub fn record_ids(records: &Vec<CfDnsRecord>) -> (ids: Vec<String>)
    ensures
        ids@.len() == records@.len(),
        forall|i: int| 0 <= i < ids@.len() ==> ids@[i]@ == #[trigger] records@[i].id@,
{
    let mut ids: Vec<String> = Vec::new();
    let mut i: usize = 0;
    while i < records.len()
        invariant
            i <= records.len(),
            ids@.len() == i,
            forall|j: int| 0 <= j < i ==> ids@[j]@ == #[trigger] records@[j].id@,
        decreases records.len() - i,
    {
        ids.push(records[i].id.clone());
        i = i + 1;
    }
    ids
}

/// A `u64` truncated to 16 bits, as an `as` cast would do.
pub open spec fn low_u16(n: u64) -> u16 {
    (n % 0x10000) as u16
}

/// A `u64` truncated to 8 bits, as an `as` cast would do.
pub open spec fn low_u8(n: u64) -> u8 {
    (n % 0x100) as u8
}

/// A `u16` field read from a structured `data` object.
pub open spec fn spec_data_u16(data: Option<JsonValue>, key: Seq<char>) -> Option<u16> {
    match data {
        Some(d) => match spec_get(d, key) {
            Some(j) => match spec_as_u64(j) {
                Some(n) => Some(low_u16(n)),
                None => None,
            },
            None => None,
        },
        None => None,
    }
}

/// A `u8` field read from a structured `data` object.
pub open spec fn spec_data_u8(data: Option<JsonValue>, key: Seq<char>) -> Option<u8> {
    match data {
        Some(d) => match spec_get(d, key) {
            Some(j) => match spec_as_u64(j) {
                Some(n) => Some(low_u8(n)),
                None => None,
            },
            None => None,
        },
        None => None,
    }
}

/// A string field read from a structured `data` object.
pub open spec fn spec_data_str(data: Option<JsonValue>, key: Seq<char>) -> Option<Seq<char>> {
    match data {
        Some(d) => match spec_get(d, key) {
            Some(j) => spec_as_str(j),
            None => None,
        },
        None => None,
    }
}

fn data_u16(data: &Option<JsonValue>, key: &str) -> (r: Option<u16>)
    ensures
        r == spec_data_u16(*data, key@),
{
    match data {
        Some(d) => match d.get(key) {
            Some(j) => match j.as_u64() {
                Some(n) => Some((n % 0x10000) as u16),
                None => None,
            },
            None => None,
        },
        None => None,
    }
}

fn data_u8(data: &Option<JsonValue>, key: &str) -> (r: Option<u8>)
    ensures
        r == spec_data_u8(*data, key@),
{
    match data {
        Some(d) => match d.get(key) {
            Some(j) => match j.as_u64() {
                Some(n) => Some((n % 0x100) as u8),
                None => None,
            },
            None => None,
        },
        None => None,
    }
}

fn data_str(data: &Option<JsonValue>, key: &str) -> (r: Option<String>)
    ensures
        opt_string_view(r) == spec_data_str(*data, key@),
{
    match data {
        Some(d) => match d.get(key) {
            Some(j) => match j.as_str() {
                Some(s) => Some(s.to_owned()),
                None => None,
            },
            None => None,
        },
        None => None,
    }
}

impl CfDnsRecord {
    /// Converts a record row into the uniform model: the absolute name
    /// is mapped back to a relative label; MX priority comes from the
    /// envelope, SRV and CAA fields from the structured `data` object,
    /// whose `target` or `value` replaces the content.
    pub fn to_dns_record(self, zone_name: &str) -> (r: DnsRecord)
        ensures
            r.id@ == self.id@,
            r.provider == Provider::Cloudflare,
            r.domain@ == zone_name@,
            r.record_type@ == self.record_type@,
            r.name@ == spec_relative_host(zone_name@, self.name@),
            r.ttl == self.ttl,
            self.record_type@ == "MX"@ ==> r.mx_priority == self.priority,
            self.record_type@ != "MX"@ ==> r.mx_priority is None,
            self.record_type@ == "SRV"@ ==> r.srv_priority == spec_data_u16(self.data, "priority"@)
                && r.srv_weight == spec_data_u16(self.data, "weight"@) && r.srv_port
                == spec_data_u16(self.data, "port"@),
            self.record_type@ != "SRV"@ ==> r.srv_priority is None && r.srv_weight is None
                && r.srv_port is None,
            self.record_type@ == "CAA"@ ==> r.caa_flags == spec_data_u8(self.data, "flags"@)
                && opt_string_view(r.caa_tag) == spec_data_str(self.data, "tag"@),
            self.record_type@ != "CAA"@ ==> r.caa_flags is None && r.caa_tag is None,
            r.content@ == (if self.record_type@ == "SRV"@ && spec_data_str(self.data, "target"@)
                is Some {
                spec_data_str(self.data, "target"@)->0
            } else if self.record_type@ == "CAA"@ && spec_data_str(self.data, "value"@) is Some {
                spec_data_str(self.data, "value"@)->0
            } else {
                match opt_string_view(self.content) {
                    Some(c) => c,
                    None => Seq::<char>::empty(),
                }
            }),
    {
        let host = relative_host(zone_name, self.name.as_str());
        let mut content: String = match self.content {
            Some(c) => c,
            None => String::new(),
        };
        let mut mx_priority: Option<u16> = None;
        let mut srv_priority: Option<u16> = None;
        let mut srv_weight: Option<u16> = None;
        let mut srv_port: Option<u16> = None;
        let mut caa_flags: Option<u8> = None;
        let mut caa_tag: Option<String> = None;
        if str_eq(self.record_type.as_str(), "MX") {
            mx_priority = self.priority;
        } else if str_eq(self.record_type.as_str(), "SRV") {
            srv_priority = data_u16(&self.data, "priority");
            srv_weight = data_u16(&self.data, "weight");
            srv_port = data_u16(&self.data, "port");
            match data_str(&self.data, "target") {
                Some(target) => {
                    content = target;
                },
                None => {},
            }
        } else if str_eq(self.record_type.as_str(), "CAA") {
            caa_flags = data_u8(&self.data, "flags");
            caa_tag = data_str(&self.data, "tag");
            match data_str(&self.data, "value") {
                Some(value) => {
                    content = value;
                },
                None => {},
            }
        }
        proof {
            crate::validate::proof_mx_srv_caa_distinct();
        }
        DnsRecord {
            id: self.id,
            provider: Provider::Cloudflare,
            domain: zone_name.to_owned(),
            record_type: self.record_type,
            name: host,
            content,
            ttl: self.ttl,
            mx_priority,
            srv_priority,
            srv_weight,
            srv_port,
            caa_flags,
            caa_tag,
        }
    }
}

/// Builds the write payload shared by creation and rewrite: SRV and CAA
/// records carry their structured fields in `data` (with the service
/// and protocol labels read from the host), MX records their priority,
/// and every other type its plain content.
pub fn build_cf_payload_common(
    zone_name: &str,
    record_type: &str,
    host: &str,
    content: &str,
    ttl: u32,
    mx_priority: Option<u16>,
    srv_priority: Option<u16>,
    srv_weight: Option<u16>,
    srv_port: Option<u16>,
    caa_flags: Option<u8>,
    caa_tag: Option<&str>,
) -> (p: CfRecordPayload)
    ensures
        p.record_type@ == record_type@,
        p.name@ == spec_normalize_full_name(zone_name@, host@),
        p.ttl == ttl,
        record_type@ == "SRV"@ ==> p.content is None && p.priority is None && (
        p.data matches Some(d) && (d matches JsonValue::Obj(pairs) && {
            let sp = spec_srv_service_proto(host@);
            pairs@.len() == 7 && pairs@[0].0@ == "service"@ && spec_as_str(pairs@[0].1) == Some(
                sp.0,
            ) && pairs@[1].0@ == "proto"@ && spec_as_str(pairs@[1].1) == Some(sp.1) && pairs@[2].0@
                == "name"@ && spec_as_str(pairs@[2].1) == Some(zone_name@) && pairs@[3].0@
                == "priority"@ && pairs@[3].1 == JsonValue::UInt(
                crate::codec::opt_u16_or0(srv_priority) as u64,
            ) && pairs@[4].0@ == "weight"@ && pairs@[4].1 == JsonValue::UInt(
                crate::codec::opt_u16_or0(srv_weight) as u64,
            ) && pairs@[5].0@ == "port"@ && pairs@[5].1 == JsonValue::UInt(
                crate::codec::opt_u16_or0(srv_port) as u64,
            ) && pairs@[6].0@ == "target"@ && spec_as_str(pairs@[6].1) == Some(content@)
        })),
        record_type@ == "CAA"@ ==> p.content is None && p.priority is None && (
        p.data matches Some(d) && (d matches JsonValue::Obj(pairs) && pairs@.len() == 3
            && pairs@[0].0@ == "flags"@ && pairs@[0].1 == JsonValue::UInt(
            crate::codec::opt_u8_or0(caa_flags) as u64,
        ) && pairs@[1].0@ == "tag"@ && spec_as_str(pairs@[1].1) == Some(
            crate::codec::opt_tag_or_issue(crate::strings::opt_str_view(caa_tag)),
        ) && pairs@[2].0@ == "value"@ && spec_as_str(pairs@[2].1) == Some(content@))),
        record_type@ == "MX"@ ==> opt_string_view(p.content) == Some(content@) && p.priority
            == mx_priority && p.data is None,
        record_type@ != "SRV"@ && record_type@ != "CAA"@ && record_type@ != "MX"@ ==> (
        opt_string_view(p.content) == Some(content@) && p.priority is None && p.data is None),
{
    proof {
        crate::validate::proof_mx_srv_caa_distinct();
    }
    let full_name = normalize_full_name(zone_name, host);
    if str_eq(record_type, "SRV") {
        let sp = parse_srv_service_proto(host);
        let mut pairs: Vec<(String, JsonValue)> = Vec::new();
        push_member(&mut pairs, "service", JsonValue::Str(sp.0));
        push_member(&mut pairs, "proto", JsonValue::Str(sp.1));
        push_member(&mut pairs, "name", JsonValue::Str(zone_name.to_owned()));
        push_member(&mut pairs, "priority", JsonValue::UInt(opt_u16_or0(srv_priority) as u64));
        push_member(&mut pairs, "weight", JsonValue::UInt(opt_u16_or0(srv_weight) as u64));
        push_member(&mut pairs, "port", JsonValue::UInt(opt_u16_or0(srv_port) as u64));
        push_member(&mut pairs, "target", JsonValue::Str(content.to_owned()));
        CfRecordPayload {
            record_type: record_type.to_owned(),
            name: full_name,
            content: None,
            ttl,
            priority: None,
            data: Some(JsonValue::Obj(pairs)),
        }
    } else if str_eq(record_type, "CAA") {
        let mut pairs: Vec<(String, JsonValue)> = Vec::new();
        push_member(&mut pairs, "flags", JsonValue::UInt(opt_u8_or0(caa_flags) as u64));
        let tag: String = match caa_tag {
            Some(t) => t.to_owned(),
            None => "issue".to_owned(),
        };
        push_member(&mut pairs, "tag", JsonValue::Str(tag));
        push_member(&mut pairs, "value", JsonValue::Str(content.to_owned()));
        CfRecordPayload {
            record_type: record_type.to_owned(),
            name: full_name,
            content: None,
            ttl,
            priority: None,
            data: Some(JsonValue::Obj(pairs)),
        }
    } else if str_eq(record_type, "MX") {
        CfRecordPayload {
            record_type: record_type.to_owned(),
            name: full_name,
            content: Some(content.to_owned()),
            ttl,
            priority: mx_priority,
            data: None,
        }
    } else {
        CfRecordPayload {
            record_type: record_type.to_owned(),
            name: full_name,
            content: Some(content.to_owned()),
            ttl,
            priority: None,
            data: None,
        }
    }
}

fn push_member(pairs: &mut Vec<(String, JsonValue)>, k: &str, v: JsonValue)
    ensures
        final(pairs)@.len() == old(pairs)@.len() + 1,
        final(pairs)@[old(pairs)@.len() as int].0@ == k@,
        final(pairs)@[old(pairs)@.len() as int].1 == v,
        forall|i: int| 0 <= i < old(pairs)@.len() ==> final(pairs)@[i] == old(pairs)@[i],
{
    pairs.push((k.to_owned(), v));
}

fn opt_u16_or0(o: Option<u16>) -> (r: u16)
    ensures
        r == crate::codec::opt_u16_or0(o),
{
    match o {
        Some(v) => v,
        None => 0,
    }
}

fn opt_u8_or0(o: Option<u8>) -> (r: u8)
    ensures
        r == crate::codec::opt_u8_or0(o),
{
    match o {
        Some(v) => v,
        None => 0,
    }
}

} // verus!
