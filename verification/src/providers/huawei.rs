//! The token-header FQDN provider: authenticates with a bearer token in
//! `X-Auth-Token`, works with trailing-dot record set names, and keeps
//! SRV and CAA values flat inside a record list.

use vstd::prelude::*;
use vstd::string::*;
use crate::clock::{normalize_rfc3339, rfc3339_norm_of};
use crate::codec::{
    encode_record_value, parse_record_value, spec_decode_value, spec_record_value,
};
use crate::names::{huawei_full_name, huawei_rr, spec_huawei_full_name, spec_huawei_rr,
    strip_dots_end, trim_trailing_dots};
use crate::strings::{opt_str_view, opt_string_view};
use crate::types::{DnsRecord, DomainItem, DomainStatus, Provider};

verus! {

/// One zone row; names arrive with a trailing dot.
pub struct HuaweiZone {
    pub id: String,
    pub name: String,
    pub record_num: Option<u32>,
    pub update_at: Option<String>,
}

/// One record set row; the flat values sit in `records`, of which the
/// first is read.
pub struct HuaweiRecordset {
    pub id: String,
    pub name: String,
    pub record_type: String,
    pub ttl: u32,
    pub records: Vec<String>,
    pub priority: Option<u16>,
}

/// The JSON payload of a record set write.
pub struct HuaweiRecordsetPayload {
    pub name: String,
    pub record_type: String,
    pub ttl: u32,
    pub records: Vec<String>,
}

/// The provider's flat record value for a request.
pub fn huawei_value(
    record_type: &str,
    content: &str,
    srv_priority: Option<u16>,
    srv_weight: Option<u16>,
    srv_port: Option<u16>,
    caa_flags: Option<u8>,
    caa_tag: Option<&str>,
) -> (r: String)
    ensures
        r@ == spec_record_value(
            record_type@,
            content@,
            srv_priority,
            srv_weight,
            srv_port,
            caa_flags,
            opt_str_view(caa_tag),
        ),
{
    encode_record_value(record_type, content, srv_priority, srv_weight, srv_port, caa_flags, caa_tag)
}

/// Decodes a flat record value into
/// `(content, srv_priority, srv_weight, srv_port, caa_flags, caa_tag)`.
pub fn parse_huawei_record_value(record_type: &str, value: &str) -> (r: (
    String,
    Option<u16>,
    Option<u16>,
    Option<u16>,
    Option<u8>,
    Option<String>,
))
    ensures
        ({
            let d = spec_decode_value(record_type@, value@);
            r.0@ == d.0 && r.1 == d.1 && r.2 == d.2 && r.3 == d.3 && r.4 == d.4
                && opt_string_view(r.5) == d.5
        }),
{
    parse_record_value(record_type, value)
}

/// Builds the record set payload of a write: the dot-terminated
/// absolute name and one flat value.
pub fn build_recordset_payload(
    domain_name: &str,
    host: &str,
    record_type: &str,
    ttl: u32,
    value: String,
) -> (p: HuaweiRecordsetPayload)
    ensures
        p.name@ == spec_huawei_full_name(domain_name@, host@),
        p.record_type@ == record_type@,
        p.ttl == ttl,
        p.records.deep_view() =~~= seq![value@],
{
    let name = huawei_full_name(domain_name, host);
    let mut records: Vec<String> = Vec::new();
    records.push(value);
    proof {
        assert(records.deep_view() =~~= seq![records@[0]@]);
    }
    HuaweiRecordsetPayload { name, record_type: record_type.to_owned(), ttl, records }
}

impl HuaweiRecordset {
    /// Converts a record set row into the uniform model: the first flat
    /// value is decoded by the shared codec (an empty string where the
    /// set is empty), and the name is mapped back to a relative label.
    pub fn to_dns_record(self, domain_name: &str) -> (r: DnsRecord)
        ensures
            ({
                let raw = if self.records@.len() > 0 {
                    self.records@[0]@
                } else {
                    Seq::<char>::empty()
                };
                let d = spec_decode_value(self.record_type@, raw);
                r.id@ == self.id@ && r.provider == Provider::Huawei && r.domain@ == domain_name@
                    && r.record_type@ == self.record_type@ && r.name@ == spec_huawei_rr(
                    self.name@,
                    domain_name@,
                ) && r.content@ == d.0 && r.ttl == self.ttl && r.mx_priority == self.priority
                    && r.srv_priority == d.1 && r.srv_weight == d.2 && r.srv_port == d.3
                    && r.caa_flags == d.4 && opt_string_view(r.caa_tag) == d.5
            }),
    {
        let raw: String = if self.records.len() > 0 {
            self.records[0].clone()
        } else {
            String::new()
        };
        let decoded = parse_huawei_record_value(self.record_type.as_str(), raw.as_str());
        let name = huawei_rr(self.name.as_str(), domain_name);
        DnsRecord {
            id: self.id,
            provider: Provider::Huawei,
            domain: domain_name.to_owned(),
            record_type: self.record_type,
            name,
            content: decoded.0,
            ttl: self.ttl,
            mx_priority: self.priority,
            srv_priority: decoded.1,
            srv_weight: decoded.2,
            srv_port: decoded.3,
            caa_flags: decoded.4,
            caa_tag: decoded.5,
        }
    }
}

impl HuaweiZone {
    /// Converts a zone row into a healthy domain item, dropping the
    /// trailing dot from the zone name.
    pub fn to_domain_item(self) -> (r: DomainItem)
        ensures
            r.provider == Provider::Huawei,
            r.name@ == strip_dots_end(self.name@),
            r.provider_id@ == self.id@,
            r.status is Okay,
            r.records_count == self.record_num,
            opt_string_view(r.last_changed_at) == (match opt_string_view(self.update_at) {
                Some(t) => rfc3339_norm_of(t),
                None => None,
            }),
    {
        let name = trim_trailing_dots(self.name.as_str()).to_owned();
        let last_changed_at: Option<String> = match &self.update_at {
            Some(t) => normalize_rfc3339(t.as_str()),
            None => None,
        };
        DomainItem {
            provider: Provider::Huawei,
            name,
            provider_id: self.id,
            status: DomainStatus::Okay,
            records_count: self.record_num,
            last_changed_at,
        }
    }
}

} // verus!
