//! The header-signing provider: each call carries `host` and
//! `x-bce-date` headers and an `Authorization` header derived from a
//! date-scoped signing key, HMAC-SHA256 over a canonical string of
//! method, URI, query and headers.

use vstd::prelude::*;
use vstd::string::*;
use vstd::utf8::encode_utf8;
use crate::clock::{normalize_rfc3339, rfc3339_norm_of};
use crate::codec::{
    encode_record_value, parse_record_value, spec_decode_value, spec_record_value,
};
use crate::crypto::{hmac_sha256, hmac_sha256_of};
use crate::encoding::{hex_encode, hex_of, pct_str, percent_encode};
use crate::strings::{dec_str, lex_le, opt_str_view, opt_string_view, trim_spec, trim_str};
use crate::types::{DnsRecord, DomainItem, DomainStatus, Provider};

verus! {

/// The fixed lifetime of a signature, in seconds.
pub const SIGN_EXPIRES: u32 = 1800;

/// One zone row of the zone list.
pub struct BaiduZone {
    pub id: String,
    pub name: String,
    pub record_count: Option<u32>,
    pub update_time: Option<String>,
}

/// One record row; SRV and CAA values are kept flat in `value`.
pub struct BaiduRecord {
    pub id: String,
    pub rr: String,
    pub record_type: String,
    pub value: String,
    pub ttl: u32,
    pub priority: Option<u16>,
}

/// The JSON payload of a record write.
pub struct BaiduRecordPayload {
    pub rr: String,
    pub record_type: String,
    pub value: String,
    pub ttl: u32,
    pub priority: Option<u16>,
}

/// The provider's flat record value for a request.
pub fn baidu_value(
    record_type: &str,
    content: &str,
    srv_priority: Option<u16>,
    srv_weight: Option<u16>,
    srv_port: Option<u16>,
    caa_flags: Option<u8>,
    caa_tag: Option<&str>,
) -> (r: String)
    ensures
        r@ == spec_record_value(
            record_type@,
            content@,
            srv_priority,
            srv_weight,
            srv_port,
            caa_flags,
            opt_str_view(caa_tag),
        ),
{
    encode_record_value(record_type, content, srv_priority, srv_weight, srv_port, caa_flags, caa_tag)
}

/// Decodes a flat record value into
/// `(content, srv_priority, srv_weight, srv_port, caa_flags, caa_tag)`.
pub fn parse_baidu_record_value(record_type: &str, value: &str) -> (r: (
    String,
    Option<u16>,
    Option<u16>,
    Option<u16>,
    Option<u8>,
    Option<String>,
))
    ensures
        ({
            let d = spec_decode_value(record_type@, value@);
            r.0@ == d.0 && r.1 == d.1 && r.2 == d.2 && r.3 == d.3 && r.4 == d.4
                && opt_string_view(r.5) == d.5
        }),
{
    parse_record_value(record_type, value)
}

/// The canonical query string: `key=value`, both percent-encoded,
/// joined by `&` in ascending key order.
pub open spec fn spec_canonical_query(params: Seq<(Seq<char>, Seq<char>)>) -> Seq<char>
    decreases params.len(),
{
    if params.len() == 0 {
        Seq::<char>::empty()
    } else if params.len() == 1 {
        pct_str(params[0].0) + seq!['='] + pct_str(params[0].1)
    } else {
        spec_canonical_query(params.drop_last()) + seq!['&'] + pct_str(params.last().0)
            + seq!['='] + pct_str(params.last().1)
    }
}

/// Whether the keys of a pair list stand in ascending lexicographic
/// order, as the canonicalization requires.
pub open spec fn keys_sorted(params: Seq<(Seq<char>, Seq<char>)>) -> bool {
    forall|i: int, j: int|
        0 <= i < j < params.len() ==> lex_le(#[trigger] params[i].0, #[trigger] params[j].0)
}

/// Whether no name of a pair list carries an ASCII uppercase letter, as
/// canonical header names must not.
pub open spec fn names_lowercase(params: Seq<(Seq<char>, Seq<char>)>) -> bool {
    forall|i: int, k: int|
        0 <= i < params.len() && 0 <= k < (#[trigger] params[i].0).len() ==> !(('A' as u32) <= (
        #[trigger] params[i].0[k] as u32) && (params[i].0[k] as u32) <= ('Z' as u32))
}

pub fn canonical_query_string(params: &Vec<(String, String)>) -> (r: String)
    requires
        keys_sorted(params.deep_view()),
    ensures
        r@ == spec_canonical_query(params.deep_view()),
{
    let mut r = String::new();
    let mut i: usize = 0;
    while i < params.len()
        invariant
            i <= params.len(),
            r@ == spec_canonical_query(params.deep_view().take(i as int)),
        decreases params.len() - i,
    {
        if i > 0 {
            r.append("&");
        }
        let ek = percent_encode(params[i].0.as_str());
        r.append(ek.as_str());
        r.append("=");
        let ev = percent_encode(params[i].1.as_str());
        r.append(ev.as_str());
        proof {
            let dv = params.deep_view();
            assert(dv.take(i + 1).drop_last() =~= dv.take(i as int));
            assert(dv.take(i + 1).last() == dv[i as int]);
            assert(dv[i as int].0 == params@[i as int].0@);
            assert(dv[i as int].1 == params@[i as int].1@);
            reveal_strlit("&");
            reveal_strlit("=");
            assert("&"@ =~= seq!['&']);
            assert("="@ =~= seq!['=']);
            if i == 0 {
                assert(r@ =~= spec_canonical_query(dv.take(1)));
            } else {
                assert(r@ =~= spec_canonical_query(dv.take(i + 1)));
            }
        }
        i = i + 1;
    }
    proof {
        assert(params.deep_view().take(params.len() as int) =~= params.deep_view());
    }
    r
}

/// The canonical headers: `name:trimmed value`, both percent-encoded,
/// joined by newlines in ascending name order, names lowercase.
pub open spec fn spec_canonical_headers(headers: Seq<(Seq<char>, Seq<char>)>) -> Seq<char>
    decreases headers.len(),
{
    if headers.len() == 0 {
        Seq::<char>::empty()
    } else if headers.len() == 1 {
        pct_str(headers[0].0) + seq![':'] + pct_str(trim_spec(headers[0].1))
    } else {
        spec_canonical_headers(headers.drop_last()) + seq!['\n'] + pct_str(headers.last().0)
            + seq![':'] + pct_str(trim_spec(headers.last().1))
    }
}

pub fn canonical_headers(headers: &Vec<(String, String)>) -> (r: String)
    requires
        keys_sorted(headers.deep_view()),
        names_lowercase(headers.deep_view()),
    ensures
        r@ == spec_canonical_headers(headers.deep_view()),
{
    let mut r = String::new();
    let mut i: usize = 0;
    while i < headers.len()
        invariant
            i <= headers.len(),
            r@ == spec_canonical_headers(headers.deep_view().take(i as int)),
        decreases headers.len() - i,
    {
        if i > 0 {
            r.append("\n");
        }
        let ek = percent_encode(headers[i].0.as_str());
        r.append(ek.as_str());
        r.append(":");
        let ev = percent_encode(trim_str(headers[i].1.as_str()));
        r.append(ev.as_str());
        proof {
            let dv = headers.deep_view();
            assert(dv.take(i + 1).drop_last() =~= dv.take(i as int));
            assert(dv.take(i + 1).last() == dv[i as int]);
            assert(dv[i as int].0 == headers@[i as int].0@);
            assert(dv[i as int].1 == headers@[i as int].1@);
            reveal_strlit("\n");
            reveal_strlit(":");
            assert("\n"@ =~= seq!['\n']);
            assert(":"@ =~= seq![':']);
            if i == 0 {
                assert(r@ =~= spec_canonical_headers(dv.take(1)));
            } else {
                assert(r@ =~= spec_canonical_headers(dv.take(i + 1)));
            }
        }
        i = i + 1;
    }
    proof {
        assert(headers.deep_view().take(headers.len() as int) =~= headers.deep_view());
    }
    r
}

/// The credential prefix `bce-auth-v1/{access_key}/{timestamp}/{expiry}`.
pub open spec fn spec_auth_string(access_key_id: Seq<char>, timestamp: Seq<char>) -> Seq<char> {
    "bce-auth-v1/"@ + access_key_id + "/"@ + timestamp + "/"@ + dec_str(SIGN_EXPIRES as nat)
}

/// The string signed for a call: method, canonical URI, canonical query
/// and canonical headers, joined by newlines.
pub open spec fn spec_string_to_sign(
    method: Seq<char>,
    path: Seq<char>,
    query: Seq<(Seq<char>, Seq<char>)>,
    headers: Seq<(Seq<char>, Seq<char>)>,
) -> Seq<char> {
    method + "\n"@ + pct_str(path) + "\n"@ + spec_canonical_query(query) + "\n"@
        + spec_canonical_headers(headers)
}

/// The full `Authorization` value: the date-scoped signing key is
/// HMAC-SHA256 of the credential prefix under the secret key, and the
/// signature is the hex HMAC-SHA256 of the string-to-sign under it.
pub open spec fn spec_authorization(
    access_key_id: Seq<char>,
    secret_access_key: Seq<char>,
    method: Seq<char>,
    path: Seq<char>,
    query: Seq<(Seq<char>, Seq<char>)>,
    headers: Seq<(Seq<char>, Seq<char>)>,
    timestamp: Seq<char>,
) -> Seq<char> {
    let auth_string = spec_auth_string(access_key_id, timestamp);
    let signing_key = hmac_sha256_of(encode_utf8(secret_access_key), encode_utf8(auth_string));
    let signature = hex_of(
        hmac_sha256_of(
            signing_key,
            encode_utf8(spec_string_to_sign(method, path, query, headers)),
        ),
    );
    auth_string + "//"@ + "host;x-bce-date"@ + "/"@ + signature
}

/// Signs a call. The callers pass the method uppercased, the header
/// list lowercased and sorted (as `signed_headers` builds it), and the
/// timestamp that the `x-bce-date` header carries.
pub fn sign(
    access_key_id: &str,
    secret_access_key: &str,
    method: &str,
    path: &str,
    query: &Vec<(String, String)>,
    headers: &Vec<(String, String)>,
    timestamp: &str,
) -> (r: String)
    requires
        keys_sorted(query.deep_view()),
        keys_sorted(headers.deep_view()),
        names_lowercase(headers.deep_view()),
    ensures
        r@ == spec_authorization(
            access_key_id@,
            secret_access_key@,
            method@,
            path@,
            query.deep_view(),
            headers.deep_view(),
            timestamp@,
        ),
{
    let mut auth_string = String::new();
    auth_string.append("bce-auth-v1/");
    auth_string.append(access_key_id);
    auth_string.append("/");
    auth_string.append(timestamp);
    auth_string.append("/");
    let expires = crate::strings::u32_to_string(SIGN_EXPIRES);
    auth_string.append(expires.as_str());
    let signing_key = hmac_sha256(secret_access_key.as_bytes(), auth_string.as_str().as_bytes());
    let canonical_uri = percent_encode(path);
    let canonical_q = canonical_query_string(query);
    let canonical_h = canonical_headers(headers);
    let mut sts = method.to_owned();
    sts.append("\n");
    sts.append(canonical_uri.as_str());
    sts.append("\n");
    sts.append(canonical_q.as_str());
    sts.append("\n");
    sts.append(canonical_h.as_str());
    let mac = hmac_sha256(signing_key.as_slice(), sts.as_str().as_bytes());
    let signature = hex_encode(mac.as_slice());
    let mut r = auth_string;
    r.append("//");
    r.append("host;x-bce-date");
    r.append("/");
    r.append(signature.as_str());
    r
}

/// The signed header list of every call: `host` and `x-bce-date`,
/// lowercased and sorted.
pub fn signed_headers(timestamp: &str) -> (headers: Vec<(String, String)>)
    ensures
        headers.deep_view() =~~= seq![
            ("host"@, "dns.baidubce.com"@),
            ("x-bce-date"@, timestamp@),
        ],
        keys_sorted(headers.deep_view()),
        names_lowercase(headers.deep_view()),
{
    let mut headers: Vec<(String, String)> = Vec::new();
    crate::strings::push_pair(&mut headers, "host", "dns.baidubce.com".to_owned());
    crate::strings::push_pair(&mut headers, "x-bce-date", timestamp.to_owned());
    proof {
        reveal_strlit("host");
        reveal_strlit("x-bce-date");
        let dv = headers.deep_view();
        assert(dv.len() == 2);
        assert(dv[0].0 == "host"@ && dv[1].0 == "x-bce-date"@);
        assert(("host"@)[0] == 'h' && ("x-bce-date"@)[0] == 'x');
        assert(lex_le("host"@, "x-bce-date"@));
        assert forall|i: int, j: int| 0 <= i < j < dv.len() implies lex_le(
            #[trigger] dv[i].0,
            #[trigger] dv[j].0,
        ) by {
            assert(i == 0 && j == 1);
        }
        assert forall|i: int, k: int|
            0 <= i < dv.len() && 0 <= k < (#[trigger] dv[i].0).len() implies !(('A' as u32) <= (
        #[trigger] dv[i].0[k] as u32) && (dv[i].0[k] as u32) <= ('Z' as u32)) by {
            if i == 0 {
                assert(("host"@)[0] == 'h' && ("host"@)[1] == 'o' && ("host"@)[2] == 's' && (
                "host"@)[3] == 't');
            } else {
                assert(("x-bce-date"@)[0] == 'x' && ("x-bce-date"@)[1] == '-' && ("x-bce-date"@)[2]
                    == 'b' && ("x-bce-date"@)[3] == 'c' && ("x-bce-date"@)[4] == 'e' && (
                "x-bce-date"@)[5] == '-' && ("x-bce-date"@)[6] == 'd' && ("x-bce-date"@)[7] == 'a'
                    && ("x-bce-date"@)[8] == 't' && ("x-bce-date"@)[9] == 'e');
            }
        }
    }
    headers
}

/// Builds the JSON payload of a record write: the relative host label,
/// the type, the flat value, the TTL and the MX priority.
pub fn build_record_payload(
    name: &str,
    record_type: &str,
    value: String,
    ttl: u32,
    mx_priority: Option<u16>,
) -> (p: BaiduRecordPayload)
    ensures
        p.rr@ == name@,
        p.record_type@ == record_type@,
        p.value@ == value@,
        p.ttl == ttl,
        p.priority == mx_priority,
{
    BaiduRecordPayload {
        rr: name.to_owned(),
        record_type: record_type.to_owned(),
        value,
        ttl,
        priority: mx_priority,
    }
}

impl BaiduRecord {
    /// Converts a record row into the uniform model through the shared
    /// codec.
    pub fn to_dns_record(self, domain_name: &str) -> (r: DnsRecord)
        ensures
            ({
                let d = spec_decode_value(self.record_type@, self.value@);
                r.id@ == self.id@ && r.provider == Provider::Baidu && r.domain@ == domain_name@
                    && r.record_type@ == self.record_type@ && r.name@ == self.rr@ && r.content@
                    == d.0 && r.ttl == self.ttl && r.mx_priority == self.priority
                    && r.srv_priority == d.1 && r.srv_weight == d.2 && r.srv_port == d.3
                    && r.caa_flags == d.4 && opt_string_view(r.caa_tag) == d.5
            }),
    {
        let decoded = parse_baidu_record_value(self.record_type.as_str(), self.value.as_str());
        DnsRecord {
            id: self.id,
            provider: Provider::Baidu,
            domain: domain_name.to_owned(),
            record_type: self.record_type,
            name: self.rr,
            content: decoded.0,
            ttl: self.ttl,
            mx_priority: self.priority,
            srv_priority: decoded.1,
            srv_weight: decoded.2,
            srv_port: decoded.3,
            caa_flags: decoded.4,
            caa_tag: decoded.5,
        }
    }
}

impl BaiduZone {
    /// Converts a zone row into a healthy domain item.
    pub fn to_domain_item(self) -> (r: DomainItem)
        ensures
            r.provider == Provider::Baidu,
            r.name@ == self.name@,
            r.provider_id@ == self.id@,
            r.status is Okay,
            r.records_count == self.record_count,
            opt_string_view(r.last_changed_at) == (match opt_string_view(self.update_time) {
                Some(t) => rfc3339_norm_of(t),
                None => None,
            }),
    {
        let last_changed_at: Option<String> = match &self.update_time {
            Some(t) => normalize_rfc3339(t.as_str()),
            None => None,
        };
        DomainItem {
            provider: Provider::Baidu,
            name: self.name,
            provider_id: self.id,
            status: DomainStatus::Okay,
            records_count: self.record_count,
            last_changed_at,
        }
    }
}

} // verus!
