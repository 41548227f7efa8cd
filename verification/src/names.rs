//! The name normalizer: mapping between a zone-relative host label
//! (`"@"`, `"www"`, `"_sip._tcp"`) and each provider's absolute-name
//! convention, in both directions.

use vstd::prelude::*;
use vstd::string::*;
use crate::strings::{
    ends_with, ends_with_str, split_on, split_on_str, starts_with, starts_with_str, str_eq,
};

verus! {

/// The absolute form of a relative host: `"@"`, the empty label and the
/// zone itself map to the bare zone name, a host already carrying the
/// zone suffix is kept, anything else gets the zone appended.
pub open spec fn spec_normalize_full_name(zone: Seq<char>, host: Seq<char>) -> Seq<char> {
    if host == "@"@ || host == zone || host.len() == 0 {
        zone
    } else if ends_with(host, "."@ + zone) {
        host
    } else {
        host + "."@ + zone
    }
}

/// Builds the fully-qualified record name used by providers that expect
/// absolute names without a trailing dot.
pub fn normalize_full_name(zone_name: &str, host: &str) -> (r: String)
    ensures
        r@ == spec_normalize_full_name(zone_name@, host@),
{
    let mut suffix = String::new();
    suffix.append(".");
    suffix.append(zone_name);
    if str_eq(host, "@") || str_eq(host, zone_name) || host.unicode_len() == 0 {
        zone_name.to_owned()
    } else if ends_with_str(host, suffix.as_str()) {
        host.to_owned()
    } else {
        let mut r = host.to_owned();
        r.append(suffix.as_str());
        r
    }
}

/// The relative form of an absolute record name: the zone itself maps to
/// `"@"`, a name carrying the zone suffix is stripped, anything else is
/// kept as-is.
pub open spec fn spec_relative_host(zone: Seq<char>, full: Seq<char>) -> Seq<char> {
    if full == zone {
        "@"@
    } else if ends_with(full, "."@ + zone) {
        full.take(full.len() - zone.len() - 1)
    } else {
        full
    }
}

/// Recovers the zone-relative host label from an absolute record name.
pub fn relative_host(zone_name: &str, full: &str) -> (r: String)
    ensures
        r@ == spec_relative_host(zone_name@, full@),
{
    let mut suffix = String::new();
    suffix.append(".");
    suffix.append(zone_name);
    if str_eq(full, zone_name) {
        let mut r = String::new();
        r.append("@");
        r
    } else if ends_with_str(full, suffix.as_str()) {
        let n = full.unicode_len();
        let m = suffix.unicode_len();
        let head = full.substring_char(0, n - m);
        proof {
            reveal_strlit(".");
            assert(suffix@.len() == zone_name@.len() + 1);
            assert(head@ =~= full@.take(full@.len() - zone_name@.len() - 1));
        }
        head.to_owned()
    } else {
        full.to_owned()
    }
}

/// Law: a host already in canonical relative form survives the round
/// trip to a provider's absolute name and back.
pub proof fn lemma_host_round_trip(zone: Seq<char>, host: Seq<char>)
    requires
        host == "@"@ || (host.len() > 0 && host != zone && !ends_with(host, "."@ + zone)),
    ensures
        spec_relative_host(zone, spec_normalize_full_name(zone, host)) == host,
{
    reveal_strlit("@");
    reveal_strlit(".");
    if host == "@"@ {
        assert(spec_normalize_full_name(zone, host) == zone);
    } else {
        let full = host + "."@ + zone;
        assert(spec_normalize_full_name(zone, host) == full);
        let suf = "."@ + zone;
        assert(full.skip(full.len() - suf.len()) =~= suf);
        assert(ends_with(full, suf));
        if full == zone {
            assert(full.len() == zone.len());
            assert(false);
        }
        assert(full.take(full.len() - zone.len() - 1) =~= host);
    }
}

/// Law: the absolute form of any host ends in the zone name, and is the
/// zone itself exactly for the apex label `"@"`, the empty label and
/// the zone.
pub proof fn lemma_full_name_suffix(zone: Seq<char>, host: Seq<char>)
    ensures
        ends_with(spec_normalize_full_name(zone, host), zone),
        host == "@"@ || host.len() == 0 ==> spec_normalize_full_name(zone, host) == zone,
{
    reveal_strlit(".");
    let full = spec_normalize_full_name(zone, host);
    if host == "@"@ || host == zone || host.len() == 0 {
        assert(full.skip(full.len() - zone.len()) =~= zone);
    } else if ends_with(host, "."@ + zone) {
        let suf = "."@ + zone;
        assert(host.skip(host.len() - suf.len()) == suf);
        assert forall|i: int| 0 <= i < zone.len() implies host.skip(host.len() - zone.len())[i]
            == zone[i] by {
            assert(host.skip(host.len() - suf.len())[i + 1] == suf[i + 1]);
            assert(suf[i + 1] == zone[i]);
        }
        assert(host.skip(host.len() - zone.len()) =~= zone);
    } else {
        assert(full.skip(full.len() - zone.len()) =~= zone);
    }
}

/// The `_service` and `_proto` labels of an SRV host, read from its
/// first two dot-separated labels; hosts not of that shape yield the
/// generic `("_service", "_tcp")` pair.
pub open spec fn spec_srv_service_proto(host: Seq<char>) -> (Seq<char>, Seq<char>) {
    let parts = split_on(host, '.');
    if parts.len() >= 2 && starts_with(parts[0], "_"@) && starts_with(parts[1], "_"@) {
        (parts[0], parts[1])
    } else {
        ("_service"@, "_tcp"@)
    }
}

/// Splits an SRV host of the shape `_service._proto[.rest]` into its
/// service and protocol labels.
pub fn parse_srv_service_proto(host: &str) -> (r: (String, String))
    ensures
        (r.0@, r.1@) == spec_srv_service_proto(host@),
{
    let parts = split_on_str(host, '.');
    proof {
        assert(parts.deep_view().len() == parts@.len());
    }
    if parts.len() >= 2 {
        proof {
            assert(parts.deep_view()[0] == parts@[0]@);
            assert(parts.deep_view()[1] == parts@[1]@);
        }
        if starts_with_str(parts[0].as_str(), "_") && starts_with_str(parts[1].as_str(), "_") {
            let a = parts[0].clone();
            let b = parts[1].clone();
            return (a, b);
        }
    }
    let mut a = String::new();
    a.append("_service");
    let mut b = String::new();
    b.append("_tcp");
    (a, b)
}

/// Strips every trailing dot, as `str::trim_end_matches('.')` does.
pub open spec fn strip_dots_end(s: Seq<char>) -> Seq<char>
    decreases s.len(),
{
    if s.len() > 0 && s.last() == '.' {
        strip_dots_end(s.drop_last())
    } else {
        s
    }
}

pub fn trim_trailing_dots<'a>(s: &'a str) -> (r: &'a str)
    ensures
        r@ == strip_dots_end(s@),
    decreases s@.len(),
{
    let n = s.unicode_len();
    if n > 0 && s.get_char(n - 1) == '.' {
        let rest = s.substring_char(0, n - 1);
        assert(rest@ =~= s@.drop_last());
        trim_trailing_dots(rest)
    } else {
        s
    }
}

/// Strips the suffix as many times as it occurs at the end, as
/// `str::trim_end_matches(suffix)` does.
pub open spec fn strip_suffix_rep(s: Seq<char>, suffix: Seq<char>) -> Seq<char>
    decreases s.len(),
{
    if suffix.len() > 0 && ends_with(s, suffix) {
        strip_suffix_rep(s.take(s.len() - suffix.len()), suffix)
    } else {
        s
    }
}

pub fn trim_suffix_rep<'a>(s: &'a str, suffix: &str) -> (r: &'a str)
    ensures
        r@ == strip_suffix_rep(s@, suffix@),
    decreases s@.len(),
{
    let m = suffix.unicode_len();
    if m > 0 && ends_with_str(s, suffix) {
        let n = s.unicode_len();
        let head = s.substring_char(0, n - m);
        assert(head@ =~= s@.take(s@.len() - suffix@.len()));
        trim_suffix_rep(head, suffix)
    } else {
        s
    }
}

/// The absolute, dot-terminated record set name used by the provider
/// that works with trailing-dot FQDNs.
pub open spec fn spec_huawei_full_name(domain: Seq<char>, host: Seq<char>) -> Seq<char> {
    if host == "@"@ {
        strip_dots_end(domain) + "."@
    } else if ends_with(host, domain) {
        if host.len() > 0 && host.last() == '.' {
            host
        } else {
            host + "."@
        }
    } else {
        host + "."@ + strip_dots_end(domain) + "."@
    }
}

pub fn huawei_full_name(domain_name: &str, host: &str) -> (r: String)
    ensures
        r@ == spec_huawei_full_name(domain_name@, host@),
{
    if str_eq(host, "@") {
        let mut r = trim_trailing_dots(domain_name).to_owned();
        r.append(".");
        r
    } else if ends_with_str(host, domain_name) {
        let n = host.unicode_len();
        if n > 0 && host.get_char(n - 1) == '.' {
            host.to_owned()
        } else {
            let mut r = host.to_owned();
            r.append(".");
            r
        }
    } else {
        let mut r = host.to_owned();
        r.append(".");
        r.append(trim_trailing_dots(domain_name));
        r.append(".");
        assert(r@ =~= host@ + "."@ + strip_dots_end(domain_name@) + "."@);
        r
    }
}

/// Law: a canonical relative host survives the round trip through the
/// dot-terminated FQDN convention, for a zone name without a trailing
/// dot: any host but the zone itself and hosts already carrying the
/// dotted zone suffix.
pub proof fn lemma_huawei_host_round_trip(domain: Seq<char>, host: Seq<char>)
    requires
        domain.len() > 0,
        domain.last() != '.',
        host == "@"@ || (host != domain && !ends_with(host, "."@ + domain)),
    ensures
        spec_huawei_rr(spec_huawei_full_name(domain, host), domain) == host,
{
    reveal_strlit(".");
    reveal_strlit("@");
    assert(strip_dots_end(domain) == domain);
    let suffix = "."@ + domain;
    if host == "@"@ {
        let full = domain + "."@;
        assert(spec_huawei_full_name(domain, host) =~= full);
        assert(full.last() == '.');
        assert(full.drop_last() =~= domain);
        assert(strip_dots_end(full) == domain);
    } else if ends_with(host, domain) {
        // the host carries the zone without a dot: it is kept, dot-terminated
        assert(host.skip(host.len() - domain.len()) == domain);
        assert(host.last() == host.skip(host.len() - domain.len())[domain.len() - 1]);
        assert(host.last() == domain.last());
        let full = host + "."@;
        assert(spec_huawei_full_name(domain, host) =~= full);
        assert(full.last() == '.');
        assert(full.drop_last() =~= host);
        assert(strip_dots_end(host) == host);
        assert(strip_dots_end(full) == host);
        assert(strip_suffix_rep(host, suffix) == host);
    } else {
        let full = host + "."@ + strip_dots_end(domain) + "."@;
        assert(spec_huawei_full_name(domain, host) == full);
        let inner = host + "."@ + domain;
        assert(full.drop_last() =~= inner);
        assert(full.last() == '.');
        assert(inner.last() == domain.last());
        assert(strip_dots_end(inner) == inner);
        assert(strip_dots_end(full) == inner);
        assert(inner.skip(inner.len() - suffix.len()) =~= suffix);
        assert(ends_with(inner, suffix));
        assert(inner.len() != domain.len());
        assert(inner != domain);
        assert(inner.take(inner.len() - suffix.len()) =~= host);
        assert(strip_suffix_rep(host, suffix) == host);
        assert(strip_suffix_rep(inner, suffix) == host);
    }
}

/// The relative host label recovered from a dot-terminated record set
/// name: trailing dots are dropped, the bare domain maps to `"@"`, and a
/// name carrying the domain suffix has it stripped (repeatedly, as the
/// original `trim_end_matches` call does).
pub open spec fn spec_huawei_rr(full: Seq<char>, domain: Seq<char>) -> Seq<char> {
    let normalized = strip_dots_end(full);
    let bare = strip_dots_end(domain);
    let suffix = "."@ + bare;
    if normalized == bare {
        "@"@
    } else if ends_with(normalized, suffix) {
        strip_suffix_rep(normalized, suffix)
    } else {
        normalized
    }
}

pub fn huawei_rr(full_name: &str, domain_name: &str) -> (r: String)
    ensures
        r@ == spec_huawei_rr(full_name@, domain_name@),
{
    let normalized = trim_trailing_dots(full_name);
    let bare = trim_trailing_dots(domain_name);
    let mut suffix = String::new();
    suffix.append(".");
    suffix.append(bare);
    if str_eq(normalized, bare) {
        let mut r = String::new();
        r.append("@");
        r
    } else if ends_with_str(normalized, suffix.as_str()) {
        trim_suffix_rep(normalized, suffix.as_str()).to_owned()
    } else {
        normalized.to_owned()
    }
}

} // verus!
