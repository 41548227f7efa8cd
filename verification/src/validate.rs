//! Request validation: record type, host name shape, content shape and
//! TTL bounds are checked before any network call, with IPv4 and IPv6
//! literal validation following Rust's address parsing rules.

use vstd::prelude::*;
use vstd::string::*;
use crate::errors::AppError;
use crate::strings::{
    all_digits, dec_val, digit_val, has_char, is_digit_char, split_on, split_on_str, starts_with,
    starts_with_str, str_eq, trim_spec, trim_str, contains_char,
};
use crate::types::RecordCreateRequest;

verus! {

/// A valid dotted-quad octet: one to three digits, no leading zero, at
/// most 255, as Rust's `Ipv4Addr` parser accepts.
pub open spec fn valid_ipv4_octet(t: Seq<char>) -> bool {
    1 <= t.len() <= 3 && all_digits(t) && dec_val(t) <= 255 && (t.len() > 1 ==> t[0] != '0')
}

/// A valid IPv4 literal: exactly four valid octets joined by dots.
pub open spec fn valid_ipv4(s: Seq<char>) -> bool {
    let parts = split_on(s, '.');
    parts.len() == 4 && (forall|i: int| 0 <= i < 4 ==> valid_ipv4_octet(#[trigger] parts[i]))
}

fn is_ipv4_octet(t: &str) -> (r: bool)
    ensures
        r == valid_ipv4_octet(t@),
{
    let n = t.unicode_len();
    if n == 0 || n > 3 {
        return false;
    }
    let mut i: usize = 0;
    let mut acc: u32 = 0;
    while i < n
        invariant
            i <= n <= 3,
            n == t@.len(),
            all_digits(t@.take(i as int)),
            acc as nat == dec_val(t@.take(i as int)),
            acc <= 999,
        decreases n - i,
    {
        let cu = t.get_char(i) as u32;
        if cu < 48 || cu > 57 {
            assert(!is_digit_char(t@[i as int]));
            return false;
        }
        assert(is_digit_char(t@[i as int]) && digit_val(t@[i as int]) == cu - 48);
        assert(t@.take(i + 1).drop_last() =~= t@.take(i as int));
        assert(t@.take(i + 1).last() == t@[i as int]);
        proof {
            assert(dec_val(t@.take(i as int)) <= 99) by {
                if i >= 1 {
                    lemma_dec_val_len_bound(t@.take(i as int));
                }
            }
        }
        acc = acc * 10 + (cu - 48);
        i = i + 1;
    }
    assert(t@.take(n as int) =~= t@);
    if acc > 255 {
        return false;
    }
    if n > 1 && t.get_char(0) == '0' {
        return false;
    }
    true
}

/// A digit string of length at most two reads as at most 99.
proof fn lemma_dec_val_len_bound(s: Seq<char>)
    requires
        all_digits(s),
        s.len() <= 2,
    ensures
        dec_val(s) <= 99,
{
    if s.len() == 1 {
        assert(is_digit_char(s[0]));
        assert(s.drop_last().len() == 0);
        assert(dec_val(s.drop_last()) == 0);
        assert(s.last() == s[0]);
        assert(digit_val(s[0]) <= 9);
    } else if s.len() == 2 {
        assert(is_digit_char(s[0]) && is_digit_char(s[1]));
        let d1 = s.drop_last();
        assert(d1.len() == 1 && d1.last() == s[0]);
        assert(d1.drop_last().len() == 0);
        assert(dec_val(d1.drop_last()) == 0);
        assert(dec_val(d1) == digit_val(s[0]));
        assert(digit_val(s[0]) <= 9 && digit_val(s[1]) <= 9);
        assert(s.last() == s[1]);
    }
}

/// Whether the string is a valid IPv4 address literal.
pub fn is_valid_ipv4(s: &str) -> (r: bool)
    ensures
        r == valid_ipv4(s@),
{
    let parts = split_on_str(s, '.');
    proof {
        assert(parts.deep_view().len() == parts@.len());
    }
    if parts.len() != 4 {
        return false;
    }
    let mut i: usize = 0;
    while i < 4
        invariant
            i <= 4,
            parts@.len() == 4,
            parts.deep_view() =~~= split_on(s@, '.'),
            forall|j: int| 0 <= j < i ==> valid_ipv4_octet(#[trigger] split_on(s@, '.')[j]),
        decreases 4 - i,
    {
        proof {
            assert(parts.deep_view()[i as int] == parts@[i as int]@);
        }
        if !is_ipv4_octet(parts[i].as_str()) {
            return false;
        }
        i = i + 1;
    }
    true
}

pub open spec fn is_hex_digit(c: char) -> bool {
    is_digit_char(c) || (('a' as u32) <= (c as u32) && (c as u32) <= ('f' as u32)) || (('A' as u32)
        <= (c as u32) && (c as u32) <= ('F' as u32))
}

/// A valid IPv6 group: one to four hexadecimal digits.
pub open spec fn valid_h16(g: Seq<char>) -> bool {
    1 <= g.len() <= 4 && (forall|i: int| 0 <= i < g.len() ==> is_hex_digit(#[trigger] g[i]))
}

fn is_h16(g: &str) -> (r: bool)
    ensures
        r == valid_h16(g@),
{
    let n = g.unicode_len();
    if n == 0 || n > 4 {
        return false;
    }
    let mut i: usize = 0;
    while i < n
        invariant
            i <= n,
            n == g@.len(),
            forall|j: int| 0 <= j < i ==> is_hex_digit(#[trigger] g@[j]),
        decreases n - i,
    {
        let cu = g.get_char(i) as u32;
        let ok = (48 <= cu && cu <= 57) || (97 <= cu && cu <= 102) || (65 <= cu && cu <= 70);
        if !ok {
            assert(!is_hex_digit(g@[i as int]));
            return false;
        }
        assert(is_hex_digit(g@[i as int]));
        i = i + 1;
    }
    true
}

/// Whether a double colon starts at position `i`.
pub open spec fn dc_at(s: Seq<char>, i: int) -> bool {
    0 <= i < s.len() - 1 && s[i] == ':' && s[i + 1] == ':'
}

/// The position of the first `"::"` in the string, or `-1`.
pub open spec fn dc_idx(s: Seq<char>) -> int
    decreases s.len(),
{
    if s.len() < 2 {
        -1
    } else if s[0] == ':' && s[1] == ':' {
        0
    } else {
        let r = dc_idx(s.skip(1));
        if r < 0 {
            -1
        } else {
            r + 1
        }
    }
}

proof fn lemma_dc_idx(s: Seq<char>)
    ensures
        dc_idx(s) >= 0 ==> dc_at(s, dc_idx(s)) && (forall|j: int|
            0 <= j < dc_idx(s) ==> !dc_at(s, j)),
        dc_idx(s) < 0 ==> (forall|j: int| !dc_at(s, j)),
    decreases s.len(),
{
    if s.len() < 2 {
    } else if s[0] == ':' && s[1] == ':' {
    } else {
        lemma_dc_idx(s.skip(1));
        let t = s.skip(1);
        assert(forall|j: int| 0 <= j ==> (dc_at(s, j + 1) == dc_at(t, j)));
        assert(!dc_at(s, 0));
        let r = dc_idx(t);
        if r >= 0 {
            assert(dc_at(t, r));
            assert(dc_at(s, r + 1));
            assert forall|j: int| 0 <= j < r + 1 implies !dc_at(s, j) by {
                if j > 0 {
                    assert(!dc_at(t, j - 1));
                }
            }
        } else {
            assert forall|j: int| !dc_at(s, j) by {
                if j > 0 {
                    assert(!dc_at(t, j - 1));
                }
            }
        }
    }
}

/// Finds the first `"::"`.
fn find_dc(s: &str) -> (r: Option<usize>)
    ensures
        r matches Some(i) ==> i == dc_idx(s@),
        r is None ==> dc_idx(s@) < 0,
{
    proof {
        lemma_dc_idx(s@);
    }
    let n = s.unicode_len();
    if n < 2 {
        return None;
    }
    let mut i: usize = 0;
    while i < n - 1
        invariant
            i <= n - 1,
            n == s@.len(),
            n >= 2,
            forall|j: int| 0 <= j < i ==> !dc_at(s@, j),
        decreases n - i,
    {
        if s.get_char(i) == ':' && s.get_char(i + 1) == ':' {
            proof {
                assert(dc_at(s@, i as int));
                lemma_dc_idx(s@);
                // both are the first occurrence, so they coincide
                assert(dc_idx(s@) >= 0);
                assert(!(dc_idx(s@) < i as int));
                assert(!((i as int) < dc_idx(s@)));
            }
            return Some(i);
        }
        i = i + 1;
    }
    proof {
        assert(forall|j: int| !dc_at(s@, j));
        lemma_dc_idx(s@);
        if dc_idx(s@) >= 0 {
            assert(dc_at(s@, dc_idx(s@)));
        }
    }
    None
}

/// A valid run of trailing IPv6 groups: every group is an h16 except
/// that the last may instead be an embedded IPv4 address.
pub open spec fn valid_tail(parts: Seq<Seq<char>>) -> bool {
    (forall|i: int| 0 <= i < parts.len() - 1 ==> valid_h16(#[trigger] parts[i])) && (parts.len()
        == 0 || valid_h16(parts.last()) || valid_ipv4(parts.last()))
}

/// How many 16-bit groups the run covers: an embedded IPv4 counts as two.
pub open spec fn tail_groups(parts: Seq<Seq<char>>) -> int {
    if parts.len() > 0 && !valid_h16(parts.last()) && valid_ipv4(parts.last()) {
        parts.len() as int + 1
    } else {
        parts.len() as int
    }
}

/// A valid IPv6 literal, following Rust's `Ipv6Addr` parsing rules:
/// without `"::"`, exactly eight groups (an embedded trailing IPv4
/// counting as two); with one `"::"`, head groups plus tail groups at
/// most seven, the embedded IPv4 allowed only at the very end.
pub open spec fn valid_ipv6(s: Seq<char>) -> bool {
    let i = dc_idx(s);
    if i < 0 {
        let parts = split_on(s, ':');
        valid_tail(parts) && tail_groups(parts) == 8
    } else {
        let left = s.take(i);
        let right = s.skip(i + 2);
        let lparts: Seq<Seq<char>> = if left.len() == 0 {
            Seq::empty()
        } else {
            split_on(left, ':')
        };
        let rparts: Seq<Seq<char>> = if right.len() == 0 {
            Seq::empty()
        } else {
            split_on(right, ':')
        };
        all_groups_h16(lparts) && valid_tail(rparts) && lparts.len() + tail_groups(rparts) <= 7
    }
}

/// Whether every piece is an h16 group.
pub open spec fn all_groups_h16(parts: Seq<Seq<char>>) -> bool {
    forall|k: int| 0 <= k < parts.len() ==> valid_h16(#[trigger] parts[k])
}

/// Checks that every piece is an h16 group.
fn all_h16(parts: &Vec<String>) -> (r: bool)
    ensures
        r == all_groups_h16(parts.deep_view()),
{
    let mut i: usize = 0;
    while i < parts.len()
        invariant
            i <= parts.len(),
            forall|k: int| 0 <= k < i ==> valid_h16(#[trigger] parts.deep_view()[k]),
        decreases parts.len() - i,
    {
        proof {
            assert(parts.deep_view()[i as int] == parts@[i as int]@);
        }
        if !is_h16(parts[i].as_str()) {
            return false;
        }
        i = i + 1;
    }
    true
}

/// Checks a trailing group run; reports the piece count and whether the
/// last piece is an embedded IPv4 address rather than an h16 group.
fn check_tail(parts: &Vec<String>) -> (r: (bool, usize, bool))
    ensures
        r.0 == valid_tail(parts.deep_view()),
        r.0 ==> r.1 == parts.deep_view().len(),
        r.0 ==> tail_groups(parts.deep_view()) == r.1 + (if r.2 { 1int } else { 0int }),
{
    let n = parts.len();
    if n == 0 {
        return (true, 0, false);
    }
    let mut i: usize = 0;
    while i < n - 1
        invariant
            i <= n - 1,
            n == parts.deep_view().len(),
            n == parts.len(),
            n >= 1,
            forall|k: int| 0 <= k < i ==> valid_h16(#[trigger] parts.deep_view()[k]),
        decreases n - i,
    {
        proof {
            assert(parts.deep_view()[i as int] == parts@[i as int]@);
        }
        if !is_h16(parts[i].as_str()) {
            return (false, 0, false);
        }
        i = i + 1;
    }
    proof {
        assert(parts.deep_view()[n - 1] == parts@[n - 1]@);
        assert(parts.deep_view().last() == parts.deep_view()[n - 1]);
    }
    if is_h16(parts[n - 1].as_str()) {
        (true, n, false)
    } else if is_valid_ipv4(parts[n - 1].as_str()) {
        (true, n, true)
    } else {
        (false, 0, false)
    }
}

/// Whether the string is a valid IPv6 address literal.
pub fn is_valid_ipv6(s: &str) -> (r: bool)
    ensures
        r == valid_ipv6(s@),
{
    let n = s.unicode_len();
    match find_dc(s) {
        None => {
            let parts = split_on_str(s, ':');
            let (ok, cnt, ipv4_last) = check_tail(&parts);
            if !ok {
                return false;
            }
            if ipv4_last {
                cnt == 7
            } else {
                cnt == 8
            }
        },
        Some(i) => {
            proof {
                lemma_dc_idx(s@);
                assert(dc_at(s@, i as int));
                assert(i as int <= s@.len() - 2);
            }
            let left = s.substring_char(0, i);
            let right = s.substring_char(i + 2, n);
            proof {
                assert(left@ =~= s@.take(i as int));
                assert(right@ =~= s@.skip(i as int + 2));
            }
            let lcount: usize;
            let lok: bool;
            if left.unicode_len() == 0 {
                lcount = 0;
                lok = true;
                proof {
                    assert(left@.len() == 0);
                }
            } else {
                let lparts = split_on_str(left, ':');
                lok = all_h16(&lparts);
                lcount = lparts.len();
                proof {
                    assert(left@ == s@.take(dc_idx(s@)));
                    assert(lparts.deep_view() == split_on(s@.take(dc_idx(s@)), ':'));
                    assert(lparts.deep_view().len() == lparts@.len());
                    if !lok {
                        assert(s@.take(dc_idx(s@)).len() != 0);
                        assert(!valid_ipv6(s@));
                    }
                }
            }
            if !lok {
                return false;
            }
            let rok: bool;
            let rcount: usize;
            let ripv4: bool;
            if right.unicode_len() == 0 {
                rok = true;
                rcount = 0;
                ripv4 = false;
                proof {
                    assert(right@.len() == 0);
                }
            } else {
                let rparts = split_on_str(right, ':');
                let (ok, cnt, ipv4_last) = check_tail(&rparts);
                rok = ok;
                rcount = cnt;
                ripv4 = ipv4_last;
            }
            if !rok {
                return false;
            }
            if lcount > 7 || rcount > 7 {
                return false;
            }
            let total = lcount + rcount + (if ripv4 { 1 } else { 0 });
            total <= 7
        },
    }
}

/// The eight supported record types.
pub open spec fn is_supported_type(rt: Seq<char>) -> bool {
    rt == "A"@ || rt == "AAAA"@ || rt == "CNAME"@ || rt == "TXT"@ || rt == "MX"@ || rt == "NS"@
        || rt == "SRV"@ || rt == "CAA"@
}

/// An SRV host label must begin with `_service._proto`.
pub open spec fn srv_name_ok(name: Seq<char>) -> bool {
    let parts = split_on(name, '.');
    parts.len() >= 2 && starts_with(parts[0], "_"@) && starts_with(parts[1], "_"@)
}

/// The validation outcome: `None` for an acceptable request, otherwise
/// the exact `(code, message)` of the error raised, checked in this
/// order before any network call.
pub open spec fn spec_validation_error(req: RecordCreateRequest) -> Option<(Seq<char>, Seq<char>)> {
    let rt = req.record_type@;
    let name = trim_spec(req.name@);
    let content = trim_spec(req.content@);
    if !is_supported_type(rt) {
        Some(("invalid_type"@, "不支持的记录类型: "@ + rt))
    } else if name.len() == 0 {
        Some(("invalid_name"@, "主机记录不能为空"@))
    } else if content.len() == 0 {
        Some(("invalid_content"@, "记录值不能为空"@))
    } else if req.ttl < 60 || req.ttl > 86400 {
        Some(("invalid_ttl"@, "TTL 必须在 60-86400 秒之间"@))
    } else if rt == "A"@ && !valid_ipv4(content) {
        Some(("invalid_content"@, "A 记录必须是有效的 IPv4 地址"@))
    } else if rt == "AAAA"@ && !valid_ipv6(content) {
        Some(("invalid_content"@, "AAAA 记录必须是有效的 IPv6 地址"@))
    } else if (rt == "CNAME"@ || rt == "NS"@) && !has_char(content, '.') {
        Some(("invalid_content"@, "记录值必须是有效域名"@))
    } else if rt == "MX"@ && req.mx_priority is None {
        Some(("missing_field"@, "MX 记录必须设置优先级"@))
    } else if rt == "SRV"@ && (req.srv_priority is None || req.srv_weight is None
        || req.srv_port is None) {
        Some(("missing_field"@, "SRV 记录必须设置优先级、权重和端口"@))
    } else if rt == "SRV"@ && !srv_name_ok(name) {
        Some(("invalid_name"@, "SRV 主机记录需为 _service._proto 形式"@))
    } else if rt == "CAA"@ && (req.caa_tag matches Some(t) && trim_spec(t@).len() == 0) {
        Some(("invalid_caa_tag"@, "CAA Tag 不能为空"@))
    } else {
        None
    }
}

proof fn lemma_record_types_distinct()
    ensures
        "A"@ != "AAAA"@ && "A"@ != "CNAME"@ && "A"@ != "TXT"@ && "A"@ != "MX"@ && "A"@ != "NS"@
            && "A"@ != "SRV"@ && "A"@ != "CAA"@,
        "AAAA"@ != "CNAME"@ && "AAAA"@ != "TXT"@ && "AAAA"@ != "MX"@ && "AAAA"@ != "NS"@ && "AAAA"@
            != "SRV"@ && "AAAA"@ != "CAA"@,
        "CNAME"@ != "TXT"@ && "CNAME"@ != "MX"@ && "CNAME"@ != "NS"@ && "CNAME"@ != "SRV"@
            && "CNAME"@ != "CAA"@,
        "TXT"@ != "MX"@ && "TXT"@ != "NS"@ && "TXT"@ != "SRV"@ && "TXT"@ != "CAA"@,
        "MX"@ != "NS"@ && "MX"@ != "SRV"@ && "MX"@ != "CAA"@,
        "NS"@ != "SRV"@ && "NS"@ != "CAA"@,
        "SRV"@ != "CAA"@,
{
    reveal_strlit("A");
    reveal_strlit("AAAA");
    reveal_strlit("CNAME");
    reveal_strlit("TXT");
    reveal_strlit("MX");
    reveal_strlit("NS");
    reveal_strlit("SRV");
    reveal_strlit("CAA");
    assert("A"@.len() == 1 && "AAAA"@.len() == 4 && "CNAME"@.len() == 5 && "TXT"@.len() == 3
        && "MX"@.len() == 2 && "NS"@.len() == 2 && "SRV"@.len() == 3 && "CAA"@.len() == 3);
    assert("MX"@[0] == 'M' && "NS"@[0] == 'N');
    assert("TXT"@[0] == 'T' && "SRV"@[0] == 'S' && "CAA"@[0] == 'C');
}

/// The three record types with structured provider-side shapes are
/// pairwise distinct.
pub proof fn proof_mx_srv_caa_distinct()
    ensures
        "MX"@ != "SRV"@,
        "MX"@ != "CAA"@,
        "SRV"@ != "CAA"@,
{
    lemma_record_types_distinct();
}

/// Validates a create request before any network call: record type,
/// non-empty host and content, TTL in 60..=86400, then the per-type
/// shape checks. An error reports exactly the code and message given by
/// `spec_validation_error`.
pub fn validate_record_request(req: &RecordCreateRequest) -> (r: Result<(), AppError>)
    ensures
        (r is Ok) == (spec_validation_error(*req) is None),
        r matches Err(e) ==> Some((e.code@, e.message@)) == spec_validation_error(*req),
{
    proof {
        lemma_record_types_distinct();
    }
    let rt = req.record_type.as_str();
    let supported = str_eq(rt, "A") || str_eq(rt, "AAAA") || str_eq(rt, "CNAME") || str_eq(
        rt,
        "TXT",
    ) || str_eq(rt, "MX") || str_eq(rt, "NS") || str_eq(rt, "SRV") || str_eq(rt, "CAA");
    if !supported {
        let mut m = String::new();
        m.append("不支持的记录类型: ");
        m.append(rt);
        return Err(AppError::new("invalid_type", m.as_str()));
    }
    let name = trim_str(req.name.as_str());
    if name.unicode_len() == 0 {
        return Err(AppError::new("invalid_name", "主机记录不能为空"));
    }
    let content = trim_str(req.content.as_str());
    if content.unicode_len() == 0 {
        return Err(AppError::new("invalid_content", "记录值不能为空"));
    }
    if req.ttl < 60 || req.ttl > 86400 {
        return Err(AppError::new("invalid_ttl", "TTL 必须在 60-86400 秒之间"));
    }
    if str_eq(rt, "A") {
        if !is_valid_ipv4(content) {
            return Err(AppError::new("invalid_content", "A 记录必须是有效的 IPv4 地址"));
        }
    }
    if str_eq(rt, "AAAA") {
        if !is_valid_ipv6(content) {
            return Err(AppError::new("invalid_content", "AAAA 记录必须是有效的 IPv6 地址"));
        }
    }
    if str_eq(rt, "CNAME") || str_eq(rt, "NS") {
        if !contains_char(content, '.') {
            return Err(AppError::new("invalid_content", "记录值必须是有效域名"));
        }
    }
    if str_eq(rt, "MX") {
        if req.mx_priority.is_none() {
            return Err(AppError::new("missing_field", "MX 记录必须设置优先级"));
        }
    }
    if str_eq(rt, "SRV") {
        if req.srv_priority.is_none() || req.srv_weight.is_none() || req.srv_port.is_none() {
            return Err(AppError::new("missing_field", "SRV 记录必须设置优先级、权重和端口"));
        }
        let parts = split_on_str(name, '.');
        proof {
            assert(parts.deep_view().len() == parts@.len());
        }
        let shape_ok: bool;
        if parts.len() >= 2 {
            proof {
                assert(parts.deep_view()[0] == parts@[0]@);
                assert(parts.deep_view()[1] == parts@[1]@);
            }
            shape_ok = starts_with_str(parts[0].as_str(), "_") && starts_with_str(
                parts[1].as_str(),
                "_",
            );
        } else {
            shape_ok = false;
        }
        if !shape_ok {
            return Err(AppError::new("invalid_name", "SRV 主机记录需为 _service._proto 形式"));
        }
    }
    if str_eq(rt, "CAA") {
        match &req.caa_tag {
            Some(tag) => {
                if trim_str(tag.as_str()).unicode_len() == 0 {
                    return Err(AppError::new("invalid_caa_tag", "CAA Tag 不能为空"));
                }
            },
            None => {},
        }
    }
    Ok(())
}

} // verus!
