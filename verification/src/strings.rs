//! Verified string utilities: decimal formatting and parsing, equality,
//! splitting and trimming over `Seq<char>` views.

use vstd::prelude::*;
use vstd::string::*;

verus! {

/// The whitespace characters recognized when splitting and trimming
/// provider record values (the ASCII whitespace set).
pub open spec fn is_wspace(c: char) -> bool {
    c == ' ' || c == '\t' || c == '\n' || c == '\r' || c == '\u{b}' || c == '\u{c}'
}

pub open spec fn is_digit_char(c: char) -> bool {
    ('0' as u32) <= (c as u32) && (c as u32) <= ('9' as u32)
}

pub open spec fn digit_val(c: char) -> nat {
    ((c as u32) - ('0' as u32)) as nat
}

pub open spec fn digit_char(n: nat) -> char {
    if n == 0 { '0' }
    else if n == 1 { '1' }
    else if n == 2 { '2' }
    else if n == 3 { '3' }
    else if n == 4 { '4' }
    else if n == 5 { '5' }
    else if n == 6 { '6' }
    else if n == 7 { '7' }
    else if n == 8 { '8' }
    else { '9' }
}

/// The decimal representation of a natural number, without leading zeros.
pub open spec fn dec_str(n: nat) -> Seq<char>
    decreases n,
{
    if n < 10 { seq![digit_char(n)] } else { dec_str(n / 10).push(digit_char(n % 10)) }
}

/// The value of a digit string read as a decimal number.
pub open spec fn dec_val(s: Seq<char>) -> nat
    decreases s.len(),
{
    if s.len() == 0 { 0 } else { dec_val(s.drop_last()) * 10 + digit_val(s.last()) }
}

pub open spec fn all_digits(s: Seq<char>) -> bool {
    forall|i: int| 0 <= i < s.len() ==> is_digit_char(#[trigger] s[i])
}

/// The digit part of an unsigned decimal literal: a single leading `+`
/// is allowed, as in Rust's integer parsing.
pub open spec fn uint_digits(s: Seq<char>) -> Seq<char> {
    if s.len() > 0 && s[0] == '+' { s.skip(1) } else { s }
}

/// Whether `s` parses as an unsigned integer no greater than `max`,
/// following Rust's rules: optional `+`, then one or more digits.
pub open spec fn parses_as_uint(s: Seq<char>, max: nat) -> bool {
    let d = uint_digits(s);
    d.len() > 0 && all_digits(d) && dec_val(d) <= max
}

pub open spec fn uint_val(s: Seq<char>) -> nat {
    dec_val(uint_digits(s))
}

fn exec_digit_char(d: u64) -> (c: char)
    requires
        d < 10,
    ensures
        c == digit_char(d as nat),
{
    if d == 0 { '0' }
    else if d == 1 { '1' }
    else if d == 2 { '2' }
    else if d == 3 { '3' }
    else if d == 4 { '4' }
    else if d == 5 { '5' }
    else if d == 6 { '6' }
    else if d == 7 { '7' }
    else if d == 8 { '8' }
    else { '9' }
}

/// Relies on `String::push`: appends one character to the string.
#[verifier::external_body]
pub fn string_push(s: &mut String, c: char)
    ensures
        final(s)@ == old(s)@.push(c),
{
    s.push(c);
}

/// Formats `n` in decimal, exactly as `u64::to_string` does.
pub fn u64_to_string(n: u64) -> (s: String)
    ensures
        s@ == dec_str(n as nat),
    decreases n,
{
    if n < 10 {
        let mut s = String::new();
        string_push(&mut s, exec_digit_char(n));
        assert(s@ =~= dec_str(n as nat));
        s
    } else {
        let mut s = u64_to_string(n / 10);
        string_push(&mut s, exec_digit_char(n % 10));
        s
    }
}

pub fn u32_to_string(n: u32) -> (s: String)
    ensures
        s@ == dec_str(n as nat),
{
    u64_to_string(n as u64)
}

pub fn u16_to_string(n: u16) -> (s: String)
    ensures
        s@ == dec_str(n as nat),
{
    u64_to_string(n as u64)
}

pub fn u8_to_string(n: u8) -> (s: String)
    ensures
        s@ == dec_str(n as nat),
{
    u64_to_string(n as u64)
}

/// The decimal representation of a signed number: a `-` sign for
/// negative values, then the magnitude.
pub open spec fn dec_str_i64(n: int) -> Seq<char> {
    if n < 0 { seq!['-'] + dec_str((-n) as nat) } else { dec_str(n as nat) }
}

pub fn i64_to_string(n: i64) -> (s: String)
    ensures
        s@ == dec_str_i64(n as int),
{
    if n >= 0 {
        u64_to_string(n as u64)
    } else {
        let mut s = String::new();
        string_push(&mut s, '-');
        // -i64::MIN does not fit in i64; negate via n + 1 instead
        let m1: i64 = -(n + 1);
        let mag: u64 = (m1 as u64) + 1;
        assert(mag == -(n as int));
        let rest = u64_to_string(mag);
        let mut out = s;
        out.append(rest.as_str());
        assert(out@ =~= dec_str_i64(n as int));
        out
    }
}

/// Compares two string slices by contents.
pub fn str_eq(a: &str, b: &str) -> (r: bool)
    ensures
        r == (a@ == b@),
{
    let sa = a.to_owned();
    let sb = b.to_owned();
    sa == sb
}

/// The view of an optional owned string.
pub open spec fn opt_string_view(o: Option<String>) -> Option<Seq<char>> {
    match o {
        Some(s) => Some(s@),
        None => None,
    }
}

/// The view of an optional string slice.
pub open spec fn opt_str_view(o: Option<&str>) -> Option<Seq<char>> {
    match o {
        Some(s) => Some(s@),
        None => None,
    }
}

/// A decimal representation consists of digits and is never empty.
pub proof fn lemma_dec_str_digits(n: nat)
    ensures
        all_digits(dec_str(n)),
        dec_str(n).len() >= 1,
    decreases n,
{
    if n >= 10 {
        lemma_dec_str_digits(n / 10);
    }
}

/// Reading back a decimal representation yields the number itself.
pub proof fn lemma_dec_val_dec_str(n: nat)
    ensures
        dec_val(dec_str(n)) == n,
    decreases n,
{
    if n < 10 {
        let s = dec_str(n);
        assert(s.drop_last() =~= Seq::<char>::empty());
        assert(dec_val(Seq::<char>::empty()) == 0);
        assert(digit_val(digit_char(n)) == n);
    } else {
        lemma_dec_val_dec_str(n / 10);
        let s = dec_str(n);
        assert(s.drop_last() =~= dec_str(n / 10));
        assert(s.last() == digit_char(n % 10));
        assert(digit_val(digit_char(n % 10)) == n % 10);
    }
}

proof fn lemma_dec_val_take_le(s: Seq<char>, i: int)
    requires
        all_digits(s),
        0 <= i <= s.len(),
    ensures
        dec_val(s.take(i)) <= dec_val(s),
    decreases s.len() - i,
{
    if i < s.len() {
        assert(s.take(i + 1).drop_last() =~= s.take(i));
        assert(dec_val(s.take(i + 1)) == dec_val(s.take(i)) * 10 + digit_val(s.take(i + 1).last()));
        lemma_dec_val_take_le(s, i + 1);
    } else {
        assert(s.take(i) =~= s);
    }
}

fn exec_is_wspace(c: char) -> (b: bool)
    ensures
        b == is_wspace(c),
{
    c == ' ' || c == '\t' || c == '\n' || c == '\r' || c == '\u{b}' || c == '\u{c}'
}

/// Parses `s` as an unsigned decimal integer bounded by `max`, following
/// Rust's rules for unsigned integer parsing (optional `+`, digits only,
/// overflow rejected).
pub fn parse_uint(s: &str, max: u64) -> (r: Option<u64>)
    requires
        max >= 9,
    ensures
        (r is Some) == parses_as_uint(s@, max as nat),
        r matches Some(v) ==> v as nat == uint_val(s@) && v <= max,
{
    let n = s.unicode_len();
    if n == 0 {
        return None;
    }
    let first = s.get_char(0);
    let start: usize = if first == '+' { 1 } else { 0 };
    let ghost d = uint_digits(s@);
    assert(d =~= s@.skip(start as int));
    if n == start {
        return None;
    }
    let mut acc: u64 = 0;
    let mut i: usize = start;
    while i < n
        invariant
            start <= i <= n,
            n == s@.len(),
            max >= 9,
            d == uint_digits(s@),
            d == s@.skip(start as int),
            d.len() == n - start,
            all_digits(d.take(i - start)),
            acc as nat == dec_val(d.take(i - start)),
            acc <= max,
        decreases n - i,
    {
        let cu = s.get_char(i) as u32;
        assert(d[i - start] == s@[i as int]);
        if cu < 48 || cu > 57 {
            assert(!is_digit_char(d[i - start]));
            assert(!all_digits(d));
            return None;
        }
        let dv: u64 = (cu - 48) as u64;
        assert(is_digit_char(d[i - start]) && digit_val(d[i - start]) == dv);
        assert(d.take(i - start + 1).drop_last() =~= d.take(i - start));
        assert(d.take(i - start + 1).last() == d[i - start]);
        assert(dec_val(d.take(i - start + 1)) == acc * 10 + dv);
        if acc > (max - dv) / 10 {
            // the prefix already exceeds max, so the whole string does too
            proof {
                assert(acc * 10 + dv > max) by (nonlinear_arith)
                    requires acc > (max - dv) / 10 && dv <= 9 && max >= 9 && acc >= 0;
                if all_digits(d) {
                    lemma_dec_val_take_le(d, i - start + 1);
                    assert(dec_val(d) > max as nat);
                }
            }
            return None;
        }
        proof {
            assert(acc * 10 + dv <= max) by (nonlinear_arith)
                requires acc <= (max - dv) / 10 && dv <= 9 && max >= 9 && acc >= 0 && dv <= max;
        }
        acc = acc * 10 + dv;
        i = i + 1;
    }
    assert(d.take(n - start) =~= d);
    Some(acc)
}

/// Whether a character of `s` equals `c`.
pub open spec fn has_char(s: Seq<char>, c: char) -> bool {
    exists|i: int| 0 <= i < s.len() && s[i] == c
}

/// Whether the string contains the character `c`.
pub fn contains_char(s: &str, c: char) -> (r: bool)
    ensures
        r == has_char(s@, c),
{
    let n = s.unicode_len();
    let mut i: usize = 0;
    while i < n
        invariant
            i <= n,
            n == s@.len(),
            forall|j: int| 0 <= j < i ==> s@[j] != c,
        decreases n - i,
    {
        if s.get_char(i) == c {
            return true;
        }
        i = i + 1;
    }
    false
}

/// Whether `needle` occurs contiguously inside `s`.
pub open spec fn contains_seq(s: Seq<char>, needle: Seq<char>) -> bool {
    exists|i: int| 0 <= i <= s.len() - needle.len() && #[trigger] s.subrange(i, i + needle.len())
        == needle
}

/// Whether the string contains `needle` as a substring, as
/// `str::contains` does.
pub fn contains_str(s: &str, needle: &str) -> (r: bool)
    ensures
        r == contains_seq(s@, needle@),
{
    let n = s.unicode_len();
    let m = needle.unicode_len();
    if m > n {
        assert(!contains_seq(s@, needle@));
        return false;
    }
    if m == 0 {
        proof {
            let l = needle@.len() as int;
            assert(s@.subrange(0, 0 + l) =~= needle@);
        }
        return true;
    }
    let mut i: usize = 0;
    while i <= n - m
        invariant
            0 < m <= n,
            i <= n - m + 1,
            n == s@.len(),
            m == needle@.len(),
            forall|j: int| 0 <= j < i ==> #[trigger] s@.subrange(j, j + needle@.len()) != needle@,
        decreases n - i,
    {
        let window = s.substring_char(i, i + m);
        if str_eq(window, needle) {
            assert(s@.subrange(i as int, i + needle@.len()) == needle@);
            return true;
        }
        i = i + 1;
    }
    false
}

/// Whether `s` ends with `suffix`.
pub open spec fn ends_with(s: Seq<char>, suffix: Seq<char>) -> bool {
    s.len() >= suffix.len() && s.skip(s.len() - suffix.len()) == suffix
}

/// Whether `s` starts with `prefix`.
pub open spec fn starts_with(s: Seq<char>, prefix: Seq<char>) -> bool {
    s.len() >= prefix.len() && s.take(prefix.len() as int) == prefix
}

pub fn ends_with_str(s: &str, suffix: &str) -> (r: bool)
    ensures
        r == ends_with(s@, suffix@),
{
    let n = s.unicode_len();
    let m = suffix.unicode_len();
    if m > n {
        return false;
    }
    let tail = s.substring_char(n - m, n);
    assert(tail@ =~= s@.skip(s@.len() - suffix@.len()));
    str_eq(tail, suffix)
}

pub fn starts_with_str(s: &str, prefix: &str) -> (r: bool)
    ensures
        r == starts_with(s@, prefix@),
{
    let n = s.unicode_len();
    let m = prefix.unicode_len();
    if m > n {
        return false;
    }
    let head = s.substring_char(0, m);
    assert(head@ =~= s@.take(prefix@.len() as int));
    str_eq(head, prefix)
}

/// Splitting a string on a separator character, as `str::split` does:
/// the pieces between occurrences of `sep`, empty pieces kept.
pub open spec fn split_on(s: Seq<char>, sep: char) -> Seq<Seq<char>>
    decreases s.len(),
{
    if s.len() == 0 {
        seq![Seq::<char>::empty()]
    } else if s[0] == sep {
        seq![Seq::<char>::empty()] + split_on(s.skip(1), sep)
    } else {
        let rest = split_on(s.skip(1), sep);
        seq![seq![s[0]] + rest[0]] + rest.skip(1)
    }
}

proof fn lemma_split_on_no_sep(s: Seq<char>, sep: char)
    requires
        !has_char(s, sep),
    ensures
        split_on(s, sep) =~~= seq![s],
    decreases s.len(),
{
    if s.len() > 0 {
        assert(forall|j: int| 0 <= j < s.skip(1).len() ==> s.skip(1)[j] == s[j + 1]);
        lemma_split_on_no_sep(s.skip(1), sep);
        assert(seq![s[0]] + s.skip(1) =~= s);
    }
}

proof fn lemma_split_on_app(a: Seq<char>, b: Seq<char>, sep: char)
    requires
        !has_char(a, sep),
    ensures
        split_on(a + seq![sep] + b, sep) =~~= seq![a] + split_on(b, sep),
    decreases a.len(),
{
    let s = a + seq![sep] + b;
    if a.len() == 0 {
        assert(s =~= seq![sep] + b);
        assert(s[0] == sep);
        assert(s.skip(1) =~= b);
    } else {
        assert(s[0] == a[0] && a[0] != sep);
        assert(s.skip(1) =~= a.skip(1) + seq![sep] + b);
        assert(forall|j: int| 0 <= j < a.skip(1).len() ==> a.skip(1)[j] == a[j + 1]);
        lemma_split_on_app(a.skip(1), b, sep);
        let rest = split_on(s.skip(1), sep);
        assert(rest[0] == a.skip(1));
        assert(seq![s[0]] + rest[0] =~= a);
        assert(rest.skip(1) =~~= split_on(b, sep));
    }
}

/// Splits the string on every occurrence of `sep`, as `str::split` does.
pub fn split_on_str(s: &str, sep: char) -> (parts: Vec<String>)
    ensures
        parts.deep_view() =~~= split_on(s@, sep),
{
    let n = s.unicode_len();
    let mut parts: Vec<String> = Vec::new();
    let mut p: usize = 0;
    let mut i: usize = 0;
    proof {
        assert(parts.deep_view() =~~= Seq::<Seq<char>>::empty());
        assert(s@.skip(0) =~= s@);
    }
    while i < n
        invariant
            p <= i <= n,
            n == s@.len(),
            split_on(s@, sep) =~~= parts.deep_view() + split_on(s@.skip(p as int), sep),
            forall|j: int| p <= j < i ==> s@[j] != sep,
        decreases n - i,
    {
        if s.get_char(i) == sep {
            let piece = s.substring_char(p, i);
            let ghost dv = parts.deep_view();
            proof {
                let tail = s@.skip(p as int);
                assert(piece@ =~= tail.take(i - p));
                assert(!has_char(piece@, sep));
                assert(tail =~= piece@ + seq![sep] + s@.skip(i + 1));
                lemma_split_on_app(piece@, s@.skip(i + 1), sep);
            }
            parts.push(piece.to_owned());
            proof {
                assert(parts.deep_view() =~~= dv + seq![piece@]);
            }
            p = i + 1;
        }
        i = i + 1;
    }
    let piece = s.substring_char(p, n);
    let ghost dv = parts.deep_view();
    proof {
        assert(piece@ =~= s@.skip(p as int));
        assert(!has_char(piece@, sep));
        lemma_split_on_no_sep(piece@, sep);
    }
    parts.push(piece.to_owned());
    proof {
        assert(parts.deep_view() =~~= dv + seq![piece@]);
    }
    parts
}

/// Splitting on whitespace, as `str::split_whitespace` does: the maximal
/// nonempty runs of non-whitespace characters.
pub open spec fn split_ws(s: Seq<char>) -> Seq<Seq<char>>
    decreases s.len(),
{
    if s.len() == 0 {
        Seq::<Seq<char>>::empty()
    } else if is_wspace(s[0]) {
        split_ws(s.skip(1))
    } else {
        let rest = split_ws(s.skip(1));
        if s.len() >= 2 && !is_wspace(s[1]) {
            seq![seq![s[0]] + rest[0]] + rest.skip(1)
        } else {
            seq![seq![s[0]]] + rest
        }
    }
}

pub proof fn lemma_split_ws_token(t: Seq<char>, r: Seq<char>)
    requires
        t.len() > 0,
        forall|i: int| 0 <= i < t.len() ==> !is_wspace(#[trigger] t[i]),
        r.len() == 0 || is_wspace(r[0]),
    ensures
        split_ws(t + r) =~~= seq![t] + split_ws(r),
    decreases t.len(),
{
    let s = t + r;
    assert(s[0] == t[0]);
    if t.len() == 1 {
        assert(s.skip(1) =~= r);
        if r.len() == 0 {
            assert(s.skip(1).len() == 0);
            assert(split_ws(s.skip(1)) =~~= Seq::<Seq<char>>::empty());
            assert(split_ws(s) =~~= seq![seq![s[0]]]);
            assert(seq![s[0]] =~= t);
        } else {
            assert(s.len() >= 2 && is_wspace(s[1]));
            assert(seq![seq![s[0]]] =~~= seq![t]);
        }
    } else {
        assert(s.skip(1) =~= t.skip(1) + r);
        assert(forall|j: int| 0 <= j < t.skip(1).len() ==> t.skip(1)[j] == t[j + 1]);
        lemma_split_ws_token(t.skip(1), r);
        let rest = split_ws(s.skip(1));
        assert(s.len() >= 2 && s[1] == t[1] && !is_wspace(s[1]));
        assert(rest[0] == t.skip(1));
        assert(seq![s[0]] + rest[0] =~= t);
        assert(rest.skip(1) =~~= split_ws(r));
    }
}

/// Splits the string into whitespace-separated tokens, as
/// `str::split_whitespace` does on ASCII whitespace.
pub fn split_ws_str(s: &str) -> (parts: Vec<String>)
    ensures
        parts.deep_view() =~~= split_ws(s@),
{
    let n = s.unicode_len();
    let mut parts: Vec<String> = Vec::new();
    let mut i: usize = 0;
    proof {
        assert(parts.deep_view() =~~= Seq::<Seq<char>>::empty());
        assert(s@.skip(0) =~= s@);
    }
    while i < n
        invariant
            i <= n,
            n == s@.len(),
            split_ws(s@) =~~= parts.deep_view() + split_ws(s@.skip(i as int)),
        decreases n - i,
    {
        if exec_is_wspace(s.get_char(i)) {
            proof {
                assert(s@.skip(i as int).skip(1) =~= s@.skip(i + 1));
            }
            i = i + 1;
        } else {
            // scan the token
            let start = i;
            let mut j = i + 1;
            while j < n
                invariant_except_break
                    start < j <= n,
                    n == s@.len(),
                    forall|k: int| start <= k < j ==> !is_wspace(#[trigger] s@[k]),
                ensures
                    start < j <= n,
                    forall|k: int| start <= k < j ==> !is_wspace(#[trigger] s@[k]),
                    j == n || is_wspace(s@[j as int]),
                decreases n - j,
            {
                if exec_is_wspace(s.get_char(j)) {
                    break;
                }
                j = j + 1;
            }
            let tok = s.substring_char(start, j);
            let ghost dv = parts.deep_view();
            proof {
                let tail = s@.skip(start as int);
                assert(tok@ =~= tail.take(j - start));
                assert(tail =~= tok@ + s@.skip(j as int));
                assert(forall|k: int| 0 <= k < tok@.len() ==> !is_wspace(#[trigger] tok@[k]));
                let r = s@.skip(j as int);
                assert(r.len() == 0 || is_wspace(r[0]));
                lemma_split_ws_token(tok@, r);
            }
            parts.push(tok.to_owned());
            proof {
                assert(parts.deep_view() =~~= dv + seq![tok@]);
            }
            i = j;
        }
    }
    assert(s@.skip(n as int) =~= Seq::<char>::empty());
    parts
}

/// The string with leading whitespace removed.
pub open spec fn trim_start_spec(s: Seq<char>) -> Seq<char>
    decreases s.len(),
{
    if s.len() > 0 && is_wspace(s[0]) { trim_start_spec(s.skip(1)) } else { s }
}

/// The string with trailing whitespace removed.
pub open spec fn trim_end_spec(s: Seq<char>) -> Seq<char>
    decreases s.len(),
{
    if s.len() > 0 && is_wspace(s.last()) { trim_end_spec(s.drop_last()) } else { s }
}

/// The string with surrounding whitespace removed, as `str::trim` does
/// on ASCII whitespace.
pub open spec fn trim_spec(s: Seq<char>) -> Seq<char> {
    trim_end_spec(trim_start_spec(s))
}

fn trim_start_str<'a>(s: &'a str) -> (r: &'a str)
    ensures
        r@ == trim_start_spec(s@),
    decreases s@.len(),
{
    let n = s.unicode_len();
    if n > 0 && exec_is_wspace(s.get_char(0)) {
        let rest = s.substring_char(1, n);
        assert(rest@ =~= s@.skip(1));
        trim_start_str(rest)
    } else {
        s
    }
}

fn trim_end_str<'a>(s: &'a str) -> (r: &'a str)
    ensures
        r@ == trim_end_spec(s@),
    decreases s@.len(),
{
    let n = s.unicode_len();
    if n > 0 && exec_is_wspace(s.get_char(n - 1)) {
        let rest = s.substring_char(0, n - 1);
        assert(rest@ =~= s@.drop_last());
        trim_end_str(rest)
    } else {
        s
    }
}

/// Removes surrounding whitespace, as `str::trim` does.
pub fn trim_str<'a>(s: &'a str) -> (r: &'a str)
    ensures
        r@ == trim_spec(s@),
{
    trim_end_str(trim_start_str(s))
}

/// The pieces joined with the separator between them.
pub open spec fn join_with(parts: Seq<Seq<char>>, sep: Seq<char>) -> Seq<char>
    decreases parts.len(),
{
    if parts.len() == 0 {
        Seq::<char>::empty()
    } else if parts.len() == 1 {
        parts[0]
    } else {
        join_with(parts.drop_last(), sep) + sep + parts.last()
    }
}

/// Joins the strings with the separator, as `[String]::join` does.
pub fn join_strings(parts: &Vec<String>, sep: &str) -> (r: String)
    ensures
        r@ == join_with(parts.deep_view(), sep@),
{
    let mut r = String::new();
    let mut i: usize = 0;
    while i < parts.len()
        invariant
            i <= parts.len(),
            r@ == join_with(parts.deep_view().take(i as int), sep@),
        decreases parts.len() - i,
    {
        if i > 0 {
            r.append(sep);
        }
        r.append(parts[i].as_str());
        proof {
            let dv = parts.deep_view();
            assert(dv.take(i + 1).drop_last() =~= dv.take(i as int));
            assert(dv.take(i + 1).last() == dv[i as int]);
            if i == 0 {
                assert(join_with(dv.take(1), sep@) == dv[0]);
            }
        }
        i = i + 1;
    }
    proof {
        assert(parts.deep_view().take(parts.len() as int) =~= parts.deep_view());
    }
    r
}

/// Lexicographic order on text, by code point, shorter prefixes first:
/// the order in which canonical query and header keys must stand.
pub open spec fn lex_le(a: Seq<char>, b: Seq<char>) -> bool
    decreases a.len(),
{
    if a.len() == 0 {
        true
    } else if b.len() == 0 {
        false
    } else if (a[0] as u32) < (b[0] as u32) {
        true
    } else if (a[0] as u32) > (b[0] as u32) {
        false
    } else {
        lex_le(a.skip(1), b.skip(1))
    }
}

/// Appends one request parameter to a key/value list.
pub fn push_pair(params: &mut Vec<(String, String)>, k: &str, v: String)
    ensures
        final(params).deep_view() =~~= old(params).deep_view().push((k@, v@)),
{
    let ghost dv = params.deep_view();
    params.push((k.to_owned(), v));
    proof {
        assert(params.deep_view() =~~= dv.push((k@, v@)));
    }
}

} // verus!
