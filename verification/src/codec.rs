//! The record value codec: packing structured SRV and CAA fields into the
//! flat space-joined strings most providers use, and unpacking them again.
//!
//! SRV values are encoded as `"{priority} {weight} {port} {target}"` and
//! CAA values as `"{flags} {tag} {value}"`, with flags defaulting to `0`
//! and the tag to `"issue"`. Decoding splits on whitespace; too few tokens
//! degrades to plain content with all structured fields absent, never an
//! error.

use vstd::prelude::*;
use vstd::string::*;
use crate::strings::{
    dec_str, is_digit_char, is_wspace, join_strings, join_with, lemma_dec_str_digits,
    lemma_dec_val_dec_str, lemma_split_ws_token, opt_str_view, opt_string_view, parse_uint,
    parses_as_uint, split_ws, split_ws_str, str_eq, u16_to_string, u8_to_string, uint_digits,
    uint_val,
};

verus! {

/// The flat string form of a record value, as sent to a provider.
pub open spec fn spec_record_value(
    record_type: Seq<char>,
    content: Seq<char>,
    srv_priority: Option<u16>,
    srv_weight: Option<u16>,
    srv_port: Option<u16>,
    caa_flags: Option<u8>,
    caa_tag: Option<Seq<char>>,
) -> Seq<char> {
    if record_type == "SRV"@ {
        dec_str(opt_u16_or0(srv_priority) as nat) + " "@ + dec_str(opt_u16_or0(srv_weight) as nat)
            + " "@ + dec_str(opt_u16_or0(srv_port) as nat) + " "@ + content
    } else if record_type == "CAA"@ {
        dec_str(opt_u8_or0(caa_flags) as nat) + " "@ + opt_tag_or_issue(caa_tag) + " "@ + content
    } else {
        content
    }
}

pub open spec fn opt_u16_or0(o: Option<u16>) -> u16 {
    match o {
        Some(v) => v,
        None => 0,
    }
}

pub open spec fn opt_u8_or0(o: Option<u8>) -> u8 {
    match o {
        Some(v) => v,
        None => 0,
    }
}

pub open spec fn opt_tag_or_issue(o: Option<Seq<char>>) -> Seq<char> {
    match o {
        Some(t) => t,
        None => "issue"@,
    }
}

/// What `parse::<u16>().ok()` yields on a token.
pub open spec fn spec_parse_u16(s: Seq<char>) -> Option<u16> {
    if parses_as_uint(s, 0xffff) { Some(uint_val(s) as u16) } else { None }
}

/// What `parse::<u8>().ok()` yields on a token.
pub open spec fn spec_parse_u8(s: Seq<char>) -> Option<u8> {
    if parses_as_uint(s, 0xff) { Some(uint_val(s) as u8) } else { None }
}

/// What decoding a provider value yields, as
/// `(content, srv_priority, srv_weight, srv_port, caa_flags, caa_tag)`.
pub open spec fn spec_decode_value(record_type: Seq<char>, value: Seq<char>) -> (
    Seq<char>,
    Option<u16>,
    Option<u16>,
    Option<u16>,
    Option<u8>,
    Option<Seq<char>>,
) {
    if record_type == "SRV"@ {
        let parts = split_ws(value);
        if parts.len() >= 4 {
            (
                join_with(parts.skip(3), " "@),
                spec_parse_u16(parts[0]),
                spec_parse_u16(parts[1]),
                spec_parse_u16(parts[2]),
                None,
                None,
            )
        } else {
            (value, None, None, None, None, None)
        }
    } else if record_type == "CAA"@ {
        let parts = split_ws(value);
        if parts.len() >= 3 {
            (
                join_with(parts.skip(2), " "@),
                None,
                None,
                None,
                spec_parse_u8(parts[0]),
                Some(parts[1]),
            )
        } else {
            (value, None, None, None, None, None)
        }
    } else {
        (value, None, None, None, None, None)
    }
}

/// Encodes the structured fields of a record into the provider's flat
/// string value.
pub fn encode_record_value(
    record_type: &str,
    content: &str,
    srv_priority: Option<u16>,
    srv_weight: Option<u16>,
    srv_port: Option<u16>,
    caa_flags: Option<u8>,
    caa_tag: Option<&str>,
) -> (r: String)
    ensures
        r@ == spec_record_value(
            record_type@,
            content@,
            srv_priority,
            srv_weight,
            srv_port,
            caa_flags,
            opt_str_view(caa_tag),
        ),
{
    if str_eq(record_type, "SRV") {
        let p: u16 = match srv_priority {
            Some(v) => v,
            None => 0,
        };
        let w: u16 = match srv_weight {
            Some(v) => v,
            None => 0,
        };
        let po: u16 = match srv_port {
            Some(v) => v,
            None => 0,
        };
        let mut s = u16_to_string(p);
        s.append(" ");
        let ws = u16_to_string(w);
        s.append(ws.as_str());
        s.append(" ");
        let pos = u16_to_string(po);
        s.append(pos.as_str());
        s.append(" ");
        s.append(content);
        s
    } else if str_eq(record_type, "CAA") {
        let f: u8 = match caa_flags {
            Some(v) => v,
            None => 0,
        };
        let mut s = u8_to_string(f);
        s.append(" ");
        match caa_tag {
            Some(t) => s.append(t),
            None => s.append("issue"),
        }
        s.append(" ");
        s.append(content);
        s
    } else {
        content.to_owned()
    }
}

/// Copies the pieces from index `k` on.
fn tail_parts(parts: &Vec<String>, k: usize) -> (r: Vec<String>)
    requires
        k <= parts.len(),
    ensures
        r.deep_view() =~~= parts.deep_view().skip(k as int),
{
    let mut r: Vec<String> = Vec::new();
    let mut i: usize = k;
    proof {
        assert(r.deep_view() =~~= parts.deep_view().skip(k as int).take(0));
    }
    while i < parts.len()
        invariant
            k <= i <= parts.len(),
            r.deep_view() =~~= parts.deep_view().skip(k as int).take(i - k),
        decreases parts.len() - i,
    {
        let ghost dv = r.deep_view();
        r.push(parts[i].clone());
        proof {
            assert(r.deep_view() =~~= dv + seq![parts@[i as int]@]);
            assert(parts.deep_view().skip(k as int).take(i + 1 - k) =~~= parts.deep_view().skip(
                k as int,
            ).take(i - k) + seq![parts.deep_view()[i as int]]);
            assert(parts.deep_view()[i as int] == parts@[i as int]@);
        }
        i = i + 1;
    }
    proof {
        assert(parts.deep_view().skip(k as int).take(parts.len() - k) =~~= parts.deep_view().skip(
            k as int,
        ));
    }
    r
}

fn parse_u16_token(s: &str) -> (r: Option<u16>)
    ensures
        r == spec_parse_u16(s@),
{
    match parse_uint(s, 0xffff) {
        Some(v) => Some(v as u16),
        None => None,
    }
}

fn parse_u8_token(s: &str) -> (r: Option<u8>)
    ensures
        r == spec_parse_u8(s@),
{
    match parse_uint(s, 0xff) {
        Some(v) => Some(v as u8),
        None => None,
    }
}

/// Decodes a provider's flat record value into
/// `(content, srv_priority, srv_weight, srv_port, caa_flags, caa_tag)`.
/// Too few tokens means the whole value is kept as plain content.
pub fn parse_record_value(record_type: &str, value: &str) -> (r: (
    String,
    Option<u16>,
    Option<u16>,
    Option<u16>,
    Option<u8>,
    Option<String>,
))
    ensures
        ({
            let d = spec_decode_value(record_type@, value@);
            r.0@ == d.0 && r.1 == d.1 && r.2 == d.2 && r.3 == d.3 && r.4 == d.4
                && opt_string_view(r.5) == d.5
        }),
{
    if str_eq(record_type, "SRV") {
        let parts = split_ws_str(value);
        if parts.len() >= 4 {
            let tail = tail_parts(&parts, 3);
            let content = join_strings(&tail, " ");
            proof {
                assert(parts.deep_view()[0] == parts@[0]@);
                assert(parts.deep_view()[1] == parts@[1]@);
                assert(parts.deep_view()[2] == parts@[2]@);
            }
            let p = parse_u16_token(parts[0].as_str());
            let w = parse_u16_token(parts[1].as_str());
            let po = parse_u16_token(parts[2].as_str());
            (content, p, w, po, None, None)
        } else {
            (value.to_owned(), None, None, None, None, None)
        }
    } else if str_eq(record_type, "CAA") {
        let parts = split_ws_str(value);
        if parts.len() >= 3 {
            let tail = tail_parts(&parts, 2);
            let content = join_strings(&tail, " ");
            proof {
                assert(parts.deep_view()[0] == parts@[0]@);
                assert(parts.deep_view()[1] == parts@[1]@);
            }
            let f = parse_u8_token(parts[0].as_str());
            let tag = parts[1].clone();
            (content, None, None, None, f, Some(tag))
        } else {
            (value.to_owned(), None, None, None, None, None)
        }
    } else {
        (value.to_owned(), None, None, None, None, None)
    }
}

proof fn lemma_split_ws_sp(t: Seq<char>, rest: Seq<char>)
    requires
        t.len() > 0,
        forall|i: int| 0 <= i < t.len() ==> !is_wspace(#[trigger] t[i]),
    ensures
        split_ws(t + " "@ + rest) =~~= seq![t] + split_ws(rest),
{
    reveal_strlit(" ");
    let s = t + " "@ + rest;
    let after = " "@ + rest;
    assert(s =~= t + after);
    assert(after[0] == ' ');
    lemma_split_ws_token(t, after);
    assert(is_wspace(after[0]));
    assert(split_ws(after) =~~= split_ws(after.skip(1)));
    assert(after.skip(1) =~= rest);
}

proof fn lemma_split_ws_single(t: Seq<char>)
    requires
        t.len() > 0,
        forall|i: int| 0 <= i < t.len() ==> !is_wspace(#[trigger] t[i]),
    ensures
        split_ws(t) =~~= seq![t],
{
    assert(t =~= t + Seq::<char>::empty());
    lemma_split_ws_token(t, Seq::<char>::empty());
}

proof fn lemma_dec_str_token(n: nat)
    ensures
        dec_str(n).len() > 0,
        forall|i: int| 0 <= i < dec_str(n).len() ==> !is_wspace(#[trigger] dec_str(n)[i]),
        spec_parse_u16(dec_str(n)) == (if n <= 0xffff { Some(n as u16) } else { spec_parse_u16(dec_str(n)) }),
        spec_parse_u8(dec_str(n)) == (if n <= 0xff { Some(n as u8) } else { spec_parse_u8(dec_str(n)) }),
{
    lemma_dec_str_digits(n);
    lemma_dec_val_dec_str(n);
    let s = dec_str(n);
    assert forall|i: int| 0 <= i < s.len() implies !is_wspace(#[trigger] s[i]) by {
        assert(is_digit_char(s[i]));
    }
    assert(is_digit_char(s[0]));
    assert(s[0] != '+');
    assert(uint_digits(s) == s);
}

/// Law: an encoded SRV value decodes back to the original priority,
/// weight, port and target, for any target free of whitespace.
pub proof fn lemma_srv_round_trip(priority: u16, weight: u16, port: u16, content: Seq<char>)
    requires
        content.len() > 0,
        forall|i: int| 0 <= i < content.len() ==> !is_wspace(#[trigger] content[i]),
    ensures
        ({
            let enc = spec_record_value(
                "SRV"@,
                content,
                Some(priority),
                Some(weight),
                Some(port),
                None,
                None,
            );
            let dec = spec_decode_value("SRV"@, enc);
            dec.0 == content && dec.1 == Some(priority) && dec.2 == Some(weight) && dec.3 == Some(
                port,
            ) && dec.4 == None::<u8> && dec.5 == None::<Seq<char>>
        }),
{
    let d1 = dec_str(priority as nat);
    let d2 = dec_str(weight as nat);
    let d3 = dec_str(port as nat);
    lemma_dec_str_token(priority as nat);
    lemma_dec_str_token(weight as nat);
    lemma_dec_str_token(port as nat);
    let enc = spec_record_value("SRV"@, content, Some(priority), Some(weight), Some(port), None, None);
    let r2 = d2 + " "@ + (d3 + " "@ + content);
    let r3 = d3 + " "@ + content;
    assert(enc =~= d1 + " "@ + r2);
    lemma_split_ws_sp(d1, r2);
    assert(r2 =~= d2 + " "@ + r3);
    lemma_split_ws_sp(d2, r3);
    lemma_split_ws_sp(d3, content);
    lemma_split_ws_single(content);
    let parts = split_ws(enc);
    assert(parts =~~= seq![d1, d2, d3, content]);
    assert(parts.skip(3) =~~= seq![content]);
    assert(join_with(seq![content], " "@) == content);
}

proof fn proof_caa_is_not_srv()
    ensures
        "CAA"@ != "SRV"@,
{
    reveal_strlit("CAA");
    reveal_strlit("SRV");
    assert("CAA"@[0] == 'C' && "SRV"@[0] == 'S');
}

/// Law: an encoded CAA value decodes back to the flags, the tag and the
/// value, with flags defaulting to zero and the tag to `"issue"` where
/// they were absent, for any value free of whitespace.
pub proof fn lemma_caa_round_trip(caa_flags: Option<u8>, caa_tag: Option<Seq<char>>, content: Seq<char>)
    requires
        content.len() > 0,
        forall|i: int| 0 <= i < content.len() ==> !is_wspace(#[trigger] content[i]),
        caa_tag matches Some(t) ==> t.len() > 0 && forall|i: int|
            0 <= i < t.len() ==> !is_wspace(#[trigger] t[i]),
    ensures
        ({
            let enc = spec_record_value("CAA"@, content, None, None, None, caa_flags, caa_tag);
            let dec = spec_decode_value("CAA"@, enc);
            dec.0 == content && dec.1 == None::<u16> && dec.2 == None::<u16> && dec.3
                == None::<u16> && dec.4 == Some(opt_u8_or0(caa_flags)) && dec.5 == Some(
                opt_tag_or_issue(caa_tag),
            )
        }),
{
    let f = opt_u8_or0(caa_flags);
    let d1 = dec_str(f as nat);
    let tag = opt_tag_or_issue(caa_tag);
    lemma_dec_str_token(f as nat);
    proof_caa_is_not_srv();
    if caa_tag is None {
        reveal_strlit("issue");
        assert(tag.len() == 5);
        assert forall|i: int| 0 <= i < tag.len() implies !is_wspace(#[trigger] tag[i]) by {
            assert(tag[0] == 'i' && tag[1] == 's' && tag[2] == 's' && tag[3] == 'u' && tag[4]
                == 'e');
        }
    }
    let enc = spec_record_value("CAA"@, content, None, None, None, caa_flags, caa_tag);
    let r2 = tag + " "@ + content;
    assert(enc =~= d1 + " "@ + r2);
    lemma_split_ws_sp(d1, r2);
    lemma_split_ws_sp(tag, content);
    lemma_split_ws_single(content);
    let parts = split_ws(enc);
    assert(parts =~~= seq![d1, tag, content]);
    assert(parts.skip(2) =~~= seq![content]);
    assert(join_with(seq![content], " "@) == content);
}

/// Law: decoding populates only the fields relevant to the record type:
/// SRV fields appear only on SRV values, CAA fields only on CAA values,
/// and never together.
pub proof fn lemma_decode_fields_match_type(record_type: Seq<char>, value: Seq<char>)
    ensures
        ({
            let d = spec_decode_value(record_type, value);
            &&& record_type != "SRV"@ ==> d.1 is None && d.2 is None && d.3 is None
            &&& record_type != "CAA"@ ==> d.4 is None && d.5 is None
            &&& !((d.1 is Some || d.2 is Some || d.3 is Some) && (d.4 is Some || d.5 is Some))
        }),
{
    proof_caa_is_not_srv();
}

/// Law: for record types other than SRV and CAA the codec is the
/// identity: the value is the content and no structured field is set.
pub proof fn lemma_plain_round_trip(record_type: Seq<char>, content: Seq<char>)
    requires
        record_type != "SRV"@,
        record_type != "CAA"@,
    ensures
        ({
            let enc = spec_record_value(record_type, content, None, None, None, None, None);
            let dec = spec_decode_value(record_type, enc);
            enc == content && dec.0 == content && dec.1 == None::<u16> && dec.2 == None::<u16>
                && dec.3 == None::<u16> && dec.4 == None::<u8> && dec.5 == None::<Seq<char>>
        }),
{
}

} // verus!
