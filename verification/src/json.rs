//! A structured JSON value model of the library's own, used to read the
//! loosely-typed provider responses through ordered candidate-key
//! lookups, and to render the exact request bodies that the derived-key
//! signing scheme signs. Non-negative integers are held as `UInt`,
//! negative ones as `Int`; numbers that are not integers do not occur in
//! the protocols this layer speaks.

use vstd::prelude::*;
use vstd::string::*;
use crate::encoding::hex_lower_digit;
use crate::strings::{dec_str, dec_str_i64, i64_to_string, string_push, u64_to_string};

verus! {

#[derive(Debug)]
pub enum JsonValue {
    Null,
    Bool(bool),
    UInt(u64),
    Int(i64),
    Str(String),
    Arr(Vec<JsonValue>),
    Obj(Vec<(String, JsonValue)>),
}

/// The value under the first pair carrying `key`.
pub open spec fn spec_obj_get(pairs: Seq<(String, JsonValue)>, key: Seq<char>) -> Option<JsonValue>
    decreases pairs.len(),
{
    if pairs.len() == 0 {
        None
    } else if pairs[0].0@ == key {
        Some(pairs[0].1)
    } else {
        spec_obj_get(pairs.skip(1), key)
    }
}

/// What `get` yields: a member of an object, by key; `None` on every
/// other shape.
pub open spec fn spec_get(v: JsonValue, key: Seq<char>) -> Option<JsonValue> {
    match v {
        JsonValue::Obj(pairs) => spec_obj_get(pairs@, key),
        _ => None,
    }
}

pub open spec fn spec_as_str(v: JsonValue) -> Option<Seq<char>> {
    match v {
        JsonValue::Str(s) => Some(s@),
        _ => None,
    }
}

pub open spec fn spec_as_u64(v: JsonValue) -> Option<u64> {
    match v {
        JsonValue::UInt(n) => Some(n),
        _ => None,
    }
}

pub open spec fn spec_as_i64(v: JsonValue) -> Option<i64> {
    match v {
        JsonValue::Int(n) => Some(n),
        JsonValue::UInt(n) => if n <= i64::MAX as u64 {
            Some(n as i64)
        } else {
            None
        },
        _ => None,
    }
}

impl JsonValue {
    /// Looks a key up in an object, as `serde_json::Value::get` does.
    #[verifier::loop_isolation(false)]
    pub fn get<'a>(&'a self, key: &str) -> (r: Option<&'a JsonValue>)
        ensures
            r matches Some(j) ==> spec_get(*self, key@) == Some(*j),
            r is None ==> spec_get(*self, key@) is None,
    {
        match self {
            JsonValue::Obj(pairs) => {
                let mut i: usize = 0;
                proof {
                    assert(pairs@.skip(0) =~= pairs@);
                }
                while i < pairs.len()
                    invariant
                        i <= pairs.len(),
                        spec_obj_get(pairs@.skip(i as int), key@) == spec_obj_get(pairs@, key@),
                    decreases pairs.len() - i,
                {
                    proof {
                        assert(pairs@.skip(i as int)[0] == pairs@[i as int]);
                        assert(pairs@.skip(i as int).skip(1) =~= pairs@.skip(i + 1));
                    }
                    if crate::strings::str_eq(pairs[i].0.as_str(), key) {
                        proof {
                            assert(spec_get(*self, key@) == spec_obj_get(pairs@, key@));
                            assert(spec_obj_get(pairs@.skip(i as int), key@) == Some(
                                pairs@[i as int].1,
                            ));
                        }
                        return Some(&pairs[i].1);
                    }
                    i = i + 1;
                }
                assert(pairs@.skip(pairs.len() as int).len() == 0);
                None
            },
            _ => None,
        }
    }

    /// The string under this value, as `Value::as_str` does.
    pub fn as_str<'a>(&'a self) -> (r: Option<&'a str>)
        ensures
            crate::strings::opt_str_view(r) == spec_as_str(*self),
    {
        match self {
            JsonValue::Str(s) => Some(s.as_str()),
            _ => None,
        }
    }

    /// The non-negative integer under this value, as `Value::as_u64`
    /// does.
    pub fn as_u64(&self) -> (r: Option<u64>)
        ensures
            r == spec_as_u64(*self),
    {
        match self {
            JsonValue::UInt(n) => Some(*n),
            _ => None,
        }
    }

    /// The signed integer under this value, as `Value::as_i64` does.
    pub fn as_i64(&self) -> (r: Option<i64>)
        ensures
            r == spec_as_i64(*self),
    {
        match self {
            JsonValue::Int(n) => Some(*n),
            JsonValue::UInt(n) => {
                if *n <= 0x7fff_ffff_ffff_ffff {
                    Some(*n as i64)
                } else {
                    None
                }
            },
            _ => None,
        }
    }

    /// The elements under this value, where it is an array.
    pub fn as_array<'a>(&'a self) -> (r: Option<&'a Vec<JsonValue>>)
        ensures
            r matches Some(a) ==> *self matches JsonValue::Arr(items) && a@ == items@,
            r is None ==> !(*self matches JsonValue::Arr(_)),
    {
        match self {
            JsonValue::Arr(items) => Some(items),
            _ => None,
        }
    }
}

/// One character of a JSON string body, escaped as `serde_json` writes
/// it: quote and backslash escaped, the named control escapes, other
/// control characters as `\u00XX`, everything else written raw.
pub open spec fn json_escape_char(c: char) -> Seq<char> {
    if c == '"' {
        seq!['\\', '"']
    } else if c == '\\' {
        seq!['\\', '\\']
    } else if c == '\u{8}' {
        seq!['\\', 'b']
    } else if c == '\t' {
        seq!['\\', 't']
    } else if c == '\n' {
        seq!['\\', 'n']
    } else if c == '\u{c}' {
        seq!['\\', 'f']
    } else if c == '\r' {
        seq!['\\', 'r']
    } else if (c as u32) < 0x20 {
        seq!['\\', 'u', '0', '0', hex_lower_digit(((c as u32) / 16) as u8), hex_lower_digit(
            ((c as u32) % 16) as u8,
        )]
    } else {
        seq![c]
    }
}

pub open spec fn json_escaped(s: Seq<char>) -> Seq<char>
    decreases s.len(),
{
    if s.len() == 0 {
        Seq::<char>::empty()
    } else {
        json_escaped(s.drop_last()) + json_escape_char(s.last())
    }
}

/// The compact rendering of a value, exactly as `serde_json::to_string`
/// writes it: no whitespace, object members in the order held.
pub open spec fn spec_json_string(v: JsonValue) -> Seq<char>
    decreases v,
{
    match v {
        JsonValue::Null => "null"@,
        JsonValue::Bool(b) => if b {
            "true"@
        } else {
            "false"@
        },
        JsonValue::UInt(n) => dec_str(n as nat),
        JsonValue::Int(n) => dec_str_i64(n as int),
        JsonValue::Str(s) => seq!['"'] + json_escaped(s@) + seq!['"'],
        JsonValue::Arr(items) => seq!['['] + spec_json_items(items@) + seq![']'],
        JsonValue::Obj(pairs) => seq!['{'] + spec_json_pairs(pairs@) + seq!['}'],
    }
}

pub open spec fn spec_json_items(items: Seq<JsonValue>) -> Seq<char>
    decreases items,
{
    if items.len() == 0 {
        Seq::<char>::empty()
    } else if items.len() == 1 {
        spec_json_string(items[0])
    } else {
        spec_json_items(items.drop_last()) + seq![','] + spec_json_string(items.last())
    }
}

pub open spec fn spec_json_member(pair: (String, JsonValue)) -> Seq<char>
    decreases pair,
{
    seq!['"'] + json_escaped(pair.0@) + seq!['"', ':'] + spec_json_string(pair.1)
}

pub open spec fn spec_json_pairs(pairs: Seq<(String, JsonValue)>) -> Seq<char>
    decreases pairs,
{
    if pairs.len() == 0 {
        Seq::<char>::empty()
    } else if pairs.len() == 1 {
        spec_json_member(pairs[0])
    } else {
        spec_json_pairs(pairs.drop_last()) + seq![','] + spec_json_member(pairs.last())
    }
}

fn exec_hex_lower_digit(n: u32) -> (c: char)
    requires
        n < 16,
    ensures
        c == hex_lower_digit(n as u8),
{
    if n == 0 { '0' }
    else if n == 1 { '1' }
    else if n == 2 { '2' }
    else if n == 3 { '3' }
    else if n == 4 { '4' }
    else if n == 5 { '5' }
    else if n == 6 { '6' }
    else if n == 7 { '7' }
    else if n == 8 { '8' }
    else if n == 9 { '9' }
    else if n == 10 { 'a' }
    else if n == 11 { 'b' }
    else if n == 12 { 'c' }
    else if n == 13 { 'd' }
    else if n == 14 { 'e' }
    else { 'f' }
}

/// Appends the escaped body of a JSON string.
fn append_escaped(out: &mut String, s: &str)
    ensures
        final(out)@ == old(out)@ + json_escaped(s@),
{
    let n = s.unicode_len();
    let mut i: usize = 0;
    proof {
        assert(s@.take(0).len() == 0);
        assert(old(out)@ + json_escaped(s@.take(0)) =~= old(out)@);
    }
    while i < n
        invariant
            i <= n,
            n == s@.len(),
            out@ == old(out)@ + json_escaped(s@.take(i as int)),
        decreases n - i,
    {
        let c = s.get_char(i);
        let cu = c as u32;
        if c == '"' {
            string_push(out, '\\');
            string_push(out, '"');
        } else if c == '\\' {
            string_push(out, '\\');
            string_push(out, '\\');
        } else if cu == 0x8 {
            string_push(out, '\\');
            string_push(out, 'b');
        } else if cu == 0x9 {
            string_push(out, '\\');
            string_push(out, 't');
        } else if cu == 0xa {
            string_push(out, '\\');
            string_push(out, 'n');
        } else if cu == 0xc {
            string_push(out, '\\');
            string_push(out, 'f');
        } else if cu == 0xd {
            string_push(out, '\\');
            string_push(out, 'r');
        } else if cu < 0x20 {
            string_push(out, '\\');
            string_push(out, 'u');
            string_push(out, '0');
            string_push(out, '0');
            string_push(out, exec_hex_lower_digit(cu / 16));
            string_push(out, exec_hex_lower_digit(cu % 16));
        } else {
            string_push(out, c);
        }
        proof {
            assert(s@.take(i + 1).drop_last() =~= s@.take(i as int));
            assert(s@.take(i + 1).last() == s@[i as int]);
            assert(out@ =~= old(out)@ + json_escaped(s@.take(i + 1)));
        }
        i = i + 1;
    }
    proof {
        assert(s@.take(n as int) =~= s@);
    }
}

/// Renders a value compactly, exactly as `serde_json::to_string` does
/// on the corresponding `serde_json::Value`.
#[verifier::loop_isolation(false)]
pub fn json_to_string(v: &JsonValue) -> (r: String)
    ensures
        r@ == spec_json_string(*v),
    decreases *v,
{
    match v {
        JsonValue::Null => {
            let mut r = String::new();
            r.append("null");
            r
        },
        JsonValue::Bool(b) => {
            let mut r = String::new();
            if *b {
                r.append("true");
            } else {
                r.append("false");
            }
            r
        },
        JsonValue::UInt(n) => u64_to_string(*n),
        JsonValue::Int(n) => i64_to_string(*n),
        JsonValue::Str(s) => {
            let mut r = String::new();
            string_push(&mut r, '"');
            append_escaped(&mut r, s.as_str());
            string_push(&mut r, '"');
            assert(r@ =~= seq!['"'] + json_escaped(s@) + seq!['"']);
            r
        },
        JsonValue::Arr(items) => {
            let mut r = String::new();
            string_push(&mut r, '[');
            let mut i: usize = 0;
            while i < items.len()
                invariant
                    i <= items.len(),
                    r@ == seq!['['] + spec_json_items(items@.take(i as int)),
                decreases items.len() - i,
            {
                if i > 0 {
                    string_push(&mut r, ',');
                }
                proof {
                    assert(*items == v->Arr_0);
                    assert(decreases_to!(*v => v->Arr_0));
                    assert(decreases_to!(v->Arr_0 => v->Arr_0@));
                    assert(decreases_to!(v->Arr_0@ => v->Arr_0@[i as int]));
                    assert(decreases_to!(*v => items@[i as int]));
                }
                let piece = json_to_string(&items[i]);
                r.append(piece.as_str());
                proof {
                    assert(items@.take(i + 1).drop_last() =~= items@.take(i as int));
                    assert(items@.take(i + 1).last() == items@[i as int]);
                    if i == 0 {
                        assert(spec_json_items(items@.take(1)) == spec_json_string(items@[0]));
                        assert(r@ =~= seq!['['] + spec_json_items(items@.take(1)));
                    } else {
                        assert(r@ =~= seq!['['] + spec_json_items(items@.take(i + 1)));
                    }
                }
                i = i + 1;
            }
            string_push(&mut r, ']');
            proof {
                assert(items@.take(items.len() as int) =~= items@);
                assert(r@ =~= seq!['['] + spec_json_items(items@) + seq![']']);
            }
            r
        },
        JsonValue::Obj(pairs) => {
            let mut r = String::new();
            string_push(&mut r, '{');
            let mut i: usize = 0;
            while i < pairs.len()
                invariant
                    i <= pairs.len(),
                    r@ == seq!['{'] + spec_json_pairs(pairs@.take(i as int)),
                decreases pairs.len() - i,
            {
                if i > 0 {
                    string_push(&mut r, ',');
                }
                string_push(&mut r, '"');
                append_escaped(&mut r, pairs[i].0.as_str());
                string_push(&mut r, '"');
                string_push(&mut r, ':');
                proof {
                    assert(*pairs == v->Obj_0);
                    assert(decreases_to!(*v => v->Obj_0));
                    assert(decreases_to!(v->Obj_0 => v->Obj_0@));
                    assert(decreases_to!(v->Obj_0@ => v->Obj_0@[i as int]));
                    assert(decreases_to!(pairs@[i as int] => pairs@[i as int].1));
                    assert(decreases_to!(*v => pairs@[i as int].1));
                }
                let piece = json_to_string(&pairs[i].1);
                r.append(piece.as_str());
                proof {
                    assert(pairs@.take(i + 1).drop_last() =~= pairs@.take(i as int));
                    assert(pairs@.take(i + 1).last() == pairs@[i as int]);
                    assert(spec_json_member(pairs@[i as int]) == seq!['"'] + json_escaped(
                        pairs@[i as int].0@,
                    ) + seq!['"', ':'] + spec_json_string(pairs@[i as int].1));
                    if i == 0 {
                        assert(spec_json_pairs(pairs@.take(1)) == spec_json_member(pairs@[0]));
                        assert(r@ =~= seq!['{'] + spec_json_pairs(pairs@.take(1)));
                    } else {
                        assert(r@ =~= seq!['{'] + spec_json_pairs(pairs@.take(i + 1)));
                    }
                }
                i = i + 1;
            }
            string_push(&mut r, '}');
            proof {
                assert(pairs@.take(pairs.len() as int) =~= pairs@);
                assert(r@ =~= seq!['{'] + spec_json_pairs(pairs@) + seq!['}']);
            }
            r
        },
    }
}

} // verus!
