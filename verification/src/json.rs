//! A JSON document as plain values, as `serde_json` parses it, and the
//! searches that the PGN extraction and lichess response handling run
//! over it.
use vstd::prelude::*;
use crate::text::{chars_of, push_char};

verus! {

/// A parsed JSON value. Object members keep the order in which
/// `serde_json`'s map yields them.
pub enum JsonValue {
    Null,
    Bool(bool),
    Number(String),
    Str(String),
    Array(Vec<JsonValue>),
    Object(Vec<(String, JsonValue)>),
}

/// `serde_json::Value`, carried opaquely through the conversion below.
#[verifier::external_type_specification]
#[verifier::external_body]
pub struct ExSerdeJsonValue(serde_json::Value);

/// What `serde_json::from_str::<serde_json::Value>` makes of a text, as a
/// `JsonValue` (`None` when the text is not one JSON document).
pub uninterp spec fn json_parse(text: Seq<char>) -> Option<JsonValue>;

/// Parses `text` with `serde_json::from_str::<serde_json::Value>` and
/// converts the result member by member. The contract names the result
/// and says nothing more of it.
#[verifier::external_body]
pub(crate) fn parse_json(text: &str) -> (res: Option<JsonValue>)
    ensures
        res == json_parse(text@),
{
    serde_json::from_str::<serde_json::Value>(text).ok().map(json_from_serde)
}

/// Converts a `serde_json::Value`, variant for variant.
#[verifier::external_body]
fn json_from_serde(v: serde_json::Value) -> JsonValue {
    match v {
        serde_json::Value::Null => JsonValue::Null,
        serde_json::Value::Bool(b) => JsonValue::Bool(b),
        serde_json::Value::Number(n) => JsonValue::Number(n.to_string()),
        serde_json::Value::String(s) => JsonValue::Str(s),
        serde_json::Value::Array(items) => JsonValue::Array(items.into_iter().map(json_from_serde).collect()),
        serde_json::Value::Object(map) => JsonValue::Object(map.into_iter().map(|(k, v)| (k, json_from_serde(v))).collect()),
    }
}

/// A hexadecimal digit, in lower case.
pub open spec fn hex_digit(n: int) -> char {
    if n < 10 {
        ((n + 48) as u8) as char
    } else {
        ((n + 87) as u8) as char
    }
}

/// How a character stands inside a JSON string: `"` and `\` and the
/// control characters escaped (`\b \t \n \f \r`, else `\u00xx`), all
/// else as it is.
pub open spec fn json_char(c: char) -> Seq<char> {
    if c == '"' {
        seq!['\\', '"']
    } else if c == '\\' {
        seq!['\\', '\\']
    } else if c == '\u{08}' {
        seq!['\\', 'b']
    } else if c == '\t' {
        seq!['\\', 't']
    } else if c == '\n' {
        seq!['\\', 'n']
    } else if c == '\u{0C}' {
        seq!['\\', 'f']
    } else if c == '\r' {
        seq!['\\', 'r']
    } else if (c as u32) < 32 {
        seq!['\\', 'u', '0', '0', hex_digit(((c as u32) / 16) as int), hex_digit(((c as u32) % 16) as int)]
    } else {
        seq![c]
    }
}

/// The characters of `s`, each as it stands inside a JSON string.
pub open spec fn json_escaped(s: Seq<char>) -> Seq<char>
    decreases s.len(),
{
    if s.len() == 0 {
        seq![]
    } else {
        json_escaped(s.drop_last()) + json_char(s.last())
    }
}

/// The JSON string literal for `s`.
pub open spec fn json_string_literal(s: Seq<char>) -> Seq<char> {
    seq!['"'] + json_escaped(s) + seq!['"']
}

fn hex_char(n: u32) -> (res: char)
    requires
        n < 16,
    ensures
        res == hex_digit(n as int),
{
    if n < 10 {
        ((n + 48) as u8) as char
    } else {
        ((n + 87) as u8) as char
    }
}

/// The JSON string literal for `s`, escaped as `serde_json::to_string`
/// escapes a string.
pub fn json_quote(s: &str) -> (res: String)
    ensures
        res@ == json_string_literal(s@),
{
    let v = chars_of(s);
    let mut out = String::new();
    push_char(&mut out, '"');
    let mut i: usize = 0;
    while i < v.len()
        invariant
            i <= v.len(),
            v@ == s@,
            out@ == seq!['"'] + json_escaped(v@.take(i as int)),
        decreases v.len() - i,
    {
        let c = v[i];
        assert(v@.take(i + 1).drop_last() =~= v@.take(i as int));
        assert(v@.take(i + 1).last() == c);
        let ghost before = out@;
        if c == '"' {
            push_char(&mut out, '\\');
            push_char(&mut out, '"');
        } else if c == '\\' {
            push_char(&mut out, '\\');
            push_char(&mut out, '\\');
        } else if c == '\u{08}' {
            push_char(&mut out, '\\');
            push_char(&mut out, 'b');
        } else if c == '\t' {
            push_char(&mut out, '\\');
            push_char(&mut out, 't');
        } else if c == '\n' {
            push_char(&mut out, '\\');
            push_char(&mut out, 'n');
        } else if c == '\u{0C}' {
            push_char(&mut out, '\\');
            push_char(&mut out, 'f');
        } else if c == '\r' {
            push_char(&mut out, '\\');
            push_char(&mut out, 'r');
        } else if (c as u32) < 32 {
            let code = c as u32;
            assert(json_char(c) == seq!['\\', 'u', '0', '0', hex_digit((code / 16) as int), hex_digit((code % 16) as int)]);
            push_char(&mut out, '\\');
            push_char(&mut out, 'u');
            push_char(&mut out, '0');
            push_char(&mut out, '0');
            push_char(&mut out, hex_char(code / 16));
            push_char(&mut out, hex_char(code % 16));
        } else {
            push_char(&mut out, c);
            assert(json_char(c) == seq![c]);
        }
        assert(out@ =~= before + json_char(c));
        i = i + 1;
    }
    assert(v@.take(v.len() as int) =~= v@);
    push_char(&mut out, '"');
    out
}

/// The member `key` of a list of object members, as `Map::get` finds it.
pub open spec fn member(entries: Seq<(String, JsonValue)>, key: Seq<char>) -> Option<JsonValue>
    decreases entries.len(),
{
    if entries.len() == 0 {
        None
    } else if entries[0].0@ == key {
        Some(entries[0].1)
    } else {
        member(entries.drop_first(), key)
    }
}

/// `value.get(key)`: a member of an object, `None` for other values.
pub open spec fn get(value: JsonValue, key: Seq<char>) -> Option<JsonValue> {
    match value {
        JsonValue::Object(entries) => member(entries@, key),
        _ => None,
    }
}

/// `Value::as_str` after an optional lookup.
pub open spec fn as_str(value: Option<JsonValue>) -> Option<Seq<char>> {
    match value {
        Some(JsonValue::Str(s)) => Some(s@),
        _ => None,
    }
}

/// `value.get(key).and_then(Value::as_str)`.
pub open spec fn get_str(value: JsonValue, key: Seq<char>) -> Option<Seq<char>> {
    as_str(get(value, key))
}

pub fn member_of<'a>(entries: &'a Vec<(String, JsonValue)>, key: &str) -> (res: Option<&'a JsonValue>)
    ensures
        match res {
            Some(v) => member(entries@, key@) == Some(*v),
            None => member(entries@, key@) is None,
        },
{
    let mut i: usize = 0;
    assert(entries@.skip(0) == entries@);
    while i < entries.len()
        invariant
            i <= entries.len(),
            member(entries@, key@) == member(entries@.skip(i as int), key@),
        decreases entries.len() - i,
    {
        assert(entries@.skip(i as int)[0] == entries@[i as int]);
        assert(entries@.skip(i as int).drop_first() == entries@.skip(i + 1));
        if str_eq(entries[i].0.as_str(), key) {
            return Some(&entries[i].1);
        }
        i = i + 1;
    }
    None
}

/// String equality by characters.
pub fn str_eq(a: &str, b: &str) -> (res: bool)
    ensures
        res == (a@ == b@),
{
    let av = chars_of(a);
    let bv = chars_of(b);
    if av.len() != bv.len() {
        return false;
    }
    let mut i: usize = 0;
    while i < av.len()
        invariant
            av@ == a@,
            bv@ == b@,
            av.len() == bv.len(),
            i <= av.len(),
            forall|j: int| 0 <= j < i ==> av@[j] == bv@[j],
        decreases av.len() - i,
    {
        if av[i] != bv[i] {
            assert(av@[i as int] != bv@[i as int]);
            assert(av@ != bv@);
            return false;
        }
        i = i + 1;
    }
    assert(av@ == bv@);
    true
}

pub fn get_value<'a>(value: &'a JsonValue, key: &str) -> (res: Option<&'a JsonValue>)
    ensures
        match res {
            Some(v) => get(*value, key@) == Some(*v),
            None => get(*value, key@) is None,
        },
{
    match value {
        JsonValue::Object(entries) => member_of(entries, key),
        _ => None,
    }
}

pub fn value_as_str(value: Option<&JsonValue>) -> (res: Option<&str>)
    ensures
        match res {
            Some(s) => as_str(match value { Some(v) => Some(*v), None => None }) == Some(s@),
            None => as_str(match value { Some(v) => Some(*v), None => None }) is None,
        },
{
    match value {
        Some(JsonValue::Str(s)) => Some(s.as_str()),
        _ => None,
    }
}

pub fn get_string<'a>(value: &'a JsonValue, key: &str) -> (res: Option<&'a str>)
    ensures
        match res {
            Some(s) => get_str(*value, key@) == Some(s@),
            None => get_str(*value, key@) is None,
        },
{
    value_as_str(get_value(value, key))
}

} // verus!
