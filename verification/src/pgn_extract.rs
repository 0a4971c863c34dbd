//! Finding a PGN in what chess.com serves: JSON documents, `"pgn": "..."`
//! pairs in scripts, `data-pgn` attributes and `window.x = {...}` style
//! assignments; then tidying the PGN found.
use vstd::prelude::*;
use crate::json::{JsonValue, json_char, json_escaped, json_parse, member, member_of, parse_json};
use crate::patterns::{group_of_matches, opt_strings_view, regex_group_of_matches};
use crate::text::{
    chars_of, contains, is_whitespace, is_ws, join_lines, line_ranges, lines, matches_at,
    occurs_at, push_all, push_char, ranges_view, replace, replace_chars, str_contains, string_of,
    string_of_range, trim, trim_end, trim_end_bound, trim_range,
};

verus! {

broadcast use vstd::string::group_string_axioms;

// ---------------------------------------------------------------------
// PGN inside a JSON document
// ---------------------------------------------------------------------

/// The PGN that a depth-first search finds in a JSON value: an object's
/// non-blank `"pgn"` string first, then its member values in order; an
/// array's items in order.
pub open spec fn pgn_in_json(v: JsonValue) -> Option<Seq<char>>
    decreases v,
{
    match v {
        JsonValue::Object(entries) => {
            match member(entries@, "pgn"@) {
                Some(JsonValue::Str(s)) if trim(s@).len() > 0 => Some(s@),
                _ => pgn_in_entries(entries@),
            }
        },
        JsonValue::Array(items) => pgn_in_items(items@),
        _ => None,
    }
}

pub open spec fn pgn_in_entries(es: Seq<(String, JsonValue)>) -> Option<Seq<char>>
    decreases es,
{
    if es.len() == 0 {
        None
    } else {
        match pgn_in_json(es[0].1) {
            Some(p) => Some(p),
            None => pgn_in_entries(es.subrange(1, es.len() as int)),
        }
    }
}

pub open spec fn pgn_in_items(es: Seq<JsonValue>) -> Option<Seq<char>>
    decreases es,
{
    if es.len() == 0 {
        None
    } else {
        match pgn_in_json(es[0]) {
            Some(p) => Some(p),
            None => pgn_in_items(es.subrange(1, es.len() as int)),
        }
    }
}

/// `trim(s).is_empty()`.
pub fn is_blank(s: &str) -> (res: bool)
    ensures
        res == (trim(s@).len() == 0),
{
    let v = chars_of(s);
    let (a, b) = trim_range(&v, 0, v.len());
    assert(v@.subrange(0, v@.len() as int) == v@);
    a == b
}

#[verifier::loop_isolation(false)]
pub fn extract_pgn_from_json_value(value: &JsonValue) -> (res: Option<String>)
    ensures
        match res {
            Some(p) => pgn_in_json(*value) == Some(p@),
            None => pgn_in_json(*value) is None,
        },
    decreases value,
{
    match value {
        JsonValue::Object(entries) => {
            match member_of(entries, "pgn") {
                Some(JsonValue::Str(s)) => {
                    if !is_blank(s.as_str()) {
                        return Some(s.clone());
                    }
                },
                _ => {},
            }
            let mut i: usize = 0;
            assert(entries@.subrange(0, entries@.len() as int) == entries@);
            while i < entries.len()
                invariant
                    i <= entries.len(),
                    pgn_in_entries(entries@) == pgn_in_entries(
                        entries@.subrange(i as int, entries@.len() as int),
                    ),
                decreases entries.len() - i,
            {
                let ghost rest = entries@.subrange(i as int, entries@.len() as int);
                assert(rest[0] == entries@[i as int]);
                assert(rest.subrange(1, rest.len() as int) == entries@.subrange(
                    i + 1,
                    entries@.len() as int,
                ));
                proof {
                    assert(decreases_to!(*value => *entries));
                    assert(decreases_to!(*entries => entries@));
                    assert(decreases_to!(entries@ => entries@[i as int]));
                    assert(decreases_to!(entries@[i as int] => entries@[i as int].1));
                }
                match extract_pgn_from_json_value(&entries[i].1) {
                    Some(found) => {
                        return Some(found);
                    },
                    None => {},
                }
                i = i + 1;
            }
            None
        },
        JsonValue::Array(items) => {
            let mut i: usize = 0;
            assert(items@.subrange(0, items@.len() as int) == items@);
            while i < items.len()
                invariant
                    i <= items.len(),
                    pgn_in_items(items@) == pgn_in_items(
                        items@.subrange(i as int, items@.len() as int),
                    ),
                decreases items.len() - i,
            {
                let ghost rest = items@.subrange(i as int, items@.len() as int);
                assert(rest[0] == items@[i as int]);
                assert(rest.subrange(1, rest.len() as int) == items@.subrange(
                    i + 1,
                    items@.len() as int,
                ));
                proof {
                    assert(decreases_to!(*value => *items));
                    assert(decreases_to!(*items => items@));
                    assert(decreases_to!(items@ => items@[i as int]));
                }
                match extract_pgn_from_json_value(&items[i]) {
                    Some(found) => {
                        return Some(found);
                    },
                    None => {},
                }
                i = i + 1;
            }
            None
        },
        _ => None,
    }
}

/// The PGN found in `text` read as one JSON document.
pub open spec fn pgn_in_json_text(text: Seq<char>) -> Option<Seq<char>> {
    match json_parse(text) {
        Some(v) => pgn_in_json(v),
        None => None,
    }
}

/// Parses `value` as JSON and searches it for a PGN.
pub fn extract_pgn_from_embedded_json(value: &str) -> (res: Option<String>)
    ensures
        match res {
            Some(p) => pgn_in_json_text(value@) == Some(p@),
            None => pgn_in_json_text(value@) is None,
        },
{
    match parse_json(value) {
        Some(v) => extract_pgn_from_json_value(&v),
        None => None,
    }
}

/// The same search as `extract_pgn_from_embedded_json`, under the name the
/// page scrape uses for it.
pub fn extract_pgn_from_jsonish(text: &str) -> (res: Option<String>)
    ensures
        match res {
            Some(p) => pgn_in_json_text(text@) == Some(p@),
            None => pgn_in_json_text(text@) is None,
        },
{
    extract_pgn_from_embedded_json(text)
}

// ---------------------------------------------------------------------
// Entities and quoted strings
// ---------------------------------------------------------------------

/// `&amp;`, `&quot;`, `&#34;`, `&#39;` and `&apos;` replaced, in that order.
pub open spec fn html_decoded(text: Seq<char>) -> Seq<char> {
    replace(
        replace(
            replace(replace(replace(text, "&amp;"@, "&"@), "&quot;"@, "\""@), "&#34;"@, "\""@),
            "&#39;"@,
            "'"@,
        ),
        "&apos;"@,
        "'"@,
    )
}

proof fn lemma_entity_lengths()
    ensures
        "&amp;"@.len() > 0,
        "&quot;"@.len() > 0,
        "&#34;"@.len() > 0,
        "&#39;"@.len() > 0,
        "&apos;"@.len() > 0,
{
    reveal_strlit("&amp;");
    reveal_strlit("&quot;");
    reveal_strlit("&#34;");
    reveal_strlit("&#39;");
    reveal_strlit("&apos;");
}

pub fn decode_html_entities_chars(text: &[char]) -> (res: Vec<char>)
    ensures
        res@ == html_decoded(text@),
{
    proof {
        lemma_entity_lengths();
    }
    let r1 = replace_chars(text, &chars_of("&amp;"), &chars_of("&"));
    let r2 = replace_chars(&r1, &chars_of("&quot;"), &chars_of("\""));
    let r3 = replace_chars(&r2, &chars_of("&#34;"), &chars_of("\""));
    let r4 = replace_chars(&r3, &chars_of("&#39;"), &chars_of("'"));
    replace_chars(&r4, &chars_of("&apos;"), &chars_of("'"))
}

pub fn decode_html_entities(text: &str) -> (res: String)
    ensures
        res@ == html_decoded(text@),
{
    let v = chars_of(text);
    let r = decode_html_entities_chars(&v);
    string_of(&r)
}

/// The string that JSON reads from `raw` with its entities decoded and
/// placed between double quotes.
pub open spec fn quoted_json_string(raw: Seq<char>) -> Option<Seq<char>> {
    match json_parse(seq!['"'] + html_decoded(raw) + seq!['"']) {
        Some(JsonValue::Str(s)) => Some(s@),
        _ => None,
    }
}

pub fn decode_quoted_json_string(raw: &[char]) -> (res: Option<String>)
    ensures
        match res {
            Some(p) => quoted_json_string(raw@) == Some(p@),
            None => quoted_json_string(raw@) is None,
        },
{
    let mut quoted = String::new();
    push_char(&mut quoted, '"');
    let decoded = decode_html_entities_chars(raw);
    push_all(&mut quoted, &decoded);
    push_char(&mut quoted, '"');
    assert(quoted@ == seq!['"'] + html_decoded(raw@) + seq!['"']);
    match parse_json(quoted.as_str()) {
        Some(JsonValue::Str(s)) => Some(s),
        _ => None,
    }
}


// ---------------------------------------------------------------------
// `"pgn": "..."` pairs
// ---------------------------------------------------------------------

/// The first index at or after `i` that is not white space.
pub open spec fn ws_end(s: Seq<char>, i: int) -> int
    decreases s.len() - i,
{
    if 0 <= i < s.len() && is_ws(s[i]) {
        ws_end(s, i + 1)
    } else {
        i
    }
}

pub fn skip_ws(v: &[char], i: usize) -> (r: usize)
    requires
        i <= v.len(),
    ensures
        r as int == ws_end(v@, i as int),
        i <= r <= v.len(),
{
    let mut j = i;
    while j < v.len() && is_whitespace(v[j])
        invariant
            i <= j <= v.len(),
            ws_end(v@, i as int) == ws_end(v@, j as int),
        decreases v.len() - j,
    {
        j = j + 1;
    }
    j
}

/// Where the body of a quoted string that starts at `i` and is closed by
/// `q` ends: a backslash takes the next character (a line feed excepted)
/// with it, any other character but `q` stands for itself.
pub open spec fn escaped_body_end(s: Seq<char>, i: int, q: char) -> Option<int>
    decreases s.len() - i,
{
    if i < 0 || i >= s.len() {
        None
    } else if s[i] == '\\' {
        if i + 1 < s.len() && s[i + 1] != '\n' {
            escaped_body_end(s, i + 2, q)
        } else {
            None
        }
    } else if s[i] == q {
        Some(i)
    } else {
        escaped_body_end(s, i + 1, q)
    }
}

pub fn scan_escaped_body(v: &[char], i: usize, q: char) -> (res: Option<usize>)
    ensures
        match res {
            Some(e) => escaped_body_end(v@, i as int, q) == Some(e as int) && i <= e < v.len(),
            None => escaped_body_end(v@, i as int, q) is None,
        },
{
    let mut j = i;
    while j < v.len()
        invariant
            i <= j,
            escaped_body_end(v@, i as int, q) == escaped_body_end(v@, j as int, q),
        decreases v.len() - j,
    {
        if v[j] == '\\' {
            if j + 1 < v.len() && v[j + 1] != '\n' {
                j = j + 2;
            } else {
                return None;
            }
        } else if v[j] == q {
            return Some(j);
        } else {
            j = j + 1;
        }
    }
    None
}

/// The capture of `q1 pgn q1 \s* : \s* q2 ((?:\\.|[^\\q2])+) q2` when the
/// pattern matches at `p`.
pub open spec fn pair_match_at(s: Seq<char>, p: int, q1: char, q2: char) -> Option<(int, int)> {
    if occurs_at(s, p, seq![q1, 'p', 'g', 'n', q1]) {
        let i = ws_end(s, p + 5);
        if i < s.len() && s[i] == ':' {
            let j = ws_end(s, i + 1);
            if j < s.len() && s[j] == q2 {
                match escaped_body_end(s, j + 1, q2) {
                    Some(e) => if e > j + 1 {
                        Some((j + 1, e))
                    } else {
                        None
                    },
                    None => None,
                }
            } else {
                None
            }
        } else {
            None
        }
    } else {
        None
    }
}

/// The leftmost such match at or after `p`.
pub open spec fn first_pair_from(s: Seq<char>, p: int, q1: char, q2: char) -> Option<(int, int)>
    decreases s.len() + 1 - p,
{
    if p < 0 || p > s.len() {
        None
    } else {
        match pair_match_at(s, p, q1, q2) {
            Some(r) => Some(r),
            None => first_pair_from(s, p + 1, q1, q2),
        }
    }
}

fn pair_at(v: &[char], p: usize, q1: char, q2: char) -> (res: Option<(usize, usize)>)
    requires
        p <= v.len(),
    ensures
        match res {
            Some(r) => pair_match_at(v@, p as int, q1, q2) == Some((r.0 as int, r.1 as int))
                && r.0 <= r.1 <= v.len(),
            None => pair_match_at(v@, p as int, q1, q2) is None,
        },
{
    let key = [q1, 'p', 'g', 'n', q1];
    assert(key@ == seq![q1, 'p', 'g', 'n', q1]);
    if !matches_at(v, p, &key) {
        return None;
    }
    let i = skip_ws(v, p + 5);
    if !(i < v.len() && v[i] == ':') {
        return None;
    }
    let j = skip_ws(v, i + 1);
    if !(j < v.len() && v[j] == q2) {
        return None;
    }
    match scan_escaped_body(v, j + 1, q2) {
        Some(e) => {
            if e > j + 1 {
                Some((j + 1, e))
            } else {
                None
            }
        },
        None => None,
    }
}

fn first_pair(v: &[char], q1: char, q2: char) -> (res: Option<(usize, usize)>)
    ensures
        match res {
            Some(r) => first_pair_from(v@, 0, q1, q2) == Some((r.0 as int, r.1 as int))
                && r.0 <= r.1 <= v.len(),
            None => first_pair_from(v@, 0, q1, q2) is None,
        },
{
    let mut p: usize = 0;
    while p <= v.len()
        invariant
            first_pair_from(v@, 0, q1, q2) == first_pair_from(v@, p as int, q1, q2),
        decreases v.len() + 1 - p,
    {
        match pair_at(v, p, q1, q2) {
            Some(r) => {
                return Some(r);
            },
            None => {},
        }
        if p == v.len() {
            assert(first_pair_from(v@, (v.len() + 1) as int, q1, q2) is None);
            assert(first_pair_from(v@, p as int, q1, q2) is None);
            return None;
        }
        p = p + 1;
    }
    None
}

proof fn lemma_escaped_char_is_one_step(s: Seq<char>, j: int, c: char)
    requires
        0 <= j,
        j + json_char(c).len() <= s.len(),
        s.subrange(j, j + json_char(c).len()) == json_char(c),
    ensures
        escaped_body_end(s, j, '"') == escaped_body_end(s, j + json_char(c).len(), '"'),
{
    let u = json_char(c);
    assert forall|k: int| 0 <= k < u.len() implies s[j + k] == #[trigger] u[k] by {
        assert(s.subrange(j, j + u.len())[k] == s[j + k]);
    }
    if c == '"' || c == '\\' || c == '\u{08}' || c == '\t' || c == '\n' || c == '\u{0C}' || c
        == '\r' {
        assert(u.len() == 2 && u[0] == '\\' && u[1] != '\n');
        assert(s[j] == '\\' && s[j + 1] != '\n');
    } else if (c as u32) < 32 {
        assert(u.len() == 6);
        assert(s[j] == '\\' && s[j + 1] == 'u');
        assert(escaped_body_end(s, j, '"') == escaped_body_end(s, j + 2, '"'));
        let h1 = u[4];
        let h2 = u[5];
        assert(h1 != '"' && h1 != '\\' && h2 != '"' && h2 != '\\');
        assert(escaped_body_end(s, j + 2, '"') == escaped_body_end(s, j + 3, '"'));
        assert(escaped_body_end(s, j + 3, '"') == escaped_body_end(s, j + 4, '"'));
        assert(escaped_body_end(s, j + 4, '"') == escaped_body_end(s, j + 5, '"'));
        assert(escaped_body_end(s, j + 5, '"') == escaped_body_end(s, j + 6, '"'));
    } else {
        assert(u == seq![c]);
        assert(u[0] == c);
        assert(s[j] == c);
    }
}

proof fn lemma_escaped_text_is_skipped(s: Seq<char>, j: int, t: Seq<char>)
    requires
        0 <= j,
        j + json_escaped(t).len() <= s.len(),
        s.subrange(j, j + json_escaped(t).len()) == json_escaped(t),
    ensures
        escaped_body_end(s, j, '"') == escaped_body_end(s, j + json_escaped(t).len(), '"'),
    decreases t.len(),
{
    if t.len() > 0 {
        let e = json_escaped(t);
        let e0 = json_escaped(t.drop_last());
        let u = json_char(t.last());
        let a: int = e0.len() as int;
        let b: int = u.len() as int;
        assert(e == e0 + u);
        assert(s.subrange(j, j + a) =~= s.subrange(j, j + a + b).subrange(0, a));
        assert((e0 + u).subrange(0, a) =~= e0);
        lemma_escaped_text_is_skipped(s, j, t.drop_last());
        assert(s.subrange(j + a, j + a + b) =~= s.subrange(j, j + a + b).subrange(a, a + b));
        assert((e0 + u).subrange(a, a + b) =~= u);
        lemma_escaped_char_is_one_step(s, j + a, t.last());
    }
}

/// An escaped quote does not end a `"pgn": "..."` value: for any non-empty
/// text written as the body of a JSON string, the pair's value is that
/// whole body, up to the closing quote, and it is what gets decoded.
pub proof fn lemma_pair_value_runs_to_closing_quote(t: Seq<char>)
    requires
        t.len() > 0,
    ensures
        ({
            let e = json_escaped(t);
            let s = seq!['"', 'p', 'g', 'n', '"', ':', ' ', '"'] + e + seq!['"'];
            &&& first_pair_from(s, 0, '"', '"') == Some((8int, 8 + e.len() as int))
            &&& quoted_json_string(e) is Some ==> pgn_in_pairs(s) == quoted_json_string(e)
        }),
{
    let e = json_escaped(t);
    let s = seq!['"', 'p', 'g', 'n', '"', ':', ' ', '"'] + e + seq!['"'];
    assert(json_escaped(t) == json_escaped(t.drop_last()) + json_char(t.last()));
    assert(e.len() > 0);
    let n: int = e.len() as int;
    assert(s.subrange(8, 8 + n) =~= e);
    lemma_escaped_text_is_skipped(s, 8, t);
    assert(s[8 + n] == '"');
    assert(escaped_body_end(s, 8 + n, '"') == Some(8 + n));
    assert(s.subrange(0, 5) =~= seq!['"', 'p', 'g', 'n', '"']);
    assert(occurs_at(s, 0, seq!['"', 'p', 'g', 'n', '"']));
    assert(s[5] == ':');
    assert(!is_ws(s[5]));
    assert(ws_end(s, 5) == 5);
    assert(s[6] == ' ' && s[7] == '"');
    assert(ws_end(s, 7) == 7);
    assert(ws_end(s, 6) == 7);
    assert(pair_match_at(s, 0, '"', '"') == Some((8int, 8 + n)));
    assert(first_pair_from(s, 0, '"', '"') == Some((8int, 8 + n)));
    assert(pair_quotes(0) == ('"', '"'));
}

/// The quote pairs that the key/value patterns try, in order.
pub open spec fn pair_quotes(k: int) -> (char, char) {
    if k == 0 {
        ('"', '"')
    } else if k == 1 {
        ('"', '\'')
    } else if k == 2 {
        ('\'', '"')
    } else {
        ('\'', '\'')
    }
}

/// The PGN read from the first of the four `pgn: value` patterns, in
/// order, whose leftmost match decodes as a JSON string.
pub open spec fn pair_pgn_from(s: Seq<char>, k: int) -> Option<Seq<char>>
    decreases 4 - k,
{
    if k < 0 || k >= 4 {
        None
    } else {
        match first_pair_from(s, 0, pair_quotes(k).0, pair_quotes(k).1) {
            Some(r) => match quoted_json_string(s.subrange(r.0, r.1)) {
                Some(pgn) => Some(pgn),
                None => pair_pgn_from(s, k + 1),
            },
            None => pair_pgn_from(s, k + 1),
        }
    }
}

pub open spec fn pgn_in_pairs(s: Seq<char>) -> Option<Seq<char>> {
    pair_pgn_from(s, 0)
}

pub fn extract_pgn_from_key_value_chars(v: &[char]) -> (res: Option<String>)
    ensures
        match res {
            Some(p) => pgn_in_pairs(v@) == Some(p@),
            None => pgn_in_pairs(v@) is None,
        },
{
    let mut k: usize = 0;
    while k < 4
        invariant
            k <= 4,
            pgn_in_pairs(v@) == pair_pgn_from(v@, k as int),
        decreases 4 - k,
    {
        let (q1, q2) = if k == 0 {
            ('"', '"')
        } else if k == 1 {
            ('"', '\'')
        } else if k == 2 {
            ('\'', '"')
        } else {
            ('\'', '\'')
        };
        assert((q1, q2) == pair_quotes(k as int));
        match first_pair(v, q1, q2) {
            Some(r) => {
                let raw = slice_range(v, r.0, r.1);
                match decode_quoted_json_string(&raw) {
                    Some(pgn) => {
                        return Some(pgn);
                    },
                    None => {},
                }
            },
            None => {},
        }
        k = k + 1;
    }
    None
}

pub fn extract_pgn_from_key_value(text: &str) -> (res: Option<String>)
    ensures
        match res {
            Some(p) => pgn_in_pairs(text@) == Some(p@),
            None => pgn_in_pairs(text@) is None,
        },
{
    let v = chars_of(text);
    extract_pgn_from_key_value_chars(&v)
}

/// A copy of `v[lo..hi]`.
pub fn slice_range(v: &[char], lo: usize, hi: usize) -> (res: Vec<char>)
    requires
        lo <= hi <= v.len(),
    ensures
        res@ == v@.subrange(lo as int, hi as int),
{
    let mut res: Vec<char> = Vec::new();
    let mut i = lo;
    while i < hi
        invariant
            lo <= i <= hi <= v.len(),
            res@ == v@.subrange(lo as int, i as int),
        decreases hi - i,
    {
        res.push(v[i]);
        i = i + 1;
        assert(res@ == v@.subrange(lo as int, i as int));
    }
    res
}


// ---------------------------------------------------------------------
// `data-pgn` attributes
// ---------------------------------------------------------------------

/// The first index at or after `i` holding `c` (or the length).
pub open spec fn char_end(s: Seq<char>, i: int, c: char) -> int
    decreases s.len() - i,
{
    if 0 <= i < s.len() && s[i] != c {
        char_end(s, i + 1, c)
    } else {
        i
    }
}

pub fn find_char(v: &[char], i: usize, c: char) -> (r: usize)
    requires
        i <= v.len(),
    ensures
        r as int == char_end(v@, i as int, c),
        i <= r <= v.len(),
{
    let mut j = i;
    while j < v.len() && v[j] != c
        invariant
            i <= j <= v.len(),
            char_end(v@, i as int, c) == char_end(v@, j as int, c),
        decreases v.len() - j,
    {
        j = j + 1;
    }
    j
}

/// The capture of `data-pgn=q([^q]+)q` when it matches at `p`.
pub open spec fn attr_match_at(s: Seq<char>, p: int, q: char) -> Option<(int, int)> {
    if occurs_at(s, p, seq!['d', 'a', 't', 'a', '-', 'p', 'g', 'n', '=', q]) {
        let e = char_end(s, p + 10, q);
        if e < s.len() && e > p + 10 {
            Some((p + 10, e))
        } else {
            None
        }
    } else {
        None
    }
}

pub open spec fn first_attr_from(s: Seq<char>, p: int, q: char) -> Option<(int, int)>
    decreases s.len() + 1 - p,
{
    if p < 0 || p > s.len() {
        None
    } else {
        match attr_match_at(s, p, q) {
            Some(r) => Some(r),
            None => first_attr_from(s, p + 1, q),
        }
    }
}

fn attr_at(v: &[char], p: usize, q: char) -> (res: Option<(usize, usize)>)
    requires
        p <= v.len(),
    ensures
        match res {
            Some(r) => attr_match_at(v@, p as int, q) == Some((r.0 as int, r.1 as int)) && r.0
                <= r.1 <= v.len(),
            None => attr_match_at(v@, p as int, q) is None,
        },
{
    let key = ['d', 'a', 't', 'a', '-', 'p', 'g', 'n', '=', q];
    assert(key@ == seq!['d', 'a', 't', 'a', '-', 'p', 'g', 'n', '=', q]);
    if !matches_at(v, p, &key) {
        return None;
    }
    let e = find_char(v, p + 10, q);
    if e < v.len() && e > p + 10 {
        Some((p + 10, e))
    } else {
        None
    }
}

fn first_attr(v: &[char], q: char) -> (res: Option<(usize, usize)>)
    ensures
        match res {
            Some(r) => first_attr_from(v@, 0, q) == Some((r.0 as int, r.1 as int)) && r.0 <= r.1
                <= v.len(),
            None => first_attr_from(v@, 0, q) is None,
        },
{
    let mut p: usize = 0;
    while p <= v.len()
        invariant
            first_attr_from(v@, 0, q) == first_attr_from(v@, p as int, q),
        decreases v.len() + 1 - p,
    {
        match attr_at(v, p, q) {
            Some(r) => {
                return Some(r);
            },
            None => {},
        }
        if p == v.len() {
            assert(first_attr_from(v@, (v.len() + 1) as int, q) is None);
            assert(first_attr_from(v@, p as int, q) is None);
            return None;
        }
        p = p + 1;
    }
    None
}

/// The PGN read from the first `data-pgn` pattern (double quotes, then
/// single quotes) whose leftmost match decodes as a JSON string.
pub open spec fn pgn_in_attrs(s: Seq<char>) -> Option<Seq<char>> {
    let from_double = match first_attr_from(s, 0, '"') {
        Some(r) => quoted_json_string(s.subrange(r.0, r.1)),
        None => None,
    };
    match from_double {
        Some(pgn) => Some(pgn),
        None => match first_attr_from(s, 0, '\'') {
            Some(r) => quoted_json_string(s.subrange(r.0, r.1)),
            None => None,
        },
    }
}

pub fn extract_pgn_from_data_attr_chars(v: &[char]) -> (res: Option<String>)
    ensures
        match res {
            Some(p) => pgn_in_attrs(v@) == Some(p@),
            None => pgn_in_attrs(v@) is None,
        },
{
    match first_attr(v, '"') {
        Some(r) => {
            let raw = slice_range(v, r.0, r.1);
            match decode_quoted_json_string(&raw) {
                Some(pgn) => {
                    return Some(pgn);
                },
                None => {},
            }
        },
        None => {},
    }
    match first_attr(v, '\'') {
        Some(r) => {
            let raw = slice_range(v, r.0, r.1);
            decode_quoted_json_string(&raw)
        },
        None => None,
    }
}

pub fn extract_pgn_from_data_attr(text: &str) -> (res: Option<String>)
    ensures
        match res {
            Some(p) => pgn_in_attrs(text@) == Some(p@),
            None => pgn_in_attrs(text@) is None,
        },
{
    let v = chars_of(text);
    extract_pgn_from_data_attr_chars(&v)
}

// ---------------------------------------------------------------------
// `window.x = {...}`, `const x = [...]` and the like
// ---------------------------------------------------------------------

/// `[A-Za-z0-9_$]`
pub open spec fn is_ident_char(c: char) -> bool {
    ('A' <= c && c <= 'Z') || ('a' <= c && c <= 'z') || ('0' <= c && c <= '9') || c == '_' || c
        == '$'
}

/// `[A-Za-z0-9_$.\[\]]`
pub open spec fn is_path_char(c: char) -> bool {
    is_ident_char(c) || c == '.' || c == '[' || c == ']'
}

pub fn ident_char(c: char) -> (res: bool)
    ensures
        res == is_ident_char(c),
{
    ('A' <= c && c <= 'Z') || ('a' <= c && c <= 'z') || ('0' <= c && c <= '9') || c == '_' || c
        == '$'
}

pub fn path_char(c: char) -> (res: bool)
    ensures
        res == is_path_char(c),
{
    ident_char(c) || c == '.' || c == '[' || c == ']'
}

pub open spec fn ident_end(s: Seq<char>, i: int) -> int
    decreases s.len() - i,
{
    if 0 <= i < s.len() && is_ident_char(s[i]) {
        ident_end(s, i + 1)
    } else {
        i
    }
}

pub open spec fn path_end(s: Seq<char>, i: int) -> int
    decreases s.len() - i,
{
    if 0 <= i < s.len() && is_path_char(s[i]) {
        path_end(s, i + 1)
    } else {
        i
    }
}

fn skip_ident(v: &[char], i: usize) -> (r: usize)
    requires
        i <= v.len(),
    ensures
        r as int == ident_end(v@, i as int),
        i <= r <= v.len(),
{
    let mut j = i;
    while j < v.len() && ident_char(v[j])
        invariant
            i <= j <= v.len(),
            ident_end(v@, i as int) == ident_end(v@, j as int),
        decreases v.len() - j,
    {
        j = j + 1;
    }
    j
}

fn skip_path(v: &[char], i: usize) -> (r: usize)
    requires
        i <= v.len(),
    ensures
        r as int == path_end(v@, i as int),
        i <= r <= v.len(),
{
    let mut j = i;
    while j < v.len() && path_char(v[j])
        invariant
            i <= j <= v.len(),
            path_end(v@, i as int) == path_end(v@, j as int),
        decreases v.len() - j,
    {
        j = j + 1;
    }
    j
}

/// A keyword (`const`, `let`, `var`) at `p`, white space, then a name:
/// where the name ends.
pub open spec fn declared_name_end(s: Seq<char>, p: int, kw: Seq<char>) -> Option<int> {
    if occurs_at(s, p, kw) && p + kw.len() < s.len() && is_ws(s[p + kw.len()]) {
        let w = ws_end(s, p + kw.len());
        let e = ident_end(s, w);
        if e > w {
            Some(e)
        } else {
            None
        }
    } else {
        None
    }
}

/// Where the left-hand side of an assignment that starts at `p` ends.
pub open spec fn assigned_name_end(s: Seq<char>, p: int) -> Option<int> {
    if occurs_at(s, p, seq!['w', 'i', 'n', 'd', 'o', 'w', '.']) {
        let e = path_end(s, p + 7);
        if e > p + 7 {
            Some(e)
        } else {
            None
        }
    } else if occurs_at(s, p, seq!['c', 'o', 'n', 's', 't']) {
        declared_name_end(s, p, seq!['c', 'o', 'n', 's', 't'])
    } else if occurs_at(s, p, seq!['l', 'e', 't']) {
        declared_name_end(s, p, seq!['l', 'e', 't'])
    } else if occurs_at(s, p, seq!['v', 'a', 'r']) {
        declared_name_end(s, p, seq!['v', 'a', 'r'])
    } else {
        None
    }
}

/// An assignment matched at `p`: the bounds of the `{...}` or `[...]`
/// value (up to the first closing bracket), and where the match ends after
/// trailing white space and an optional `;`.
pub open spec fn assignment_at(s: Seq<char>, p: int) -> Option<(int, int, int)> {
    match assigned_name_end(s, p) {
        Some(e) => {
            let i = ws_end(s, e);
            if i < s.len() && s[i] == '=' {
                let j = ws_end(s, i + 1);
                if j < s.len() && (s[j] == '{' || s[j] == '[') {
                    let k = char_end(s, j + 1, if s[j] == '{' { '}' } else { ']' });
                    if k < s.len() {
                        let m = ws_end(s, k + 1);
                        Some((j, k + 1, if m < s.len() && s[m] == ';' { m + 1 } else { m }))
                    } else {
                        None
                    }
                } else {
                    None
                }
            } else {
                None
            }
        },
        None => None,
    }
}

pub open spec fn first_assignment_from(s: Seq<char>, p: int) -> Option<(int, int, int)>
    decreases s.len() + 1 - p,
{
    if p < 0 || p > s.len() {
        None
    } else {
        match assignment_at(s, p) {
            Some(r) => Some(r),
            None => first_assignment_from(s, p + 1),
        }
    }
}

/// Going through the assignments from `pos` on, each search resuming where
/// the previous match ended: the PGN in the first value that is a JSON
/// document holding one.
pub open spec fn assignment_pgn_from(s: Seq<char>, pos: int) -> Option<Seq<char>>
    decreases s.len() + 1 - pos,
{
    match first_assignment_from(s, pos) {
        Some(r) => {
            if pos < r.2 <= s.len() && 0 <= r.0 <= r.1 <= s.len() {
                match pgn_in_json_text(s.subrange(r.0, r.1)) {
                    Some(pgn) => Some(pgn),
                    None => assignment_pgn_from(s, r.2),
                }
            } else {
                None
            }
        },
        None => None,
    }
}

pub open spec fn pgn_in_assignments(s: Seq<char>) -> Option<Seq<char>> {
    assignment_pgn_from(s, 0)
}

fn name_after_keyword(v: &[char], p: usize, kw: &[char]) -> (res: Option<usize>)
    requires
        p <= v.len(),
    ensures
        match res {
            Some(e) => declared_name_end(v@, p as int, kw@) == Some(e as int) && p < e <= v.len(),
            None => declared_name_end(v@, p as int, kw@) is None,
        },
{
    if !(matches_at(v, p, kw) && p + kw.len() < v.len() && is_whitespace(v[p + kw.len()])) {
        return None;
    }
    let w = skip_ws(v, p + kw.len());
    let e = skip_ident(v, w);
    if e > w {
        Some(e)
    } else {
        None
    }
}

fn assignment_match(v: &[char], p: usize) -> (res: Option<(usize, usize, usize)>)
    requires
        p <= v.len(),
    ensures
        match res {
            Some(r) => assignment_at(v@, p as int) == Some((r.0 as int, r.1 as int, r.2 as int))
                && p <= r.0 < r.1 <= r.2 <= v.len(),
            None => assignment_at(v@, p as int) is None,
        },
{
    let window = ['w', 'i', 'n', 'd', 'o', 'w', '.'];
    let konst = ['c', 'o', 'n', 's', 't'];
    let lett = ['l', 'e', 't'];
    let var = ['v', 'a', 'r'];
    assert(window@ == seq!['w', 'i', 'n', 'd', 'o', 'w', '.']);
    assert(konst@ == seq!['c', 'o', 'n', 's', 't']);
    assert(lett@ == seq!['l', 'e', 't']);
    assert(var@ == seq!['v', 'a', 'r']);
    let name_end = if matches_at(v, p, &window) {
        let e = skip_path(v, p + 7);
        if e > p + 7 {
            Some(e)
        } else {
            None
        }
    } else if matches_at(v, p, &konst) {
        name_after_keyword(v, p, &konst)
    } else if matches_at(v, p, &lett) {
        name_after_keyword(v, p, &lett)
    } else if matches_at(v, p, &var) {
        name_after_keyword(v, p, &var)
    } else {
        None
    };
    assert(match name_end {
        Some(e) => assigned_name_end(v@, p as int) == Some(e as int) && p < e <= v.len(),
        None => assigned_name_end(v@, p as int) is None,
    });
    match name_end {
        Some(e) => {
            let i = skip_ws(v, e);
            if !(i < v.len() && v[i] == '=') {
                return None;
            }
            let j = skip_ws(v, i + 1);
            if !(j < v.len() && (v[j] == '{' || v[j] == '[')) {
                return None;
            }
            let close = if v[j] == '{' {
                '}'
            } else {
                ']'
            };
            let k = find_char(v, j + 1, close);
            if k >= v.len() {
                return None;
            }
            let m = skip_ws(v, k + 1);
            let end = if m < v.len() && v[m] == ';' {
                m + 1
            } else {
                m
            };
            Some((j, k + 1, end))
        },
        None => None,
    }
}

fn first_assignment(v: &[char], from: usize) -> (res: Option<(usize, usize, usize)>)
    requires
        from <= v.len(),
    ensures
        match res {
            Some(r) => first_assignment_from(v@, from as int) == Some(
                (r.0 as int, r.1 as int, r.2 as int),
            ) && from <= r.0 < r.1 <= r.2 <= v.len(),
            None => first_assignment_from(v@, from as int) is None,
        },
{
    let mut p: usize = from;
    while p <= v.len()
        invariant
            from <= p,
            first_assignment_from(v@, from as int) == first_assignment_from(v@, p as int),
        decreases v.len() + 1 - p,
    {
        match assignment_match(v, p) {
            Some(r) => {
                return Some(r);
            },
            None => {},
        }
        if p == v.len() {
            assert(first_assignment_from(v@, (v.len() + 1) as int) is None);
            assert(first_assignment_from(v@, p as int) is None);
            return None;
        }
        p = p + 1;
    }
    None
}

pub fn extract_pgn_from_embedded_assignment_chars(v: &[char]) -> (res: Option<String>)
    ensures
        match res {
            Some(p) => pgn_in_assignments(v@) == Some(p@),
            None => pgn_in_assignments(v@) is None,
        },
{
    let mut pos: usize = 0;
    while pos <= v.len()
        invariant
            pgn_in_assignments(v@) == assignment_pgn_from(v@, pos as int),
        decreases v.len() + 1 - pos,
    {
        match first_assignment(v, pos) {
            Some(r) => {
                let raw = string_of_range(v, r.0, r.1);
                match extract_pgn_from_embedded_json(raw.as_str()) {
                    Some(pgn) => {
                        return Some(pgn);
                    },
                    None => {},
                }
                pos = r.2;
            },
            None => {
                return None;
            },
        }
    }
    None
}

pub fn extract_pgn_from_embedded_assignment(text: &str) -> (res: Option<String>)
    ensures
        match res {
            Some(p) => pgn_in_assignments(text@) == Some(p@),
            None => pgn_in_assignments(text@) is None,
        },
{
    let v = chars_of(text);
    extract_pgn_from_embedded_assignment_chars(&v)
}


// ---------------------------------------------------------------------
// `<script>` elements
// ---------------------------------------------------------------------

/// The pattern that picks the content of each `<script ...>` element.
pub open spec fn script_pattern() -> Seq<char> {
    "(?is)<script\\b[^>]*>(.*?)</script>"@
}

/// The PGN in one script: as a JSON document, as a `pgn: value` pair, or
/// in an assignment, in that order.
pub open spec fn pgn_in_script(script: Seq<char>) -> Option<Seq<char>> {
    match pgn_in_json_text(script) {
        Some(p) => Some(p),
        None => match pgn_in_pairs(script) {
            Some(p) => Some(p),
            None => pgn_in_assignments(script),
        },
    }
}

/// The first script of the list that holds a PGN; the search stops with
/// nothing at a match whose content group is missing.
pub open spec fn pgn_in_script_list(groups: Seq<Option<Seq<char>>>) -> Option<Seq<char>>
    decreases groups.len(),
{
    if groups.len() == 0 {
        None
    } else {
        match groups[0] {
            None => None,
            Some(script) => match pgn_in_script(script) {
                Some(p) => Some(p),
                None => pgn_in_script_list(groups.drop_first()),
            },
        }
    }
}

/// The PGN in the scripts of a page (nothing when the pattern does not
/// compile).
pub open spec fn pgn_in_scripts(text: Seq<char>) -> Option<Seq<char>> {
    match regex_group_of_matches(script_pattern(), text, 1) {
        Some(groups) => pgn_in_script_list(groups),
        None => None,
    }
}

pub fn extract_pgn_from_scripts(text: &str) -> (res: Option<String>)
    ensures
        match res {
            Some(p) => pgn_in_scripts(text@) == Some(p@),
            None => pgn_in_scripts(text@) is None,
        },
{
    let pattern = "(?is)<script\\b[^>]*>(.*?)</script>";
    let groups = match group_of_matches(pattern, text, 1) {
        Some(g) => g,
        None => {
            return None;
        },
    };
    let ghost gs = opt_strings_view(groups@);
    let mut i: usize = 0;
    assert(gs.skip(0) == gs);
    while i < groups.len()
        invariant
            i <= groups.len(),
            gs == opt_strings_view(groups@),
            regex_group_of_matches(script_pattern(), text@, 1) == Some(gs),
            pgn_in_scripts(text@) == pgn_in_script_list(gs.skip(i as int)),
        decreases groups.len() - i,
    {
        assert(gs.skip(i as int)[0] == gs[i as int]);
        assert(gs.skip(i as int).drop_first() == gs.skip(i + 1));
        match &groups[i] {
            None => {
                return None;
            },
            Some(script) => {
                match extract_pgn_from_embedded_json(script.as_str()) {
                    Some(pgn) => {
                        return Some(pgn);
                    },
                    None => {},
                }
                match extract_pgn_from_key_value(script.as_str()) {
                    Some(pgn) => {
                        return Some(pgn);
                    },
                    None => {},
                }
                match extract_pgn_from_embedded_assignment(script.as_str()) {
                    Some(pgn) => {
                        return Some(pgn);
                    },
                    None => {},
                }
            },
        }
        i = i + 1;
    }
    None
}

// ---------------------------------------------------------------------
// A whole response body
// ---------------------------------------------------------------------

/// The PGN in a response body, trying in order: the body as JSON (the
/// search reads it as JSON twice, which finds nothing more the second
/// time), `pgn: value` pairs, `data-pgn` attributes, the page's scripts,
/// and assignments anywhere in the body.
pub open spec fn pgn_in_body(text: Seq<char>) -> Option<Seq<char>> {
    match pgn_in_json_text(text) {
        Some(p) => Some(p),
        None => match pgn_in_pairs(text) {
            Some(p) => Some(p),
            None => match pgn_in_attrs(text) {
                Some(p) => Some(p),
                None => match pgn_in_scripts(text) {
                    Some(p) => Some(p),
                    None => pgn_in_assignments(text),
                },
            },
        },
    }
}

pub fn extract_pgn_from_body(text: &str) -> (res: Option<String>)
    ensures
        match res {
            Some(p) => pgn_in_body(text@) == Some(p@),
            None => pgn_in_body(text@) is None,
        },
{
    match extract_pgn_from_embedded_json(text) {
        Some(pgn) => {
            return Some(pgn);
        },
        None => {},
    }
    match extract_pgn_from_jsonish(text) {
        Some(pgn) => {
            return Some(pgn);
        },
        None => {},
    }
    let v = chars_of(text);
    match extract_pgn_from_key_value_chars(&v) {
        Some(pgn) => {
            return Some(pgn);
        },
        None => {},
    }
    match extract_pgn_from_data_attr_chars(&v) {
        Some(pgn) => {
            return Some(pgn);
        },
        None => {},
    }
    match extract_pgn_from_scripts(text) {
        Some(pgn) => Some(pgn),
        None => extract_pgn_from_embedded_assignment_chars(&v),
    }
}

// ---------------------------------------------------------------------
// Tidying and recognising a PGN
// ---------------------------------------------------------------------

/// A PGN with CRLF turned into LF, trailing white space removed from each
/// line, and leading and trailing white space removed from the whole.
pub open spec fn cleaned_pgn(pgn: Seq<char>) -> Seq<char> {
    trim(
        join_lines(
            lines(replace(pgn, seq!['\r', '\n'], seq!['\n'])).map_values(
                |l: Seq<char>| trim_end(l),
            ),
        ),
    )
}

pub fn cleanup_pgn(pgn: String) -> (res: String)
    ensures
        res@ == cleaned_pgn(pgn@),
{
    let v0 = chars_of(pgn.as_str());
    let crlf = ['\r', '\n'];
    let lf = ['\n'];
    assert(crlf@ == seq!['\r', '\n']);
    assert(lf@ == seq!['\n']);
    let v = replace_chars(&v0, &crlf, &lf);
    let ranges = line_ranges(&v);
    let ghost ls = lines(v@).map_values(|l: Seq<char>| trim_end(l));
    let mut out: Vec<char> = Vec::new();
    let mut k: usize = 0;
    while k < ranges.len()
        invariant
            k <= ranges.len(),
            ranges_view(v@, ranges@) == lines(v@),
            forall|j: int| 0 <= j < ranges@.len() ==> (#[trigger] ranges@[j]).0 <= ranges@[j].1
                <= v.len(),
            ls == lines(v@).map_values(|l: Seq<char>| trim_end(l)),
            out@ == join_lines(ls.take(k as int)),
        decreases ranges.len() - k,
    {
        let (lo, hi) = ranges[k];
        assert(ranges_view(v@, ranges@)[k as int] == v@.subrange(lo as int, hi as int));
        let e = trim_end_bound(&v, lo, hi);
        assert(ls[k as int] == v@.subrange(lo as int, e as int));
        let ghost before = out@;
        if k > 0 {
            out.push('\n');
        }
        let mut i = lo;
        while i < e
            invariant
                lo <= i <= e <= v.len(),
                out@ == (if k > 0 {
                    before + seq!['\n']
                } else {
                    before
                }) + v@.subrange(lo as int, i as int),
            decreases e - i,
        {
            out.push(v[i]);
            i = i + 1;
            assert(v@.subrange(lo as int, i as int) == v@.subrange(lo as int, i - 1).push(
                v@[i - 1],
            ));
        }
        assert(ls.take(k + 1).drop_last() == ls.take(k as int));
        assert(ls.take(k + 1).last() == ls[k as int]);
        if k == 0 {
            assert(before.len() == 0);
            assert(ls.take(1).len() == 1);
        }
        k = k + 1;
    }
    assert(ls.take(ranges.len() as int) == ls);
    let (a, b) = trim_range(&out, 0, out.len());
    assert(out@.subrange(0, out@.len() as int) == out@);
    string_of_range(&out, a, b)
}

/// `true` when `pgn` has Event, White, Black and Result tags and a first
/// move number.
pub open spec fn looks_like_pgn_spec(pgn: Seq<char>) -> bool {
    &&& contains(pgn, "[Event "@)
    &&& contains(pgn, "[White "@)
    &&& contains(pgn, "[Black "@)
    &&& contains(pgn, "[Result "@)
    &&& (contains(pgn, " 1."@) || contains(pgn, "1."@) || contains(pgn, "1..."@))
}

pub fn looks_like_pgn(pgn: &str) -> (res: bool)
    ensures
        res == looks_like_pgn_spec(pgn@),
{
    let has_headers = str_contains(pgn, "[Event ") && str_contains(pgn, "[White ")
        && str_contains(pgn, "[Black ");
    let has_moves = str_contains(pgn, " 1.") || str_contains(pgn, "1.") || str_contains(
        pgn,
        "1...",
    );
    let has_result = str_contains(pgn, "[Result ");
    has_headers && has_result && has_moves
}

} // verus!
