//! What a PGN tells about a game: its tag pairs, the number of full moves
//! in its movetext, and the opening name for its ECO code.
use vstd::prelude::*;
use vstd::pervasive::VecAdditionalExecFns;
use crate::patterns::{is_match, regex_is_match};
use crate::pgn_extract::{ws_end, skip_ws};
use crate::eco_table::{eco_csv_text, eco_openings_csv};
use crate::text::{
    chars_of, is_whitespace, is_ws, join_lines, line_ranges, lines, occurs_at, ranges_view,
    replace, replace_chars, string_of, string_of_range, trim, trim_range, trim_start, matches_at,
};

verus! {

broadcast use vstd::string::group_string_axioms;

// ---------------------------------------------------------------------
// Counting moves
// ---------------------------------------------------------------------

/// `true` for a line that is not a tag pair (its first non-blank
/// character is not `[`).
pub open spec fn is_movetext_line(line: Seq<char>) -> bool {
    !(trim_start(line).len() > 0 && trim_start(line)[0] == '[')
}

/// The movetext: the lines that are not tag pairs, joined by line feeds.
pub open spec fn movetext(pgn: Seq<char>) -> Seq<char> {
    join_lines(lines(pgn).filter(|l: Seq<char>| is_movetext_line(l)))
}

/// The scanner state that removes `{...}` comments, `(...)` variations
/// and `;` comments: brace and parenthesis depths (saturating), whether a
/// `;` comment is open, and the characters kept.
pub struct Sanitizer {
    pub brace: u32,
    pub paren: u32,
    pub line_comment: bool,
    pub kept: Seq<char>,
}

pub open spec fn sat_inc(d: u32) -> u32 {
    if d == u32::MAX {
        d
    } else {
        (d + 1) as u32
    }
}

pub open spec fn sat_dec(d: u32) -> u32 {
    if d == 0 {
        0
    } else {
        (d - 1) as u32
    }
}

/// One character through the scanner.
pub open spec fn sanitize_step(st: Sanitizer, ch: char) -> Sanitizer {
    if st.line_comment {
        if ch == '\n' {
            Sanitizer { line_comment: false, kept: st.kept.push(' '), ..st }
        } else {
            st
        }
    } else if ch == '{' {
        Sanitizer { brace: sat_inc(st.brace), ..st }
    } else if ch == '}' {
        Sanitizer { brace: sat_dec(st.brace), ..st }
    } else if ch == '(' {
        Sanitizer { paren: sat_inc(st.paren), ..st }
    } else if ch == ')' {
        Sanitizer { paren: sat_dec(st.paren), ..st }
    } else if st.brace == 0 && st.paren == 0 {
        if ch == ';' {
            Sanitizer { line_comment: true, ..st }
        } else {
            Sanitizer { kept: st.kept.push(ch), ..st }
        }
    } else {
        st
    }
}

/// The scanner after all of `s`.
pub open spec fn sanitize_state(s: Seq<char>) -> Sanitizer
    decreases s.len(),
{
    if s.len() == 0 {
        Sanitizer { brace: 0, paren: 0, line_comment: false, kept: seq![] }
    } else {
        sanitize_step(sanitize_state(s.drop_last()), s.last())
    }
}

/// The first index at or after `i` that is white space (or the length).
pub open spec fn token_end(s: Seq<char>, i: int) -> int
    decreases s.len() - i,
{
    if 0 <= i < s.len() && !is_ws(s[i]) {
        token_end(s, i + 1)
    } else {
        i
    }
}

pub proof fn lemma_token_end_bounds(s: Seq<char>, i: int)
    requires
        0 <= i <= s.len(),
    ensures
        i <= token_end(s, i) <= s.len(),
        i < s.len() && !is_ws(s[i]) ==> i < token_end(s, i),
    decreases s.len() - i,
{
    if i < s.len() && !is_ws(s[i]) {
        lemma_token_end_bounds(s, i + 1);
    }
}

pub proof fn lemma_ws_end_bounds(s: Seq<char>, i: int)
    requires
        0 <= i <= s.len(),
    ensures
        i <= ws_end(s, i) <= s.len(),
        ws_end(s, i) < s.len() ==> !is_ws(s[ws_end(s, i)]),
    decreases s.len() - i,
{
    if i < s.len() && is_ws(s[i]) {
        lemma_ws_end_bounds(s, i + 1);
    }
}

/// The white-space separated words of `s` from `i` on
/// (`str::split_whitespace`).
pub open spec fn words_from(s: Seq<char>, i: int) -> Seq<Seq<char>>
    decreases s.len() - i,
{
    if i < 0 || i > s.len() {
        seq![]
    } else {
        let a = ws_end(s, i);
        proof {
            lemma_ws_end_bounds(s, i);
        }
        if a >= s.len() {
            seq![]
        } else {
            let b = token_end(s, a);
            proof {
                lemma_token_end_bounds(s, a);
            }
            seq![s.subrange(a, b)] + words_from(s, b)
        }
    }
}

pub open spec fn words(s: Seq<char>) -> Seq<Seq<char>> {
    words_from(s, 0)
}

/// The pattern of a move number such as `12.` or `12...`.
pub open spec fn move_number_pattern() -> Seq<char> {
    "^\\d+\\.(\\.\\.)?$"@
}

/// `true` for a word that is a move (a ply): not a result, not a numeric
/// annotation glyph, not a move number.
pub open spec fn is_ply(w: Seq<char>) -> bool {
    &&& trim(w).len() > 0
    &&& trim(w) != "1-0"@
    &&& trim(w) != "0-1"@
    &&& trim(w) != "1/2-1/2"@
    &&& trim(w) != "*"@
    &&& trim(w)[0] != '$'
    &&& regex_is_match(move_number_pattern(), trim(w)) != Some(true)
}

/// The number of plies among the words (counted with saturation).
pub open spec fn ply_count(ws: Seq<Seq<char>>) -> nat
    decreases ws.len(),
{
    if ws.len() == 0 {
        0
    } else {
        let n = ply_count(ws.drop_last());
        if is_ply(ws.last()) && n < u32::MAX {
            n + 1
        } else {
            n
        }
    }
}

/// The number of full moves in a PGN's movetext, once comments and
/// variations are removed: half the plies, rounded up; nothing for a game
/// without moves.
pub open spec fn full_moves(pgn: Seq<char>) -> Option<u32> {
    let plies = ply_count(words(sanitize_state(movetext(pgn)).kept));
    if plies == 0 {
        None
    } else {
        Some(((plies + 1) / 2) as u32)
    }
}

/// The movetext of `pgn`.
fn movetext_of(pgn: &[char]) -> (res: Vec<char>)
    ensures
        res@ == movetext(pgn@),
{
    let ranges = line_ranges(pgn);
    let ghost ls = lines(pgn@);
    let mut out: Vec<char> = Vec::new();
    let mut kept: usize = 0;
    let mut k: usize = 0;
    while k < ranges.len()
        invariant
            k <= ranges.len(),
            ranges_view(pgn@, ranges@) == ls,
            ls == lines(pgn@),
            forall|j: int| 0 <= j < ranges@.len() ==> (#[trigger] ranges@[j]).0 <= ranges@[j].1
                <= pgn.len(),
            out@ == join_lines(ls.take(k as int).filter(|l: Seq<char>| is_movetext_line(l))),
            kept as int == ls.take(k as int).filter(|l: Seq<char>| is_movetext_line(l)).len(),
        decreases ranges.len() - k,
    {
        let (lo, hi) = ranges[k];
        let ghost line = pgn@.subrange(lo as int, hi as int);
        assert(ls[k as int] == line);
        let a = first_nonblank(pgn, lo, hi);
        let is_tag = a < hi && pgn[a] == '[';
        assert(is_tag == !is_movetext_line(line));
        let ghost before = ls.take(k as int).filter(|l: Seq<char>| is_movetext_line(l));
        proof {
            reveal_with_fuel(Seq::filter, 1);
            assert(ls.take(k + 1).drop_last() == ls.take(k as int));
            assert(ls.take(k + 1).last() == line);
        }
        if !is_tag {
            let ghost out0 = out@;
            if kept > 0 {
                out.push('\n');
            }
            let mut i = lo;
            while i < hi
                invariant
                    lo <= i <= hi <= pgn.len(),
                    out@ == (if kept > 0 {
                        out0 + seq!['\n']
                    } else {
                        out0
                    }) + pgn@.subrange(lo as int, i as int),
                decreases hi - i,
            {
                out.push(pgn[i]);
                i = i + 1;
                assert(pgn@.subrange(lo as int, i as int) == pgn@.subrange(lo as int, i - 1).push(
                    pgn@[i - 1],
                ));
            }
            let ghost after = ls.take(k + 1).filter(|l: Seq<char>| is_movetext_line(l));
            assert(after == before.push(line));
            assert(after.drop_last() == before);
            if kept == 0 {
                assert(before.len() == 0);
                assert(out0.len() == 0);
            }
            kept = kept + 1;
        }
        k = k + 1;
    }
    assert(ls.take(ranges.len() as int) == ls);
    out
}

/// The first non-blank index of `v[lo..hi]` (or `hi`).
fn first_nonblank(v: &[char], lo: usize, hi: usize) -> (a: usize)
    requires
        lo <= hi <= v.len(),
    ensures
        lo <= a <= hi,
        trim_start(v@.subrange(lo as int, hi as int)) == v@.subrange(a as int, hi as int),
        a < hi ==> !is_ws(v@[a as int]),
{
    let mut a = lo;
    while a < hi && is_whitespace(v[a])
        invariant
            lo <= a <= hi <= v.len(),
            trim_start(v@.subrange(lo as int, hi as int)) == trim_start(v@.subrange(a as int, hi as int)),
        decreases hi - a,
    {
        assert(v@.subrange(a as int, hi as int).drop_first() == v@.subrange(a + 1, hi as int));
        a = a + 1;
    }
    a
}


/// The movetext with comments and variations removed.
fn sanitize(body: &[char]) -> (res: Vec<char>)
    ensures
        res@ == sanitize_state(body@).kept,
{
    let mut brace: u32 = 0;
    let mut paren: u32 = 0;
    let mut line_comment = false;
    let mut kept: Vec<char> = Vec::new();
    let mut i: usize = 0;
    while i < body.len()
        invariant
            i <= body.len(),
            sanitize_state(body@.take(i as int)) == (Sanitizer {
                brace,
                paren,
                line_comment,
                kept: kept@,
            }),
        decreases body.len() - i,
    {
        let ch = body[i];
        proof {
            assert(body@.take(i + 1).drop_last() == body@.take(i as int));
            assert(body@.take(i + 1).last() == ch);
        }
        if line_comment {
            if ch == '\n' {
                line_comment = false;
                kept.push(' ');
            }
        } else if ch == '{' {
            brace = brace.saturating_add(1);
        } else if ch == '}' {
            brace = brace.saturating_sub(1);
        } else if ch == '(' {
            paren = paren.saturating_add(1);
        } else if ch == ')' {
            paren = paren.saturating_sub(1);
        } else if brace == 0 && paren == 0 {
            if ch == ';' {
                line_comment = true;
            } else {
                kept.push(ch);
            }
        }
        i = i + 1;
    }
    assert(body@.take(body.len() as int) == body@);
    kept
}

/// The bounds of the words of `v`.
fn word_ranges(v: &[char]) -> (res: Vec<(usize, usize)>)
    ensures
        ranges_view(v@, res@) == words(v@),
        forall|k: int| 0 <= k < res@.len() ==> (#[trigger] res@[k]).0 <= res@[k].1 <= v.len(),
{
    let mut res: Vec<(usize, usize)> = Vec::new();
    let mut i: usize = 0;
    while i < v.len()
        invariant
            i <= v.len(),
            ranges_view(v@, res@) + words_from(v@, i as int) == words(v@),
            forall|k: int| 0 <= k < res@.len() ==> (#[trigger] res@[k]).0 <= res@[k].1 <= v.len(),
        decreases v.len() - i,
    {
        let a = skip_ws(v, i);
        proof {
            lemma_ws_end_bounds(v@, i as int);
        }
        if a >= v.len() {
            assert(words_from(v@, i as int) == Seq::<Seq<char>>::empty());
            i = v.len();
        } else {
            let mut b = a;
            while b < v.len() && !is_whitespace(v[b])
                invariant
                    a <= b <= v.len(),
                    token_end(v@, a as int) == token_end(v@, b as int),
                decreases v.len() - b,
            {
                b = b + 1;
            }
            proof {
                lemma_token_end_bounds(v@, a as int);
            }
            let ghost before = res@;
            res.push((a, b));
            assert(ranges_view(v@, res@) == ranges_view(v@, before) + seq![
                v@.subrange(a as int, b as int),
            ]);
            i = b;
        }
    }
    assert(words_from(v@, i as int) == Seq::<Seq<char>>::empty()) by {
        lemma_ws_end_bounds(v@, i as int);
    }
    assert(ranges_view(v@, res@) + Seq::<Seq<char>>::empty() == ranges_view(v@, res@));
    res
}

fn seq_eq(v: &[char], lo: usize, hi: usize, lit: &str) -> (res: bool)
    requires
        lo <= hi <= v.len(),
    ensures
        res == (v@.subrange(lo as int, hi as int) == lit@),
{
    let l = chars_of(lit);
    if hi - lo != l.len() {
        return false;
    }
    let r = matches_at(v, lo, &l);
    assert(r == occurs_at(v@, lo as int, l@));
    r
}

/// Whether `v[lo..hi]` (a word) counts as a ply.
fn word_is_ply(v: &[char], lo: usize, hi: usize) -> (res: bool)
    requires
        lo <= hi <= v.len(),
    ensures
        res == is_ply(v@.subrange(lo as int, hi as int)),
{
    let (a, b) = trim_range(v, lo, hi);
    if a == b {
        return false;
    }
    if seq_eq(v, a, b, "1-0") || seq_eq(v, a, b, "0-1") || seq_eq(v, a, b, "1/2-1/2") || seq_eq(
        v,
        a,
        b,
        "*",
    ) {
        return false;
    }
    if v[a] == '$' {
        return false;
    }
    let word = string_of_range(v, a, b);
    match is_match("^\\d+\\.(\\.\\.)?$", word.as_str()) {
        Some(true) => false,
        _ => true,
    }
}

/// Counts the full moves of a PGN: half its plies, rounded up, or nothing
/// when it has none.
pub fn count_full_moves(pgn: &str) -> (res: Option<u32>)
    ensures
        res == full_moves(pgn@),
        res matches Some(n) ==> n >= 1,
{
    let v = chars_of(pgn);
    let body = movetext_of(&v);
    let sanitized = sanitize(&body);
    let ranges = word_ranges(&sanitized);
    let ghost ws = words(sanitized@);
    let mut plies: u32 = 0;
    let mut k: usize = 0;
    while k < ranges.len()
        invariant
            k <= ranges.len(),
            ranges_view(sanitized@, ranges@) == ws,
            forall|j: int| 0 <= j < ranges@.len() ==> (#[trigger] ranges@[j]).0 <= ranges@[j].1
                <= sanitized.len(),
            plies as nat == ply_count(ws.take(k as int)),
        decreases ranges.len() - k,
    {
        let (lo, hi) = ranges[k];
        assert(ws[k as int] == sanitized@.subrange(lo as int, hi as int));
        proof {
            assert(ws.take(k + 1).drop_last() == ws.take(k as int));
            assert(ws.take(k + 1).last() == ws[k as int]);
        }
        if word_is_ply(&sanitized, lo, hi) {
            plies = plies.saturating_add(1);
        }
        k = k + 1;
    }
    assert(ws.take(ranges.len() as int) == ws);
    if plies == 0 {
        None
    } else {
        Some(plies / 2 + plies % 2)
    }
}


// ---------------------------------------------------------------------
// Tag pairs
// ---------------------------------------------------------------------

/// `[A-Za-z0-9_]`
pub open spec fn is_key_char(c: char) -> bool {
    ('A' <= c && c <= 'Z') || ('a' <= c && c <= 'z') || ('0' <= c && c <= '9') || c == '_'
}

pub open spec fn key_end(s: Seq<char>, i: int) -> int
    decreases s.len() - i,
{
    if 0 <= i < s.len() && is_key_char(s[i]) {
        key_end(s, i + 1)
    } else {
        i
    }
}

/// The key and raw value of a tag-pair line `[Key "value"]` (the whole
/// line; white space between key and value; no line feed in the value).
pub open spec fn tag_pair(t: Seq<char>) -> Option<(Seq<char>, Seq<char>)> {
    if t.len() > 0 && t[0] == '[' {
        let k = key_end(t, 1);
        let w = ws_end(t, k);
        if k > 1 && w > k && w < t.len() && t[w] == '"' && w + 1 <= t.len() - 2 && t[t.len() - 2]
            == '"' && t[t.len() - 1] == ']' && !t.subrange(w + 1, t.len() - 2).contains('\n') {
            Some((t.subrange(1, k), t.subrange(w + 1, t.len() - 2)))
        } else {
            None
        }
    } else {
        None
    }
}

/// A tag value with `\"` read as `"`.
pub open spec fn unescaped(v: Seq<char>) -> Seq<char> {
    replace(v, seq!['\\', '"'], seq!['"'])
}

/// The tag pairs of a list of lines, each line trimmed first.
pub open spec fn tag_pairs_of(ls: Seq<Seq<char>>) -> Seq<(Seq<char>, Seq<char>)>
    decreases ls.len(),
{
    if ls.len() == 0 {
        seq![]
    } else {
        match tag_pair(trim(ls.last())) {
            Some((k, v)) => tag_pairs_of(ls.drop_last()).push((k, unescaped(v))),
            None => tag_pairs_of(ls.drop_last()),
        }
    }
}

/// The value of the last pair with `key`.
pub open spec fn last_value(pairs: Seq<(Seq<char>, Seq<char>)>, key: Seq<char>) -> Option<Seq<char>>
    decreases pairs.len(),
{
    if pairs.len() == 0 {
        None
    } else if pairs.last().0 == key {
        Some(pairs.last().1)
    } else {
        last_value(pairs.drop_last(), key)
    }
}

/// The value of a PGN tag (the last one, if the tag is repeated).
pub open spec fn tag_value(pgn: Seq<char>, key: Seq<char>) -> Option<Seq<char>> {
    last_value(tag_pairs_of(lines(pgn)), key)
}

pub open spec fn pairs_view(v: Seq<(String, String)>) -> Seq<(Seq<char>, Seq<char>)> {
    v.map_values(|p: (String, String)| (p.0@, p.1@))
}

/// The index of the last pair with `key`, or -1.
pub open spec fn key_pos(pairs: Seq<(Seq<char>, Seq<char>)>, key: Seq<char>) -> int
    decreases pairs.len(),
{
    if pairs.len() == 0 {
        -1
    } else if pairs.last().0 == key {
        pairs.len() - 1
    } else {
        key_pos(pairs.drop_last(), key)
    }
}

/// A pair put into a list with one pair per key: it replaces the value of
/// its key in place, or comes last when its key is new.
pub open spec fn map_insert(pairs: Seq<(Seq<char>, Seq<char>)>, p: (Seq<char>, Seq<char>)) -> Seq<(Seq<char>, Seq<char>)> {
    if key_pos(pairs, p.0) >= 0 {
        pairs.update(key_pos(pairs, p.0), p)
    } else {
        pairs.push(p)
    }
}

/// Pairs gathered one per key, the last value of each key winning.
pub open spec fn one_per_key(pairs: Seq<(Seq<char>, Seq<char>)>) -> Seq<(Seq<char>, Seq<char>)>
    decreases pairs.len(),
{
    if pairs.len() == 0 {
        seq![]
    } else {
        map_insert(one_per_key(pairs.drop_last()), pairs.last())
    }
}

/// No key occurs twice.
pub open spec fn keys_unique(pairs: Seq<(Seq<char>, Seq<char>)>) -> bool {
    forall|i: int, j: int| 0 <= i < j < pairs.len() ==> (#[trigger] pairs[i]).0 != (#[trigger] pairs[j]).0
}

proof fn lemma_key_pos(pairs: Seq<(Seq<char>, Seq<char>)>, key: Seq<char>)
    ensures
        -1 <= key_pos(pairs, key) < pairs.len(),
        key_pos(pairs, key) >= 0 ==> pairs[key_pos(pairs, key)].0 == key,
        forall|j: int| key_pos(pairs, key) < j < pairs.len() ==> (#[trigger] pairs[j]).0 != key,
        last_value(pairs, key) == (if key_pos(pairs, key) >= 0 {
            Some(pairs[key_pos(pairs, key)].1)
        } else {
            None::<Seq<char>>
        }),
    decreases pairs.len(),
{
    if pairs.len() > 0 && pairs.last().0 != key {
        lemma_key_pos(pairs.drop_last(), key);
        assert forall|j: int| key_pos(pairs, key) < j < pairs.len() implies (#[trigger] pairs[j]).0
            != key by {
            if j < pairs.len() - 1 {
                assert(pairs[j] == pairs.drop_last()[j]);
            }
        }
    }
}

proof fn lemma_key_pos_update(pairs: Seq<(Seq<char>, Seq<char>)>, i: int, p: (Seq<char>, Seq<char>), key: Seq<char>)
    requires
        0 <= i < pairs.len(),
        pairs[i].0 == p.0,
    ensures
        key_pos(pairs.update(i, p), key) == key_pos(pairs, key),
    decreases pairs.len(),
{
    let u = pairs.update(i, p);
    if pairs.len() > 0 {
        assert(u.last().0 == pairs.last().0);
        if i < pairs.len() - 1 {
            assert(u.drop_last() =~= pairs.drop_last().update(i, p));
            lemma_key_pos_update(pairs.drop_last(), i, p, key);
        } else {
            assert(u.drop_last() =~= pairs.drop_last());
        }
    }
}

/// Putting a pair in keeps the keys unique, and each key's value is the
/// one the pairs so far, followed by the new one, end with.
proof fn lemma_map_insert(pairs: Seq<(Seq<char>, Seq<char>)>, p: (Seq<char>, Seq<char>))
    requires
        keys_unique(pairs),
    ensures
        keys_unique(map_insert(pairs, p)),
        forall|key: Seq<char>| #[trigger] last_value(map_insert(pairs, p), key) == last_value(
            pairs.push(p),
            key,
        ),
{
    lemma_key_pos(pairs, p.0);
    let m = map_insert(pairs, p);
    let i = key_pos(pairs, p.0);
    if i >= 0 {
        assert forall|key: Seq<char>| #[trigger] last_value(m, key) == last_value(pairs.push(p), key) by {
            lemma_key_pos_update(pairs, i, p, key);
            lemma_key_pos(pairs, key);
            lemma_key_pos(m, key);
            assert(pairs.push(p).drop_last() =~= pairs);
        }
    } else {
        assert forall|a: int, b: int| 0 <= a < b < m.len() implies (#[trigger] m[a]).0 != (
        #[trigger] m[b]).0 by {
            if b == pairs.len() {
                assert(m[a] == pairs[a]);
            } else {
                assert(m[a] == pairs[a]);
                assert(m[b] == pairs[b]);
            }
        }
        assert forall|key: Seq<char>| #[trigger] last_value(m, key) == last_value(pairs.push(p), key) by {
        }
    }
}

/// Gathering pairs one per key keeps the keys unique and each key's last
/// value.
pub proof fn lemma_one_per_key(pairs: Seq<(Seq<char>, Seq<char>)>)
    ensures
        keys_unique(one_per_key(pairs)),
        forall|key: Seq<char>| #[trigger] last_value(one_per_key(pairs), key) == last_value(pairs, key),
    decreases pairs.len(),
{
    if pairs.len() > 0 {
        let rest = one_per_key(pairs.drop_last());
        lemma_one_per_key(pairs.drop_last());
        lemma_map_insert(rest, pairs.last());
        assert(one_per_key(pairs) == map_insert(rest, pairs.last()));
        assert forall|key: Seq<char>| #[trigger] last_value(one_per_key(pairs), key) == last_value(pairs, key) by {
            assert(last_value(map_insert(rest, pairs.last()), key) == last_value(rest.push(pairs.last()), key));
            assert(rest.push(pairs.last()).drop_last() =~= rest);
            assert(rest.push(pairs.last()).last() == pairs.last());
            assert(last_value(rest, key) == last_value(pairs.drop_last(), key));
        }
    }
}

/// Puts a pair into a list with one pair per key.
fn insert_pair(list: &mut Vec<(String, String)>, p: (String, String))
    ensures
        pairs_view(final(list)@) == map_insert(pairs_view(old(list)@), (p.0@, p.1@)),
{
    let ghost ps = pairs_view(list@);
    let mut found: Option<usize> = None;
    let mut i: usize = 0;
    assert(ps.take(0) =~= Seq::<(Seq<char>, Seq<char>)>::empty());
    while i < list.len()
        invariant
            i <= list.len(),
            ps == pairs_view(list@),
            match found {
                Some(j) => key_pos(ps.take(i as int), p.0@) == j && j < i,
                None => key_pos(ps.take(i as int), p.0@) == -1,
            },
        decreases list.len() - i,
    {
        assert(ps.take(i + 1).drop_last() =~= ps.take(i as int));
        assert(ps.take(i + 1).last() == ps[i as int]);
        assert(ps[i as int].0 == list@[i as int].0@);
        if crate::json::str_eq(list[i].0.as_str(), p.0.as_str()) {
            found = Some(i);
        }
        i = i + 1;
    }
    assert(ps.take(list.len() as int) =~= ps);
    match found {
        Some(j) => {
            list.set(j, p);
            assert(pairs_view(list@) =~= ps.update(j as int, (p.0@, p.1@)));
        },
        None => {
            list.push(p);
            assert(pairs_view(list@) =~= ps.push((p.0@, p.1@)));
        },
    }
}

fn key_end_exec(v: &[char], i: usize) -> (r: usize)
    requires
        i <= v.len(),
    ensures
        r as int == key_end(v@, i as int),
        i <= r <= v.len(),
{
    let mut j = i;
    while j < v.len() && (('A' <= v[j] && v[j] <= 'Z') || ('a' <= v[j] && v[j] <= 'z') || ('0'
        <= v[j] && v[j] <= '9') || v[j] == '_')
        invariant
            i <= j <= v.len(),
            key_end(v@, i as int) == key_end(v@, j as int),
        decreases v.len() - j,
    {
        j = j + 1;
    }
    j
}

fn has_newline(v: &[char], lo: usize, hi: usize) -> (res: bool)
    requires
        lo <= hi <= v.len(),
    ensures
        res == v@.subrange(lo as int, hi as int).contains('\n'),
{
    let mut i = lo;
    while i < hi
        invariant
            lo <= i <= hi <= v.len(),
            forall|j: int| lo <= j < i ==> v@[j] != '\n',
        decreases hi - i,
    {
        if v[i] == '\n' {
            assert(v@.subrange(lo as int, hi as int)[i - lo] == '\n');
            return true;
        }
        i = i + 1;
    }
    assert forall|j: int| 0 <= j < hi - lo implies v@.subrange(lo as int, hi as int)[j] != '\n' by {
        assert(v@.subrange(lo as int, hi as int)[j] == v@[lo + j]);
    }
    false
}

/// The tag pair of the trimmed line `v[a..b]`.
fn tag_pair_at(v: &[char], a: usize, b: usize) -> (res: Option<(String, String)>)
    requires
        a <= b <= v.len(),
    ensures
        match res {
            Some(p) => tag_pair(v@.subrange(a as int, b as int)) matches Some((k, x)) && p.0@ == k
                && p.1@ == unescaped(x),
            None => tag_pair(v@.subrange(a as int, b as int)) is None,
        },
{
    let t = slice_of(v, a, b);
    if !(t.len() > 0 && t[0] == '[') {
        return None;
    }
    let k = key_end_exec(&t, 1);
    let w = skip_ws(&t, k);
    if !(k > 1 && w > k && w < t.len() && t[w] == '"' && t.len() >= 2 && w + 1 <= t.len() - 2
        && t[t.len() - 2] == '"' && t[t.len() - 1] == ']') {
        return None;
    }
    if has_newline(&t, w + 1, t.len() - 2) {
        return None;
    }
    let key = string_of_range(&t, 1, k);
    let raw = slice_of(&t, w + 1, t.len() - 2);
    let bs = ['\\', '"'];
    let q = ['"'];
    assert(bs@ == seq!['\\', '"']);
    assert(q@ == seq!['"']);
    let value = replace_chars(&raw, &bs, &q);
    Some((key, string_of(&value)))
}

/// A copy of `v[lo..hi]`.
fn slice_of(v: &[char], lo: usize, hi: usize) -> (res: Vec<char>)
    requires
        lo <= hi <= v.len(),
    ensures
        res@ == v@.subrange(lo as int, hi as int),
{
    crate::pgn_extract::slice_range(v, lo, hi)
}

/// The tags of a PGN, one entry per tag name with its last value, in the
/// order the names first occur.
pub fn parse_pgn_headers(pgn: &str) -> (res: Vec<(String, String)>)
    ensures
        pairs_view(res@) == one_per_key(tag_pairs_of(lines(pgn@))),
        keys_unique(pairs_view(res@)),
        forall|key: Seq<char>| #[trigger] last_value(pairs_view(res@), key) == tag_value(pgn@, key),
{
    let v = chars_of(pgn);
    let ranges = line_ranges(&v);
    let ghost ls = lines(v@);
    let mut headers: Vec<(String, String)> = Vec::new();
    let mut k: usize = 0;
    while k < ranges.len()
        invariant
            k <= ranges.len(),
            ranges_view(v@, ranges@) == ls,
            forall|j: int| 0 <= j < ranges@.len() ==> (#[trigger] ranges@[j]).0 <= ranges@[j].1
                <= v.len(),
            pairs_view(headers@) == one_per_key(tag_pairs_of(ls.take(k as int))),
        decreases ranges.len() - k,
    {
        let (lo, hi) = ranges[k];
        assert(ls[k as int] == v@.subrange(lo as int, hi as int));
        let (a, b) = trim_range(&v, lo, hi);
        proof {
            assert(ls.take(k + 1).drop_last() == ls.take(k as int));
            assert(ls.take(k + 1).last() == ls[k as int]);
        }
        match tag_pair_at(&v, a, b) {
            Some(p) => {
                let ghost before = tag_pairs_of(ls.take(k as int));
                assert(tag_pairs_of(ls.take(k + 1)) == before.push((p.0@, p.1@)));
                assert(before.push((p.0@, p.1@)).drop_last() =~= before);
                insert_pair(&mut headers, p);
            },
            None => {},
        }
        k = k + 1;
    }
    assert(ls.take(ranges.len() as int) == ls);
    proof {
        lemma_one_per_key(tag_pairs_of(ls));
    }
    headers
}

/// The value of the last pair with `key`.
pub fn header_value(headers: &Vec<(String, String)>, key: &str) -> (res: Option<String>)
    ensures
        match res {
            Some(v) => last_value(pairs_view(headers@), key@) == Some(v@),
            None => last_value(pairs_view(headers@), key@) is None,
        },
{
    let ghost ps = pairs_view(headers@);
    let mut i = headers.len();
    assert(ps.take(i as int) == ps);
    while i > 0
        invariant
            i <= headers.len(),
            ps == pairs_view(headers@),
            last_value(ps, key@) == last_value(ps.take(i as int), key@),
        decreases i,
    {
        assert(ps.take(i as int).last() == ps[i - 1]);
        assert(ps.take(i as int).drop_last() == ps.take(i - 1));
        if crate::json::str_eq(headers[i - 1].0.as_str(), key) {
            return Some(headers[i - 1].1.clone());
        }
        i = i - 1;
    }
    None
}


// ---------------------------------------------------------------------
// The ECO table
// ---------------------------------------------------------------------

/// A CSV field: trimmed, and if it is quoted, unquoted with `""` read as
/// `"`.
pub open spec fn csv_field(field: Seq<char>) -> Seq<char> {
    let t = trim(field);
    if t.len() >= 2 && t[0] == '"' && t.last() == '"' {
        replace(t.subrange(1, t.len() - 1), seq!['"', '"'], seq!['"'])
    } else {
        t
    }
}

pub fn parse_csv_field(field: &str) -> (res: String)
    ensures
        res@ == csv_field(field@),
{
    let v = chars_of(field);
    let (a, b) = trim_range(&v, 0, v.len());
    assert(v@.subrange(0, v@.len() as int) == v@);
    let t = slice_of(&v, a, b);
    if t.len() >= 2 && t[0] == '"' && t[t.len() - 1] == '"' {
        let inner = slice_of(&t, 1, t.len() - 1);
        let qq = ['"', '"'];
        let q = ['"'];
        assert(qq@ == seq!['"', '"']);
        assert(q@ == seq!['"']);
        string_of(&replace_chars(&inner, &qq, &q))
    } else {
        string_of(&t)
    }
}

/// `s` without any trailing carriage returns.
pub open spec fn without_trailing_cr(s: Seq<char>) -> Seq<char>
    decreases s.len(),
{
    if s.len() > 0 && s.last() == '\r' {
        without_trailing_cr(s.drop_last())
    } else {
        s
    }
}

/// The ECO code and name of a CSV record `code,name` (split at the first
/// comma).
pub open spec fn eco_record(line: Seq<char>) -> Option<(Seq<char>, Seq<char>)> {
    let l = without_trailing_cr(line);
    match crate::text::first_occurrence_from(l, seq![','], 0) {
        Some(c) => Some((csv_field(l.subrange(0, c)), csv_field(l.subrange(c + 1, l.len() as int)))),
        None => None,
    }
}

pub fn parse_eco_opening_record(line: &str) -> (res: Option<(String, String)>)
    ensures
        match res {
            Some(r) => eco_record(line@) == Some((r.0@, r.1@)),
            None => eco_record(line@) is None,
        },
{
    let v = chars_of(line);
    let mut end = v.len();
    assert(v@.subrange(0, v@.len() as int) == v@);
    while end > 0 && v[end - 1] == '\r'
        invariant
            end <= v.len(),
            without_trailing_cr(v@) == without_trailing_cr(v@.subrange(0, end as int)),
        decreases end,
    {
        assert(v@.subrange(0, end as int).drop_last() == v@.subrange(0, end - 1));
        end = end - 1;
    }
    assert(v@.subrange(0, v@.len() as int) == v@);
    let l = slice_of(&v, 0, end);
    assert(l@ == without_trailing_cr(v@));
    let comma = [','];
    assert(comma@ == seq![',']);
    match crate::text::find_from(&l, &comma, 0) {
        Some(c) => {
            proof {
                assert(crate::text::first_occurrence_from(l@, seq![','], 0) == Some(c as int)) by {
                    let w = choose|i: int| 0 <= i && crate::text::occurs_at(l@, i, seq![','])
                        && forall|j: int| 0 <= j < i ==> !crate::text::occurs_at(l@, j, seq![',']);
                    if w < c {
                    } else if w > c {
                    }
                }
            }
            let code = parse_csv_field(string_of_range(&l, 0, c).as_str());
            let name = parse_csv_field(string_of_range(&l, c + 1, l.len()).as_str());
            Some((code, name))
        },
        None => None,
    }
}

/// The records of the CSV lines that are not blank.
pub open spec fn eco_records(ls: Seq<Seq<char>>) -> Seq<(Seq<char>, Seq<char>)>
    decreases ls.len(),
{
    if ls.len() == 0 {
        seq![]
    } else if trim(ls.last()).len() == 0 {
        eco_records(ls.drop_last())
    } else {
        match eco_record(ls.last()) {
            Some(r) => eco_records(ls.drop_last()).push(r),
            None => eco_records(ls.drop_last()),
        }
    }
}

/// The table a CSV text describes: its records after the header line.
pub open spec fn eco_table(raw: Seq<char>) -> Seq<(Seq<char>, Seq<char>)> {
    if lines(raw).len() == 0 {
        seq![]
    } else {
        eco_records(lines(raw).drop_first())
    }
}

/// The record of a non-blank CSV line `v[lo..hi]`.
fn csv_line_record(v: &[char], lo: usize, hi: usize) -> (res: Option<(String, String)>)
    requires
        lo <= hi <= v.len(),
    ensures
        ({
            let line = v@.subrange(lo as int, hi as int);
            if trim(line).len() == 0 {
                res is None
            } else {
                match res {
                    Some(r) => eco_record(line) == Some((r.0@, r.1@)),
                    None => eco_record(line) is None,
                }
            }
        }),
{
    let (a, b) = trim_range(v, lo, hi);
    if a == b {
        return None;
    }
    let line = string_of_range(v, lo, hi);
    parse_eco_opening_record(line.as_str())
}

#[verifier::rlimit(80)]
#[verifier::spinoff_prover]
pub fn parse_eco_openings_csv(raw: &str) -> (res: Vec<(String, String)>)
    ensures
        pairs_view(res@) == one_per_key(eco_table(raw@)),
        keys_unique(pairs_view(res@)),
        forall|key: Seq<char>| #[trigger] last_value(pairs_view(res@), key) == last_value(eco_table(raw@), key),
{
    let v = chars_of(raw);
    let ranges = line_ranges(&v);
    let ghost ls = lines(v@);
    let mut table: Vec<(String, String)> = Vec::new();
    assert(pairs_view(table@) =~= Seq::<(Seq<char>, Seq<char>)>::empty());
    assert(ls.len() == ranges@.len());
    if ranges.len() == 0 {
        proof {
            lemma_one_per_key(eco_table(raw@));
        }
        return table;
    }
    let ghost rest = ls.drop_first();
    assert(rest.take(0) =~= Seq::<Seq<char>>::empty());
    assert(eco_records(rest.take(0)) == Seq::<(Seq<char>, Seq<char>)>::empty());
    let mut k: usize = 1;
    while k < ranges.len()
        invariant
            1 <= k <= ranges.len(),
            ranges_view(v@, ranges@) == ls,
            ls.len() == ranges@.len(),
            rest == ls.drop_first(),
            forall|j: int| 0 <= j < ranges@.len() ==> (#[trigger] ranges@[j]).0 <= ranges@[j].1
                <= v.len(),
            pairs_view(table@) == one_per_key(eco_records(rest.take(k - 1))),
        decreases ranges.len() - k,
    {
        let (lo, hi) = ranges[k];
        assert(ls[k as int] == v@.subrange(lo as int, hi as int));
        assert(rest[k - 1] == ls[k as int]);
        proof {
            assert(rest.take(k as int).drop_last() == rest.take(k - 1));
            assert(rest.take(k as int).last() == rest[k - 1]);
        }
        match csv_line_record(&v, lo, hi) {
            Some(r) => {
                let ghost before = eco_records(rest.take(k - 1));
                assert(eco_records(rest.take(k as int)) == before.push((r.0@, r.1@)));
                assert(before.push((r.0@, r.1@)).drop_last() =~= before);
                insert_pair(&mut table, r);
            },
            None => {},
        }
        k = k + 1;
    }
    assert(rest.take(ranges.len() - 1) =~= rest);
    assert(eco_table(raw@) == eco_records(rest));
    proof {
        lemma_one_per_key(eco_table(raw@));
    }
    table
}

/// The opening named for an ECO code in the bundled table.
pub open spec fn eco_name(eco: Seq<char>) -> Option<Seq<char>> {
    last_value(eco_table(eco_csv_text()), trim(eco))
}

pub fn eco_openings() -> (res: Vec<(String, String)>)
    ensures
        pairs_view(res@) == one_per_key(eco_table(eco_csv_text())),
        keys_unique(pairs_view(res@)),
        forall|key: Seq<char>| #[trigger] last_value(pairs_view(res@), key) == last_value(eco_table(eco_csv_text()), key),
{
    parse_eco_openings_csv(eco_openings_csv())
}

pub fn eco_opening_lookup(eco: &str) -> (res: Option<String>)
    ensures
        match res {
            Some(n) => eco_name(eco@) == Some(n@),
            None => eco_name(eco@) is None,
        },
{
    let table = eco_openings();
    let code = crate::text::trim_str(eco);
    header_value(&table, code.as_str())
}


// ---------------------------------------------------------------------
// Game metadata
// ---------------------------------------------------------------------

/// What the PGN says about a game.
#[derive(Debug, Clone, PartialEq, Eq)]
pub struct GameMetadata {
    pub event: Option<String>,
    pub white: Option<String>,
    pub black: Option<String>,
    pub white_elo: Option<String>,
    pub black_elo: Option<String>,
    pub result: Option<String>,
    pub date: Option<String>,
    pub opening: Option<String>,
    pub eco: Option<String>,
    pub moves_count: Option<u32>,
}

pub open spec fn opt_view(o: Option<String>) -> Option<Seq<char>> {
    match o {
        Some(s) => Some(s@),
        None => None,
    }
}

impl Default for GameMetadata {
    fn default() -> (res: Self)
        ensures
            res.event is None && res.white is None && res.black is None && res.white_elo is None
                && res.black_elo is None && res.result is None && res.date is None
                && res.opening is None && res.eco is None && res.moves_count is None,
    {
        GameMetadata {
            event: None,
            white: None,
            black: None,
            white_elo: None,
            black_elo: None,
            result: None,
            date: None,
            opening: None,
            eco: None,
            moves_count: None,
        }
    }
}

/// `name (rating)`, with `?` for a missing rating.
pub open spec fn player_label(name: Seq<char>, rating: Option<Seq<char>>) -> Seq<char> {
    name + " ("@ + match rating {
        Some(r) => r,
        None => "?"@,
    } + ")"@
}

/// `White (elo) vs Black (elo)`, or the one side that is known.
pub open spec fn players_text(m: GameMetadata) -> Option<Seq<char>> {
    match (opt_view(m.white), opt_view(m.black)) {
        (Some(w), Some(b)) => Some(
            player_label(w, opt_view(m.white_elo)) + " vs "@ + player_label(b, opt_view(m.black_elo)),
        ),
        (Some(w), None) => Some(player_label(w, opt_view(m.white_elo))),
        (None, Some(b)) => Some(player_label(b, opt_view(m.black_elo))),
        (None, None) => None,
    }
}

/// The result, date and move count lines that are known, in that order.
pub open spec fn summary_text(m: GameMetadata) -> Seq<Seq<char>> {
    let a: Seq<Seq<char>> = match opt_view(m.result) {
        Some(r) => seq!["Result: "@ + r],
        None => seq![],
    };
    let b: Seq<Seq<char>> = match opt_view(m.date) {
        Some(d) => seq!["Date: "@ + d],
        None => seq![],
    };
    let c: Seq<Seq<char>> = match m.moves_count {
        Some(n) => seq!["Moves: "@ + crate::text::decimal(n as nat)],
        None => seq![],
    };
    a + b + c
}

/// The opening name (the `Opening` tag, else the name for the ECO code),
/// followed by the ECO code in parentheses when there is one; with no name,
/// the ECO code alone, and with neither, `Unknown opening`.
pub open spec fn opening_text(m: GameMetadata) -> Option<Seq<char>> {
    let name = match opt_view(m.opening) {
        Some(o) => Some(o),
        None => match opt_view(m.eco) {
            Some(e) => eco_name(e),
            None => None,
        },
    };
    label_of(name, opt_view(m.eco))
}

/// An opening label from a name and an ECO code, either of which may be
/// missing.
pub open spec fn label_of(name: Option<Seq<char>>, eco: Option<Seq<char>>) -> Option<Seq<char>> {
    match (name, eco) {
        (Some(o), Some(e)) => Some(o + " ("@ + e + ")"@),
        (Some(o), None) => Some(o),
        (None, Some(e)) => Some(e),
        (None, None) => Some("Unknown opening"@),
    }
}

proof fn lemma_label_names_code(name: Option<Seq<char>>, e: Seq<char>)
    ensures
        label_of(name, Some(e)) is Some,
        crate::text::contains(label_of(name, Some(e)).unwrap(), e),
{
    let t = label_of(name, Some(e)).unwrap();
    match name {
        Some(o) => {
            reveal_strlit(" (");
            reveal_strlit(")");
            let k: int = o.len() as int + 2;
            assert(t.subrange(k, k + e.len()) =~= e);
            assert(crate::text::occurs_at(t, k, e));
        },
        None => {
            assert(t.subrange(0, e.len() as int) =~= e);
            assert(crate::text::occurs_at(t, 0, e));
        },
    }
}

/// There is always an opening label: it names the ECO code when the game
/// has one, and says `Unknown opening` when the game has neither an
/// `Opening` tag nor an ECO code.
pub proof fn lemma_opening_label_falls_back(m: GameMetadata)
    ensures
        opening_text(m) is Some,
        opt_view(m.eco) matches Some(e) ==> crate::text::contains(opening_text(m).unwrap(), e),
        m.opening is None && m.eco is None ==> opening_text(m) == Some("Unknown opening"@),
{
    let name = match opt_view(m.opening) {
        Some(o) => Some(o),
        None => match opt_view(m.eco) {
            Some(e) => eco_name(e),
            None => None,
        },
    };
    match opt_view(m.eco) {
        Some(e) => lemma_label_names_code(name, e),
        None => {},
    }
}

impl GameMetadata {
    /// Reads the tags and counts the moves of a PGN.
    pub fn from_pgn(pgn: &str) -> (res: Self)
        ensures
            opt_view(res.event) == tag_value(pgn@, "Event"@),
            opt_view(res.white) == tag_value(pgn@, "White"@),
            opt_view(res.black) == tag_value(pgn@, "Black"@),
            opt_view(res.white_elo) == tag_value(pgn@, "WhiteElo"@),
            opt_view(res.black_elo) == tag_value(pgn@, "BlackElo"@),
            opt_view(res.result) == tag_value(pgn@, "Result"@),
            opt_view(res.date) == tag_value(pgn@, "Date"@),
            opt_view(res.opening) == tag_value(pgn@, "Opening"@),
            opt_view(res.eco) == tag_value(pgn@, "ECO"@),
            res.moves_count == full_moves(pgn@),
    {
        let headers = parse_pgn_headers(pgn);
        GameMetadata {
            event: header_value(&headers, "Event"),
            white: header_value(&headers, "White"),
            black: header_value(&headers, "Black"),
            white_elo: header_value(&headers, "WhiteElo"),
            black_elo: header_value(&headers, "BlackElo"),
            result: header_value(&headers, "Result"),
            date: header_value(&headers, "Date"),
            opening: header_value(&headers, "Opening"),
            eco: header_value(&headers, "ECO"),
            moves_count: count_full_moves(pgn),
        }
    }

    pub fn format_player(name: &str, rating: Option<&str>) -> (res: String)
        ensures
            res@ == player_label(name@, match rating {
                Some(r) => Some(r@),
                None => None,
            }),
    {
        let mut out = String::new();
        out.append(name);
        out.append(" (");
        match rating {
            Some(r) => out.append(r),
            None => out.append("?"),
        }
        out.append(")");
        out
    }

    pub fn players_label(&self) -> (res: Option<String>)
        ensures
            opt_view(res) == players_text(*self),
    {
        let white_elo = match &self.white_elo {
            Some(e) => Some(e.as_str()),
            None => None,
        };
        let black_elo = match &self.black_elo {
            Some(e) => Some(e.as_str()),
            None => None,
        };
        match (&self.white, &self.black) {
            (Some(white), Some(black)) => {
                let mut out = Self::format_player(white.as_str(), white_elo);
                out.append(" vs ");
                let b = Self::format_player(black.as_str(), black_elo);
                out.append(b.as_str());
                Some(out)
            },
            (Some(white), None) => Some(Self::format_player(white.as_str(), white_elo)),
            (None, Some(black)) => Some(Self::format_player(black.as_str(), black_elo)),
            (None, None) => None,
        }
    }

    pub fn summary_bits(&self) -> (res: Vec<String>)
        ensures
            crate::chesscom::strings_view(res@) == summary_text(*self),
    {
        let mut bits: Vec<String> = Vec::new();
        let ghost a: Seq<Seq<char>> = match opt_view(self.result) {
            Some(r) => seq!["Result: "@ + r],
            None => seq![],
        };
        let ghost b: Seq<Seq<char>> = match opt_view(self.date) {
            Some(d) => seq!["Date: "@ + d],
            None => seq![],
        };
        let ghost c: Seq<Seq<char>> = match self.moves_count {
            Some(n) => seq!["Moves: "@ + crate::text::decimal(n as nat)],
            None => seq![],
        };
        match &self.result {
            Some(result) => {
                let mut s = String::new();
                s.append("Result: ");
                s.append(result.as_str());
                bits.push(s);
            },
            None => {},
        }
        assert(crate::chesscom::strings_view(bits@) == a);
        match &self.date {
            Some(date) => {
                let mut s = String::new();
                s.append("Date: ");
                s.append(date.as_str());
                let ghost before = bits@;
                bits.push(s);
                assert(crate::chesscom::strings_view(bits@) == crate::chesscom::strings_view(before).push(s@));
            },
            None => {},
        }
        assert(crate::chesscom::strings_view(bits@) == a + b);
        match self.moves_count {
            Some(n) => {
                let mut s = String::new();
                s.append("Moves: ");
                crate::text::push_decimal(&mut s, n as u64);
                let ghost before = bits@;
                bits.push(s);
                assert(crate::chesscom::strings_view(bits@) == crate::chesscom::strings_view(before).push(s@));
            },
            None => {},
        }
        bits
    }

    pub fn opening_label(&self) -> (res: Option<String>)
        ensures
            opt_view(res) == opening_text(*self),
    {
        let name = match &self.opening {
            Some(o) => Some(o.clone()),
            None => match &self.eco {
                Some(e) => eco_opening_lookup(e.as_str()),
                None => None,
            },
        };
        match (name, &self.eco) {
            (Some(o), Some(e)) => {
                let mut out = o;
                out.append(" (");
                out.append(e.as_str());
                out.append(")");
                Some(out)
            },
            (Some(o), None) => Some(o),
            (None, Some(e)) => Some(e.clone()),
            (None, None) => Some("Unknown opening".to_string()),
        }
    }
}

} // verus!
