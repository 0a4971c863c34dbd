//! Why a game-termination marker after the moves never counts as a move:
//! how appending to a PGN changes its movetext, what the comment scanner
//! keeps of the addition, and how the words of the kept text grow.
use vstd::prelude::*;
use crate::metadata::{
    full_moves, is_movetext_line, is_ply, movetext, ply_count, sanitize_state, token_end, words,
    words_from, Sanitizer,
};
use crate::pgn_extract::ws_end;
use crate::text::{is_ws, join_lines, lines, lines_from, newline_end, trim, trim_end, trim_start};

verus! {

/// `w` is one word: not empty, no white space in it.
pub open spec fn one_word(w: Seq<char>) -> bool {
    w.len() > 0 && forall|i: int| 0 <= i < w.len() ==> !is_ws(#[trigger] w[i])
}

/// Every character of `p` is white space.
pub open spec fn all_ws(p: Seq<char>) -> bool {
    forall|i: int| 0 <= i < p.len() ==> is_ws(#[trigger] p[i])
}

proof fn lemma_ws_end_ext(k: Seq<char>, t: Seq<char>, i: int)
    requires
        0 <= i <= k.len(),
    ensures
        ws_end(k, i) < k.len() ==> ws_end(k + t, i) == ws_end(k, i),
        ws_end(k, i) >= k.len() ==> ws_end(k + t, i) == ws_end(k + t, k.len() as int),
    decreases k.len() - i,
{
    let s = k + t;
    if i < k.len() {
        assert(s[i] == k[i]);
        if is_ws(k[i]) {
            lemma_ws_end_ext(k, t, i + 1);
        }
    }
}

proof fn lemma_token_end_ext(k: Seq<char>, t: Seq<char>, i: int)
    requires
        0 <= i <= k.len(),
        t.len() > 0,
        is_ws(t[0]),
    ensures
        token_end(k + t, i) == token_end(k, i),
    decreases k.len() - i,
{
    let s = k + t;
    if i < k.len() {
        assert(s[i] == k[i]);
        if !is_ws(k[i]) {
            lemma_token_end_ext(k, t, i + 1);
        }
    } else {
        assert(s[i] == t[0]);
    }
}

proof fn lemma_ws_end_over_blanks(s: Seq<char>, i: int, j: int)
    requires
        0 <= i <= j < s.len(),
        forall|x: int| i <= x < j ==> is_ws(#[trigger] s[x]),
        !is_ws(s[j]),
    ensures
        ws_end(s, i) == j,
    decreases j - i,
{
    if i < j {
        lemma_ws_end_over_blanks(s, i + 1, j);
    }
}

proof fn lemma_token_end_to_end(s: Seq<char>, i: int)
    requires
        0 <= i <= s.len(),
        forall|x: int| i <= x < s.len() ==> !is_ws(#[trigger] s[x]),
    ensures
        token_end(s, i) == s.len(),
    decreases s.len() - i,
{
    if i < s.len() {
        lemma_token_end_to_end(s, i + 1);
    }
}

/// Blanks and then one more word add that word to the words of a text.
proof fn lemma_words_from_append(k: Seq<char>, p: Seq<char>, w: Seq<char>, i: int)
    requires
        0 <= i <= k.len(),
        p.len() > 0,
        all_ws(p),
        one_word(w),
    ensures
        words_from(k + p + w, i) == words_from(k, i).push(w),
    decreases k.len() - i,
{
    let t = p + w;
    let s = k + t;
    assert(k + p + w =~= s);
    assert(t[0] == p[0]);
    crate::metadata::lemma_ws_end_bounds(k, i);
    lemma_ws_end_ext(k, t, i);
    let a = ws_end(k, i);
    if a < k.len() {
        crate::metadata::lemma_token_end_bounds(k, a);
        lemma_token_end_ext(k, t, a);
        let b = token_end(k, a);
        assert(s.subrange(a, b) =~= k.subrange(a, b));
        lemma_words_from_append(k, p, w, b);
        assert(words_from(s, i) == seq![k.subrange(a, b)] + words_from(s, b));
        assert(words_from(k, i) == seq![k.subrange(a, b)] + words_from(k, b));
        assert(seq![k.subrange(a, b)] + words_from(k, b).push(w) =~= (seq![k.subrange(a, b)]
            + words_from(k, b)).push(w));
    } else {
        let j: int = k.len() + p.len() as int;
        assert forall|x: int| k.len() <= x < j implies is_ws(#[trigger] s[x]) by {
            assert(s[x] == p[x - k.len()]);
        }
        assert(s[j] == w[0]);
        lemma_ws_end_over_blanks(s, k.len() as int, j);
        assert forall|x: int| j <= x < s.len() implies !is_ws(#[trigger] s[x]) by {
            assert(s[x] == w[x - j]);
        }
        lemma_token_end_to_end(s, j);
        assert(s.subrange(j, s.len() as int) =~= w);
        assert(words_from(s, s.len() as int) == Seq::<Seq<char>>::empty());
        assert(words_from(s, i) == seq![w] + words_from(s, s.len() as int));
        assert(words_from(k, i) == Seq::<Seq<char>>::empty());
        assert(words_from(s, i) =~= seq![w]);
    }
}


/// `c` opens or closes nothing for the comment scanner and ends no line.
pub open spec fn plain_char(c: char) -> bool {
    c != '{' && c != '}' && c != '(' && c != ')' && c != ';' && c != '\n'
}

/// The scanner keeps nothing while a comment or variation is open.
pub open spec fn quiet(st: Sanitizer) -> bool {
    st.line_comment || st.brace > 0 || st.paren > 0
}

proof fn lemma_line_comment_at_top(s: Seq<char>)
    ensures
        sanitize_state(s).line_comment ==> sanitize_state(s).brace == 0 && sanitize_state(s).paren
            == 0,
    decreases s.len(),
{
    if s.len() > 0 {
        lemma_line_comment_at_top(s.drop_last());
    }
}

/// Plain characters are kept as they are, or dropped inside a comment or
/// variation, and leave the scanner's depths alone.
proof fn lemma_sanitize_plain(s: Seq<char>, y: Seq<char>)
    requires
        forall|i: int| 0 <= i < y.len() ==> plain_char(#[trigger] y[i]),
    ensures
        sanitize_state(s + y) == (if quiet(sanitize_state(s)) {
            sanitize_state(s)
        } else {
            Sanitizer { kept: sanitize_state(s).kept + y, ..sanitize_state(s) }
        }),
    decreases y.len(),
{
    if y.len() == 0 {
        assert(s + y =~= s);
        assert(sanitize_state(s).kept + y =~= sanitize_state(s).kept);
    } else {
        let y0 = y.drop_last();
        assert((s + y).drop_last() =~= s + y0);
        assert((s + y).last() == y.last());
        assert(plain_char(y[y.len() - 1]));
        lemma_sanitize_plain(s, y0);
        assert(sanitize_state(s).kept + y0.push(y.last()) =~= (sanitize_state(s).kept + y0).push(
            y.last(),
        ));
        assert(y0.push(y.last()) =~= y);
    }
}

/// The kept text after a line feed: a blank more unless a brace or
/// parenthesis is still open; a `;` comment is closed by it.
proof fn lemma_sanitize_newline(s: Seq<char>)
    ensures
        ({
            let st = sanitize_state(s);
            let nx = sanitize_state(s.push('\n'));
            if st.brace > 0 || st.paren > 0 {
                nx == st
            } else {
                !quiet(nx) && exists|c: char| is_ws(c) && nx.kept == st.kept.push(c)
            }
        }),
{
    lemma_line_comment_at_top(s);
    let st = sanitize_state(s);
    assert(s.push('\n').drop_last() =~= s);
    if st.line_comment {
        assert(is_ws(' '));
    } else if st.brace == 0 && st.paren == 0 {
        assert(is_ws('\n'));
    }
}

/// A word without brackets, parentheses or `;` after a blank (and
/// possibly a line feed) adds, to the kept text, blanks and that word, or
/// nothing.
proof fn lemma_kept_after_word(t: Seq<char>, nl: bool, w: Seq<char>)
    requires
        one_word(w),
        forall|i: int| 0 <= i < w.len() ==> plain_char(#[trigger] w[i]),
    ensures
        ({
            let x = if nl { seq!['\n', ' '] + w } else { seq![' '] + w };
            let k0 = sanitize_state(t).kept;
            let k1 = sanitize_state(t + x).kept;
            k1 == k0 || exists|p: Seq<char>| p.len() > 0 && all_ws(p) && k1 == k0 + p + w
        }),
{
    let y = seq![' '] + w;
    assert forall|i: int| 0 <= i < y.len() implies plain_char(#[trigger] y[i]) by {
        if i > 0 {
            assert(y[i] == w[i - 1]);
        }
    }
    if nl {
        let x = seq!['\n', ' '] + w;
        let t1 = t.push('\n');
        assert(t + x =~= t1 + y);
        lemma_sanitize_newline(t);
        lemma_sanitize_plain(t1, y);
        let st = sanitize_state(t);
        if !(st.brace > 0 || st.paren > 0) {
            let c = choose|c: char| is_ws(c) && sanitize_state(t1).kept == st.kept.push(c);
            let p = seq![c, ' '];
            assert(all_ws(p));
            assert(sanitize_state(t1).kept + y =~= st.kept + p + w);
        }
    } else {
        lemma_sanitize_plain(t, y);
        let p = seq![' '];
        assert(all_ws(p));
        assert(sanitize_state(t).kept + y =~= sanitize_state(t).kept + p + w);
    }
}

/// A word that is not a ply, added after blanks, leaves the ply count as
/// it was.
proof fn lemma_plies_unchanged(k0: Seq<char>, k1: Seq<char>, w: Seq<char>)
    requires
        one_word(w),
        !is_ply(w),
        k1 == k0 || exists|p: Seq<char>| p.len() > 0 && all_ws(p) && k1 == k0 + p + w,
    ensures
        ply_count(words(k1)) == ply_count(words(k0)),
{
    if k1 != k0 {
        let p = choose|p: Seq<char>| p.len() > 0 && all_ws(p) && k1 == k0 + p + w;
        lemma_words_from_append(k0, p, w, 0);
        assert(words(k1) == words(k0).push(w));
        assert(words(k0).push(w).drop_last() =~= words(k0));
    }
}

proof fn lemma_newline_end_ext(m: Seq<char>, x: Seq<char>, i: int)
    requires
        0 <= i <= m.len(),
        forall|j: int| 0 <= j < x.len() ==> #[trigger] x[j] != '\n',
    ensures
        newline_end(m, i) < m.len() ==> newline_end(m + x, i) == newline_end(m, i),
        newline_end(m, i) >= m.len() ==> newline_end(m + x, i) == m.len() + x.len(),
    decreases m.len() + x.len() - i,
{
    let s = m + x;
    if i < m.len() {
        assert(s[i] == m[i]);
        if m[i] != '\n' {
            lemma_newline_end_ext(m, x, i + 1);
        }
    } else {
        lemma_newline_end_tail(m, x, i);
    }
}

proof fn lemma_newline_end_tail(m: Seq<char>, x: Seq<char>, i: int)
    requires
        m.len() <= i <= m.len() + x.len(),
        forall|j: int| 0 <= j < x.len() ==> #[trigger] x[j] != '\n',
    ensures
        newline_end(m + x, i) == m.len() + x.len(),
    decreases m.len() + x.len() - i,
{
    let s = m + x;
    if i < s.len() {
        assert(s[i] == x[i - m.len()]);
        lemma_newline_end_tail(m, x, i + 1);
    }
}

/// The lines of a text with a piece appended that holds no line feed: the
/// piece is a line of its own after a final line feed, else it extends the
/// last line.
proof fn lemma_lines_from_ext(m: Seq<char>, x: Seq<char>, i: int)
    requires
        0 <= i <= m.len(),
        x.len() > 0,
        forall|j: int| 0 <= j < x.len() ==> #[trigger] x[j] != '\n',
    ensures
        (i == m.len() || m.last() == '\n') ==> lines_from(m + x, i) == lines_from(m, i).push(x),
        !(i == m.len() || m.last() == '\n') ==> lines_from(m, i).len() > 0 && lines_from(m + x, i)
            == lines_from(m, i).drop_last().push(lines_from(m, i).last() + x),
    decreases m.len() - i,
{
    let s = m + x;
    crate::text::lemma_newline_end_bounds(m, i);
    lemma_newline_end_ext(m, x, i);
    if i == m.len() {
        assert(s.subrange(i, s.len() as int) =~= x);
        assert(lines_from(s, i) == seq![s.subrange(i, s.len() as int)]);
        assert(lines_from(m, i) == Seq::<Seq<char>>::empty());
        assert(seq![x] =~= Seq::<Seq<char>>::empty().push(x));
    } else {
        let e = newline_end(m, i);
        if e < m.len() {
            let seg = crate::text::strip_cr(m.subrange(i, e));
            assert(s.subrange(i, e) =~= m.subrange(i, e));
            lemma_newline_end_bounds_in(m, i);
            assert(m[e] == '\n');
            lemma_lines_from_ext(m, x, e + 1);
            let rest = lines_from(m, e + 1);
            assert(lines_from(m, i) == seq![seg] + rest);
            assert(lines_from(s, i) == seq![seg] + lines_from(s, e + 1));
            if e + 1 == m.len() {
                assert(m.last() == '\n');
                assert(seq![seg] + rest.push(x) =~= (seq![seg] + rest).push(x));
            } else if m.last() == '\n' {
                assert(seq![seg] + rest.push(x) =~= (seq![seg] + rest).push(x));
            } else {
                assert(seq![seg] + rest.drop_last().push(rest.last() + x) =~= (seq![seg]
                    + rest).drop_last().push((seq![seg] + rest).last() + x));
            }
        } else {
            assert(e == m.len());
            lemma_newline_end_bounds_in(m, i);
            assert(m.last() != '\n');
            assert(lines_from(m, i) == seq![m.subrange(i, m.len() as int)]);
            assert(lines_from(s, i) == seq![s.subrange(i, s.len() as int)]);
            assert(s.subrange(i, s.len() as int) =~= m.subrange(i, m.len() as int) + x);
            assert(seq![m.subrange(i, m.len() as int) + x] =~= seq![m.subrange(i, m.len() as int)].drop_last().push(
                m.subrange(i, m.len() as int) + x,
            ));
        }
    }
}

proof fn lemma_newline_end_bounds_in(m: Seq<char>, i: int)
    requires
        0 <= i <= m.len(),
    ensures
        forall|j: int| i <= j < newline_end(m, i) ==> m[j] != '\n',
        newline_end(m, i) < m.len() ==> m[newline_end(m, i)] == '\n',
    decreases m.len() - i,
{
    if i < m.len() && m[i] != '\n' {
        lemma_newline_end_bounds_in(m, i + 1);
    }
}

proof fn lemma_trim_start_concat(a: Seq<char>, b: Seq<char>)
    ensures
        trim_start(a).len() > 0 ==> trim_start(a + b) == trim_start(a) + b,
        trim_start(a).len() == 0 ==> trim_start(a + b) == trim_start(b),
    decreases a.len(),
{
    if a.len() == 0 {
        assert(a + b =~= b);
    } else {
        assert((a + b)[0] == a[0]);
        if is_ws(a[0]) {
            assert((a + b).drop_first() =~= a.drop_first() + b);
            lemma_trim_start_concat(a.drop_first(), b);
        }
    }
}

proof fn lemma_join_push(g: Seq<Seq<char>>, y: Seq<char>)
    ensures
        g.len() == 0 ==> join_lines(g.push(y)) == y,
        g.len() > 0 ==> join_lines(g.push(y)) == join_lines(g) + seq!['\n'] + y,
{
    assert(g.push(y).drop_last() =~= g);
    assert(g.push(y).last() == y);
    if g.len() == 0 {
        assert(g.push(y) =~= seq![y]);
    }
}

/// Appending a blank and a word that does not start with `[` adds to the
/// movetext that blank and word (after a line feed when the text ended
/// with one), or nothing when it lands on a tag-pair line.
proof fn lemma_movetext_after_word(m: Seq<char>, w: Seq<char>)
    requires
        one_word(w),
        w[0] != '[',
    ensures
        ({
            let x = seq![' '] + w;
            ||| movetext(m + x) == movetext(m)
            ||| movetext(m + x) == movetext(m) + x
            ||| movetext(m + x) == movetext(m) + seq!['\n'] + x
        }),
{
    let x = seq![' '] + w;
    assert forall|j: int| 0 <= j < x.len() implies #[trigger] x[j] != '\n' by {
        if j > 0 {
            assert(x[j] == w[j - 1]);
            assert(!is_ws(w[j - 1]));
        }
    }
    lemma_lines_from_ext(m, x, 0);
    let f = |l: Seq<char>| is_movetext_line(l);
    let ls = lines(m);
    assert(trim_start(x) == trim_start(w)) by {
        assert(x[0] == ' ');
        assert(x.drop_first() =~= w);
    }
    assert(trim_start(w) == w) by {
        assert(!is_ws(w[0]));
    }
    assert(is_movetext_line(x));
    if m.len() == 0 || m.last() == '\n' {
        assert(lines(m + x) == ls.push(x));
        reveal_with_fuel(Seq::filter, 1);
        assert(ls.push(x).drop_last() =~= ls);
        assert(ls.push(x).filter(f) == ls.filter(f).push(x));
        lemma_join_push(ls.filter(f), x);
        if ls.filter(f).len() == 0 {
            assert(movetext(m) == Seq::<char>::empty());
            assert(movetext(m) + x =~= x);
        }
    } else {
        let init = ls.drop_last();
        let l = ls.last();
        assert(lines(m + x) == init.push(l + x));
        assert(ls =~= init.push(l));
        lemma_trim_start_concat(l, x);
        assert(is_movetext_line(l + x) == is_movetext_line(l));
        reveal_with_fuel(Seq::filter, 1);
        assert(init.push(l + x).drop_last() =~= init);
        assert(init.push(l).drop_last() =~= init);
        let g = init.filter(f);
        if is_movetext_line(l) {
            assert(init.push(l + x).filter(f) == g.push(l + x));
            assert(init.push(l).filter(f) == g.push(l));
            lemma_join_push(g, l + x);
            lemma_join_push(g, l);
            assert(movetext(m + x) =~= movetext(m) + x);
        } else {
            assert(init.push(l + x).filter(f) == g);
            assert(init.push(l).filter(f) == g);
        }
    }
}

/// A word that is not a move, without brackets, parentheses, `;` or a
/// leading `[`, added after the moves, changes no move count.
proof fn lemma_non_move_word_adds_nothing(m: Seq<char>, w: Seq<char>)
    requires
        one_word(w),
        w[0] != '[',
        forall|i: int| 0 <= i < w.len() ==> plain_char(#[trigger] w[i]),
        !is_ply(w),
    ensures
        full_moves(m + seq![' '] + w) == full_moves(m),
{
    let x = seq![' '] + w;
    assert(m + seq![' '] + w =~= m + x);
    lemma_movetext_after_word(m, w);
    let t = movetext(m);
    let t1 = movetext(m + x);
    if t1 == t {
    } else if t1 == t + x {
        lemma_kept_after_word(t, false, w);
        lemma_plies_unchanged(sanitize_state(t).kept, sanitize_state(t1).kept, w);
    } else {
        assert(t1 =~= t + (seq!['\n', ' '] + w));
        lemma_kept_after_word(t, true, w);
        lemma_plies_unchanged(sanitize_state(t).kept, sanitize_state(t1).kept, w);
    }
    assert(ply_count(words(sanitize_state(t1).kept)) == ply_count(words(sanitize_state(t).kept)));
}

proof fn lemma_marker_is_not_a_ply(w: Seq<char>)
    requires
        one_word(w),
        w == "1-0"@ || w == "0-1"@ || w == "1/2-1/2"@ || w == "*"@,
    ensures
        !is_ply(w),
        w[0] != '[',
        forall|i: int| 0 <= i < w.len() ==> plain_char(#[trigger] w[i]),
{
    assert(trim_end(w) == w);
    assert(trim_start(w) == w);
    assert(trim(w) == w);
    reveal_strlit("1-0");
    reveal_strlit("0-1");
    reveal_strlit("1/2-1/2");
    reveal_strlit("*");
}

/// A game-termination marker after the moves is never a move: writing
/// ` 1-0`, ` 0-1`, ` 1/2-1/2` or ` *` after any text leaves its full-move
/// count as it was.
pub proof fn lemma_result_marker_is_not_a_move(m: Seq<char>)
    ensures
        full_moves(m + " 1-0"@) == full_moves(m),
        full_moves(m + " 0-1"@) == full_moves(m),
        full_moves(m + " 1/2-1/2"@) == full_moves(m),
        full_moves(m + " *"@) == full_moves(m),
{
    reveal_strlit("1-0");
    reveal_strlit("0-1");
    reveal_strlit("1/2-1/2");
    reveal_strlit("*");
    reveal_strlit(" 1-0");
    reveal_strlit(" 0-1");
    reveal_strlit(" 1/2-1/2");
    reveal_strlit(" *");
    let ws = seq!["1-0"@, "0-1"@, "1/2-1/2"@, "*"@];
    let spaced = seq![" 1-0"@, " 0-1"@, " 1/2-1/2"@, " *"@];
    assert forall|k: int| 0 <= k < 4 implies full_moves(m + #[trigger] spaced[k]) == full_moves(m) by {
        let w = ws[k];
        assert(spaced[k] =~= seq![' '] + w);
        assert(one_word(w));
        lemma_marker_is_not_a_ply(w);
        lemma_non_move_word_adds_nothing(m, w);
        assert(m + spaced[k] =~= m + seq![' '] + w);
    }
    assert(full_moves(m + spaced[0]) == full_moves(m));
    assert(full_moves(m + spaced[1]) == full_moves(m));
    assert(full_moves(m + spaced[2]) == full_moves(m));
    assert(full_moves(m + spaced[3]) == full_moves(m));
}
} // verus!
