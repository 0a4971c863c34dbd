//! Why tidying a PGN a second time changes nothing: after one pass no line
//! ends in white space, and the whole neither starts nor ends with it.
use vstd::prelude::*;
use crate::pgn_extract::cleaned_pgn;
use crate::text::{is_ws, join_lines, lines, lines_from, newline_end, replace, starts_with, strip_cr, trim, trim_end, trim_start};

verus! {

/// Every line feed in `s` follows another line feed or a character that
/// is not white space.
pub open spec fn tidy_breaks(s: Seq<char>) -> bool {
    forall|i: int| 0 < i < s.len() && #[trigger] s[i] == '\n' ==> s[i - 1] == '\n' || !is_ws(s[i - 1])
}

/// `s` does not end in white space.
pub open spec fn no_trailing_ws(s: Seq<char>) -> bool {
    s.len() == 0 || !is_ws(s.last())
}

/// `s` holds no line feed.
pub open spec fn no_newline(s: Seq<char>) -> bool {
    forall|i: int| 0 <= i < s.len() ==> #[trigger] s[i] != '\n'
}

proof fn lemma_trim_end_prefix(s: Seq<char>)
    ensures
        trim_end(s).len() <= s.len(),
        trim_end(s) == s.subrange(0, trim_end(s).len() as int),
        no_trailing_ws(trim_end(s)),
    decreases s.len(),
{
    if s.len() > 0 && is_ws(s.last()) {
        lemma_trim_end_prefix(s.drop_last());
        assert(s.drop_last().subrange(0, trim_end(s).len() as int) =~= s.subrange(
            0,
            trim_end(s).len() as int,
        ));
    } else {
        assert(s.subrange(0, s.len() as int) =~= s);
    }
}

proof fn lemma_trim_start_suffix(s: Seq<char>)
    ensures
        trim_start(s).len() <= s.len(),
        trim_start(s) == s.subrange(s.len() - trim_start(s).len(), s.len() as int),
    decreases s.len(),
{
    if s.len() > 0 && is_ws(s[0]) {
        lemma_trim_start_suffix(s.drop_first());
        assert(s.drop_first().subrange(
            s.drop_first().len() - trim_start(s).len(),
            s.drop_first().len() as int,
        ) =~= s.subrange(s.len() - trim_start(s).len(), s.len() as int));
    } else {
        assert(s.subrange(0, s.len() as int) =~= s);
    }
}

proof fn lemma_tidy_subrange(s: Seq<char>, a: int, b: int)
    requires
        tidy_breaks(s),
        0 <= a <= b <= s.len(),
    ensures
        tidy_breaks(s.subrange(a, b)),
{
    let t = s.subrange(a, b);
    assert forall|i: int| 0 < i < t.len() && #[trigger] t[i] == '\n' implies t[i - 1] == '\n' || !is_ws(
        t[i - 1],
    ) by {
        assert(s[a + i] == '\n');
        assert(t[i - 1] == s[a + i - 1]);
    }
}

/// Trimming keeps the line feeds tidy and leaves no trailing white space.
proof fn lemma_trim_tidy(s: Seq<char>)
    requires
        tidy_breaks(s),
    ensures
        tidy_breaks(trim(s)),
        no_trailing_ws(trim(s)),
{
    lemma_trim_end_prefix(s);
    let e = trim_end(s);
    lemma_tidy_subrange(s, 0, e.len() as int);
    lemma_trim_start_suffix(e);
    lemma_tidy_subrange(e, e.len() - trim_start(e).len(), e.len() as int);
    crate::chesscom::lemma_trim_idempotent(s);
}

/// A tidy text without trailing white space holds no CR LF.
proof fn lemma_replace_crlf_keeps(s: Seq<char>)
    requires
        tidy_breaks(s),
        no_trailing_ws(s),
    ensures
        replace(s, seq!['\r', '\n'], seq!['\n']) == s,
    decreases s.len(),
{
    let crlf = seq!['\r', '\n'];
    if s.len() > 0 {
        if starts_with(s, crlf) {
            assert(s.subrange(0, 2)[1] == s[1]);
            assert(s.subrange(0, 2)[0] == s[0]);
            assert(s[1] == '\n');
            assert(is_ws(s[0]));
            assert(false);
        }
        lemma_tidy_subrange(s, 1, s.len() as int);
        assert(s.drop_first() =~= s.subrange(1, s.len() as int));
        lemma_replace_crlf_keeps(s.drop_first());
        assert(seq![s[0]] + s.drop_first() =~= s);
    }
}


proof fn lemma_newline_end_scan(s: Seq<char>, i: int)
    requires
        0 <= i <= s.len(),
    ensures
        i <= newline_end(s, i) <= s.len(),
        forall|j: int| i <= j < newline_end(s, i) ==> s[j] != '\n',
        newline_end(s, i) < s.len() ==> s[newline_end(s, i)] == '\n',
    decreases s.len() - i,
{
    if i < s.len() && s[i] != '\n' {
        lemma_newline_end_scan(s, i + 1);
    }
}

/// No line of a text holds a line feed.
proof fn lemma_lines_have_no_newline(s: Seq<char>, i: int)
    requires
        0 <= i,
    ensures
        forall|k: int| 0 <= k < lines_from(s, i).len() ==> no_newline(#[trigger] lines_from(s, i)[k]),
    decreases s.len() - i,
{
    if i < s.len() {
        lemma_newline_end_scan(s, i);
        let e = newline_end(s, i);
        if e >= s.len() {
            let l = s.subrange(i, s.len() as int);
            assert(lines_from(s, i) == seq![l]);
            assert forall|j: int| 0 <= j < l.len() implies #[trigger] l[j] != '\n' by {
                assert(l[j] == s[i + j]);
            }
        } else {
            let l = strip_cr(s.subrange(i, e));
            lemma_lines_have_no_newline(s, e + 1);
            assert(lines_from(s, i) == seq![l] + lines_from(s, e + 1));
            assert forall|j: int| 0 <= j < l.len() implies #[trigger] l[j] != '\n' by {
                assert(l[j] == s[i + j]);
            }
            assert forall|k: int| 0 <= k < lines_from(s, i).len() implies no_newline(
                #[trigger] lines_from(s, i)[k],
            ) by {
                if k > 0 {
                    assert(lines_from(s, i)[k] == lines_from(s, e + 1)[k - 1]);
                }
            }
        }
    }
}

/// Joining lines without line feeds or trailing white space gives a tidy
/// text that ends in a line feed or in a character that is not white
/// space (or is empty).
proof fn lemma_join_tidy(ls: Seq<Seq<char>>)
    requires
        forall|k: int| 0 <= k < ls.len() ==> no_newline(#[trigger] ls[k]) && no_trailing_ws(ls[k]),
    ensures
        tidy_breaks(join_lines(ls)),
        join_lines(ls).len() == 0 || join_lines(ls).last() == '\n' || !is_ws(join_lines(ls).last()),
    decreases ls.len(),
{
    if ls.len() == 1 {
        assert(no_newline(ls[0]) && no_trailing_ws(ls[0]));
    } else if ls.len() > 1 {
        let p = join_lines(ls.drop_last());
        let last = ls.last();
        assert(no_newline(ls[ls.len() - 1]) && no_trailing_ws(ls[ls.len() - 1]));
        assert forall|k: int| 0 <= k < ls.drop_last().len() implies no_newline(
            #[trigger] ls.drop_last()[k],
        ) && no_trailing_ws(ls.drop_last()[k]) by {
            assert(ls.drop_last()[k] == ls[k]);
        }
        lemma_join_tidy(ls.drop_last());
        let j = join_lines(ls);
        assert(j == p + seq!['\n'] + last);
        assert forall|i: int| 0 < i < j.len() && #[trigger] j[i] == '\n' implies j[i - 1] == '\n' || !is_ws(
            j[i - 1],
        ) by {
            if i < p.len() {
                assert(j[i] == p[i]);
                assert(j[i - 1] == p[i - 1]);
            } else if i == p.len() {
                assert(j[i - 1] == p.last());
            } else {
                assert(j[i] == last[i - p.len() - 1]);
            }
        }
        if last.len() > 0 {
            assert(j.last() == last.last());
        }
    }
}

/// Joining a first line onto further lines.
proof fn lemma_join_cons(a: Seq<char>, rest: Seq<Seq<char>>)
    requires
        rest.len() > 0,
    ensures
        join_lines(seq![a] + rest) == a + seq!['\n'] + join_lines(rest),
    decreases rest.len(),
{
    let all = seq![a] + rest;
    if rest.len() == 1 {
        assert(all.drop_last() =~= seq![a]);
        assert(all.last() == rest[0]);
        assert(join_lines(seq![a]) == a);
        assert(join_lines(rest) == rest[0]);
        assert(join_lines(all) == join_lines(all.drop_last()) + seq!['\n'] + all.last());
    } else {
        assert(all.drop_last() =~= seq![a] + rest.drop_last());
        lemma_join_cons(a, rest.drop_last());
        assert(all.last() == rest.last());
        assert(join_lines(all) == join_lines(all.drop_last()) + seq!['\n'] + all.last());
        assert(join_lines(rest) == join_lines(rest.drop_last()) + seq!['\n'] + rest.last());
        assert(join_lines(all) =~= a + seq!['\n'] + join_lines(rest));
    }
}

/// The lines of a tidy text without trailing white space end in no white
/// space, and joining them gives the text back.
proof fn lemma_tidy_lines(s: Seq<char>, i: int)
    requires
        tidy_breaks(s),
        no_trailing_ws(s),
        0 <= i <= s.len(),
        i == 0 || s[i - 1] == '\n',
    ensures
        forall|k: int| 0 <= k < lines_from(s, i).len() ==> no_trailing_ws(#[trigger] lines_from(s, i)[k]),
        join_lines(lines_from(s, i)) == s.subrange(i, s.len() as int),
    decreases s.len() - i,
{
    if i == s.len() {
        assert(s.subrange(i, s.len() as int) =~= Seq::<char>::empty());
    } else {
        lemma_newline_end_scan(s, i);
        let e = newline_end(s, i);
        if e >= s.len() {
            let l = s.subrange(i, s.len() as int);
            assert(lines_from(s, i) == seq![l]);
            assert(l.last() == s.last());
        } else {
            let seg = s.subrange(i, e);
            assert(e != s.len() - 1);
            if e > i {
                assert(s[e - 1] != '\n');
                assert(!is_ws(s[e - 1]));
                assert(seg.last() == s[e - 1]);
            }
            assert(strip_cr(seg) == seg);
            lemma_tidy_lines(s, e + 1);
            let rest = lines_from(s, e + 1);
            assert(lines_from(s, i) == seq![seg] + rest);
            assert(rest.len() > 0);
            lemma_join_cons(seg, rest);
            assert(s.subrange(i, s.len() as int) =~= seg + seq!['\n'] + s.subrange(e + 1, s.len() as int));
            assert forall|k: int| 0 <= k < lines_from(s, i).len() implies no_trailing_ws(
                #[trigger] lines_from(s, i)[k],
            ) by {
                if k > 0 {
                    assert(lines_from(s, i)[k] == rest[k - 1]);
                }
            }
        }
    }
}

/// Tidying a PGN a second time gives back what the first pass gave.
pub proof fn lemma_cleanup_idempotent(pgn: Seq<char>)
    ensures
        cleaned_pgn(cleaned_pgn(pgn)) == cleaned_pgn(pgn),
{
    let r = replace(pgn, seq!['\r', '\n'], seq!['\n']);
    let ls = lines(r);
    let m = ls.map_values(|l: Seq<char>| trim_end(l));
    lemma_lines_have_no_newline(r, 0);
    assert forall|k: int| 0 <= k < m.len() implies no_newline(#[trigger] m[k]) && no_trailing_ws(m[k]) by {
        lemma_trim_end_prefix(ls[k]);
        assert(no_newline(ls[k]));
        let t = trim_end(ls[k]);
        assert forall|j: int| 0 <= j < t.len() implies #[trigger] t[j] != '\n' by {
            assert(t[j] == ls[k][j]);
        }
    }
    lemma_join_tidy(m);
    let c = trim(join_lines(m));
    assert(c == cleaned_pgn(pgn));
    lemma_trim_tidy(join_lines(m));
    lemma_replace_crlf_keeps(c);
    lemma_tidy_lines(c, 0);
    assert(c.subrange(0, c.len() as int) =~= c);
    let lc = lines(c);
    assert(lc.map_values(|l: Seq<char>| trim_end(l)) =~= lc) by {
        assert forall|k: int| 0 <= k < lc.len() implies #[trigger] trim_end(lc[k]) == lc[k] by {
            assert(no_trailing_ws(lc[k]));
        }
    }
    crate::chesscom::lemma_trim_idempotent(join_lines(m));
}

} // verus!
