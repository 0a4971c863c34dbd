//! Character-level helpers over `Seq<char>` shared by the parsers: the
//! Unicode white-space set, trimming, line splitting, substring search,
//! replacement and decimal rendering.
use vstd::prelude::*;

verus! {

broadcast use vstd::string::group_string_axioms;

/// The characters of `s`, in order.
pub fn chars_of(s: &str) -> (res: Vec<char>)
    ensures
        res@ == s@,
{
    let mut res: Vec<char> = Vec::new();
    for c in it: s.chars()
        invariant
            res@ == it.seq().take(it.index() as int),
            it.seq() == s@,
    {
        res.push(c);
    }
    res
}

/// Appends `c` to `s` (`String::push`).
#[verifier::external_body]
pub(crate) fn push_char(s: &mut String, c: char)
    ensures
        final(s)@ == old(s)@.push(c),
{
    s.push(c);
}

/// A `String` holding the characters of `v`.
pub fn string_of(v: &[char]) -> (res: String)
    ensures
        res@ == v@,
{
    let mut res = String::new();
    let mut i: usize = 0;
    while i < v.len()
        invariant
            i <= v.len(),
            res@ == v@.take(i as int),
        decreases v.len() - i,
    {
        push_char(&mut res, v[i]);
        i = i + 1;
        assert(res@ == v@.take(i as int));
    }
    assert(v@.take(v.len() as int) == v@);
    res
}

/// The characters `v[lo..hi]` as a `String`.
pub fn string_of_range(v: &[char], lo: usize, hi: usize) -> (res: String)
    requires
        lo <= hi <= v.len(),
    ensures
        res@ == v@.subrange(lo as int, hi as int),
{
    let mut res = String::new();
    let mut i: usize = lo;
    while i < hi
        invariant
            lo <= i <= hi <= v.len(),
            res@ == v@.subrange(lo as int, i as int),
        decreases hi - i,
    {
        push_char(&mut res, v[i]);
        i = i + 1;
        assert(res@ == v@.subrange(lo as int, i as int));
    }
    res
}

/// Appends the characters of `v` to `s`.
pub fn push_all(s: &mut String, v: &[char])
    ensures
        final(s)@ == old(s)@ + v@,
{
    let mut i: usize = 0;
    while i < v.len()
        invariant
            i <= v.len(),
            s@ == old(s)@ + v@.take(i as int),
        decreases v.len() - i,
    {
        push_char(s, v[i]);
        i = i + 1;
        assert(s@ == old(s)@ + v@.take(i as int));
    }
    assert(v@.take(v.len() as int) == v@);
}

/// Unicode `White_Space`, the set that `char::is_whitespace`, `str::trim`
/// and `str::split_whitespace` use.
pub open spec fn is_ws(c: char) -> bool {
    ||| c == '\t'
    ||| c == '\n'
    ||| c == '\u{0B}'
    ||| c == '\u{0C}'
    ||| c == '\r'
    ||| c == ' '
    ||| c == '\u{85}'
    ||| c == '\u{A0}'
    ||| c == '\u{1680}'
    ||| ('\u{2000}' <= c && c <= '\u{200A}')
    ||| c == '\u{2028}'
    ||| c == '\u{2029}'
    ||| c == '\u{202F}'
    ||| c == '\u{205F}'
    ||| c == '\u{3000}'
}

pub fn is_whitespace(c: char) -> (res: bool)
    ensures
        res == is_ws(c),
{
    c == '\t' || c == '\n' || c == '\u{0B}' || c == '\u{0C}' || c == '\r' || c == ' '
        || c == '\u{85}' || c == '\u{A0}' || c == '\u{1680}' || ('\u{2000}' <= c && c
        <= '\u{200A}') || c == '\u{2028}' || c == '\u{2029}' || c == '\u{202F}' || c
        == '\u{205F}' || c == '\u{3000}'
}

/// `s` without trailing white space.
pub open spec fn trim_end(s: Seq<char>) -> Seq<char>
    decreases s.len(),
{
    if s.len() > 0 && is_ws(s.last()) {
        trim_end(s.drop_last())
    } else {
        s
    }
}

/// `s` without leading white space.
pub open spec fn trim_start(s: Seq<char>) -> Seq<char>
    decreases s.len(),
{
    if s.len() > 0 && is_ws(s[0]) {
        trim_start(s.drop_first())
    } else {
        s
    }
}

/// `s` without leading and trailing white space (`str::trim`).
pub open spec fn trim(s: Seq<char>) -> Seq<char> {
    trim_start(trim_end(s))
}

/// Bounds `(a, b)` with `v[lo..hi]` trimmed equal to `v[a..b]`.
pub fn trim_range(v: &[char], lo: usize, hi: usize) -> (res: (usize, usize))
    requires
        lo <= hi <= v.len(),
    ensures
        lo <= res.0 <= res.1 <= hi,
        v@.subrange(res.0 as int, res.1 as int) == trim(v@.subrange(lo as int, hi as int)),
{
    let ghost s = v@.subrange(lo as int, hi as int);
    let mut b = hi;
    while b > lo && is_whitespace(v[b - 1])
        invariant
            lo <= b <= hi <= v.len(),
            s == v@.subrange(lo as int, hi as int),
            trim_end(s) == trim_end(v@.subrange(lo as int, b as int)),
        decreases b,
    {
        assert(v@.subrange(lo as int, b as int).drop_last() == v@.subrange(lo as int, b - 1));
        b = b - 1;
    }
    assert(trim_end(s) == v@.subrange(lo as int, b as int));
    let mut a = lo;
    while a < b && is_whitespace(v[a])
        invariant
            lo <= a <= b <= hi <= v.len(),
            trim(s) == trim_start(v@.subrange(a as int, b as int)),
        decreases b - a,
    {
        assert(v@.subrange(a as int, b as int).drop_first() == v@.subrange(a + 1, b as int));
        a = a + 1;
    }
    (a, b)
}

/// The end `e` with `v[lo..e]` equal to `v[lo..hi]` without trailing white
/// space.
pub fn trim_end_bound(v: &[char], lo: usize, hi: usize) -> (e: usize)
    requires
        lo <= hi <= v.len(),
    ensures
        lo <= e <= hi,
        v@.subrange(lo as int, e as int) == trim_end(v@.subrange(lo as int, hi as int)),
{
    let mut b = hi;
    while b > lo && is_whitespace(v[b - 1])
        invariant
            lo <= b <= hi <= v.len(),
            trim_end(v@.subrange(lo as int, hi as int)) == trim_end(v@.subrange(lo as int, b as int)),
        decreases b,
    {
        assert(v@.subrange(lo as int, b as int).drop_last() == v@.subrange(lo as int, b - 1));
        b = b - 1;
    }
    b
}

/// `trim(s)` as a new `String`.
pub fn trim_str(s: &str) -> (res: String)
    ensures
        res@ == trim(s@),
{
    let v = chars_of(s);
    let (a, b) = trim_range(&v, 0, v.len());
    assert(v@.subrange(0, v@.len() as int) == v@);
    string_of_range(&v, a, b)
}

/// `true` when `pat` occurs in `s` starting at index `i`.
pub open spec fn occurs_at(s: Seq<char>, i: int, pat: Seq<char>) -> bool {
    0 <= i && i + pat.len() <= s.len() && s.subrange(i, i + pat.len()) == pat
}

/// `true` when `pat` occurs somewhere in `s` (`str::contains`).
pub open spec fn contains(s: Seq<char>, pat: Seq<char>) -> bool {
    exists|i: int| occurs_at(s, i, pat)
}

pub fn matches_at(s: &[char], i: usize, pat: &[char]) -> (res: bool)
    ensures
        res == occurs_at(s@, i as int, pat@),
{
    if i > s.len() || pat.len() > s.len() - i {
        return false;
    }
    let mut k: usize = 0;
    while k < pat.len()
        invariant
            i + pat.len() <= s.len(),
            k <= pat.len(),
            forall|j: int| 0 <= j < k ==> s@[i + j] == pat@[j],
        decreases pat.len() - k,
    {
        if s[i + k] != pat[k] {
            assert(s@.subrange(i as int, i + pat.len())[k as int] != pat@[k as int]);
            return false;
        }
        k = k + 1;
    }
    assert(s@.subrange(i as int, i + pat.len()) == pat@);
    true
}

/// The first index at or after `from` where `pat` occurs in `s`.
pub open spec fn first_occurrence_from(s: Seq<char>, pat: Seq<char>, from: int) -> Option<int> {
    if exists|i: int| from <= i && occurs_at(s, i, pat) {
        let i = choose|i: int| from <= i && occurs_at(s, i, pat) && forall|j: int|
            from <= j < i ==> !occurs_at(s, j, pat);
        Some(i)
    } else {
        None
    }
}

pub fn find_from(s: &[char], pat: &[char], from: usize) -> (res: Option<usize>)
    ensures
        match res {
            Some(i) => from <= i && occurs_at(s@, i as int, pat@) && forall|j: int|
                from <= j < i ==> !occurs_at(s@, j, pat@),
            None => forall|j: int| from <= j ==> !occurs_at(s@, j, pat@),
        },
{
    let mut i = from;
    loop
        invariant
            from <= i,
            forall|j: int| from <= j < i ==> !occurs_at(s@, j, pat@),
        decreases s.len() + 1 - i,
    {
        if matches_at(s, i, pat) {
            return Some(i);
        }
        if i >= s.len() {
            return None;
        }
        i = i + 1;
    }
}

pub fn contains_chars(s: &[char], pat: &[char]) -> (res: bool)
    ensures
        res == contains(s@, pat@),
{
    match find_from(s, pat, 0) {
        Some(i) => true,
        None => {
            assert forall|j: int| !occurs_at(s@, j, pat@) by {
                if 0 <= j {
                }
            }
            false
        },
    }
}

/// `str::contains` on two strings.
pub fn str_contains(s: &str, pat: &str) -> (res: bool)
    ensures
        res == contains(s@, pat@),
{
    let sv = chars_of(s);
    let pv = chars_of(pat);
    contains_chars(&sv, &pv)
}

/// `str::starts_with`.
pub open spec fn starts_with(s: Seq<char>, pat: Seq<char>) -> bool {
    occurs_at(s, 0, pat)
}

/// `s` with each non-overlapping occurrence of `from`, scanning left to
/// right, replaced by `to` (`str::replace`).
pub open spec fn replace(s: Seq<char>, from: Seq<char>, to: Seq<char>) -> Seq<char>
    decreases s.len(),
{
    if s.len() == 0 || from.len() == 0 {
        s
    } else if starts_with(s, from) {
        to + replace(s.skip(from.len() as int), from, to)
    } else {
        seq![s[0]] + replace(s.drop_first(), from, to)
    }
}

proof fn lemma_replace_step(s: Seq<char>, i: int, from: Seq<char>, to: Seq<char>)
    requires
        0 <= i < s.len(),
        from.len() > 0,
    ensures
        starts_with(s.skip(i), from) ==> replace(s.skip(i), from, to) == to + replace(
            s.skip(i + from.len()),
            from,
            to,
        ),
        !starts_with(s.skip(i), from) ==> replace(s.skip(i), from, to) == seq![s[i]] + replace(
            s.skip(i + 1),
            from,
            to,
        ),
{
    assert(s.skip(i).drop_first() == s.skip(i + 1));
    if starts_with(s.skip(i), from) {
        assert(s.skip(i).skip(from.len() as int) =~= s.skip(i + from.len()));
    }
}

pub fn replace_chars(s: &[char], from: &[char], to: &[char]) -> (res: Vec<char>)
    requires
        from.len() > 0,
    ensures
        res@ == replace(s@, from@, to@),
{
    let mut res: Vec<char> = Vec::new();
    let mut i: usize = 0;
    assert(s@.skip(0) == s@);
    while i < s.len()
        invariant
            i <= s.len(),
            from.len() > 0,
            res@ + replace(s@.skip(i as int), from@, to@) == replace(s@, from@, to@),
        decreases s.len() - i,
    {
        proof {
            lemma_replace_step(s@, i as int, from@, to@);
        }
        if matches_at(s, i, from) {
            assert(s@.skip(i as int).subrange(0, from@.len() as int) == s@.subrange(
                i as int,
                i + from@.len(),
            ));
            let ghost r0 = res@;
            let mut k: usize = 0;
            while k < to.len()
                invariant
                    k <= to.len(),
                    res@ == r0 + to@.take(k as int),
                decreases to.len() - k,
            {
                res.push(to[k]);
                k = k + 1;
                assert(res@ == r0 + to@.take(k as int));
            }
            assert(to@.take(to.len() as int) == to@);
            assert(res@ + replace(s@.skip(i + from.len()), from@, to@) == r0 + (to@ + replace(
                s@.skip(i + from.len()),
                from@,
                to@,
            )));
            i = i + from.len();
        } else {
            proof {
                if occurs_at(s@.skip(i as int), 0, from@) {
                    assert(s@.skip(i as int).subrange(0, from@.len() as int) == s@.subrange(
                        i as int,
                        i + from@.len(),
                    ));
                }
            }
            let ghost r0 = res@;
            res.push(s[i]);
            assert(res@ + replace(s@.skip(i + 1), from@, to@) == r0 + (seq![s@[i as int]]
                + replace(s@.skip(i + 1), from@, to@)));
            i = i + 1;
        }
    }
    assert(s@.skip(s.len() as int).len() == 0);
    assert(res@ == res@ + Seq::<char>::empty());
    res
}

/// `str::replace` on strings.
pub fn replace_str(s: &str, from: &str, to: &str) -> (res: String)
    requires
        from@.len() > 0,
    ensures
        res@ == replace(s@, from@, to@),
{
    let sv = chars_of(s);
    let fv = chars_of(from);
    let tv = chars_of(to);
    let r = replace_chars(&sv, &fv, &tv);
    string_of(&r)
}

/// The ASCII digit for `d < 10`.
pub open spec fn digit_char(d: nat) -> char {
    if d == 0 {
        '0'
    } else if d == 1 {
        '1'
    } else if d == 2 {
        '2'
    } else if d == 3 {
        '3'
    } else if d == 4 {
        '4'
    } else if d == 5 {
        '5'
    } else if d == 6 {
        '6'
    } else if d == 7 {
        '7'
    } else if d == 8 {
        '8'
    } else {
        '9'
    }
}

/// The decimal representation of `n`, without leading zeros (as `Display`
/// prints unsigned integers).
pub open spec fn decimal(n: nat) -> Seq<char>
    decreases n,
{
    if n < 10 {
        seq![digit_char(n)]
    } else {
        decimal(n / 10).push(digit_char(n % 10))
    }
}

fn digit_of(d: u64) -> (c: char)
    requires
        d < 10,
    ensures
        c == digit_char(d as nat),
{
    if d == 0 {
        '0'
    } else if d == 1 {
        '1'
    } else if d == 2 {
        '2'
    } else if d == 3 {
        '3'
    } else if d == 4 {
        '4'
    } else if d == 5 {
        '5'
    } else if d == 6 {
        '6'
    } else if d == 7 {
        '7'
    } else if d == 8 {
        '8'
    } else {
        '9'
    }
}

/// Appends the decimal representation of `n` to `s`.
pub fn push_decimal(s: &mut String, n: u64)
    ensures
        final(s)@ == old(s)@ + decimal(n as nat),
    decreases n,
{
    if n < 10 {
        push_char(s, digit_of(n));
        assert(decimal(n as nat) == seq![digit_char(n as nat)]);
    } else {
        push_decimal(s, n / 10);
        push_char(s, digit_of(n % 10));
        assert(old(s)@ + decimal(n as nat) == old(s)@ + decimal((n / 10) as nat) + seq![
            digit_char((n % 10) as nat),
        ]);
    }
}

/// The decimal representation of `n` as a `String`.
pub fn decimal_string(n: u64) -> (res: String)
    ensures
        res@ == decimal(n as nat),
{
    let mut s = String::new();
    push_decimal(&mut s, n);
    assert(s@ == Seq::<char>::empty() + decimal(n as nat));
    s
}


/// The first index at or after `i` holding a line feed (or the length).
pub open spec fn newline_end(s: Seq<char>, i: int) -> int
    decreases s.len() - i,
{
    if 0 <= i < s.len() && s[i] != '\n' {
        newline_end(s, i + 1)
    } else {
        i
    }
}

pub proof fn lemma_newline_end_bounds(s: Seq<char>, i: int)
    requires
        0 <= i <= s.len(),
    ensures
        i <= newline_end(s, i) <= s.len(),
    decreases s.len() - i,
{
    if i < s.len() && s[i] != '\n' {
        lemma_newline_end_bounds(s, i + 1);
    }
}

/// A line without the carriage return that ended it.
pub open spec fn strip_cr(line: Seq<char>) -> Seq<char> {
    if line.len() > 0 && line.last() == '\r' {
        line.drop_last()
    } else {
        line
    }
}

/// The lines of `s` from index `i` on, as `str::lines` yields them: split
/// after each line feed, the line feed and one carriage return before it
/// removed; a last line without a line feed is kept as it is, and there is
/// no empty line after a final line feed.
pub open spec fn lines_from(s: Seq<char>, i: int) -> Seq<Seq<char>>
    decreases s.len() - i,
{
    if i < 0 || i >= s.len() {
        seq![]
    } else {
        let e = newline_end(s, i);
        proof {
            lemma_newline_end_bounds(s, i);
        }
        if e >= s.len() {
            seq![s.subrange(i, s.len() as int)]
        } else {
            seq![strip_cr(s.subrange(i, e))] + lines_from(s, e + 1)
        }
    }
}

/// `str::lines`.
pub open spec fn lines(s: Seq<char>) -> Seq<Seq<char>> {
    lines_from(s, 0)
}

/// Lines joined with a line feed between each two (`join("\n")`).
pub open spec fn join_lines(ls: Seq<Seq<char>>) -> Seq<char>
    decreases ls.len(),
{
    if ls.len() == 0 {
        seq![]
    } else if ls.len() == 1 {
        ls[0]
    } else {
        join_lines(ls.drop_last()) + seq!['\n'] + ls.last()
    }
}

/// The views of index ranges of `s`.
pub open spec fn ranges_view(s: Seq<char>, r: Seq<(usize, usize)>) -> Seq<Seq<char>> {
    r.map_values(|p: (usize, usize)| s.subrange(p.0 as int, p.1 as int))
}

/// The bounds of the lines of `v`, with the line feed and a carriage
/// return before it left out.
pub fn line_ranges(v: &[char]) -> (res: Vec<(usize, usize)>)
    ensures
        ranges_view(v@, res@) == lines(v@),
        forall|k: int| 0 <= k < res@.len() ==> (#[trigger] res@[k]).0 <= res@[k].1 <= v.len(),
{
    let mut res: Vec<(usize, usize)> = Vec::new();
    let mut i: usize = 0;
    while i < v.len()
        invariant
            i <= v.len(),
            ranges_view(v@, res@) + lines_from(v@, i as int) == lines(v@),
            forall|k: int| 0 <= k < res@.len() ==> (#[trigger] res@[k]).0 <= res@[k].1 <= v.len(),
        decreases v.len() - i,
    {
        let e = find_newline(v, i);
        let ghost before = res@;
        if e >= v.len() {
            res.push((i, v.len()));
            assert(ranges_view(v@, res@) == ranges_view(v@, before) + seq![
                v@.subrange(i as int, v.len() as int),
            ]);
            assert(lines_from(v@, v.len() as int) == Seq::<Seq<char>>::empty());
            i = v.len();
        } else {
            let end = if e > i && v[e - 1] == '\r' {
                e - 1
            } else {
                e
            };
            assert(v@.subrange(i as int, end as int) == strip_cr(v@.subrange(i as int, e as int)));
            res.push((i, end));
            assert(ranges_view(v@, res@) == ranges_view(v@, before) + seq![
                v@.subrange(i as int, end as int),
            ]);
            i = e + 1;
        }
    }
    assert(lines_from(v@, i as int) == Seq::<Seq<char>>::empty());
    assert(ranges_view(v@, res@) + Seq::<Seq<char>>::empty() == ranges_view(v@, res@));
    res
}

fn find_newline(v: &[char], i: usize) -> (r: usize)
    requires
        i <= v.len(),
    ensures
        r as int == newline_end(v@, i as int),
        i <= r <= v.len(),
{
    let mut j = i;
    while j < v.len() && v[j] != '\n'
        invariant
            i <= j <= v.len(),
            newline_end(v@, i as int) == newline_end(v@, j as int),
        decreases v.len() - j,
    {
        j = j + 1;
    }
    j
}

} // verus!
