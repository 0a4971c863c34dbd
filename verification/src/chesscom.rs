//! chess.com game URLs, the archive lookup read from a callback response,
//! and the months around a game's date.
use vstd::prelude::*;
use vstd::string::StrSliceExecFns;
use crate::error::C2lError;
use crate::json::{JsonValue, get, get_value, as_str, value_as_str, str_eq};
use crate::patterns::{is_match, regex_is_match};
use crate::text::{chars_of, contains, trim, trim_str, str_contains, starts_with, matches_at};

verus! {

broadcast use vstd::string::group_string_axioms;

// ---------------------------------------------------------------------
// URLs
// ---------------------------------------------------------------------

/// What the logic reads of a parsed URL.
#[derive(Debug)]
pub struct UrlParts {
    /// The scheme, as `Url::scheme` gives it.
    pub scheme: String,
    /// The host, as `Url::host_str` gives it.
    pub host: Option<String>,
    /// The path segments, as `Url::path_segments` yields them.
    pub segments: Option<Vec<String>>,
    /// The whole URL, as `Url::as_str` gives it.
    pub serialized: String,
}

/// What `url::Url::parse` makes of a text, read into `UrlParts`.
pub uninterp spec fn url_parse(raw: Seq<char>) -> Option<UrlParts>;

/// Parses `raw` with `url::Url::parse` and reads the scheme, host, path
/// segments and serialisation of the result. The result is named; nothing
/// more is said of it.
#[verifier::external_body]
pub(crate) fn parse_url(raw: &str) -> (res: Option<UrlParts>)
    ensures
        res == url_parse(raw@),
{
    url::Url::parse(raw).ok().map(|u| UrlParts {
        scheme: u.scheme().to_string(),
        host: u.host_str().map(|h| h.to_string()),
        segments: u.path_segments().map(|parts| parts.map(|p| p.to_string()).collect()),
        serialized: u.as_str().to_string(),
    })
}

/// A game on chess.com: the URL it was given by and its id.
#[derive(Debug)]
pub struct ChessGameRef {
    pub source_url: UrlParts,
    pub game_id: String,
}

/// chess.com (with or without `www.`) over an `http`-prefixed scheme.
pub open spec fn is_supported_url(url: UrlParts) -> bool {
    &&& (url.host matches Some(h) && (h@ == "chess.com"@ || h@ == "www.chess.com"@))
    &&& starts_with(url.scheme@, "http"@)
}

pub fn is_supported_chesscom_game_url(url: &UrlParts) -> (res: bool)
    ensures
        res == is_supported_url(*url),
{
    let host_ok = match &url.host {
        Some(h) => str_eq(h.as_str(), "chess.com") || str_eq(h.as_str(), "www.chess.com"),
        None => false,
    };
    let scheme = chars_of(url.scheme.as_str());
    let http = chars_of("http");
    host_ok && matches_at(&scheme, 0, &http)
}

/// The non-empty path segments, in order.
pub open spec fn nonempty_segments(segs: Seq<Seq<char>>) -> Seq<Seq<char>> {
    segs.filter(|s: Seq<char>| s.len() > 0)
}

/// The path segments of a URL by their views (none for a URL that cannot
/// be a base).
pub open spec fn segment_views(url: UrlParts) -> Seq<Seq<char>> {
    match url.segments {
        Some(v) => v@.map_values(|s: String| s@),
        None => seq![],
    }
}

/// `[A-Za-z0-9-]`
pub open spec fn is_id_char(c: char) -> bool {
    ('A' <= c && c <= 'Z') || ('a' <= c && c <= 'z') || ('0' <= c && c <= '9') || c == '-'
}

/// A non-empty run of id characters.
pub open spec fn is_game_id(s: Seq<char>) -> bool {
    s.len() > 0 && forall|i: int| 0 <= i < s.len() ==> is_id_char(#[trigger] s[i])
}

/// The game id named by a path: `/game/live/<id>[/...]` or `/game/<id>`,
/// empty segments ignored.
pub open spec fn game_id_of(segs: Seq<Seq<char>>) -> Option<Seq<char>> {
    let s = nonempty_segments(segs);
    if s.len() >= 3 && s[0] == "game"@ && s[1] == "live"@ && is_game_id(s[2]) {
        Some(s[2])
    } else if s.len() == 2 && s[0] == "game"@ && s[1] != "live"@ && is_game_id(s[1]) {
        Some(s[1])
    } else {
        None
    }
}

/// Both documented URL forms name their game: `/game/live/<id>` and
/// `/game/<id>`, for an id of letters, digits and hyphens.
pub proof fn lemma_supported_game_paths(id: Seq<char>)
    requires
        is_game_id(id),
    ensures
        game_id_of(seq!["game"@, "live"@, id]) == Some(id),
        id != "live"@ ==> game_id_of(seq!["game"@, id]) == Some(id),
{
    reveal_strlit("game");
    reveal_strlit("live");
    let three = seq!["game"@, "live"@, id];
    let two = seq!["game"@, id];
    assert(nonempty_segments(three) == three) by {
        reveal_with_fuel(Seq::filter, 4);
        assert(three.drop_last() =~= seq!["game"@, "live"@]);
        assert(three.drop_last().drop_last() =~= seq!["game"@]);
        assert(three.drop_last().drop_last().drop_last() =~= Seq::<Seq<char>>::empty());
    }
    assert(nonempty_segments(two) == two) by {
        reveal_with_fuel(Seq::filter, 3);
        assert(two.drop_last() =~= seq!["game"@]);
        assert(two.drop_last().drop_last() =~= Seq::<Seq<char>>::empty());
    }
}

/// Every non-empty run of ASCII letters, digits and hyphens is a game id,
/// whatever its length, in both URL forms.
pub proof fn lemma_any_id_run_names_its_game(s: Seq<char>)
    requires
        s.len() > 0,
        forall|i: int| 0 <= i < s.len() ==> ('A' <= #[trigger] s[i] && s[i] <= 'Z') || ('a' <= s[i]
            && s[i] <= 'z') || ('0' <= s[i] && s[i] <= '9') || s[i] == '-',
    ensures
        game_id_of(seq!["game"@, "live"@, s]) == Some(s),
        s != "live"@ ==> game_id_of(seq!["game"@, s]) == Some(s),
{
    assert forall|i: int| 0 <= i < s.len() implies is_id_char(#[trigger] s[i]) by {}
    lemma_supported_game_paths(s);
}

fn game_id_chars(s: &str) -> (res: bool)
    ensures
        res == is_game_id(s@),
{
    let v = chars_of(s);
    if v.len() == 0 {
        return false;
    }
    let mut i: usize = 0;
    while i < v.len()
        invariant
            v@ == s@,
            i <= v.len(),
            forall|j: int| 0 <= j < i ==> is_id_char(#[trigger] v@[j]),
        decreases v.len() - i,
    {
        let c = v[i];
        if !(('A' <= c && c <= 'Z') || ('a' <= c && c <= 'z') || ('0' <= c && c <= '9') || c
            == '-') {
            assert(!is_id_char(v@[i as int]));
            return false;
        }
        i = i + 1;
    }
    true
}

/// The non-empty segments of `segs`.
fn nonempty(segs: &Vec<String>) -> (res: Vec<&String>)
    ensures
        res@.map_values(|s: &String| s@) == nonempty_segments(segs@.map_values(|s: String| s@)),
{
    let ghost all = segs@.map_values(|s: String| s@);
    let mut res: Vec<&String> = Vec::new();
    let mut i: usize = 0;
    while i < segs.len()
        invariant
            i <= segs.len(),
            all == segs@.map_values(|s: String| s@),
            res@.map_values(|s: &String| s@) == nonempty_segments(all.take(i as int)),
        decreases segs.len() - i,
    {
        proof {
            assert(all.take(i + 1).drop_last() == all.take(i as int));
            assert(all.take(i + 1).last() == segs@[i as int]@);
            reveal_with_fuel(Seq::filter, 1);
        }
        if segs[i].as_str().unicode_len() > 0 {
            let ghost before = res@;
            res.push(&segs[i]);
            assert(res@.map_values(|s: &String| s@) == before.map_values(|s: &String| s@).push(
                segs@[i as int]@,
            ));
        }
        i = i + 1;
    }
    assert(all.take(segs.len() as int) == all);
    res
}

pub fn parse_game_id(url: &UrlParts) -> (res: Option<String>)
    ensures
        match res {
            Some(id) => game_id_of(segment_views(*url)) == Some(id@),
            None => game_id_of(segment_views(*url)) is None,
        },
{
    let segs: Vec<&String> = match &url.segments {
        Some(v) => nonempty(v),
        None => {
            let r: Vec<&String> = Vec::new();
            assert(nonempty_segments(Seq::<Seq<char>>::empty()) == Seq::<Seq<char>>::empty()) by {
                reveal_with_fuel(Seq::filter, 1);
            };
            assert(r@.map_values(|s: &String| s@) == Seq::<Seq<char>>::empty());
            r
        },
    };
    let ghost s = nonempty_segments(segment_views(*url));
    assert(segs@.map_values(|x: &String| x@) == s);
    assert(forall|k: int| 0 <= k < segs@.len() ==> s[k] == (#[trigger] segs@[k])@);
    if segs.len() >= 3 && str_eq(segs[0].as_str(), "game") && str_eq(segs[1].as_str(), "live") {
        if game_id_chars(segs[2].as_str()) {
            return Some(segs[2].clone());
        }
        return None;
    }
    if segs.len() == 2 && str_eq(segs[0].as_str(), "game") && !str_eq(segs[1].as_str(), "live") {
        if game_id_chars(segs[1].as_str()) {
            return Some(segs[1].clone());
        }
        return None;
    }
    None
}

/// `true` when a path names its game in the short form `/game/<id>`.
pub open spec fn short_game_path(segs: Seq<Seq<char>>) -> bool {
    nonempty_segments(segs).len() == 2
}

/// The URL a game is fetched by: the one given, except that the short form
/// `/game/<id>` becomes `https://www.chess.com/game/live/<id>`.
pub open spec fn game_page(u: UrlParts, id: Seq<char>, page: UrlParts) -> bool {
    if short_game_path(segment_views(u)) {
        &&& page.scheme@ == "https"@
        &&& page.host matches Some(h) && h@ == "www.chess.com"@
        &&& segment_views(page) == seq!["game"@, "live"@, id]
        &&& page.serialized@ == "https://www.chess.com/game/live/"@ + id
    } else {
        page == u
    }
}

/// The parts of `https://www.chess.com/game/live/<id>`.
fn live_game_url(id: &String) -> (res: UrlParts)
    ensures
        res.scheme@ == "https"@,
        res.host matches Some(h) && h@ == "www.chess.com"@,
        segment_views(res) == seq!["game"@, "live"@, id@],
        res.serialized@ == "https://www.chess.com/game/live/"@ + id@,
{
    let segments = vec!["game".to_string(), "live".to_string(), id.clone()];
    let mut serialized = "https://www.chess.com/game/live/".to_string();
    serialized.append(id.as_str());
    let res = UrlParts {
        scheme: "https".to_string(),
        host: Some("www.chess.com".to_string()),
        segments: Some(segments),
        serialized,
    };
    assert(segment_views(res) =~= seq!["game"@, "live"@, id@]);
    res
}

/// Parses a chess.com game URL. It fails with `InvalidUrl(raw)` when the
/// text is not a URL and with `UnsupportedUrl(raw)` when it is not a
/// chess.com game URL of a supported form. A short-form URL is given back
/// in its `/game/live/<id>` form.
pub fn parse_chesscom_game_url(raw: &str) -> (res: Result<ChessGameRef, C2lError>)
    ensures
        match res {
            Ok(g) => url_parse(raw@) matches Some(u) && is_supported_url(u) && game_id_of(
                segment_views(u),
            ) == Some(g.game_id@) && game_page(u, g.game_id@, g.source_url),
            Err(C2lError::InvalidUrl(s)) => s@ == raw@ && url_parse(raw@) is None,
            Err(C2lError::UnsupportedUrl(s)) => s@ == raw@ && (url_parse(raw@) matches Some(u) && (
            !is_supported_url(u) || game_id_of(segment_views(u)) is None)),
            Err(_) => false,
        },
{
    let url = match parse_url(raw) {
        Some(u) => u,
        None => {
            return Err(C2lError::InvalidUrl(raw.to_string()));
        },
    };
    if !is_supported_chesscom_game_url(&url) {
        return Err(C2lError::UnsupportedUrl(raw.to_string()));
    }
    match parse_game_id(&url) {
        Some(game_id) => {
            let short = match &url.segments {
                Some(v) => nonempty(v).len() == 2,
                None => false,
            };
            proof {
                reveal_with_fuel(Seq::filter, 1);
            }
            assert(short == short_game_path(segment_views(url)));
            if short {
                let page = live_game_url(&game_id);
                Ok(ChessGameRef { source_url: page, game_id })
            } else {
                Ok(ChessGameRef { source_url: url, game_id })
            }
        },
        None => Err(C2lError::UnsupportedUrl(raw.to_string())),
    }
}

// ---------------------------------------------------------------------
// Dates and months
// ---------------------------------------------------------------------

/// The pattern a `YYYY.MM.DD` date matches.
pub open spec fn date_pattern() -> Seq<char> {
    "^(\\d{4})\\.(\\d{2})\\.(\\d{2})$"@
}

/// The value of an ASCII digit.
pub open spec fn digit_value(c: char) -> Option<nat> {
    if '0' <= c && c <= '9' {
        Some((c as nat - '0' as nat) as nat)
    } else {
        None
    }
}

/// The value of a non-empty run of ASCII digits, as `str::parse` reads it.
pub open spec fn number_value(s: Seq<char>) -> Option<nat>
    decreases s.len(),
{
    if s.len() == 0 {
        None
    } else if s.len() == 1 {
        digit_value(s[0])
    } else {
        match (number_value(s.drop_last()), digit_value(s.last())) {
            (Some(a), Some(d)) => Some(a * 10 + d),
            _ => None,
        }
    }
}

pub open spec fn pow10(n: nat) -> nat
    decreases n,
{
    if n == 0 {
        1
    } else {
        10 * pow10((n - 1) as nat)
    }
}

/// Reads `v[lo..hi]` as a number of at most four ASCII digits.
fn read_number(v: &[char], lo: usize, hi: usize) -> (res: Option<u32>)
    requires
        lo < hi <= v.len(),
        hi - lo <= 4,
    ensures
        match res {
            Some(n) => number_value(v@.subrange(lo as int, hi as int)) == Some(n as nat),
            None => number_value(v@.subrange(lo as int, hi as int)) is None,
        },
        res matches Some(n) ==> n < 10000,
{
    let mut acc: u32 = 0;
    let mut i = lo;
    while i < hi
        invariant
            lo <= i <= hi <= v.len(),
            hi - lo <= 4,
            i > lo ==> number_value(v@.subrange(lo as int, i as int)) == Some(acc as nat),
            acc < pow10((i - lo) as nat),
            pow10((i - lo) as nat) <= 10000,
        decreases hi - i,
    {
        let c = v[i];
        if !('0' <= c && c <= '9') {
            proof {
                lemma_number_prefix_fails(v@.subrange(lo as int, hi as int), (i - lo) as nat);
                assert(v@.subrange(lo as int, hi as int).subrange(0, i - lo + 1) == v@.subrange(
                    lo as int,
                    i + 1,
                ));
                assert(v@.subrange(lo as int, i + 1).last() == c);
            }
            return None;
        }
        let d = (c as u32) - ('0' as u32);
        proof {
            let t = v@.subrange(lo as int, i + 1);
            assert(t.drop_last() == v@.subrange(lo as int, i as int));
            assert(t.last() == c);
            assert(pow10((i + 1 - lo) as nat) == 10 * pow10((i - lo) as nat));
            if i - lo < 3 {
                assert(pow10((i + 1 - lo) as nat) <= 10000) by {
                    lemma_pow10_small((i + 1 - lo) as nat);
                }
            }
        }
        acc = acc * 10 + d;
        i = i + 1;
        proof {
            if i - lo <= 4 {
                lemma_pow10_small((i - lo) as nat);
            }
        }
    }
    Some(acc)
}

proof fn lemma_pow10_small(n: nat)
    requires
        n <= 4,
    ensures
        pow10(n) <= 10000,
{
    reveal_with_fuel(pow10, 5);
}

/// A run whose prefix ends with a non-digit has no value.
proof fn lemma_number_prefix_fails(s: Seq<char>, k: nat)
    requires
        k < s.len(),
        digit_value(s[k as int]) is None,
    ensures
        number_value(s) is None,
    decreases s.len(),
{
    if s.len() == 1 {
    } else if k == s.len() - 1 {
    } else {
        assert(s.drop_last()[k as int] == s[k as int]);
        lemma_number_prefix_fails(s.drop_last(), k);
    }
}

/// The year and month of a `YYYY.MM.DD` date (white space around it
/// ignored), the month being 1 to 12.
pub open spec fn year_month(date: Seq<char>) -> Option<(i32, u32)> {
    let t = trim(date);
    if regex_is_match(date_pattern(), t) == Some(true) && t.len() >= 7 {
        match (number_value(t.subrange(0, 4)), number_value(t.subrange(5, 7))) {
            (Some(y), Some(m)) => if 1 <= m <= 12 {
                Some((y as i32, m as u32))
            } else {
                None
            },
            _ => None,
        }
    } else {
        None
    }
}

pub fn parse_year_month(date: &str) -> (res: Option<(i32, u32)>)
    ensures
        res == year_month(date@),
        res matches Some((y, m)) ==> 0 <= y <= 9999 && 1 <= m <= 12,
{
    let t = trim_str(date);
    match is_match("^(\\d{4})\\.(\\d{2})\\.(\\d{2})$", t.as_str()) {
        Some(true) => {},
        _ => {
            return None;
        },
    }
    let v = chars_of(t.as_str());
    if v.len() < 7 {
        return None;
    }
    let year = match read_number(&v, 0, 4) {
        Some(y) => y,
        None => {
            return None;
        },
    };
    let month = match read_number(&v, 5, 7) {
        Some(m) => m,
        None => {
            return None;
        },
    };
    if 1 <= month && month <= 12 {
        Some((year as i32, month))
    } else {
        None
    }
}

/// A month read from a date is a month of a four-digit year.
pub proof fn lemma_year_month_range(date: Seq<char>)
    ensures
        year_month(date) matches Some((y, m)) ==> 0 <= y <= 9999 && 1 <= m <= 12,
{
    let t = trim(date);
    if t.len() >= 7 {
        lemma_number_below(t.subrange(0, 4));
    }
}

proof fn lemma_number_below(s: Seq<char>)
    requires
        s.len() == 4,
    ensures
        number_value(s) matches Some(v) ==> v <= 9999,
{
    let a = s.subrange(0, 1);
    let b = s.subrange(0, 2);
    let c = s.subrange(0, 3);
    assert(s.drop_last() == c);
    assert(c.drop_last() == b);
    assert(b.drop_last() == a);
    if let Some(va) = number_value(a) {
        assert(va <= 9);
        if let Some(vb) = number_value(b) {
            assert(vb <= 99);
            if let Some(vc) = number_value(c) {
                assert(vc <= 999);
            }
        }
    }
}

/// The month before `(year, month)`.
pub open spec fn month_before(year: int, month: int) -> (int, int) {
    if month == 1 {
        (year - 1, 12)
    } else {
        (year, month - 1)
    }
}

/// The month after `(year, month)`.
pub open spec fn month_after(year: int, month: int) -> (int, int) {
    if month == 12 {
        (year + 1, 1)
    } else {
        (year, month + 1)
    }
}

pub fn prev_month(year: i32, month: u32) -> (res: (i32, u32))
    requires
        month >= 1,
        month == 1 ==> year > i32::MIN,
    ensures
        (res.0 as int, res.1 as int) == month_before(year as int, month as int),
{
    if month == 1 {
        (year - 1, 12)
    } else {
        (year, month - 1)
    }
}

pub fn next_month(year: i32, month: u32) -> (res: (i32, u32))
    requires
        month < u32::MAX,
        month == 12 ==> year < i32::MAX,
    ensures
        (res.0 as int, res.1 as int) == month_after(year as int, month as int),
{
    if month == 12 {
        (year + 1, 1)
    } else {
        (year, month + 1)
    }
}

/// Stepping back a month and then forward again, or forward and then
/// back, returns to the month one started from.
pub proof fn lemma_month_steps_undo(year: int, month: int)
    requires
        1 <= month <= 12,
    ensures
        month_after(month_before(year, month).0, month_before(year, month).1) == (year, month),
        month_before(month_after(year, month).0, month_after(year, month).1) == (year, month),
{
}

/// The game's month first, then the month before, then the month after.
pub fn month_candidates(year: i32, month: u32) -> (res: Vec<(i32, u32)>)
    requires
        1 <= month < u32::MAX,
        month == 1 ==> year > i32::MIN,
        month == 12 ==> year < i32::MAX,
    ensures
        res@.len() == 3,
        res@[0] == (year, month),
        (res@[1].0 as int, res@[1].1 as int) == month_before(year as int, month as int),
        (res@[2].0 as int, res@[2].1 as int) == month_after(year as int, month as int),
{
    let prev = prev_month(year, month);
    let next = next_month(year, month);
    vec![(year, month), prev, next]
}

// ---------------------------------------------------------------------
// The archive lookup
// ---------------------------------------------------------------------

/// Adding a name: its trimmed form joins the list unless it is blank or
/// already there.
pub open spec fn with_unique(list: Seq<Seq<char>>, value: Option<Seq<char>>) -> Seq<Seq<char>> {
    match value {
        Some(s) => if trim(s).len() > 0 && !list.contains(trim(s)) {
            list.push(trim(s))
        } else {
            list
        },
        None => list,
    }
}

pub open spec fn strings_view(v: Seq<String>) -> Seq<Seq<char>> {
    v.map_values(|s: String| s@)
}

pub fn push_unique(vec: &mut Vec<String>, value: Option<&str>)
    ensures
        strings_view(final(vec)@) == with_unique(strings_view(old(vec)@), match value {
            Some(s) => Some(s@),
            None => None,
        }),
{
    match value {
        Some(s) => {
            let trimmed = trim_str(s);
            if crate::pgn_extract::is_blank(trimmed.as_str()) {
                assert(trim(s@).len() == 0) by {
                    lemma_trim_idempotent(s@);
                }
                return;
            }
            proof {
                lemma_trim_idempotent(s@);
            }
            let ghost list = strings_view(vec@);
            let mut i: usize = 0;
            while i < vec.len()
                invariant
                    i <= vec.len(),
                    vec@ == old(vec)@,
                    value == Some(s),
                    list == strings_view(vec@),
                    trimmed@ == trim(s@),
                    forall|j: int| 0 <= j < i ==> list[j] != trimmed@,
                decreases vec.len() - i,
            {
                if str_eq(vec[i].as_str(), trimmed.as_str()) {
                    assert(list[i as int] == trimmed@);
                    assert(list.contains(trim(s@)));
                    assert(strings_view(vec@) == with_unique(strings_view(old(vec)@), Some(s@)));
                    return;
                }
                i = i + 1;
            }
            assert(!list.contains(trim(s@)));
            vec.push(trimmed);
            assert(strings_view(vec@) == list.push(trim(s@)));
        },
        None => {},
    }
}

/// Trimming twice trims no more than once.
pub proof fn lemma_trim_idempotent(s: Seq<char>)
    ensures
        trim(trim(s)) == trim(s),
        trim(s).len() > 0 ==> !crate::text::is_ws(trim(s)[0]) && !crate::text::is_ws(
            trim(s).last(),
        ),
{
    lemma_trim_end_shape(s);
    lemma_trim_start_shape(crate::text::trim_end(s));
    let t = trim(s);
    if t.len() > 0 {
        lemma_trim_start_keeps_last(crate::text::trim_end(s));
        lemma_trim_end_of_clean(t);
    } else {
        assert(crate::text::trim_end(t) == t);
    }
}

proof fn lemma_trim_end_shape(s: Seq<char>)
    ensures
        crate::text::trim_end(s).len() > 0 ==> !crate::text::is_ws(crate::text::trim_end(s).last()),
    decreases s.len(),
{
    if s.len() > 0 && crate::text::is_ws(s.last()) {
        lemma_trim_end_shape(s.drop_last());
    }
}

proof fn lemma_trim_start_shape(s: Seq<char>)
    ensures
        crate::text::trim_start(s).len() > 0 ==> !crate::text::is_ws(crate::text::trim_start(s)[0]),
        crate::text::trim_start(crate::text::trim_start(s)) == crate::text::trim_start(s),
    decreases s.len(),
{
    if s.len() > 0 && crate::text::is_ws(s[0]) {
        lemma_trim_start_shape(s.drop_first());
    }
}

proof fn lemma_trim_start_keeps_last(s: Seq<char>)
    requires
        crate::text::trim_start(s).len() > 0,
    ensures
        crate::text::trim_start(s).last() == s.last(),
    decreases s.len(),
{
    if s.len() > 0 && crate::text::is_ws(s[0]) {
        lemma_trim_start_keeps_last(s.drop_first());
    }
}

proof fn lemma_trim_end_of_clean(t: Seq<char>)
    requires
        t.len() > 0,
        !crate::text::is_ws(t.last()),
        !crate::text::is_ws(t[0]),
    ensures
        trim(t) == t,
{
}

/// A list with no blank entry, no entry with white space around it and
/// no entry twice.
pub open spec fn clean_unique(list: Seq<Seq<char>>) -> bool {
    &&& forall|i: int| 0 <= i < list.len() ==> trim(#[trigger] list[i]) == list[i] && list[i].len() > 0
    &&& forall|i: int, j: int| 0 <= i < j < list.len() ==> list[i] != list[j]
}

/// Adding names one at a time keeps the list free of blanks and
/// repetitions.
pub proof fn lemma_with_unique_keeps_clean(list: Seq<Seq<char>>, value: Option<Seq<char>>)
    requires
        clean_unique(list),
    ensures
        clean_unique(with_unique(list, value)),
{
    match value {
        Some(s) => {
            lemma_trim_idempotent(s);
            if trim(s).len() > 0 && !list.contains(trim(s)) {
                let l2 = list.push(trim(s));
                assert forall|i: int, j: int| 0 <= i < j < l2.len() implies l2[i] != l2[j] by {
                    if j == list.len() {
                        assert(list.contains(list[i]));
                    }
                }
            }
        },
        None => {},
    }
}

/// The players whose archives are searched, and the game's month.
pub struct ArchiveLookup {
    pub usernames: Vec<String>,
    pub year: i32,
    pub month: u32,
}

/// `value.get(k1).and_then(|v| v.get(k2)).and_then(|v| v.get(k3))` read
/// as a string.
pub open spec fn str_at(value: JsonValue, k1: Seq<char>, k2: Seq<char>, k3: Seq<char>) -> Option<Seq<char>> {
    match get(value, k1) {
        Some(a) => match get(a, k2) {
            Some(b) => as_str(get(b, k3)),
            None => None,
        },
        None => None,
    }
}

/// The usernames named by a callback response: the top and bottom
/// players, then the White and Black tags, each once.
pub open spec fn lookup_usernames(v: JsonValue) -> Seq<Seq<char>> {
    with_unique(
        with_unique(
            with_unique(
                with_unique(seq![], str_at(v, "players"@, "top"@, "username"@)),
                str_at(v, "players"@, "bottom"@, "username"@),
            ),
            str_at(v, "game"@, "pgnHeaders"@, "White"@),
        ),
        str_at(v, "game"@, "pgnHeaders"@, "Black"@),
    )
}

/// The archive lookup a callback response allows: at least one username
/// and a `Date` tag that gives a month.
pub open spec fn archive_lookup(v: JsonValue) -> Option<(Seq<Seq<char>>, i32, u32)> {
    let names = lookup_usernames(v);
    if names.len() == 0 {
        None
    } else {
        match str_at(v, "game"@, "pgnHeaders"@, "Date"@) {
            Some(date) => match year_month(date) {
                Some((y, m)) => Some((names, y, m)),
                None => None,
            },
            None => None,
        }
    }
}

fn string_at<'a>(value: &'a JsonValue, k1: &str, k2: &str, k3: &str) -> (res: Option<&'a str>)
    ensures
        match res {
            Some(s) => str_at(*value, k1@, k2@, k3@) == Some(s@),
            None => str_at(*value, k1@, k2@, k3@) is None,
        },
{
    match get_value(value, k1) {
        Some(a) => match get_value(a, k2) {
            Some(b) => value_as_str(get_value(b, k3)),
            None => None,
        },
        None => None,
    }
}

pub fn extract_archive_lookup(callback_json: &JsonValue) -> (res: Option<ArchiveLookup>)
    ensures
        match res {
            Some(l) => archive_lookup(*callback_json) == Some(
                (strings_view(l.usernames@), l.year, l.month),
            ),
            None => archive_lookup(*callback_json) is None,
        },
        res matches Some(l) ==> 1 <= l.usernames@.len() <= 4 && 0 <= l.year <= 9999 && 1 <= l.month
            <= 12 && clean_unique(strings_view(l.usernames@)),
{
    let mut usernames: Vec<String> = Vec::new();
    assert(strings_view(usernames@) == Seq::<Seq<char>>::empty());
    proof {
        lemma_with_unique_keeps_clean(seq![], str_at(*callback_json, "players"@, "top"@, "username"@));
    }
    push_unique(&mut usernames, string_at(callback_json, "players", "top", "username"));
    proof {
        lemma_with_unique_keeps_clean(strings_view(usernames@), str_at(*callback_json, "players"@, "bottom"@, "username"@));
    }
    push_unique(&mut usernames, string_at(callback_json, "players", "bottom", "username"));
    proof {
        lemma_with_unique_keeps_clean(strings_view(usernames@), str_at(*callback_json, "game"@, "pgnHeaders"@, "White"@));
    }
    push_unique(&mut usernames, string_at(callback_json, "game", "pgnHeaders", "White"));
    proof {
        lemma_with_unique_keeps_clean(strings_view(usernames@), str_at(*callback_json, "game"@, "pgnHeaders"@, "Black"@));
    }
    push_unique(&mut usernames, string_at(callback_json, "game", "pgnHeaders", "Black"));
    assert(strings_view(usernames@) == lookup_usernames(*callback_json));
    if usernames.len() == 0 {
        return None;
    }
    let date = match string_at(callback_json, "game", "pgnHeaders", "Date") {
        Some(d) => d,
        None => {
            return None;
        },
    };
    match parse_year_month(date) {
        Some((year, month)) => Some(ArchiveLookup { usernames, year, month }),
        None => None,
    }
}

/// `true` when the game URL names the game `game_id` as a live game.
pub open spec fn url_names_game(url: Seq<char>, game_id: Seq<char>) -> bool {
    contains(url, "/game/live/"@ + game_id)
}

pub fn game_url_matches_id(url: &str, game_id: &str) -> (res: bool)
    ensures
        res == url_names_game(url@, game_id@),
{
    let mut pat = String::new();
    pat.append("/game/live/");
    pat.append(game_id);
    str_contains(url, pat.as_str())
}

} // verus!
