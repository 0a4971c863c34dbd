//! Reading the lichess import API's answer: the analysis URL it points to.
use vstd::prelude::*;
use crate::json::{get_str, get_string, json_parse, parse_json};
use crate::pgn_extract::is_blank;
use crate::text::{chars_of, matches_at, starts_with, trim, trim_str};

verus! {

broadcast use vstd::string::group_string_axioms;

/// A lichess URL: kept when absolute, completed when it is a path.
pub open spec fn lichess_url(candidate: Seq<char>) -> Option<Seq<char>> {
    if starts_with(candidate, "https://lichess.org/"@) {
        Some(candidate)
    } else if starts_with(candidate, "/"@) {
        Some("https://lichess.org"@ + candidate)
    } else {
        None
    }
}

pub fn normalize_lichess_url(candidate: &str) -> (res: Option<String>)
    ensures
        match res {
            Some(u) => lichess_url(candidate@) == Some(u@),
            None => lichess_url(candidate@) is None,
        },
{
    let v = chars_of(candidate);
    if matches_at(&v, 0, &chars_of("https://lichess.org/")) {
        return Some(candidate.to_string());
    }
    if matches_at(&v, 0, &chars_of("/")) {
        let mut out = String::new();
        out.append("https://lichess.org");
        out.append(candidate);
        return Some(out);
    }
    None
}

/// Where the import API's answer points: the JSON `url` (when it is a
/// lichess URL) or `id`, then the `Location` header, then the body text,
/// then the final request URL unless it is the import endpoint itself.
pub open spec fn analysis_url(body: Seq<char>, location: Option<Seq<char>>, final_url: Option<Seq<char>>) -> Option<Seq<char>> {
    let from_json = match json_parse(body) {
        Some(v) => match get_str(v, "url"@) {
            Some(u) if lichess_url(u) is Some => lichess_url(u),
            _ => match get_str(v, "id"@) {
                Some(id) => Some("https://lichess.org/"@ + id),
                None => None,
            },
        },
        None => None,
    };
    let from_location = match location {
        Some(l) => lichess_url(l),
        None => None,
    };
    let from_final = match final_url {
        Some(u) => match lichess_url(u) {
            Some(n) => if n != "https://lichess.org/api/import"@ {
                Some(n)
            } else {
                None
            },
            None => None,
        },
        None => None,
    };
    if from_json is Some {
        from_json
    } else if from_location is Some {
        from_location
    } else if lichess_url(trim(body)) is Some {
        lichess_url(trim(body))
    } else {
        from_final
    }
}

pub open spec fn opt_str_view(o: Option<&str>) -> Option<Seq<char>> {
    match o {
        Some(s) => Some(s@),
        None => None,
    }
}

pub fn extract_analysis_url(body: &str, location: Option<&str>, final_url: Option<&str>) -> (res: Option<String>)
    ensures
        match res {
            Some(u) => analysis_url(body@, opt_str_view(location), opt_str_view(final_url)) == Some(u@),
            None => analysis_url(body@, opt_str_view(location), opt_str_view(final_url)) is None,
        },
{
    match parse_json(body) {
        Some(v) => {
            match get_string(&v, "url") {
                Some(url) => match normalize_lichess_url(url) {
                    Some(n) => {
                        return Some(n);
                    },
                    None => {},
                },
                None => {},
            }
            match get_string(&v, "id") {
                Some(id) => {
                    let mut out = String::new();
                    out.append("https://lichess.org/");
                    out.append(id);
                    return Some(out);
                },
                None => {},
            }
        },
        None => {},
    }
    match location {
        Some(loc) => match normalize_lichess_url(loc) {
            Some(n) => {
                return Some(n);
            },
            None => {},
        },
        None => {},
    }
    let trimmed = trim_str(body);
    match normalize_lichess_url(trimmed.as_str()) {
        Some(n) => {
            return Some(n);
        },
        None => {},
    }
    match final_url {
        Some(url) => match normalize_lichess_url(url) {
            Some(n) => {
                if !crate::json::str_eq(n.as_str(), "https://lichess.org/api/import") {
                    return Some(n);
                }
            },
            None => {},
        },
        None => {},
    }
    None
}

/// How the import API answered.
pub enum ImportOutcome {
    /// The API refused access (status 401 or 403).
    Denied,
    /// The analysis URL.
    Imported(String),
    /// The answer held no URL.
    NoUrl,
}

/// What an import answer means: refusal for 401 and 403, otherwise the
/// analysis URL it points to, if any.
pub fn import_outcome(status: u16, location: Option<&str>, final_url: Option<&str>, body: &str) -> (res: ImportOutcome)
    ensures
        (status == 401 || status == 403) <==> res is Denied,
        res matches ImportOutcome::Imported(u) ==> analysis_url(body@, opt_str_view(location), opt_str_view(final_url)) == Some(u@),
        res is NoUrl ==> analysis_url(body@, opt_str_view(location), opt_str_view(final_url)) is None,
{
    if status == 401 || status == 403 {
        return ImportOutcome::Denied;
    }
    match extract_analysis_url(body, location, final_url) {
        Some(u) => ImportOutcome::Imported(u),
        None => ImportOutcome::NoUrl,
    }
}

/// `true` when a PGN may be sent for import (it is not blank).
pub fn can_import(pgn: &str) -> (res: bool)
    ensures
        res == (trim(pgn@).len() > 0),
{
    !is_blank(pgn)
}

/// Normalising a URL twice changes nothing more than normalising it once.
pub proof fn lemma_lichess_url_idempotent(candidate: Seq<char>)
    ensures
        lichess_url(candidate) matches Some(u) ==> lichess_url(u) == Some(u) && starts_with(
            u,
            "https://lichess.org"@,
        ),
{
    reveal_strlit("https://lichess.org/");
    reveal_strlit("https://lichess.org");
    reveal_strlit("/");
    let p19 = "https://lichess.org"@;
    let p20 = "https://lichess.org/"@;
    assert(p20.subrange(0, 19) =~= p19);
    if starts_with(candidate, p20) {
        assert(candidate.subrange(0, 20) == p20);
        assert(candidate.subrange(0, 19) =~= candidate.subrange(0, 20).subrange(0, 19));
    } else if starts_with(candidate, "/"@) {
        let u = p19 + candidate;
        assert(candidate.subrange(0, 1) == "/"@);
        assert(u.subrange(0, 20) =~= p19 + candidate.subrange(0, 1));
        assert(p19 + "/"@ =~= p20);
        assert(u.subrange(0, 19) =~= p19);
    }
}

} // verus!
