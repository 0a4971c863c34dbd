//! The two searches that rest on Unicode tables (case folding, word
//! boundaries, decimal digits) and are therefore left to the `regex`
//! crate. Each result is named; nothing else is claimed of it.
use vstd::prelude::*;

verus! {

/// What `Regex::new(pattern)` followed by `is_match(text)` answers:
/// `None` when the pattern does not compile.
pub uninterp spec fn regex_is_match(pattern: Seq<char>, text: Seq<char>) -> Option<bool>;

/// What `Regex::new(pattern)` followed by `captures_iter(text)` yields,
/// taking capture group `group` of each match in turn: `None` when the
/// pattern does not compile.
pub uninterp spec fn regex_group_of_matches(pattern: Seq<char>, text: Seq<char>, group: nat) -> Option<Seq<Option<Seq<char>>>>;

/// The views of a list of optional strings.
pub open spec fn opt_strings_view(v: Seq<Option<String>>) -> Seq<Option<Seq<char>>> {
    v.map_values(|o: Option<String>| match o {
        Some(s) => Some(s@),
        None => None,
    })
}

/// Compiles `pattern` with `regex::Regex::new` and asks `Regex::is_match`
/// about `text`. The answer is named and nothing more is said of it.
#[verifier::external_body]
pub(crate) fn is_match(pattern: &str, text: &str) -> (res: Option<bool>)
    ensures
        res == regex_is_match(pattern@, text@),
{
    regex::Regex::new(pattern).ok().map(|re| re.is_match(text))
}

/// Compiles `pattern` with `regex::Regex::new` and collects capture group
/// `group` of every match that `Regex::captures_iter` reports on `text`,
/// in order. The list is named and nothing more is said of it.
#[verifier::external_body]
pub(crate) fn group_of_matches(pattern: &str, text: &str, group: usize) -> (res: Option<Vec<Option<String>>>)
    ensures
        match res {
            Some(v) => regex_group_of_matches(pattern@, text@, group as nat) == Some(opt_strings_view(v@)),
            None => regex_group_of_matches(pattern@, text@, group as nat) is None,
        },
{
    regex::Regex::new(pattern).ok().map(|re| re.captures_iter(text).map(|c| c.get(group).map(|m| m.as_str().to_string())).collect())
}

} // verus!
