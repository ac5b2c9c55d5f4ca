//! Pattern matching, done by the `regex` crate. The results of the crate are named here,
//! not described: the contracts of the callers say what is done with the groups of a
//! match, not which texts a pattern matches.

use vstd::prelude::*;
use crate::error::{Field, ParseFailure};

verus! {

/// The error of `regex::Regex::new`, of which nothing is read here.
#[verifier::external_type_specification]
#[verifier::external_body]
pub struct ExRegexError(regex::Error);

/// Whether `regex::Regex::new` accepts the pattern: whether it is well-formed and compiles
/// within the limits that the crate sets by default.
pub uninterp spec fn regex_compiles(pattern: Seq<char>) -> bool;

/// Whether the compiled pattern matches anywhere in the text, as `regex::Regex::is_match`
/// tells.
pub uninterp spec fn regex_is_match(pattern: Seq<char>, text: Seq<char>) -> bool;

/// The groups of the first match of the compiled pattern in the text, as
/// `regex::Regex::captures` gives them: group 0 is the whole match, and a group that took no
/// part in the match is `None`.
pub uninterp spec fn regex_captures(pattern: Seq<char>, text: Seq<char>) -> Option<
    Seq<Option<Seq<char>>>,
>;

/// The groups of the successive matches of the compiled pattern in the text that do not
/// overlap, in the order of the text, as `regex::Regex::captures_iter` yields them.
pub uninterp spec fn regex_captures_all(pattern: Seq<char>, text: Seq<char>) -> Seq<
    Seq<Option<Seq<char>>>,
>;

/// Compiles the pattern with `regex::Regex::new` and asks `regex::Regex::is_match` for a
/// match in the text.
///
/// Trusted: the call fails exactly where the pattern does not compile, and else tells
/// whether the pattern matches anywhere in the text. Nothing is claimed about which
/// patterns compile or which texts they match.
#[verifier::external_body]
pub(crate) fn is_match(pattern: &str, text: &str) -> (found: Result<bool, regex::Error>)
    ensures
        found is Ok == regex_compiles(pattern@),
        found matches Ok(hit) ==> hit == regex_is_match(pattern@, text@),
{
    let compiled = regex::Regex::new(pattern)?;
    Ok(compiled.is_match(text))
}

/// Compiles the pattern with `regex::Regex::new` and asks `regex::Regex::captures` for the
/// groups of its first match in the text, each copied out as an owned text.
///
/// Trusted: the call fails exactly where the pattern does not compile, and else gives the
/// groups of the first match, or `None` where there is no match. Nothing is claimed about
/// what the groups hold.
#[verifier::external_body]
pub(crate) fn captures(pattern: &str, text: &str) -> (found: Result<
    Option<Vec<Option<String>>>,
    regex::Error,
>)
    ensures
        found is Ok == regex_compiles(pattern@),
        found matches Ok(groups) ==> groups.deep_view() == regex_captures(pattern@, text@),
{
    let compiled = regex::Regex::new(pattern)?;
    Ok(
        compiled.captures(text).map(
            |c| c.iter().map(|g| g.map(|m| m.as_str().to_string())).collect(),
        ),
    )
}

/// Compiles the pattern with `regex::Regex::new` and collects what
/// `regex::Regex::captures_iter` yields on the text, each group copied out as an owned text.
///
/// Trusted: the call fails exactly where the pattern does not compile, and else gives the
/// groups of every match in the order of the text. Nothing is claimed about how many
/// matches there are or what their groups hold.
#[verifier::external_body]
pub(crate) fn captures_iter(pattern: &str, text: &str) -> (found: Result<
    Vec<Vec<Option<String>>>,
    regex::Error,
>)
    ensures
        found is Ok == regex_compiles(pattern@),
        found matches Ok(all) ==> all.deep_view() == regex_captures_all(pattern@, text@),
{
    let compiled = regex::Regex::new(pattern)?;
    Ok(
        compiled.captures_iter(text).map(
            |c| c.iter().map(|g| g.map(|m| m.as_str().to_string())).collect(),
        ).collect(),
    )
}

/// Whether a pattern matches a text, or the error of a pattern that does not compile.
pub open spec fn pattern_matches(pattern: Seq<char>, text: Seq<char>) -> Result<
    bool,
    ParseFailure,
> {
    if regex_compiles(pattern) {
        Ok(regex_is_match(pattern, text))
    } else {
        Err(ParseFailure::InvalidPattern)
    }
}

/// The groups of the first match of a pattern in a text, or the error of a pattern that
/// does not compile.
pub open spec fn pattern_captures(pattern: Seq<char>, text: Seq<char>) -> Result<
    Option<Seq<Option<Seq<char>>>>,
    ParseFailure,
> {
    if regex_compiles(pattern) {
        Ok(regex_captures(pattern, text))
    } else {
        Err(ParseFailure::InvalidPattern)
    }
}

/// The groups of every match of a pattern in a text, or the error of a pattern that does
/// not compile.
pub open spec fn pattern_captures_all(pattern: Seq<char>, text: Seq<char>) -> Result<
    Seq<Seq<Option<Seq<char>>>>,
    ParseFailure,
> {
    if regex_compiles(pattern) {
        Ok(regex_captures_all(pattern, text))
    } else {
        Err(ParseFailure::InvalidPattern)
    }
}

/// The text of group `i`, where the match has such a group and it took part in the match.
pub open spec fn group_text(groups: Seq<Option<Seq<char>>>, i: int) -> Option<Seq<char>> {
    if 0 <= i < groups.len() {
        groups[i]
    } else {
        None
    }
}

/// What the result of a search for the first match holds.
pub open spec fn captures_view(found: Result<Option<Vec<Option<String>>>, ParseFailure>) -> Result<
    Option<Seq<Option<Seq<char>>>>,
    ParseFailure,
> {
    match found {
        Ok(groups) => Ok(groups.deep_view()),
        Err(e) => Err(e),
    }
}

/// What the result of a search for every match holds.
pub open spec fn captures_all_view(found: Result<Vec<Vec<Option<String>>>, ParseFailure>) -> Result<
    Seq<Seq<Option<Seq<char>>>>,
    ParseFailure,
> {
    match found {
        Ok(all) => Ok(all.deep_view()),
        Err(e) => Err(e),
    }
}

/// The text of group `i`, or the error that names the part that is missing.
pub open spec fn required_text(groups: Seq<Option<Seq<char>>>, i: int, field: Field) -> Result<
    Seq<char>,
    ParseFailure,
> {
    match group_text(groups, i) {
        Some(text) => Ok(text),
        None => Err(ParseFailure::MissingField(field)),
    }
}

/// Tells whether the pattern matches anywhere in the text.
pub fn has_match(pattern: &str, text: &str) -> (found: Result<bool, ParseFailure>)
    ensures
        found == pattern_matches(pattern@, text@),
{
    match is_match(pattern, text) {
        Ok(hit) => Ok(hit),
        Err(_) => Err(ParseFailure::InvalidPattern),
    }
}

/// Finds the first match of the pattern in the text and gives its groups.
pub fn first_match(pattern: &str, text: &str) -> (found: Result<
    Option<Vec<Option<String>>>,
    ParseFailure,
>)
    ensures
        captures_view(found) == pattern_captures(pattern@, text@),
{
    match captures(pattern, text) {
        Ok(groups) => Ok(groups),
        Err(_) => Err(ParseFailure::InvalidPattern),
    }
}

/// Finds every match of the pattern in the text and gives the groups of each, in the order
/// of the text.
pub fn all_matches(pattern: &str, text: &str) -> (found: Result<
    Vec<Vec<Option<String>>>,
    ParseFailure,
>)
    ensures
        captures_all_view(found) == pattern_captures_all(pattern@, text@),
{
    match captures_iter(pattern, text) {
        Ok(all) => Ok(all),
        Err(_) => Err(ParseFailure::InvalidPattern),
    }
}

/// Picks group `i` out of the groups of a match.
pub fn group(groups: &Vec<Option<String>>, i: usize) -> (text: Option<&str>)
    ensures
        text.deep_view() == group_text(groups.deep_view(), i as int),
{
    if i < groups.len() {
        match &groups[i] {
            Some(s) => Some(s.as_str()),
            None => None,
        }
    } else {
        None
    }
}

/// Picks group `i` out of the groups of a match, or names the part that is missing.
pub fn required<'a>(groups: &'a Vec<Option<String>>, i: usize, field: Field) -> (text: Result<
    &'a str,
    ParseFailure,
>)
    ensures
        match text {
            Ok(t) => required_text(groups.deep_view(), i as int, field) == Ok::<
                Seq<char>,
                ParseFailure,
            >(t@),
            Err(e) => required_text(groups.deep_view(), i as int, field) == Err::<
                Seq<char>,
                ParseFailure,
            >(e),
        },
{
    match group(groups, i) {
        Some(text) => Ok(text),
        None => Err(ParseFailure::MissingField(field)),
    }
}

} // verus!
