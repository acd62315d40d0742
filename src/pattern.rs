//! Regular expressions, through the `regex` crate. A pattern is kept as its
//! source text; each use compiles it again.

use vstd::prelude::*;

verus! {

/// `regex::Regex::new` accepts the pattern.
pub uninterp spec fn valid_pattern(pattern: Seq<char>) -> bool;

/// The pattern matches somewhere in the text.
pub uninterp spec fn pattern_matches(pattern: Seq<char>, text: Seq<char>) -> bool;

/// The text with every match of the pattern replaced by the expanded template.
pub uninterp spec fn replaced_all(pattern: Seq<char>, text: Seq<char>, template: Seq<char>) -> Seq<char>;

/// The text of the named group in the first match of the pattern, if there is
/// a match and the group took part in it.
pub uninterp spec fn captured(pattern: Seq<char>, text: Seq<char>, group: Seq<char>) -> Option<Seq<char>>;

/// Relies on `regex::Regex::new`: whether the pattern compiles, which
/// depends on its text alone.
#[verifier::external_body]
pub(crate) fn compiles(pattern: &str) -> (r: bool)
    ensures
        r == valid_pattern(pattern@),
{
    regex::Regex::new(pattern).is_ok()
}

/// Relies on `regex::Regex::is_match`.
#[verifier::external_body]
pub(crate) fn is_match(pattern: &str, text: &str) -> (r: bool)
    requires
        valid_pattern(pattern@),
    ensures
        r == pattern_matches(pattern@, text@),
{
    regex::Regex::new(pattern).unwrap().is_match(text)
}

/// Relies on `regex::Regex::replace_all`, which hands the text back
/// unchanged where nothing matches.
#[verifier::external_body]
pub(crate) fn replace_all(pattern: &str, text: &str, template: &str) -> (r: String)
    requires
        valid_pattern(pattern@),
    ensures
        r@ == replaced_all(pattern@, text@, template@),
        !pattern_matches(pattern@, text@) ==> r@ == text@,
{
    regex::Regex::new(pattern).unwrap().replace_all(text, template).into_owned()
}

/// Relies on `regex::Regex::captures` and `regex::Captures::name`.
#[verifier::external_body]
pub(crate) fn capture(pattern: &str, text: &str, group: &str) -> (r: Option<String>)
    requires
        valid_pattern(pattern@),
    ensures
        match r {
            Some(s) => captured(pattern@, text@, group@) == Some(s@),
            None => captured(pattern@, text@, group@) is None,
        },
{
    regex::Regex::new(pattern).unwrap().captures(text).and_then(|c| c.name(group)).map(|m| m.as_str().to_string())
}

} // verus!
