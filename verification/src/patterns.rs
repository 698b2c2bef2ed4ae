//! Splitting texts at the matches of a regular expression, done by `regex`.

use vstd::prelude::*;
use crate::text::texts;

verus! {

/// The parts of a text between the matches of a regular expression, or `None`
/// where the pattern is no regular expression that `regex` compiles.
pub uninterp spec fn regex_parts(pattern: Seq<char>, text: Seq<char>) -> Option<Seq<Seq<char>>>;

/// `regex::Regex::new` and `Regex::split`: compiles the pattern and cuts the
/// text at its matches. The parts between the matches are handed out in
/// order; a pattern that does not compile gives nothing.
#[verifier::external_body]
fn regex_split(pattern: &str, text: &str) -> (parts: Option<Vec<String>>)
    ensures
        match parts {
            Some(parts) => regex_parts(pattern@, text@) == Some(texts(parts@)),
            None => regex_parts(pattern@, text@) is None,
        },
{
    match regex::Regex::new(pattern) {
        Ok(expression) => Some(expression.split(text).map(String::from).collect()),
        Err(_) => None,
    }
}

/// Cuts a text at the matches of a regular expression.
pub fn split_by_pattern(pattern: &str, text: &str) -> (parts: Option<Vec<String>>)
    ensures
        match parts {
            Some(parts) => regex_parts(pattern@, text@) == Some(texts(parts@)),
            None => regex_parts(pattern@, text@) is None,
        },
{
    regex_split(pattern, text)
}

} // verus!
