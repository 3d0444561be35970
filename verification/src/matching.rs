//! Regular-expression search over text, with its outcome as a plain value.
//!
//! The search itself is done by the `regex` crate. What it finds is a function
//! of the pattern and the text alone, so the contracts here speak of it by
//! name and fix everything that is decided around it.

use vstd::prelude::*;
use vstd::string::StringExecFns;
use crate::error::{result_model, ApplicationError, ErrorModel};

verus! {

/// The error with which `regex` rejects a pattern. Nothing is read from it.
#[verifier::external_type_specification]
#[verifier::external_body]
pub struct ExRegexError(regex::Error);

/// Whether `regex::Regex::new` accepts `pattern`: whether it is well-formed
/// and compiles within the size limit that `regex` applies by default.
pub uninterp spec fn pattern_compiles(pattern: Seq<char>) -> bool;

/// The text that `regex::Regex::find` reports for `pattern` in `haystack`:
/// the leftmost match, or `None` where the pattern matches nowhere.
pub uninterp spec fn leftmost_match(pattern: Seq<char>, haystack: Seq<char>) -> Option<Seq<char>>;

/// `piece` occurs in `text` as one contiguous run of characters.
pub open spec fn is_slice_of(piece: Seq<char>, text: Seq<char>) -> bool {
    exists|from: int, to: int|
        0 <= from <= to <= text.len() && piece == #[trigger] text.subrange(from, to)
}

/// The characters of the text found, if any.
pub open spec fn found_text(found: Option<String>) -> Option<Seq<char>> {
    match found {
        Some(text) => Some(text@),
        None => None,
    }
}

/// Compiles `pattern` with `regex::Regex::new` and looks for its first match
/// in `haystack` with `regex::Regex::find`.
///
/// Trusted: the result is an error exactly when the pattern does not compile;
/// otherwise it is the matched text that `find` reports, copied out of the
/// haystack with `Match::as_str`, and that text is a contiguous piece of the
/// haystack.
#[verifier::external_body]
fn compile_and_find(pattern: &str, haystack: &str) -> (res: Result<Option<String>, regex::Error>)
    ensures
        res.is_ok() == pattern_compiles(pattern@),
        res matches Ok(found) ==> found_text(found) == leftmost_match(pattern@, haystack@),
        res matches Ok(Some(text)) ==> is_slice_of(text@, haystack@),
{
    match regex::Regex::new(pattern) {
        Ok(re) => match re.find(haystack) {
            Some(m) => Ok(Some(String::from(m.as_str()))),
            None => Ok(None),
        },
        Err(e) => Err(e),
    }
}

/// What one search came to.
#[derive(Debug, PartialEq, Eq)]
pub enum Search {
    /// The pattern did not compile.
    Invalid,
    /// The pattern compiled and matches nowhere in the text.
    Absent,
    /// The leftmost match.
    Found(String),
}

/// The mathematical value of a [`Search`].
pub enum SearchModel {
    Invalid,
    Absent,
    Found(Seq<char>),
}

impl View for Search {
    type V = SearchModel;

    open spec fn view(&self) -> SearchModel {
        match self {
            Search::Invalid => SearchModel::Invalid,
            Search::Absent => SearchModel::Absent,
            Search::Found(text) => SearchModel::Found(text@),
        }
    }
}

/// The outcome of searching `haystack` for `pattern`.
pub open spec fn search_model(pattern: Seq<char>, haystack: Seq<char>) -> SearchModel {
    if !pattern_compiles(pattern) {
        SearchModel::Invalid
    } else {
        match leftmost_match(pattern, haystack) {
            Some(text) => SearchModel::Found(text),
            None => SearchModel::Absent,
        }
    }
}

/// What a caller who needs a match makes of a search for `pattern`.
pub open spec fn required_model(pattern: Seq<char>, outcome: SearchModel) -> Result<
    Seq<char>,
    ErrorModel,
> {
    match outcome {
        SearchModel::Invalid => Err(ErrorModel::InvalidPattern),
        SearchModel::Absent => Err(ErrorModel::PatternNotFound { pattern }),
        SearchModel::Found(text) => Ok(text),
    }
}

/// Searches `haystack` for the leftmost match of `pattern`.
pub fn search(pattern: &str, haystack: &str) -> (outcome: Search)
    ensures
        outcome@ == search_model(pattern@, haystack@),
        outcome matches Search::Found(text) ==> is_slice_of(text@, haystack@),
{
    match compile_and_find(pattern, haystack) {
        Err(_) => Search::Invalid,
        Ok(None) => Search::Absent,
        Ok(Some(text)) => Search::Found(text),
    }
}

/// Turns the outcome of a search for `pattern` into the matched text, or into
/// the error that says why there is none.
pub fn require_match(pattern: &str, outcome: Search) -> (res: Result<String, ApplicationError>)
    ensures
        result_model(res) == required_model(pattern@, outcome@),
{
    match outcome {
        Search::Invalid => Err(ApplicationError::InvalidPattern),
        Search::Absent => Err(ApplicationError::PatternNotFound { pattern: String::from_str(pattern) }),
        Search::Found(text) => Ok(text),
    }
}

} // verus!
