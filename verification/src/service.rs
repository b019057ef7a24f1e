//! The decisions of the country record service: which identifiers it takes,
//! and what it answers once the store has been asked.

use vstd::prelude::*;

verus! {

/// The pattern that a country identifier has to match.
pub const COUNTRY_ID_PATTERN: &'static str = "^[A-Z]{2,4}$";

/// Whether `id` is a country identifier: two to four capital letters `A` to
/// `Z` and nothing else.
pub open spec fn is_country_id(id: Seq<char>) -> bool {
    2 <= id.len() <= 4 && forall|i: int| 0 <= i < id.len() ==> 'A' <= #[trigger] id[i] <= 'Z'
}

/// Compiles `pattern` with `regex::Regex::new` and searches `text` with
/// `Regex::is_match`.
///
/// Trusted: for the pattern `^[A-Z]{2,4}$`, which compiles, the search finds
/// a match exactly where the whole text is two to four characters from the
/// range `A` to `Z`. By the crate's syntax, `^` and `$` stand for the two
/// ends of the text, `[A-Z]` for one character of that range, and `{2,4}`
/// for two to four repetitions.
#[verifier::external_body]
fn matches_pattern(pattern: &str, text: &str) -> (found: bool)
    requires
        pattern@ == COUNTRY_ID_PATTERN@,
    ensures
        found == is_country_id(text@),
{
    match regex::Regex::new(pattern) {
        Ok(compiled) => compiled.is_match(text),
        Err(_) => false,
    }
}

/// Whether the service takes `id` as a country identifier.
pub fn is_valid_country_id(id: &str) -> (valid: bool)
    ensures
        valid == is_country_id(id@),
{
    matches_pattern(COUNTRY_ID_PATTERN, id)
}

/// What the service answers to a request for a country record.
#[derive(Debug, Clone, PartialEq, Eq)]
pub enum CountryAnswer {
    /// The identifier is not one: the request is refused.
    BadRequest,
    /// The store holds no record of the country.
    NotFound,
    /// The record, as the store gave it.
    Found(String),
}

/// The first step of a request for `id`: the refusal of an identifier that
/// is not one, or `None` where the store is to be asked.
pub fn screen(id: &str) -> (refusal: Option<CountryAnswer>)
    ensures
        refusal == if is_country_id(id@) {
            None
        } else {
            Some(CountryAnswer::BadRequest)
        },
{
    if is_valid_country_id(id) {
        None
    } else {
        Some(CountryAnswer::BadRequest)
    }
}

/// The answer for a valid identifier once the store has been asked.
pub fn answer_from_store(record: Option<String>) -> (answer: CountryAnswer)
    ensures
        answer == match record {
            Some(json) => CountryAnswer::Found(json),
            None => CountryAnswer::NotFound,
        },
{
    match record {
        Some(json) => CountryAnswer::Found(json),
        None => CountryAnswer::NotFound,
    }
}

} // verus!
