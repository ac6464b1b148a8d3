//! The calls into `chrono` and `serde_json` on which the library rests.
//!
//! Nothing in this file is proved: each contract is a claim about code outside
//! this crate.

use vstd::prelude::*;
use crate::dates::date_format;
use crate::json::json_string;

verus! {

/// `chrono::format::ParseError`, the reason for which `chrono` could not parse
/// a date.  The library does not look inside it.
#[verifier::external_type_specification]
#[verifier::external_body]
pub struct ExParseError(chrono::format::ParseError);

/// `serde_json::Error`, the reason for which `serde_json` could not serialise
/// a value.  The library does not look inside it.
#[verifier::external_type_specification]
#[verifier::external_body]
pub struct ExJsonError(serde_json::Error);

/// The day number of the date that `chrono::NaiveDate::parse_from_str` reads
/// from `text` under the format string `format`, or `None` where it rejects the
/// text.
///
/// Days are counted in the proleptic Gregorian calendar, 1 January of the year
/// 1 being day 1, as `chrono::Datelike::num_days_from_ce` counts them.
pub uninterp spec fn parsed_day_number(text: Seq<char>, format: Seq<char>) -> Option<int>;

/// Calls `chrono::NaiveDate::parse_from_str` and hands the date back as its day
/// number (`chrono::Datelike::num_days_from_ce`).
///
/// The contract is stated for the one format that the library uses, year,
/// month and day.  It claims that the outcome depends on the two strings
/// alone: the call succeeds exactly where `parsed_day_number` is `Some`, and
/// then returns that day.
#[verifier::external_body]
pub(crate) fn parse_day_number(text: &str, format: &str) -> (parsed: Result<
    i32,
    chrono::format::ParseError,
>)
    requires
        format@ == date_format(),
    ensures
        parsed is Ok <==> parsed_day_number(text@, format@) is Some,
        parsed matches Ok(day) ==> parsed_day_number(text@, format@) == Some(day as int),
{
    match chrono::NaiveDate::parse_from_str(text, format) {
        Ok(date) => Ok(chrono::Datelike::num_days_from_ce(&date)),
        Err(error) => Err(error),
    }
}

/// Calls `serde_json::to_string` on a string slice.
///
/// The contract claims that the call succeeds and returns the string as a
/// JSON string: between quotation marks, with the quotation mark, the
/// backslash and the control characters below the space escaped as
/// `json_string` says, and every other character unchanged.
#[verifier::external_body]
pub(crate) fn json_string_literal(s: &str) -> (encoded: Result<String, serde_json::Error>)
    ensures
        encoded is Ok,
        encoded matches Ok(text) ==> text@ == json_string(s@),
{
    serde_json::to_string(s)
}

} // verus!
