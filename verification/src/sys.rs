//! The library's few ties to the outside world that are still pure values:
//! the wall-clock date and time rendered for folder and file names, and the
//! single-line encoding of arbitrary text. Each is a thin trusted wrapper
//! over an outside crate, stating only what that crate's source shows.

use vstd::prelude::*;

verus! {

/// The single-line string-literal encoding of `s`: what the JSON serializer
/// returns for a borrowed string.
pub uninterp spec fn json_string_of(s: Seq<char>) -> Seq<char>;

/// Relies on serde_json::to_string on a borrowed `str`: it returns the
/// RFC 8259 string literal for the input — double-quoted, with the quote,
/// the backslash and every control character escaped — so the result is a
/// single line, depends on the input characters alone, and never fails for
/// a plain string value.
#[verifier::external_body]
pub fn json_encode_str(s: &str) -> (r: String)
    ensures
        r@ == json_string_of(s@),
        r@.len() >= 2,
        r@[0] == '"',
        r@[r@.len() - 1] == '"',
        forall|i: int| 0 <= i < r@.len() ==> (r@[i] != '\n' && r@[i] != '\r'),
{
    serde_json::to_string(s).unwrap_or_default()
}

/// Relies on chrono::Local::now and its `%Y-%m-%d` formatting: zero-padded
/// numeric fields separated by dashes, the year at least four digits with a
/// sign only outside the four-digit range.
#[verifier::external_body]
pub fn today_date_folder() -> (r: String)
    ensures
        r@.len() >= 10,
        forall|i: int|
            0 <= i < r@.len() ==> (('0' <= r@[i] && r@[i] <= '9') || r@[i] == '-' || r@[i] == '+'),
{
    chrono::Local::now().format("%Y-%m-%d").to_string()
}

/// Relies on chrono::Local::now and its `%Y%m%d_%H%M%S` formatting:
/// zero-padded numeric fields with one underscore, the year at least four
/// digits with a sign only outside the four-digit range.
#[verifier::external_body]
pub fn now_file_stamp() -> (r: String)
    ensures
        r@.len() >= 15,
        forall|i: int|
            0 <= i < r@.len() ==> (('0' <= r@[i] && r@[i] <= '9') || r@[i] == '_' || r@[i] == '-'
                || r@[i] == '+'),
{
    chrono::Local::now().format("%Y%m%d_%H%M%S").to_string()
}

} // verus!
