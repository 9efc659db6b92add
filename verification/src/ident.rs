//! Restricted charsets for identifiers that are spliced into file and
//! directory names. A date-bucket folder may hold only digits and dashes; a
//! session id or log stamp only digits and underscores. Anything else is
//! rejected before the identifier comes near the filesystem.

use vstd::prelude::*;

verus! {

/// True iff every character of `s` is an ASCII digit or a dash,
/// the shape required of a date-bucket folder name.
pub open spec fn date_folder_chars_ok(s: Seq<char>) -> bool {
    forall|i: int| 0 <= i < s.len() ==> (('0' <= #[trigger] s[i] && s[i] <= '9') || s[i] == '-')
}

/// True iff every character of `s` is an ASCII digit or an underscore,
/// the shape required of a session id or log stamp.
pub open spec fn log_stamp_chars_ok(s: Seq<char>) -> bool {
    forall|i: int| 0 <= i < s.len() ==> (('0' <= #[trigger] s[i] && s[i] <= '9') || s[i] == '_')
}

/// Checks a date-bucket folder name against its restricted charset.
pub fn is_valid_date_folder(s: &str) -> (r: bool)
    ensures
        r == date_folder_chars_ok(s@),
{
    let len = s.unicode_len();
    let mut i: usize = 0;
    while i < len
        invariant
            i <= len,
            len == s@.len(),
            forall|j: int|
                0 <= j < i ==> (('0' <= #[trigger] s@[j] && s@[j] <= '9') || s@[j] == '-'),
        decreases len - i,
    {
        let c = s.get_char(i);
        if !(('0' <= c && c <= '9') || c == '-') {
            return false;
        }
        i = i + 1;
    }
    true
}

/// Checks a session id or log stamp against its restricted charset.
pub fn is_valid_log_stamp(s: &str) -> (r: bool)
    ensures
        r == log_stamp_chars_ok(s@),
{
    let len = s.unicode_len();
    let mut i: usize = 0;
    while i < len
        invariant
            i <= len,
            len == s@.len(),
            forall|j: int|
                0 <= j < i ==> (('0' <= #[trigger] s@[j] && s@[j] <= '9') || s@[j] == '_'),
        decreases len - i,
    {
        let c = s.get_char(i);
        if !(('0' <= c && c <= '9') || c == '_') {
            return false;
        }
        i = i + 1;
    }
    true
}

} // verus!
