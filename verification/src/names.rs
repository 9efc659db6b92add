//! File-name extraction and sanitization. A UI-supplied name is reduced to
//! its final path component — both separator styles are treated as
//! separators here, the safer reading for sanitization — and a blank or
//! degenerate component falls back to a fixed output name.

use vstd::prelude::*;

use crate::text::trim_of;

verus! {

/// The index of the last path separator (`/` or `\`) in `s`, or `-1`.
pub open spec fn last_sep(s: Seq<char>) -> int
    decreases s.len(),
{
    if s.len() == 0 {
        -1
    } else if s[s.len() - 1] == '/' || s[s.len() - 1] == '\\' {
        s.len() - 1
    } else {
        last_sep(s.drop_last())
    }
}

/// Characters after the last separator are not separators, and the character
/// at the returned index is one.
pub proof fn lemma_last_sep(s: Seq<char>)
    ensures
        -1 <= last_sep(s) < s.len(),
        last_sep(s) >= 0 ==> (s[last_sep(s)] == '/' || s[last_sep(s)] == '\\'),
        forall|j: int| last_sep(s) < j < s.len() ==> (s[j] != '/' && s[j] != '\\'),
    decreases s.len(),
{
    if s.len() == 0 {
    } else if s[s.len() - 1] == '/' || s[s.len() - 1] == '\\' {
    } else {
        lemma_last_sep(s.drop_last());
        assert forall|j: int| last_sep(s) < j < s.len() - 1 implies (s[j] != '/' && s[j]
            != '\\') by {
            assert(s.drop_last()[j] == s[j]);
        }
    }
}

/// The final path component of `s`: everything after the last separator.
pub open spec fn file_part(s: Seq<char>) -> Seq<char> {
    s.skip(last_sep(s) + 1)
}

/// Extracts the final path component.
pub fn file_name_part(s: &str) -> (r: String)
    ensures
        r@ == file_part(s@),
{
    let len = s.unicode_len();
    let mut i: usize = len;
    while i > 0
        invariant
            i <= len,
            len == s@.len(),
            forall|j: int| i <= j < len ==> (s@[j] != '/' && s@[j] != '\\'),
        decreases i,
    {
        let c = s.get_char(i - 1);
        if c == '/' || c == '\\' {
            proof {
                lemma_last_sep(s@);
                assert(last_sep(s@) == i - 1) by {
                    if last_sep(s@) > i - 1 {
                        assert(s@[last_sep(s@)] != '/' && s@[last_sep(s@)] != '\\');
                    }
                    if last_sep(s@) < i - 1 {
                        assert(s@[i - 1] != '/' && s@[i - 1] != '\\');
                    }
                }
            }
            let part = s.substring_char(i, len);
            proof {
                assert(part@ =~= file_part(s@));
            }
            return part.to_owned();
        }
        i = i - 1;
    }
    proof {
        lemma_last_sep(s@);
        assert(last_sep(s@) == -1) by {
            if last_sep(s@) >= 0 {
                assert(s@[last_sep(s@)] != '/' && s@[last_sep(s@)] != '\\');
            }
        }
        assert(s@.skip(0) =~= s@);
    }
    s.to_owned()
}

/// The index of the last `.` in `s`, or `-1`.
pub open spec fn last_dot(s: Seq<char>) -> int
    decreases s.len(),
{
    if s.len() == 0 {
        -1
    } else if s[s.len() - 1] == '.' {
        s.len() - 1
    } else {
        last_dot(s.drop_last())
    }
}

/// Characters after the last dot are not dots, and the character at the
/// returned index is one.
pub proof fn lemma_last_dot(s: Seq<char>)
    ensures
        -1 <= last_dot(s) < s.len(),
        last_dot(s) >= 0 ==> s[last_dot(s)] == '.',
        forall|j: int| last_dot(s) < j < s.len() ==> s[j] != '.',
    decreases s.len(),
{
    if s.len() == 0 {
    } else if s[s.len() - 1] == '.' {
    } else {
        lemma_last_dot(s.drop_last());
        assert forall|j: int| last_dot(s) < j < s.len() - 1 implies s[j] != '.' by {
            assert(s.drop_last()[j] == s[j]);
        }
    }
}

/// The extension of a path: the part of its final component after the last
/// dot, absent when the component has no dot or only a leading one.
pub open spec fn extension_of(s: Seq<char>) -> Option<Seq<char>> {
    let name = file_part(s);
    let d = last_dot(name);
    if d <= 0 {
        Option::None
    } else {
        Option::Some(name.skip(d + 1))
    }
}

/// True iff the path carries the designated downloaded-audio extension,
/// compared without regard to ASCII case.
pub open spec fn is_m4a_path(s: Seq<char>) -> bool {
    extension_of(s) matches Some(e) && e.len() == 3 && (e[0] == 'm' || e[0] == 'M') && e[1] == '4'
        && (e[2] == 'a' || e[2] == 'A')
}

/// Decides whether the path carries the downloaded-audio extension.
pub fn has_m4a_extension(path: &str) -> (r: bool)
    ensures
        r == is_m4a_path(path@),
{
    let name = file_name_part(path);
    let nm = name.as_str();
    let nlen = nm.unicode_len();
    let mut i: usize = nlen;
    while i > 0
        invariant
            i <= nlen,
            nlen == nm@.len(),
            nm@ == file_part(path@),
            forall|j: int| i <= j < nlen ==> nm@[j] != '.',
        decreases i,
    {
        let c = nm.get_char(i - 1);
        if c == '.' {
            proof {
                lemma_last_dot(nm@);
                assert(last_dot(nm@) == i - 1) by {
                    if last_dot(nm@) > i - 1 {
                        assert(nm@[last_dot(nm@)] != '.');
                    }
                    if last_dot(nm@) < i - 1 {
                        assert(nm@[i - 1] != '.');
                    }
                }
            }
            if i - 1 == 0 {
                return false;
            }
            if nlen - i != 3 {
                proof {
                    assert(nm@.skip(i as int).len() == nlen - i);
                }
                return false;
            }
            let e0 = nm.get_char(i);
            let e1 = nm.get_char(i + 1);
            let e2 = nm.get_char(i + 2);
            proof {
                let e = nm@.skip(i as int);
                assert(e[0] == nm@[i as int]);
                assert(e[1] == nm@[i as int + 1]);
                assert(e[2] == nm@[i as int + 2]);
            }
            return ((e0 == 'm' || e0 == 'M') && e1 == '4' && (e2 == 'a' || e2 == 'A'));
        }
        i = i - 1;
    }
    proof {
        lemma_last_dot(nm@);
        assert(last_dot(nm@) == -1) by {
            if last_dot(nm@) >= 0 {
                assert(nm@[last_dot(nm@)] != '.');
            }
        }
    }
    false
}

/// The sanitized output file name for a UI-supplied name: the final path
/// component, falling back to a fixed name when that component is missing or
/// degenerate, and to the fixed name with the fallback extension when it is
/// blank.
pub open spec fn sanitized_name_of(name: Seq<char>, fallback_ext: Seq<char>) -> Seq<char> {
    let raw = file_part(name);
    if raw.len() == 0 || (raw.len() == 1 && raw[0] == '.') || (raw.len() == 2 && raw[0] == '.'
        && raw[1] == '.') {
        "audioworkshop-output"@
    } else if trim_of(raw).len() == 0 {
        "audioworkshop-output."@ + fallback_ext
    } else {
        raw
    }
}

/// Sanitizes a UI-supplied output file name.
pub fn sanitized_file_name(name: &str, fallback_ext: &str) -> (r: String)
    ensures
        r@ == sanitized_name_of(name@, fallback_ext@),
{
    let part = file_name_part(name);
    let ps = part.as_str();
    let plen = ps.unicode_len();
    if plen == 0 || (plen == 1 && ps.get_char(0) == '.') || (plen == 2 && ps.get_char(0) == '.'
        && ps.get_char(1) == '.') {
        return "audioworkshop-output".to_owned();
    }
    let trimmed = crate::text::trim(ps);
    if trimmed.as_str().unicode_len() == 0 {
        let mut r = "audioworkshop-output.".to_owned();
        r.append(fallback_ext);
        return r;
    }
    part
}

} // verus!
