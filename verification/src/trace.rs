//! The session trace: per-session log naming, the structured stage records
//! of one export, and the bounded tail of a process's combined output. Each
//! record is a single line, so one append to the session's log file carries
//! one whole record.

use vstd::prelude::*;

use crate::errors::AppError;
use crate::errors::ErrorKind;
use crate::ident::log_stamp_chars_ok;
use crate::numbers::dec_str_of;
use crate::numbers::i32_dec_string;
use crate::paths::joined;
use crate::paths::path_join;
use crate::provision::logs_root;
use crate::text::concat2;
use crate::text::concat3;

verus! {

/// The index of the first newline in `s`, or its length if there is none.
pub open spec fn first_nl(s: Seq<char>) -> nat
    decreases s.len(),
{
    if s.len() == 0 {
        0
    } else if s[0] == '\n' {
        0
    } else {
        1 + first_nl(s.skip(1))
    }
}

/// `first_nl` points at the first newline, or past the end.
pub proof fn lemma_first_nl(s: Seq<char>)
    ensures
        first_nl(s) <= s.len(),
        first_nl(s) < s.len() ==> s[first_nl(s) as int] == '\n',
        forall|j: int| 0 <= j < first_nl(s) ==> s[j] != '\n',
    decreases s.len(),
{
    if s.len() == 0 {
    } else if s[0] == '\n' {
    } else {
        lemma_first_nl(s.skip(1));
        assert forall|j: int| 0 <= j < first_nl(s) implies s[j] != '\n' by {
            if j > 0 {
                assert(s.skip(1)[j - 1] == s[j]);
            }
        }
    }
}

/// An index with no newline before it, and a newline (or the end) at it, is
/// where `first_nl` points.
pub proof fn lemma_first_nl_at(s: Seq<char>, j: int)
    requires
        0 <= j <= s.len(),
        forall|k: int| 0 <= k < j ==> s[k] != '\n',
        j == s.len() || s[j] == '\n',
    ensures
        first_nl(s) == j,
{
    lemma_first_nl(s);
    if first_nl(s) < j {
        assert(s[first_nl(s) as int] != '\n');
    }
    if first_nl(s) > j {
        assert(s[j] != '\n');
    }
}

/// A line's trailing carriage return, dropped when the line ended at a
/// newline.
pub open spec fn strip_cr(l: Seq<char>) -> Seq<char> {
    if l.len() > 0 && l[l.len() - 1] == '\r' {
        l.drop_last()
    } else {
        l
    }
}

/// The lines of `s`: pieces split at each newline, a carriage return
/// directly before a newline dropped, and no empty final piece after a
/// trailing newline.
pub open spec fn lines_of(s: Seq<char>) -> Seq<Seq<char>>
    decreases s.len(),
{
    if s.len() == 0 {
        Seq::empty()
    } else {
        let i = first_nl(s);
        if i >= s.len() {
            seq![s]
        } else {
            seq![strip_cr(s.take(i as int))] + lines_of(s.skip(i as int + 1))
        }
    }
}

/// Splits text into its lines.
pub fn split_lines(text: &str) -> (r: Vec<String>)
    ensures
        r@.map_values(|l: String| l@) == lines_of(text@),
{
    let len = text.unicode_len();
    let mut out: Vec<String> = Vec::new();
    let mut i: usize = 0;
    proof {
        assert(text@.skip(0) =~= text@);
        assert(out@.map_values(|l: String| l@) =~= Seq::<Seq<char>>::empty());
    }
    while i < len
        invariant
            i <= len,
            len == text@.len(),
            lines_of(text@) == out@.map_values(|l: String| l@) + lines_of(text@.skip(i as int)),
        decreases len - i,
    {
        let ghost rest = text@.skip(i as int);
        let ghost out0 = out@;
        let mut j: usize = i;
        while j < len && text.get_char(j) != '\n'
            invariant
                i <= j <= len,
                len == text@.len(),
                forall|k: int| i <= k < j ==> text@[k] != '\n',
            decreases len - j,
        {
            j = j + 1;
        }
        proof {
            lemma_first_nl_at(rest, j - i);
            assert forall|k: int| 0 <= k < j - i implies rest[k] != '\n' by {
                assert(rest[k] == text@[i + k]);
            }
            if j < len {
                assert(rest[j - i] == text@[j as int]);
            }
            lemma_first_nl_at(rest, j - i);
        }
        if j >= len {
            let piece = text.substring_char(i, len);
            out.push(piece.to_owned());
            proof {
                assert(piece@ =~= rest);
                assert(lines_of(rest) =~= seq![rest]);
                assert(out@.map_values(|l: String| l@) =~= out0.map_values(|l: String| l@)
                    + seq![rest]);
                assert(text@.skip(len as int) =~= Seq::<char>::empty());
                assert(lines_of(text@) == out@.map_values(|l: String| l@) + lines_of(
                    text@.skip(len as int),
                ));
            }
            i = len;
        } else {
            let end = if j > i && text.get_char(j - 1) == '\r' {
                j - 1
            } else {
                j
            };
            let piece = text.substring_char(i, end);
            out.push(piece.to_owned());
            proof {
                assert(rest.take(j - i) =~= text@.subrange(i as int, j as int));
                if j > i && text@[j - 1] == '\r' {
                    assert(piece@ =~= rest.take(j - i).drop_last());
                } else {
                    assert(piece@ =~= rest.take(j - i));
                }
                assert(piece@ == strip_cr(rest.take(j - i)));
                assert(lines_of(rest) == seq![strip_cr(rest.take(j - i))] + lines_of(
                    rest.skip(j - i + 1),
                ));
                assert(rest.skip(j - i + 1) =~= text@.skip(j as int + 1));
                assert(out@.map_values(|l: String| l@) =~= out0.map_values(|l: String| l@) + seq![
                    piece@,
                ]);
                assert(lines_of(text@) == out@.map_values(|l: String| l@) + lines_of(
                    text@.skip(j as int + 1),
                ));
            }
            i = j + 1;
        }
    }
    proof {
        assert(text@.skip(len as int) =~= Seq::<char>::empty());
        assert(lines_of(text@) =~= out@.map_values(|l: String| l@));
    }
    out
}

/// The pieces joined with `sep` between each pair.
pub open spec fn joined_with(parts: Seq<Seq<char>>, sep: Seq<char>) -> Seq<char>
    decreases parts.len(),
{
    if parts.len() == 0 {
        Seq::empty()
    } else if parts.len() == 1 {
        parts[0]
    } else {
        parts[0] + sep + joined_with(parts.skip(1), sep)
    }
}

/// Joining one more piece appends a separator and the piece.
pub proof fn lemma_join_push(parts: Seq<Seq<char>>, x: Seq<char>, sep: Seq<char>)
    ensures
        parts.len() == 0 ==> joined_with(parts.push(x), sep) == x,
        parts.len() > 0 ==> joined_with(parts.push(x), sep) == joined_with(parts, sep) + sep + x,
    decreases parts.len(),
{
    if parts.len() == 0 {
        assert(parts.push(x)[0] == x);
    } else {
        lemma_join_push(parts.skip(1), x, sep);
        assert(parts.push(x).skip(1) =~= parts.skip(1).push(x));
        assert(parts.push(x)[0] == parts[0]);
        if parts.len() == 1 {
            assert(joined_with(parts.push(x), sep) =~= joined_with(parts, sep) + sep + x);
        } else {
            assert(joined_with(parts.push(x), sep) =~= joined_with(parts, sep) + sep + x);
        }
    }
}

/// Joins the pieces with `sep` between each pair.
pub fn join_with(parts: &Vec<String>, sep: &str) -> (r: String)
    ensures
        r@ == joined_with(parts@.map_values(|l: String| l@), sep@),
{
    let ghost views = parts@.map_values(|l: String| l@);
    let n = parts.len();
    let mut acc = String::new();
    let mut j: usize = 0;
    while j < n
        invariant
            j <= n,
            n == parts@.len(),
            views == parts@.map_values(|l: String| l@),
            j == 0 ==> acc@ == Seq::<char>::empty(),
            j > 0 ==> acc@ == joined_with(views.take(j as int), sep@),
        decreases n - j,
    {
        proof {
            lemma_join_push(views.take(j as int), parts@[j as int]@, sep@);
            assert(views.take(j as int).push(parts@[j as int]@) =~= views.take(j + 1));
        }
        if j == 0 {
            acc = parts[j].clone();
            proof {
                assert(views.take(1)[0] == views[0]);
            }
        } else {
            acc.append(sep);
            acc.append(parts[j].as_str());
            proof {
                assert(acc@ =~= joined_with(views.take(j as int), sep@) + sep@ + parts@[j as int]@);
            }
        }
        j = j + 1;
    }
    proof {
        if n == 0 {
            assert(views =~= Seq::<Seq<char>>::empty());
        } else {
            assert(views.take(n as int) =~= views);
        }
    }
    acc
}

/// The last `n` entries of `parts`, in order.
pub open spec fn tail_seq(parts: Seq<Seq<char>>, n: nat) -> Seq<Seq<char>> {
    if parts.len() <= n {
        parts
    } else {
        parts.skip(parts.len() - n)
    }
}

/// The compact tail of a process's combined output: its last `max_lines`
/// lines, in order, joined with `sep`.
pub open spec fn tail_text_of(s: Seq<char>, max_lines: nat, sep: Seq<char>) -> Seq<char> {
    joined_with(tail_seq(lines_of(s), max_lines), sep)
}

/// Renders the last `max_lines` lines of `text`, joined with `sep`.
pub fn tail_lines_text(text: &str, max_lines: usize, sep: &str) -> (r: String)
    ensures
        r@ == tail_text_of(text@, max_lines as nat, sep@),
{
    let lines = split_lines(text);
    let ghost views = lines@.map_values(|l: String| l@);
    let n = lines.len();
    let start = if n > max_lines {
        n - max_lines
    } else {
        0
    };
    proof {
        if n > max_lines {
            assert(tail_seq(views, max_lines as nat) == views.skip(start as int));
        } else {
            assert(views.skip(0) =~= views);
            assert(tail_seq(views, max_lines as nat) == views.skip(start as int));
        }
    }
    let ghost wanted = views.skip(start as int);
    let mut acc = String::new();
    let mut j: usize = start;
    proof {
        assert(wanted.take(0) =~= Seq::<Seq<char>>::empty());
    }
    while j < n
        invariant
            start <= j <= n,
            n == lines@.len(),
            views == lines@.map_values(|l: String| l@),
            wanted == views.skip(start as int),
            j == start ==> acc@ == Seq::<char>::empty(),
            j > start ==> acc@ == joined_with(wanted.take(j - start), sep@),
            wanted.len() == n - start,
        decreases n - j,
    {
        proof {
            lemma_join_push(wanted.take(j - start), lines@[j as int]@, sep@);
            assert(wanted.take(j - start).push(lines@[j as int]@) =~= wanted.take(j + 1 - start));
        }
        if j == start {
            acc = lines[j].clone();
            proof {
                assert(wanted.take(1)[0] == wanted[0]);
                assert(wanted[0] == views[start as int]);
            }
        } else {
            acc.append(sep);
            acc.append(lines[j].as_str());
            proof {
                assert(acc@ =~= joined_with(wanted.take(j as int - start), sep@) + sep@
                    + lines@[j as int]@);
            }
        }
        j = j + 1;
    }
    proof {
        if n == start {
            assert(wanted =~= Seq::<Seq<char>>::empty());
            assert(joined_with(wanted, sep@) == Seq::<char>::empty());
        } else {
            assert(wanted.take(n - start) =~= wanted);
        }
    }
    acc
}

/// The file name of one session's trace log.
pub open spec fn video_log_name(stamp: Seq<char>) -> Seq<char> {
    "video_export_"@ + stamp + ".log"@
}

/// The path of one session's trace log under the logs root, rejected before
/// any filesystem access when the identifier fails its charset.
pub fn video_log_path(app_root: &str, stamp: &str) -> (r: Result<String, AppError>)
    ensures
        r is Ok <==> log_stamp_chars_ok(stamp@),
        r matches Ok(p) ==> p@ == joined(joined(app_root@, "logs"@), video_log_name(stamp@)),
        r matches Err(e) ==> e.kind == ErrorKind::Validation,
{
    if !crate::ident::is_valid_log_stamp(stamp) {
        return Result::Err(AppError::new(ErrorKind::Validation, "Invalid session id".to_owned()));
    }
    let logs = logs_root(app_root);
    let name = concat3("video_export_", stamp, ".log");
    proof {
        assert(name@ == video_log_name(stamp@));
    }
    Result::Ok(path_join(logs.as_str(), name.as_str()))
}

/// The structured record opening one export attempt.
pub open spec fn start_record_of(input: Seq<char>) -> Seq<char> {
    "{\"stage\":\"backend_export_video_start\",\"input\":\""@ + input + "\"}"@
}

/// Renders the record opening one export attempt.
pub fn start_record(input: &str) -> (r: String)
    ensures
        r@ == start_record_of(input@),
{
    concat3("{\"stage\":\"backend_export_video_start\",\"input\":\"", input, "\"}")
}

/// The structured record of a failure before the process ran.
pub open spec fn start_error_record_of(err: Seq<char>) -> Seq<char> {
    "{\"stage\":\"backend_export_video_start\",\"error\":\""@ + err + "\"}"@
}

/// Renders the record of a failure before the process ran.
pub fn start_error_record(err: &str) -> (r: String)
    ensures
        r@ == start_error_record_of(err@),
{
    concat3("{\"stage\":\"backend_export_video_start\",\"error\":\"", err, "\"}")
}

/// The structured record of the process invocation, carrying the full
/// argument list as one line.
pub open spec fn invocation_record_of(args_line: Seq<char>) -> Seq<char> {
    "{\"stage\":\"backend_ffmpeg_start\",\"args\":\""@ + args_line + "\"}"@
}

/// Renders the invocation record.
pub fn invocation_record(args_line: &str) -> (r: String)
    ensures
        r@ == invocation_record_of(args_line@),
{
    concat3("{\"stage\":\"backend_ffmpeg_start\",\"args\":\"", args_line, "\"}")
}

/// The structured record of the process exit: its code, and the tail of its
/// combined output as one encoded value.
pub open spec fn exit_record_of(code: int, tail_encoded: Seq<char>) -> Seq<char> {
    "{\"stage\":\"backend_ffmpeg_exit\",\"code\":"@ + dec_str_of(code) + ",\"tail\":"@
        + tail_encoded + "}"@
}

/// Renders the exit record.
pub fn exit_record(code: i32, tail_encoded: &str) -> (r: String)
    ensures
        r@ == exit_record_of(code as int, tail_encoded@),
{
    let num = i32_dec_string(code);
    let head = concat2("{\"stage\":\"backend_ffmpeg_exit\",\"code\":", num.as_str());
    let mut r = head;
    r.append(",\"tail\":");
    r.append(tail_encoded);
    r.append("}");
    proof {
        assert(r@ =~= exit_record_of(code as int, tail_encoded@));
    }
    r
}

/// The structured record of a process that could not start.
pub open spec fn exit_error_record_of(err: Seq<char>) -> Seq<char> {
    "{\"stage\":\"backend_ffmpeg_exit\",\"error\":\""@ + err + "\"}"@
}

/// Renders the record of a process that could not start.
pub fn exit_error_record(err: &str) -> (r: String)
    ensures
        r@ == exit_error_record_of(err@),
{
    concat3("{\"stage\":\"backend_ffmpeg_exit\",\"error\":\"", err, "\"}")
}

} // verus!
