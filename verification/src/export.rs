//! One export request, end to end. The session moves through the stages
//! `Idle → InputValidated → OutputPrepared → Running → {Completed | Failed}`,
//! terminal on either outcome: one request yields at most one external
//! process invocation and no retry. The shell performs the filesystem checks
//! and runs the transcoder; every decision, the output naming, the fixed
//! argument list and the ordered stage records of the session trace are
//! built and verified here.

use vstd::prelude::*;

use crate::errors::AppError;
use crate::errors::ErrorKind;
use crate::ident::log_stamp_chars_ok;
use crate::paths::is_within;
use crate::paths::joined;
use crate::paths::path_descends;
use crate::paths::path_join;
use crate::paths::resolve_override;
use crate::paths::resolved_override;
use crate::provision::export_root_of;
use crate::provision::resolve_export_root;
use crate::provision::Settings;
use crate::names::sanitized_file_name;
use crate::names::sanitized_name_of;
use crate::sys::json_encode_str;
use crate::sys::json_string_of;
use crate::text::concat3;
use crate::text::trim;
use crate::text::trim_of;
use crate::trace::exit_error_record;
use crate::trace::exit_error_record_of;
use crate::trace::exit_record;
use crate::trace::exit_record_of;
use crate::trace::invocation_record;
use crate::trace::invocation_record_of;
use crate::trace::join_with;
use crate::trace::joined_with;
use crate::trace::start_error_record;
use crate::trace::start_error_record_of;
use crate::trace::start_record;
use crate::trace::start_record_of;
use crate::trace::tail_lines_text;
use crate::trace::tail_text_of;

verus! {

/// The deterministic name of the export artifact: it embeds the session id
/// and the fixed resolution, frame rate and artifact-kind tag.
pub open spec fn export_file_name_of(session_id: Seq<char>) -> Seq<char> {
    "audioworkshop__"@ + session_id + "__1080x1920_30fps__black.mp4"@
}

/// Renders the export artifact's file name.
pub fn export_file_name(session_id: &str) -> (r: String)
    ensures
        r@ == export_file_name_of(session_id@),
{
    concat3("audioworkshop__", session_id, "__1080x1920_30fps__black.mp4")
}

/// The fixed transcoder argument list: a synthetic solid-color source at the
/// target resolution and frame rate, muxed with the input audio truncated or
/// extended to the shorter stream, fixed codec, pixel-format, sample-rate,
/// channel and bitrate parameters, and fast-start metadata placement.
pub open spec fn ffmpeg_args_of(input: Seq<char>, output: Seq<char>) -> Seq<Seq<char>> {
    seq![
        "-y"@,
        "-f"@,
        "lavfi"@,
        "-i"@,
        "color=black:s=1080x1920:r=30"@,
        "-i"@,
        input,
        "-shortest"@,
        "-c:v"@,
        "libx264"@,
        "-pix_fmt"@,
        "yuv420p"@,
        "-r"@,
        "30"@,
        "-c:a"@,
        "aac"@,
        "-ar"@,
        "44100"@,
        "-ac"@,
        "2"@,
        "-b:a"@,
        "192k"@,
        "-movflags"@,
        "+faststart"@,
        output,
    ]
}

/// Builds the fixed transcoder argument list.
pub fn ffmpeg_args(input: &str, output: &str) -> (r: Vec<String>)
    ensures
        r@.map_values(|s: String| s@) == ffmpeg_args_of(input@, output@),
{
    let mut r: Vec<String> = Vec::new();
    r.push("-y".to_owned());
    r.push("-f".to_owned());
    r.push("lavfi".to_owned());
    r.push("-i".to_owned());
    r.push("color=black:s=1080x1920:r=30".to_owned());
    r.push("-i".to_owned());
    r.push(input.to_owned());
    r.push("-shortest".to_owned());
    r.push("-c:v".to_owned());
    r.push("libx264".to_owned());
    r.push("-pix_fmt".to_owned());
    r.push("yuv420p".to_owned());
    r.push("-r".to_owned());
    r.push("30".to_owned());
    r.push("-c:a".to_owned());
    r.push("aac".to_owned());
    r.push("-ar".to_owned());
    r.push("44100".to_owned());
    r.push("-ac".to_owned());
    r.push("2".to_owned());
    r.push("-b:a".to_owned());
    r.push("192k".to_owned());
    r.push("-movflags".to_owned());
    r.push("+faststart".to_owned());
    r.push(output.to_owned());
    proof {
        assert(r@.map_values(|s: String| s@) =~= ffmpeg_args_of(input@, output@));
    }
    r
}

/// The base output root of an export: the caller's explicit root where one
/// was supplied, else the configured export root.
pub open spec fn export_base_of(
    s: Settings,
    app_root: Seq<char>,
    home: Seq<char>,
    output_root: Option<Seq<char>>,
) -> Seq<char> {
    match output_root {
        Option::Some(o) => resolved_override(app_root, o),
        Option::None => export_root_of(s, app_root, home),
    }
}

/// The directory an export lands in: the explicit root as-is, or the default
/// root bucketed under the wall-clock date folder.
pub open spec fn export_dir_of(
    s: Settings,
    app_root: Seq<char>,
    home: Seq<char>,
    output_root: Option<Seq<char>>,
    date_folder: Seq<char>,
) -> Seq<char> {
    match output_root {
        Option::Some(o) => resolved_override(app_root, o),
        Option::None => joined(export_root_of(s, app_root, home), date_folder),
    }
}

/// Resolves the base output root and the export directory for one request.
pub fn export_roots_for(
    settings: &Settings,
    app_root: &str,
    home: &str,
    output_root: Option<&str>,
    date_folder: &str,
) -> (r: (String, String))
    ensures
        r.0@ == export_base_of(
            *settings,
            app_root@,
            home@,
            match output_root {
                Option::Some(o) => Option::Some(o@),
                Option::None => Option::None,
            },
        ),
        r.1@ == export_dir_of(
            *settings,
            app_root@,
            home@,
            match output_root {
                Option::Some(o) => Option::Some(o@),
                Option::None => Option::None,
            },
            date_folder@,
        ),
{
    match output_root {
        Option::Some(o) => {
            let base = resolve_override(app_root, o);
            let dir = base.clone();
            (base, dir)
        },
        Option::None => {
            let base = resolve_export_root(settings, app_root, home);
            let dir = path_join(base.as_str(), date_folder);
            (base, dir)
        },
    }
}

/// The fallback extension of an exported audio artifact: the trimmed format,
/// or the default where it is blank.
pub open spec fn fallback_ext_of(format: Seq<char>) -> Seq<char> {
    if trim_of(format).len() == 0 {
        "mp3"@
    } else {
        trim_of(format)
    }
}

/// Plans a sandboxed, date-bucketed audio export: the base root to validate,
/// the directory to create, and the artifact path to write, under the
/// sanitized file name.
pub fn plan_export_audio(
    settings: &Settings,
    app_root: &str,
    home: &str,
    file_name: &str,
    format: &str,
    output_root: Option<&str>,
    date_folder: &str,
) -> (r: (String, String, String))
    ensures
        ({
            let root_view = match output_root {
                Option::Some(o) => Option::Some(o@),
                Option::None => Option::<Seq<char>>::None,
            };
            &&& r.0@ == export_base_of(*settings, app_root@, home@, root_view)
            &&& r.1@ == export_dir_of(*settings, app_root@, home@, root_view, date_folder@)
            &&& r.2@ == joined(
                export_dir_of(*settings, app_root@, home@, root_view, date_folder@),
                sanitized_name_of(file_name@, fallback_ext_of(format@)),
            )
        }),
{
    let trimmed_format = trim(format);
    let name = if trimmed_format.as_str().unicode_len() == 0 {
        sanitized_file_name(file_name, "mp3")
    } else {
        sanitized_file_name(file_name, trimmed_format.as_str())
    };
    let (base, dir) = export_roots_for(settings, app_root, home, output_root, date_folder);
    let out = path_join(dir.as_str(), name.as_str());
    (base, dir, out)
}

/// The stages one export request moves through, terminal on either outcome.
#[derive(Clone, Copy, PartialEq, Eq, Structural, Debug)]
pub enum ExportStage {
    Idle,
    InputValidated,
    OutputPrepared,
    Running,
    Completed,
    Failed,
}

/// The views of recorded trace lines.
pub open spec fn rec_views(v: Seq<String>) -> Seq<Seq<char>> {
    v.map_values(|s: String| s@)
}

/// The exit code as recorded: the process's own code, or a fixed marker
/// where none was reported.
pub open spec fn code_int(code: Option<i32>) -> int {
    match code {
        Option::Some(c) => c as int,
        Option::None => -1,
    }
}

/// One export request in flight: its identifiers, the path its artifact will
/// land at, and the ordered stage records accumulated for the session trace.
/// Records are only appended, never rewritten or reordered.
#[derive(Debug)]
pub struct ExportSession {
    pub stage: ExportStage,
    pub session_id: String,
    pub input_path: String,
    pub output_path: Option<String>,
    pub args_line: Option<String>,
    pub records: Vec<String>,
}

impl ExportSession {
    /// What each stage guarantees of the session's data and its trace so
    /// far: the records of a live session are exactly the stage records the
    /// run has earned, in order.
    pub open spec fn wf(self) -> bool {
        &&& log_stamp_chars_ok(self.session_id@)
        &&& match self.stage {
            ExportStage::Idle => self.records@.len() == 0,
            ExportStage::InputValidated => self.records@.len() == 0,
            ExportStage::OutputPrepared => {
                &&& self.output_path is Some
                &&& rec_views(self.records@) == seq![start_record_of(self.input_path@)]
            },
            ExportStage::Running => {
                &&& self.output_path is Some
                &&& self.args_line matches Some(al) && al@ == joined_with(
                    ffmpeg_args_of(self.input_path@, self.output_path->Some_0@),
                    " "@,
                )
                &&& rec_views(self.records@) == seq![
                    start_record_of(self.input_path@),
                    invocation_record_of(self.args_line->Some_0@),
                ]
            },
            ExportStage::Completed => self.output_path is Some,
            ExportStage::Failed => true,
        }
    }
    /// Opens one export attempt. The session id is spliced into file and log
    /// names, so it is held to its restricted charset before anything else.
    pub fn begin(session_id: String, input_path: String) -> (r: Result<ExportSession, AppError>)
        ensures
            r matches Ok(s) ==> log_stamp_chars_ok(session_id@) && s.wf() && s.stage
                == ExportStage::Idle && s.session_id == session_id && s.input_path == input_path
                && s.records@.len() == 0,
            r matches Err(e) ==> !log_stamp_chars_ok(session_id@) && e.kind
                == ErrorKind::Validation,
    {
        if !crate::ident::is_valid_log_stamp(session_id.as_str()) {
            return Result::Err(
                AppError::new(ErrorKind::Validation, "Invalid session id".to_owned()),
            );
        }
        Result::Ok(
            ExportSession {
                stage: ExportStage::Idle,
                session_id,
                input_path,
                output_path: Option::None,
                args_line: Option::None,
                records: Vec::new(),
            },
        )
    }

    /// Validates that the input lies in the sandbox: its canonical parent —
    /// absent where the shell could not resolve it — must be the sandbox
    /// root or a descendant. On failure the session is terminal, one stage
    /// record carries the cause, and the caller gets a generic error.
    pub fn check_input(&mut self, sandbox_root: &str, input_parent: Option<&str>) -> (r: Result<
        (),
        AppError,
    >)
        requires
            old(self).wf(),
            old(self).stage == ExportStage::Idle,
        ensures
            final(self).wf(),
            final(self).session_id == old(self).session_id,
            final(self).input_path == old(self).input_path,
            ({
                let ok = input_parent matches Some(p) && path_descends(p@, sandbox_root@);
                &&& ok ==> r is Ok && final(self).stage == ExportStage::InputValidated
                &&& ok ==> final(self).records == old(self).records
                &&& !ok ==> {
                    &&& r matches Err(e) && e.kind == ErrorKind::PathSecurity
                    &&& final(self).stage == ExportStage::Failed
                    &&& rec_views(final(self).records@) == rec_views(old(self).records@).push(
                        start_error_record_of("invalid_input_path"@),
                    )
                }
            }),
    {
        let ok = match input_parent {
            Option::Some(p) => is_within(sandbox_root, p),
            Option::None => false,
        };
        if ok {
            self.stage = ExportStage::InputValidated;
            Result::Ok(())
        } else {
            let rec = start_error_record("invalid_input_path");
            self.records.push(rec);
            self.stage = ExportStage::Failed;
            proof {
                assert(rec_views(self.records@) =~= rec_views(old(self).records@).push(
                    start_error_record_of("invalid_input_path"@),
                ));
            }
            Result::Err(AppError::new(ErrorKind::PathSecurity, "Invalid input path".to_owned()))
        }
    }

    /// Settles the output location once the shell has validated the export
    /// directory. On success the artifact path embeds the session id under
    /// `export_dir` and the opening stage record is laid down; on failure
    /// the session is terminal with the cause recorded and a generic error
    /// returned.
    pub fn prepare_output(&mut self, export_dir: &str, prepared: bool, err_detail: &str) -> (r:
        Result<(), AppError>)
        requires
            old(self).wf(),
            old(self).stage == ExportStage::InputValidated,
        ensures
            final(self).wf(),
            final(self).session_id == old(self).session_id,
            final(self).input_path == old(self).input_path,
            prepared ==> {
                &&& r is Ok
                &&& final(self).stage == ExportStage::OutputPrepared
                &&& final(self).output_path matches Some(o) && o@ == joined(
                    export_dir@,
                    export_file_name_of(old(self).session_id@),
                )
                &&& rec_views(final(self).records@) == seq![start_record_of(old(self).input_path@)]
            },
            !prepared ==> {
                &&& r matches Err(e) && e.kind == ErrorKind::Io
                &&& final(self).stage == ExportStage::Failed
                &&& rec_views(final(self).records@) == rec_views(old(self).records@).push(
                    start_error_record_of(err_detail@),
                )
            },
    {
        if prepared {
            let name = export_file_name(self.session_id.as_str());
            let out = path_join(export_dir, name.as_str());
            self.output_path = Option::Some(out);
            let rec = start_record(self.input_path.as_str());
            self.records.push(rec);
            self.stage = ExportStage::OutputPrepared;
            proof {
                assert(rec_views(self.records@) =~= seq![start_record_of(self.input_path@)]);
            }
            Result::Ok(())
        } else {
            let rec = start_error_record(err_detail);
            self.records.push(rec);
            self.stage = ExportStage::Failed;
            proof {
                assert(rec_views(self.records@) =~= rec_views(old(self).records@).push(
                    start_error_record_of(err_detail@),
                ));
            }
            Result::Err(AppError::new(ErrorKind::Io, "Export failed. See logs.".to_owned()))
        }
    }

    /// Takes the located transcoder and produces the program and the fixed
    /// argument list to run, recording the invocation. Where no transcoder
    /// was found the session is terminal with the cause recorded.
    pub fn launch(&mut self, transcoder: Option<String>, err_detail: &str) -> (r: Result<
        (String, Vec<String>),
        AppError,
    >)
        requires
            old(self).wf(),
            old(self).stage == ExportStage::OutputPrepared,
        ensures
            final(self).wf(),
            final(self).session_id == old(self).session_id,
            final(self).input_path == old(self).input_path,
            final(self).output_path == old(self).output_path,
            transcoder matches Some(t) ==> {
                &&& r matches Ok((prog, args)) && prog == t && args@.map_values(|s: String| s@)
                    == ffmpeg_args_of(old(self).input_path@, old(self).output_path->Some_0@)
                &&& final(self).stage == ExportStage::Running
                &&& rec_views(final(self).records@) == seq![
                    start_record_of(old(self).input_path@),
                    invocation_record_of(
                        joined_with(
                            ffmpeg_args_of(old(self).input_path@, old(self).output_path->Some_0@),
                            " "@,
                        ),
                    ),
                ]
            },
            transcoder is None ==> {
                &&& r matches Err(e) && e.kind == ErrorKind::NotFound
                &&& final(self).stage == ExportStage::Failed
                &&& rec_views(final(self).records@) == rec_views(old(self).records@).push(
                    start_error_record_of(err_detail@),
                )
            },
    {
        match transcoder {
            Option::Some(prog) => {
                let out = match &self.output_path {
                    Option::Some(o) => o.clone(),
                    Option::None => String::new(),
                };
                let args = ffmpeg_args(self.input_path.as_str(), out.as_str());
                let line = join_with(&args, " ");
                let rec = invocation_record(line.as_str());
                let ghost lv = line@;
                let ghost rv = rec@;
                let ghost before = self.records@;
                self.records.push(rec);
                self.args_line = Option::Some(line);
                self.stage = ExportStage::Running;
                proof {
                    assert(rec_views(before).len() == 1);
                    assert(before.len() == 1);
                    assert(self.records@[1]@ == rv);
                    assert(rec_views(before)[0] == before[0]@);
                    assert(before[0]@ == start_record_of(self.input_path@));
                    assert(rv == invocation_record_of(
                        joined_with(
                            ffmpeg_args_of(self.input_path@, old(self).output_path->Some_0@),
                            " "@,
                        ),
                    ));
                    assert(rec_views(self.records@) =~= seq![
                        start_record_of(self.input_path@),
                        invocation_record_of(
                            joined_with(
                                ffmpeg_args_of(self.input_path@, old(self).output_path->Some_0@),
                                " "@,
                            ),
                        ),
                    ]);
                }
                Result::Ok((prog, args))
            },
            Option::None => {
                let rec = start_error_record(err_detail);
                self.records.push(rec);
                self.stage = ExportStage::Failed;
                proof {
                    assert(rec_views(self.records@) =~= rec_views(old(self).records@).push(
                        start_error_record_of(err_detail@),
                    ));
                }
                Result::Err(
                    AppError::new(ErrorKind::NotFound, "Export failed. See logs.".to_owned()),
                )
            },
        }
    }

    /// Records that the external process never started; the session is
    /// terminal and the caller gets a generic error.
    pub fn fail_spawn(&mut self, err_detail: &str) -> (r: AppError)
        requires
            old(self).wf(),
            old(self).stage == ExportStage::Running,
        ensures
            final(self).wf(),
            final(self).stage == ExportStage::Failed,
            rec_views(final(self).records@) == rec_views(old(self).records@).push(
                exit_error_record_of(err_detail@),
            ),
            r.kind == ErrorKind::ProcessSpawn,
    {
        let rec = exit_error_record(err_detail);
        self.records.push(rec);
        self.stage = ExportStage::Failed;
        proof {
            assert(rec_views(self.records@) =~= rec_views(old(self).records@).push(
                exit_error_record_of(err_detail@),
            ));
        }
        AppError::new(ErrorKind::ProcessSpawn, "Export failed. See logs.".to_owned())
    }

    /// Closes the session once the process exited: the exit record carries
    /// the code and the encoded tail of the combined output, the raw output
    /// follows as the final record, and the full trace of a completed run is
    /// exactly the start, invocation, exit and raw-output records, in order.
    /// A zero exit code yields the artifact path; anything else a generic
    /// error.
    pub fn finish(&mut self, exit_code: Option<i32>, combined_output: String) -> (r: Result<
        String,
        AppError,
    >)
        requires
            old(self).wf(),
            old(self).stage == ExportStage::Running,
        ensures
            final(self).wf(),
            rec_views(final(self).records@) == seq![
                start_record_of(old(self).input_path@),
                invocation_record_of(old(self).args_line->Some_0@),
                exit_record_of(
                    code_int(exit_code),
                    json_string_of(tail_text_of(combined_output@, 50, "\\n"@)),
                ),
                combined_output@,
            ],
            exit_code == Option::Some(0i32) ==> final(self).stage == ExportStage::Completed && (
            r matches Ok(p) && Option::Some(p) == old(self).output_path),
            exit_code != Option::Some(0i32) ==> final(self).stage == ExportStage::Failed && (
            r matches Err(e) && e.kind == ErrorKind::ProcessExit),
    {
        let ghost co = combined_output@;
        let tail = tail_lines_text(combined_output.as_str(), 50, "\\n");
        let encoded = json_encode_str(tail.as_str());
        let code = match exit_code {
            Option::Some(c) => c,
            Option::None => -1,
        };
        let rec = exit_record(code, encoded.as_str());
        let ghost rv = rec@;
        let ghost before = self.records@;
        self.records.push(rec);
        self.records.push(combined_output);
        proof {
            assert(rec_views(before).len() == 2);
            assert(before.len() == 2);
            assert(self.records@[2]@ == rv);
            assert(self.records@[3]@ == co);
            assert(rec_views(before)[0] == before[0]@);
            assert(rec_views(before)[1] == before[1]@);
            assert(rec_views(self.records@) =~= seq![
                start_record_of(old(self).input_path@),
                invocation_record_of(old(self).args_line->Some_0@),
                exit_record_of(code_int(exit_code), json_string_of(tail_text_of(co, 50, "\\n"@))),
                co,
            ]);
        }
        let success = match exit_code {
            Option::Some(c) => c == 0,
            Option::None => false,
        };
        if success {
            self.stage = ExportStage::Completed;
            let out = match &self.output_path {
                Option::Some(o) => o.clone(),
                Option::None => String::new(),
            };
            Result::Ok(out)
        } else {
            self.stage = ExportStage::Failed;
            Result::Err(AppError::new(ErrorKind::ProcessExit, "Export failed. See logs.".to_owned()))
        }
    }
}

} // verus!
