use audioworkshop_core::errors::ErrorKind;
use audioworkshop_core::export::{
    export_file_name, export_roots_for, ffmpeg_args, plan_export_audio, ExportSession, ExportStage,
};
use audioworkshop_core::provision::Settings;
use audioworkshop_core::sys::{json_encode_str, now_file_stamp, today_date_folder};
use audioworkshop_core::ident::{is_valid_date_folder};
use audioworkshop_core::trace::{
    exit_record, invocation_record, join_with, split_lines, start_error_record, start_record,
    tail_lines_text, video_log_path,
};

#[test]
fn lines_split_like_the_standard_reading() {
    let lines = split_lines("a\nb\r\nc");
    assert_eq!(lines, vec!["a".to_string(), "b".to_string(), "c".to_string()]);
    assert_eq!(split_lines(""), Vec::<String>::new());
    assert_eq!(split_lines("one"), vec!["one".to_string()]);
    assert_eq!(split_lines("x\n"), vec!["x".to_string()]);
    assert_eq!(split_lines("\n\n"), vec!["".to_string(), "".to_string()]);
}

#[test]
fn lines_split_like_the_standard_library_on_samples() {
    for sample in [
        "",
        "a",
        "a\nb",
        "a\r\nb\r\n",
        "trailing\n",
        "\r\n",
        "mixed\nlines\r\nhere\rno",
        "frame=1\nframe=2\n",
    ] {
        let ours = split_lines(sample);
        let std_lines: Vec<String> = sample.lines().map(|l| l.to_string()).collect();
        assert_eq!(ours, std_lines, "sample: {sample:?}");
    }
}

#[test]
fn the_tail_keeps_the_last_lines_in_order() {
    assert_eq!(tail_lines_text("1\n2\n3\n4", 2, "\n"), "3\n4");
    assert_eq!(tail_lines_text("1\n2", 50, "\\n"), "1\\n2");
    assert_eq!(tail_lines_text("", 50, "\n"), "");
    assert_eq!(tail_lines_text("only", 1, "\n"), "only");
}

#[test]
fn joining_uses_the_separator_between_pieces() {
    let parts = vec!["-y".to_string(), "-f".to_string(), "lavfi".to_string()];
    assert_eq!(join_with(&parts, " "), "-y -f lavfi");
    assert_eq!(join_with(&Vec::new(), " "), "");
}

#[test]
fn records_carry_their_stage_and_payload() {
    assert_eq!(
        start_record("/in/a.wav"),
        "{\"stage\":\"backend_export_video_start\",\"input\":\"/in/a.wav\"}"
    );
    assert_eq!(
        start_error_record("invalid_input_path"),
        "{\"stage\":\"backend_export_video_start\",\"error\":\"invalid_input_path\"}"
    );
    assert_eq!(
        invocation_record("-y -i x"),
        "{\"stage\":\"backend_ffmpeg_start\",\"args\":\"-y -i x\"}"
    );
    assert_eq!(
        exit_record(0, "\"tail\""),
        "{\"stage\":\"backend_ffmpeg_exit\",\"code\":0,\"tail\":\"tail\"}"
    );
    assert_eq!(
        exit_record(-1, "\"\""),
        "{\"stage\":\"backend_ffmpeg_exit\",\"code\":-1,\"tail\":\"\"}"
    );
}

#[test]
fn the_session_log_name_embeds_the_validated_id() {
    assert_eq!(
        video_log_path("/ar", "20240517_1200").unwrap(),
        "/ar/logs/video_export_20240517_1200.log"
    );
    assert_eq!(video_log_path("/ar", "../etc").unwrap_err().kind(), ErrorKind::Validation);
}

#[test]
fn the_encoded_tail_is_one_quoted_line() {
    let encoded = json_encode_str("a\nb\"c\\d");
    assert_eq!(encoded, serde_json::to_string("a\nb\"c\\d").unwrap());
    assert!(encoded.starts_with('"') && encoded.ends_with('"'));
    assert!(!encoded.contains('\n'));
}

#[test]
fn clock_stamps_fit_the_name_charsets() {
    let date = today_date_folder();
    assert!(date.len() >= 10);
    assert!(is_valid_date_folder(&date));
    let stamp = now_file_stamp();
    assert!(stamp.len() >= 15);
    assert!(stamp.chars().all(|c| c.is_ascii_digit() || c == '_'));
}

#[test]
fn the_artifact_name_embeds_the_session_and_the_fixed_tag() {
    assert_eq!(
        export_file_name("20240517_1200"),
        "audioworkshop__20240517_1200__1080x1920_30fps__black.mp4"
    );
}

#[test]
fn the_argument_list_is_fixed_around_input_and_output() {
    let args = ffmpeg_args("/in/a.wav", "/out/v.mp4");
    let expected: Vec<String> = [
        "-y", "-f", "lavfi", "-i", "color=black:s=1080x1920:r=30", "-i", "/in/a.wav", "-shortest",
        "-c:v", "libx264", "-pix_fmt", "yuv420p", "-r", "30", "-c:a", "aac", "-ar", "44100", "-ac",
        "2", "-b:a", "192k", "-movflags", "+faststart", "/out/v.mp4",
    ]
    .iter()
    .map(|s| s.to_string())
    .collect();
    assert_eq!(args, expected);
}

#[test]
fn export_roots_bucket_the_default_but_not_an_explicit_root() {
    let s = Settings::empty();
    let (base, dir) = export_roots_for(&s, "/ar", "/home/u", None, "2024-05-17");
    assert_eq!(base, "/home/u/Downloads");
    assert_eq!(dir, "/home/u/Downloads/2024-05-17");
    let (base2, dir2) = export_roots_for(&s, "/ar", "/home/u", Some("/mnt/out"), "2024-05-17");
    assert_eq!(base2, "/mnt/out");
    assert_eq!(dir2, "/mnt/out");
    let (base3, dir3) = export_roots_for(&s, "/ar", "/home/u", Some("rel"), "2024-05-17");
    assert_eq!(base3, "/ar/rel");
    assert_eq!(dir3, "/ar/rel");
}

#[test]
fn audio_export_lands_under_the_dated_bucket_with_a_sanitized_name() {
    let s = Settings::empty();
    let (base, dir, out) =
        plan_export_audio(&s, "/ar", "/home/u", "../sneaky/track.mp3", "mp3", None, "2024-05-17");
    assert_eq!(base, "/home/u/Downloads");
    assert_eq!(dir, "/home/u/Downloads/2024-05-17");
    assert_eq!(out, "/home/u/Downloads/2024-05-17/track.mp3");
    let (_, _, out2) = plan_export_audio(&s, "/ar", "/home/u", "  ", " ogg ", None, "2024-05-17");
    assert_eq!(out2, "/home/u/Downloads/2024-05-17/audioworkshop-output.ogg");
}

#[test]
fn a_session_rejects_a_bad_id_before_anything_else() {
    let e = ExportSession::begin("bad id".to_string(), "/in/a.wav".to_string()).unwrap_err();
    assert_eq!(e.kind(), ErrorKind::Validation);
}

#[test]
fn an_export_that_completes_leaves_the_four_records_in_order() {
    let mut s =
        ExportSession::begin("20240517_1200".to_string(), "/root/in/a.wav".to_string()).unwrap();
    s.check_input("/root", Some("/root/in")).unwrap();
    s.prepare_output("/home/u/Downloads/2024-05-17", true, "").unwrap();
    let (prog, args) = s.launch(Some("/b/ffmpeg.exe".to_string()), "").unwrap();
    assert_eq!(prog, "/b/ffmpeg.exe");
    let out = s.finish(Some(0), "frame=1\nframe=2\n".to_string()).unwrap();
    assert_eq!(
        out,
        "/home/u/Downloads/2024-05-17/audioworkshop__20240517_1200__1080x1920_30fps__black.mp4"
    );
    assert_eq!(s.stage, ExportStage::Completed);
    assert_eq!(s.records.len(), 4);
    assert_eq!(s.records[0], "{\"stage\":\"backend_export_video_start\",\"input\":\"/root/in/a.wav\"}");
    let expected_args_line = args.join(" ");
    assert_eq!(
        s.records[1],
        format!("{{\"stage\":\"backend_ffmpeg_start\",\"args\":\"{}\"}}", expected_args_line)
    );
    let expected_tail = serde_json::to_string("frame=1\\nframe=2").unwrap();
    assert_eq!(
        s.records[2],
        format!("{{\"stage\":\"backend_ffmpeg_exit\",\"code\":0,\"tail\":{}}}", expected_tail)
    );
    assert_eq!(s.records[3], "frame=1\nframe=2\n");
}

#[test]
fn an_input_outside_the_sandbox_fails_before_any_work() {
    let mut s = ExportSession::begin("1".to_string(), "/etc/passwd".to_string()).unwrap();
    let e = s.check_input("/root/sandbox", Some("/etc")).unwrap_err();
    assert_eq!(e.kind(), ErrorKind::PathSecurity);
    assert_eq!(s.stage, ExportStage::Failed);
    assert_eq!(
        s.records,
        vec!["{\"stage\":\"backend_export_video_start\",\"error\":\"invalid_input_path\"}"
            .to_string()]
    );
}

#[test]
fn a_nonzero_exit_is_a_generic_failure_with_the_trace_kept() {
    let mut s = ExportSession::begin("2".to_string(), "/root/in/a.wav".to_string()).unwrap();
    s.check_input("/root", Some("/root/in")).unwrap();
    s.prepare_output("/out", true, "").unwrap();
    s.launch(Some("ffmpeg".to_string()), "").unwrap();
    let e = s.finish(Some(1), "boom".to_string()).unwrap_err();
    assert_eq!(e.kind(), ErrorKind::ProcessExit);
    assert_eq!(e.message(), "Export failed. See logs.");
    assert_eq!(s.stage, ExportStage::Failed);
    assert_eq!(s.records.len(), 4);
}

#[test]
fn a_missing_transcoder_records_the_cause() {
    let mut s = ExportSession::begin("3".to_string(), "/root/in/a.wav".to_string()).unwrap();
    s.check_input("/root", Some("/root/in")).unwrap();
    s.prepare_output("/out", true, "").unwrap();
    let e = s.launch(None, "ffmpeg executable not found").unwrap_err();
    assert_eq!(e.kind(), ErrorKind::NotFound);
    assert_eq!(s.stage, ExportStage::Failed);
    assert_eq!(
        s.records[1],
        "{\"stage\":\"backend_export_video_start\",\"error\":\"ffmpeg executable not found\"}"
    );
}

#[test]
fn a_spawn_failure_records_an_exit_error() {
    let mut s = ExportSession::begin("4".to_string(), "/root/in/a.wav".to_string()).unwrap();
    s.check_input("/root", Some("/root/in")).unwrap();
    s.prepare_output("/out", true, "").unwrap();
    s.launch(Some("ffmpeg".to_string()), "").unwrap();
    let e = s.fail_spawn("program not found");
    assert_eq!(e.kind(), ErrorKind::ProcessSpawn);
    assert_eq!(s.stage, ExportStage::Failed);
    assert_eq!(
        s.records[2],
        "{\"stage\":\"backend_ffmpeg_exit\",\"error\":\"program not found\"}"
    );
}
