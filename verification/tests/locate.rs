use audioworkshop_core::errors::ErrorKind;
use audioworkshop_core::fsview::FsView;
use audioworkshop_core::locate::{
    binaries_search, ffmpeg_path, find_binaries_dir, first_existing, has_required_binaries,
    repair_plan, repair_verdict,
};

fn view_of(paths: &[&str]) -> FsView {
    let mut fs = FsView::new();
    for p in paths {
        fs.record((*p).to_string());
    }
    fs
}

#[test]
fn a_directory_with_any_required_tool_qualifies() {
    let fs = view_of(&["/x/bin/ffmpeg.exe"]);
    assert!(has_required_binaries("/x/bin", &fs));
    let fs2 = view_of(&["/x/bin/yt-dlp-x86_64-pc-windows-msvc.exe"]);
    assert!(has_required_binaries("/x/bin", &fs2));
    let fs3 = view_of(&["/x/bin/other.exe"]);
    assert!(!has_required_binaries("/x/bin", &fs3));
}

#[test]
fn first_existing_respects_the_candidate_order() {
    let fs = view_of(&["/a/second", "/a/first"]);
    let candidates = vec!["/a/first".to_string(), "/a/second".to_string()];
    assert_eq!(first_existing(&candidates, &fs), Some("/a/first".to_string()));
    let fs2 = view_of(&["/a/second"]);
    assert_eq!(first_existing(&candidates, &fs2), Some("/a/second".to_string()));
    let fs3 = view_of(&[]);
    assert_eq!(first_existing(&candidates, &fs3), None);
}

#[test]
fn the_walk_probes_binaries_subfolders_before_the_ancestor_itself() {
    let fs = view_of(&["/app/run/binaries/ffmpeg.exe", "/app/run/ffmpeg.exe"]);
    assert_eq!(find_binaries_dir("/app/run", &fs), Some("/app/run/binaries".to_string()));
}

#[test]
fn the_walk_climbs_to_an_ancestor_layout() {
    let fs = view_of(&["/app/resources/binaries/ffprobe.exe"]);
    assert_eq!(
        find_binaries_dir("/app/run/deep", &fs),
        Some("/app/resources/binaries".to_string())
    );
    let none = view_of(&["/elsewhere/ffmpeg.exe"]);
    assert_eq!(find_binaries_dir("/app/run", &none), None);
}

#[test]
fn the_nested_src_layout_is_probed() {
    let fs = view_of(&["/proj/src/binaries/yt-dlp.exe"]);
    assert_eq!(find_binaries_dir("/proj/target", &fs), Some("/proj/src/binaries".to_string()));
}

#[test]
fn the_resource_layer_wins_over_the_executable_walk() {
    let fs = view_of(&["/res/binaries/ffmpeg.exe", "/exe/binaries/ffmpeg.exe"]);
    let (found, trail) = binaries_search(Some("/res"), Some("/exe"), None, &fs);
    assert_eq!(found, Some("/res/binaries".to_string()));
    assert!(trail.into_lines().len() >= 1);
}

#[test]
fn the_search_falls_back_to_exe_then_cwd() {
    let fs = view_of(&["/work/binaries/ffmpeg.exe"]);
    let (found, _) = binaries_search(Some("/res"), Some("/exe"), Some("/work/sub"), &fs);
    assert_eq!(found, Some("/work/binaries".to_string()));
    let (none, trail) = binaries_search(None, None, None, &fs);
    assert_eq!(none, None);
    assert!(trail.into_lines().len() >= 3);
}

#[test]
fn repair_plans_copies_for_loose_tools_beside_the_executable() {
    let fs = view_of(&["/exe/ffmpeg.exe", "/exe/ffprobe-x86_64-pc-windows-msvc.exe"]);
    let (bdir, plan) = repair_plan("/exe", &fs);
    assert_eq!(bdir, "/exe/binaries");
    assert_eq!(plan.len(), 2);
    assert_eq!(plan[0].src, "/exe/ffmpeg.exe");
    assert_eq!(plan[0].dest, "/exe/binaries/ffmpeg-x86_64-pc-windows-msvc.exe");
    assert_eq!(plan[1].src, "/exe/ffprobe-x86_64-pc-windows-msvc.exe");
    assert_eq!(plan[1].dest, "/exe/binaries/ffprobe-x86_64-pc-windows-msvc.exe");
}

#[test]
fn repair_skips_tools_already_in_the_canonical_folder() {
    let fs = view_of(&["/exe/ffmpeg.exe", "/exe/binaries/ffmpeg-x86_64-pc-windows-msvc.exe"]);
    let (_, plan) = repair_plan("/exe", &fs);
    assert_eq!(plan.len(), 0);
}

#[test]
fn a_flat_layout_is_repaired_and_a_retry_succeeds() {
    // Loose tool beside the executable, no binaries subfolder anywhere.
    let fs = view_of(&["/exe/ffmpeg.exe"]);
    assert_eq!(find_binaries_dir("/exe", &fs), Some("/exe".to_string()));
    let (bdir, plan) = repair_plan("/exe", &fs);
    assert_eq!(plan.len(), 1);
    // Carrying the plan out adds every destination to the filesystem.
    let mut after = view_of(&["/exe/ffmpeg.exe"]);
    for op in &plan {
        after.record(op.dest.clone());
    }
    assert!(has_required_binaries(&bdir, &after));
    assert_eq!(find_binaries_dir("/exe", &after), Some("/exe/binaries".to_string()));
}

#[test]
fn repair_verdict_reports_each_outcome() {
    let ok = repair_verdict("/exe/binaries".to_string(), true, true).unwrap();
    assert_eq!(ok, Some("/exe/binaries".to_string()));
    let still_missing = repair_verdict("/exe/binaries".to_string(), true, false).unwrap_err();
    assert_eq!(still_missing.kind(), ErrorKind::NotFound);
    let nothing = repair_verdict("/exe/binaries".to_string(), false, false).unwrap();
    assert_eq!(nothing, None);
}

#[test]
fn the_transcoder_is_picked_qualified_name_first() {
    let fs = view_of(&["/b/ffmpeg.exe", "/b/ffmpeg-x86_64-pc-windows-msvc.exe"]);
    assert_eq!(ffmpeg_path("/b", &fs).unwrap(), "/b/ffmpeg-x86_64-pc-windows-msvc.exe");
    let bare = view_of(&["/b/ffmpeg.exe"]);
    assert_eq!(ffmpeg_path("/b", &bare).unwrap(), "/b/ffmpeg.exe");
    let none = view_of(&["/b/ffprobe.exe"]);
    assert_eq!(ffmpeg_path("/b", &none).unwrap_err().kind(), ErrorKind::NotFound);
}
