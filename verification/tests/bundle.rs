use audioworkshop_core::bundle::{render_support_bundle, support_bundle_path, BundleInfo};

#[test]
fn the_bundle_path_sits_under_the_logs_root() {
    assert_eq!(
        support_bundle_path("/ar", "20240517_101500"),
        "/ar/logs/support_bundle_20240517_101500.txt"
    );
}

#[test]
fn the_bundle_text_lists_paths_and_both_log_tails() {
    let info = BundleInfo {
        stamp: "20240517_101500".to_string(),
        app_root_text: "/ar".to_string(),
        resource_dir_text: "(error: unavailable)".to_string(),
        current_exe_text: "/exe/app".to_string(),
        current_dir_text: "/work".to_string(),
        binaries_text: "/exe/binaries".to_string(),
        latest_download_text: "/ar/logs/download_1.log".to_string(),
        latest_download_tail: "last download line".to_string(),
        latest_video_text: "(none found)".to_string(),
        latest_video_tail: "(no video log tail)".to_string(),
    };
    let text = render_support_bundle(&info);
    let expected = "Audio Workshop Support Bundle\n\
                    generated_at=20240517_101500\n\n\
                    [paths]\n\
                    app_root=/ar\n\
                    resource_dir=(error: unavailable)\n\
                    current_exe=/exe/app\n\
                    current_dir=/work\n\
                    binaries_dir=/exe/binaries\n\n\
                    [latest_download_log]\n\
                    path=/ar/logs/download_1.log\n\
                    last download line\n\n\
                    [latest_video_log]\n\
                    path=(none found)\n\
                    (no video log tail)\n";
    assert_eq!(text, expected);
}
