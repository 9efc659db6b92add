use audioworkshop_core::ident::{is_valid_date_folder, is_valid_log_stamp};
use audioworkshop_core::names::{has_m4a_extension, file_name_part, sanitized_file_name};
use audioworkshop_core::paths::{is_absolute_path, is_within, parent_of, path_join, resolve_override};

#[test]
fn date_folder_charset_accepts_digits_and_dashes() {
    assert!(is_valid_date_folder("2024-05-17"));
    assert!(is_valid_date_folder(""));
    assert!(is_valid_date_folder("20240517"));
}

#[test]
fn date_folder_charset_rejects_other_characters() {
    assert!(!is_valid_date_folder("2024-05-17x"));
    assert!(!is_valid_date_folder("2024/05/17"));
    assert!(!is_valid_date_folder("../2024"));
    assert!(!is_valid_date_folder("2024_05"));
    assert!(!is_valid_date_folder("a"));
}

#[test]
fn log_stamp_charset_accepts_digits_and_underscores() {
    assert!(is_valid_log_stamp("20240517_101500"));
    assert!(is_valid_log_stamp(""));
    assert!(is_valid_log_stamp("123"));
}

#[test]
fn log_stamp_charset_rejects_other_characters() {
    assert!(!is_valid_log_stamp("2024-05-17"));
    assert!(!is_valid_log_stamp("abc"));
    assert!(!is_valid_log_stamp("12 34"));
    assert!(!is_valid_log_stamp("..\\x"));
}

#[test]
fn path_join_appends_one_component() {
    assert_eq!(path_join("/opt/app", "logs"), "/opt/app/logs");
    assert_eq!(path_join("", "x"), "/x");
}

#[test]
fn is_within_accepts_the_root_itself_and_descendants() {
    assert!(is_within("/data/app", "/data/app"));
    assert!(is_within("/data/app", "/data/app/sub"));
    assert!(is_within("/data/app", "/data/app/sub/deeper"));
    assert!(is_within("/", "/data"));
}

#[test]
fn is_within_rejects_outside_paths() {
    assert!(!is_within("/data/app", "/data"));
    assert!(!is_within("/data/app", "/data/apps"));
    assert!(!is_within("/data/app", "/etc"));
    assert!(!is_within("/data/app", ""));
}

#[test]
fn parent_of_walks_up() {
    assert_eq!(parent_of("/a/b/c"), Some("/a/b".to_string()));
    assert_eq!(parent_of("/a"), Some("/".to_string()));
    assert_eq!(parent_of("/"), None);
    assert_eq!(parent_of("name"), Some("".to_string()));
    assert_eq!(parent_of(""), None);
}

#[test]
fn absolute_paths_are_recognized() {
    assert!(is_absolute_path("/x/y"));
    assert!(is_absolute_path("\\server\\share"));
    assert!(is_absolute_path("C:\\Users"));
    assert!(!is_absolute_path("relative/dir"));
    assert!(!is_absolute_path(""));
}

#[test]
fn overrides_resolve_absolute_or_under_the_app_root() {
    assert_eq!(resolve_override("/root/app", "/elsewhere"), "/elsewhere");
    assert_eq!(resolve_override("/root/app", "custom"), "/root/app/custom");
}

#[test]
fn file_name_part_takes_the_final_component() {
    assert_eq!(file_name_part("/a/b/song.m4a"), "song.m4a");
    assert_eq!(file_name_part("c:\\dir\\song.m4a"), "song.m4a");
    assert_eq!(file_name_part("plain"), "plain");
    assert_eq!(file_name_part(""), "");
}

#[test]
fn m4a_extension_is_matched_case_insensitively() {
    assert!(has_m4a_extension("/d/track.m4a"));
    assert!(has_m4a_extension("/d/track.M4A"));
    assert!(has_m4a_extension("track.m4a"));
    assert!(!has_m4a_extension("/d/track.mp3"));
    assert!(!has_m4a_extension("/d/track"));
    assert!(!has_m4a_extension("/d/.m4a"));
    assert!(!has_m4a_extension("/d/track.m4a.part"));
}

#[test]
fn sanitized_file_name_keeps_a_plain_component() {
    assert_eq!(sanitized_file_name("song.mp3", "mp3"), "song.mp3");
    assert_eq!(sanitized_file_name("/tmp/evil/../song.mp3", "mp3"), "song.mp3");
    assert_eq!(sanitized_file_name("dir\\song.wav", "mp3"), "song.wav");
}

#[test]
fn sanitized_file_name_falls_back_on_degenerate_names() {
    assert_eq!(sanitized_file_name("", "mp3"), "audioworkshop-output");
    assert_eq!(sanitized_file_name("a/..", "mp3"), "audioworkshop-output");
    assert_eq!(sanitized_file_name(".", "mp3"), "audioworkshop-output");
    assert_eq!(sanitized_file_name("dir/   ", "ogg"), "audioworkshop-output.ogg");
}
