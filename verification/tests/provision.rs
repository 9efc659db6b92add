use audioworkshop_core::errors::ErrorKind;
use audioworkshop_core::provision::{
    app_root_path, default_download_root, default_export_root, ensure_downloads_dir_path,
    logs_root, plan_set_download_root, plan_set_export_root, prepare_download_paths,
    prepare_temp_audio_path, probe_file_path, resolve_download_root, resolve_export_root,
    settings_path, tmp_root, Settings,
};

fn no_overrides() -> Settings {
    Settings::empty()
}

#[test]
fn fixed_locations_hang_off_the_app_root() {
    assert_eq!(app_root_path("/home/u/.local"), "/home/u/.local/AudioWorkshop");
    assert_eq!(settings_path("/ar"), "/ar/settings.json");
    assert_eq!(default_download_root("/ar"), "/ar/downloads");
    assert_eq!(logs_root("/ar"), "/ar/logs");
    assert_eq!(tmp_root("/ar"), "/ar/tmp");
    assert_eq!(default_export_root("/home/u"), "/home/u/Downloads");
    assert_eq!(probe_file_path("/ar/downloads"), "/ar/downloads/.aw_write_test");
}

#[test]
fn missing_settings_resolve_to_the_computed_defaults() {
    let s = no_overrides();
    assert_eq!(resolve_download_root(&s, "/ar"), "/ar/downloads");
    assert_eq!(resolve_export_root(&s, "/ar", "/home/u"), "/home/u/Downloads");
}

#[test]
fn overrides_win_absolute_or_relative() {
    let s = Settings {
        download_root: Some("/mnt/store".to_string()),
        export_root: Some("exports".to_string()),
    };
    assert_eq!(resolve_download_root(&s, "/ar"), "/mnt/store");
    assert_eq!(resolve_export_root(&s, "/ar", "/home/u"), "/ar/exports");
}

#[test]
fn setting_a_root_stores_the_validated_candidate() {
    let s = no_overrides();
    let u = plan_set_download_root(&s, "  /mnt/music  ", "/ar");
    assert_eq!(u.candidate.as_deref(), Some("/mnt/music"));
    assert_eq!(u.settings.download_root.as_deref(), Some("/mnt/music"));
    assert_eq!(u.settings.export_root, None);

    let u2 = plan_set_export_root(&s, "relative", "/ar");
    assert_eq!(u2.candidate.as_deref(), Some("/ar/relative"));
    assert_eq!(u2.settings.export_root.as_deref(), Some("/ar/relative"));
}

#[test]
fn blank_input_clears_the_override_back_to_the_default() {
    let s = Settings {
        download_root: Some("/mnt/store".to_string()),
        export_root: Some("/mnt/exports".to_string()),
    };
    let u = plan_set_export_root(&s, "   ", "/ar");
    assert_eq!(u.settings.export_root, None);
    assert_eq!(u.candidate, None);
    assert_eq!(u.settings.download_root.as_deref(), Some("/mnt/store"));
    assert_eq!(resolve_export_root(&u.settings, "/ar", "/home/u"), "/home/u/Downloads");

    let u2 = plan_set_download_root(&s, "", "/ar");
    assert_eq!(u2.settings.download_root, None);
    assert_eq!(resolve_download_root(&u2.settings, "/ar"), "/ar/downloads");
}

#[test]
fn downloads_dir_is_the_dated_bucket_under_the_root() {
    let s = no_overrides();
    let p = ensure_downloads_dir_path(&s, "/ar", "2024-05-17").unwrap();
    assert_eq!(p, "/ar/downloads/2024-05-17");
}

#[test]
fn downloads_dir_rejects_a_bad_date_folder_before_any_io() {
    let s = no_overrides();
    let e = ensure_downloads_dir_path(&s, "/ar", "../escape").unwrap_err();
    assert_eq!(e.kind(), ErrorKind::Validation);
    assert_eq!(e.message(), "Invalid date folder");
}

#[test]
fn temp_audio_path_embeds_both_identifiers() {
    let p = prepare_temp_audio_path("/ar", "2024-05-17", "20240517_1200").unwrap();
    assert_eq!(p, "/ar/tmp/2024-05-17/audioworkshop__20240517_1200.wav");
}

#[test]
fn temp_audio_path_rejects_bad_identifiers() {
    let e = prepare_temp_audio_path("/ar", "2024-05-17", "bad stamp").unwrap_err();
    assert_eq!(e.kind(), ErrorKind::Validation);
    assert_eq!(e.message(), "Invalid log stamp");
    let e2 = prepare_temp_audio_path("/ar", "weird/..", "123").unwrap_err();
    assert_eq!(e2.kind(), ErrorKind::Validation);
}

#[test]
fn prepare_download_returns_the_root_bucket_and_log_triple() {
    let s = no_overrides();
    let d = prepare_download_paths(&s, "/ar", "2024-05-17", "20240517_1200").unwrap();
    assert_eq!(d.download_root, "/ar/downloads");
    assert_eq!(d.download_dir, "/ar/downloads/2024-05-17");
    assert_eq!(d.log_path, "/ar/logs/download_20240517_1200.log");
}

#[test]
fn prepare_download_rejects_bad_identifiers() {
    let s = no_overrides();
    assert_eq!(
        prepare_download_paths(&s, "/ar", "nope!", "1").unwrap_err().kind(),
        ErrorKind::Validation
    );
    assert_eq!(
        prepare_download_paths(&s, "/ar", "2024", "no-dash").unwrap_err().kind(),
        ErrorKind::Validation
    );
}
