//! Resolution of the runtime directory roots. Four logical roots exist:
//! download, export, temp and logs. Download and export may be overridden in
//! the persisted settings; an override is taken as absolute or as relative to
//! the application root, and an empty override input clears the stored
//! override back to the computed default. The shell loads and saves the
//! settings document and validates writability; every choice of a path is
//! made here.

use vstd::prelude::*;

use crate::errors::AppError;
use crate::errors::ErrorKind;
use crate::ident::date_folder_chars_ok;
use crate::ident::log_stamp_chars_ok;
use crate::paths::joined;
use crate::paths::path_join;
use crate::paths::resolve_override;
use crate::paths::resolved_override;
use crate::text::concat3;
use crate::text::trim;
use crate::text::trim_of;

verus! {

/// The persisted settings document: optional path overrides for the
/// download and export roots.
pub struct Settings {
    pub download_root: Option<String>,
    pub export_root: Option<String>,
}

impl Settings {
    /// The settings in force when no document exists: no overrides.
    pub fn empty() -> (r: Settings)
        ensures
            r.download_root is None,
            r.export_root is None,
    {
        Settings { download_root: Option::None, export_root: Option::None }
    }
}

/// Where the application keeps all of its state, under the platform's local
/// application-data directory.
pub fn app_root_path(local_app_data: &str) -> (r: String)
    ensures
        r@ == joined(local_app_data@, "AudioWorkshop"@),
{
    path_join(local_app_data, "AudioWorkshop")
}

/// The fixed location of the settings document under the application root.
pub fn settings_path(app_root: &str) -> (r: String)
    ensures
        r@ == joined(app_root@, "settings.json"@),
{
    path_join(app_root, "settings.json")
}

/// The computed default download root.
pub open spec fn default_download_of(app_root: Seq<char>) -> Seq<char> {
    joined(app_root, "downloads"@)
}

/// The download root used when no override is set.
pub fn default_download_root(app_root: &str) -> (r: String)
    ensures
        r@ == default_download_of(app_root@),
{
    path_join(app_root, "downloads")
}

/// The root holding the per-session and per-download log files.
pub fn logs_root(app_root: &str) -> (r: String)
    ensures
        r@ == joined(app_root@, "logs"@),
{
    path_join(app_root, "logs")
}

/// The root holding temporary working files.
pub fn tmp_root(app_root: &str) -> (r: String)
    ensures
        r@ == joined(app_root@, "tmp"@),
{
    path_join(app_root, "tmp")
}

/// The computed default export root, under the user's profile directory.
pub open spec fn default_export_of(home: Seq<char>) -> Seq<char> {
    joined(home, "Downloads"@)
}

/// The export root used when no override is set.
pub fn default_export_root(home: &str) -> (r: String)
    ensures
        r@ == default_export_of(home@),
{
    path_join(home, "Downloads")
}

/// The download root the settings resolve to: the override if one is set,
/// else the computed default.
pub open spec fn download_root_of(s: Settings, app_root: Seq<char>) -> Seq<char> {
    match s.download_root {
        Option::Some(over) => resolved_override(app_root, over@),
        Option::None => default_download_of(app_root),
    }
}

/// The export root the settings resolve to: the override if one is set, else
/// the computed default.
pub open spec fn export_root_of(s: Settings, app_root: Seq<char>, home: Seq<char>) -> Seq<char> {
    match s.export_root {
        Option::Some(over) => resolved_override(app_root, over@),
        Option::None => default_export_of(home),
    }
}

/// Resolves the download root from freshly loaded settings.
pub fn resolve_download_root(settings: &Settings, app_root: &str) -> (r: String)
    ensures
        r@ == download_root_of(*settings, app_root@),
{
    match &settings.download_root {
        Option::Some(over) => resolve_override(app_root, over.as_str()),
        Option::None => default_download_root(app_root),
    }
}

/// Resolves the export root from freshly loaded settings.
pub fn resolve_export_root(settings: &Settings, app_root: &str, home: &str) -> (r: String)
    ensures
        r@ == export_root_of(*settings, app_root@, home@),
{
    match &settings.export_root {
        Option::Some(over) => resolve_override(app_root, over.as_str()),
        Option::None => default_export_root(home),
    }
}

/// The outcome planned for a set-root request: the settings to persist and,
/// where the input named a directory, the candidate that must prove writable
/// before anything is persisted.
pub struct RootUpdate {
    pub settings: Settings,
    pub candidate: Option<String>,
}

/// Plans a set-download-root request. A blank input clears the override; any
/// other input resolves against the application root into a candidate that
/// the shell must validate before persisting the returned settings.
pub fn plan_set_download_root(settings: &Settings, input: &str, app_root: &str) -> (r: RootUpdate)
    ensures
        r.settings.export_root == settings.export_root,
        trim_of(input@).len() == 0 ==> r.settings.download_root is None && r.candidate is None
            && download_root_of(r.settings, app_root@) == default_download_of(app_root@),
        trim_of(input@).len() > 0 ==> {
            &&& r.candidate matches Some(c)
            &&& c@ == resolved_override(app_root@, trim_of(input@))
            &&& r.settings.download_root matches Some(o)
            &&& o@ == resolved_override(app_root@, trim_of(input@))
        },
{
    let export_copy = match &settings.export_root {
        Option::Some(p) => Option::Some(p.clone()),
        Option::None => Option::None,
    };
    let t = trim(input);
    if t.as_str().unicode_len() == 0 {
        return RootUpdate {
            settings: Settings { download_root: Option::None, export_root: export_copy },
            candidate: Option::None,
        };
    }
    let candidate = resolve_override(app_root, t.as_str());
    let stored = candidate.clone();
    RootUpdate {
        settings: Settings { download_root: Option::Some(stored), export_root: export_copy },
        candidate: Option::Some(candidate),
    }
}

/// Plans a set-export-root request, under the same rules as the download
/// root.
pub fn plan_set_export_root(settings: &Settings, input: &str, app_root: &str) -> (r: RootUpdate)
    ensures
        r.settings.download_root == settings.download_root,
        trim_of(input@).len() == 0 ==> r.settings.export_root is None && r.candidate is None
            && forall|home: Seq<char>|
            export_root_of(r.settings, app_root@, home) == default_export_of(home),
        trim_of(input@).len() > 0 ==> {
            &&& r.candidate matches Some(c)
            &&& c@ == resolved_override(app_root@, trim_of(input@))
            &&& r.settings.export_root matches Some(o)
            &&& o@ == resolved_override(app_root@, trim_of(input@))
        },
{
    let download_copy = match &settings.download_root {
        Option::Some(p) => Option::Some(p.clone()),
        Option::None => Option::None,
    };
    let t = trim(input);
    if t.as_str().unicode_len() == 0 {
        return RootUpdate {
            settings: Settings { download_root: download_copy, export_root: Option::None },
            candidate: Option::None,
        };
    }
    let candidate = resolve_override(app_root, t.as_str());
    let stored = candidate.clone();
    RootUpdate {
        settings: Settings { download_root: download_copy, export_root: Option::Some(stored) },
        candidate: Option::Some(candidate),
    }
}

/// The file name of a temporary working audio file for one session.
pub open spec fn temp_audio_name(log_stamp: Seq<char>) -> Seq<char> {
    "audioworkshop__"@ + log_stamp + ".wav"@
}

/// The file name of the log of one download.
pub open spec fn download_log_name(log_stamp: Seq<char>) -> Seq<char> {
    "download_"@ + log_stamp + ".log"@
}

/// The dated subdirectory of the download root for `date_folder`, rejected
/// before any filesystem access when the folder name fails its charset.
pub fn ensure_downloads_dir_path(settings: &Settings, app_root: &str, date_folder: &str) -> (r:
    Result<String, AppError>)
    ensures
        r is Ok <==> date_folder_chars_ok(date_folder@),
        r matches Ok(p) ==> p@ == joined(download_root_of(*settings, app_root@), date_folder@),
        r matches Err(e) ==> e.kind == ErrorKind::Validation,
{
    if !crate::ident::is_valid_date_folder(date_folder) {
        return Result::Err(AppError::new(ErrorKind::Validation, "Invalid date folder".to_owned()));
    }
    let root = resolve_download_root(settings, app_root);
    Result::Ok(path_join(root.as_str(), date_folder))
}

/// The path of a temporary working audio file, under a dated folder of the
/// temp root, rejected before any filesystem access when either identifier
/// fails its charset.
pub fn prepare_temp_audio_path(app_root: &str, date_folder: &str, log_stamp: &str) -> (r: Result<
    String,
    AppError,
>)
    ensures
        r is Ok <==> (date_folder_chars_ok(date_folder@) && log_stamp_chars_ok(log_stamp@)),
        r matches Ok(p) ==> p@ == joined(
            joined(joined(app_root@, "tmp"@), date_folder@),
            temp_audio_name(log_stamp@),
        ),
        r matches Err(e) ==> e.kind == ErrorKind::Validation,
{
    if !crate::ident::is_valid_date_folder(date_folder) {
        return Result::Err(AppError::new(ErrorKind::Validation, "Invalid date folder".to_owned()));
    }
    if !crate::ident::is_valid_log_stamp(log_stamp) {
        return Result::Err(AppError::new(ErrorKind::Validation, "Invalid log stamp".to_owned()));
    }
    let root = tmp_root(app_root);
    let dir = path_join(root.as_str(), date_folder);
    let name = concat3("audioworkshop__", log_stamp, ".wav");
    Result::Ok(path_join(dir.as_str(), name.as_str()))
}

/// The triple a download request works with: the resolved download root, its
/// dated subdirectory, and the path of the download's log file.
#[derive(Debug)]
pub struct DownloadPaths {
    pub download_root: String,
    pub download_dir: String,
    pub log_path: String,
}

/// Computes the download-root triple for one download request, rejected
/// before any filesystem access when either identifier fails its charset.
pub fn prepare_download_paths(
    settings: &Settings,
    app_root: &str,
    date_folder: &str,
    log_stamp: &str,
) -> (r: Result<DownloadPaths, AppError>)
    ensures
        r is Ok <==> (date_folder_chars_ok(date_folder@) && log_stamp_chars_ok(log_stamp@)),
        r matches Ok(d) ==> d.download_root@ == download_root_of(*settings, app_root@)
            && d.download_dir@ == joined(download_root_of(*settings, app_root@), date_folder@)
            && d.log_path@ == joined(joined(app_root@, "logs"@), download_log_name(log_stamp@)),
        r matches Err(e) ==> e.kind == ErrorKind::Validation,
{
    if !crate::ident::is_valid_date_folder(date_folder) {
        return Result::Err(AppError::new(ErrorKind::Validation, "Invalid date folder".to_owned()));
    }
    if !crate::ident::is_valid_log_stamp(log_stamp) {
        return Result::Err(AppError::new(ErrorKind::Validation, "Invalid log stamp".to_owned()));
    }
    let root = resolve_download_root(settings, app_root);
    let download_dir = path_join(root.as_str(), date_folder);
    let logs = logs_root(app_root);
    let log_name = concat3("download_", log_stamp, ".log");
    let log_path = path_join(logs.as_str(), log_name.as_str());
    Result::Ok(DownloadPaths { download_root: root, download_dir, log_path })
}

/// The probe file written and then removed to prove a directory writable.
/// The same returned path serves both the write and the removal, so a
/// successful probe leaves nothing behind.
pub fn probe_file_path(dir: &str) -> (r: String)
    ensures
        r@ == joined(dir@, ".aw_write_test"@),
{
    path_join(dir, ".aw_write_test")
}

/// With no override stored — in particular when no settings document exists —
/// the download root resolves to the computed default under the application
/// root.
pub proof fn lemma_no_override_download_default(s: Settings, app_root: Seq<char>)
    requires
        s.download_root is None,
    ensures
        download_root_of(s, app_root) == default_download_of(app_root),
{
}

/// With no override stored, the export root resolves to the computed default
/// under the user's profile directory.
pub proof fn lemma_no_override_export_default(s: Settings, app_root: Seq<char>, home: Seq<char>)
    requires
        s.export_root is None,
    ensures
        export_root_of(s, app_root, home) == default_export_of(home),
{
}

} // verus!
