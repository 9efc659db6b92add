//! The support bundle: one text artifact aggregating the resolved paths and
//! the tails of the most recent download and export logs, written for
//! user-submitted bug reports. The shell gathers the raw values; the bundle's
//! name and exact text are built here.

use vstd::prelude::*;

use crate::paths::joined;
use crate::paths::path_join;
use crate::provision::logs_root;
use crate::text::concat3;

verus! {

/// The raw values a support bundle aggregates, each already rendered as
/// text: the resolved paths (or their error texts), and the paths and tails
/// of the most recent download and export logs.
pub struct BundleInfo {
    pub stamp: String,
    pub app_root_text: String,
    pub resource_dir_text: String,
    pub current_exe_text: String,
    pub current_dir_text: String,
    pub binaries_text: String,
    pub latest_download_text: String,
    pub latest_download_tail: String,
    pub latest_video_text: String,
    pub latest_video_tail: String,
}

/// The bundle's full text: a header with the generation stamp, the resolved
/// paths section, and one section per recent log with its path and tail.
pub open spec fn support_bundle_text_of(i: BundleInfo) -> Seq<char> {
    "Audio Workshop Support Bundle\ngenerated_at="@ + i.stamp@ + "\n\n[paths]\napp_root="@
        + i.app_root_text@ + "\nresource_dir="@ + i.resource_dir_text@ + "\ncurrent_exe="@
        + i.current_exe_text@ + "\ncurrent_dir="@ + i.current_dir_text@ + "\nbinaries_dir="@
        + i.binaries_text@ + "\n\n[latest_download_log]\npath="@ + i.latest_download_text@ + "\n"@
        + i.latest_download_tail@ + "\n\n[latest_video_log]\npath="@ + i.latest_video_text@ + "\n"@
        + i.latest_video_tail@ + "\n"@
}

/// Renders the support bundle's text.
pub fn render_support_bundle(i: &BundleInfo) -> (r: String)
    ensures
        r@ == support_bundle_text_of(*i),
{
    let mut r = "Audio Workshop Support Bundle\ngenerated_at=".to_owned();
    r.append(i.stamp.as_str());
    r.append("\n\n[paths]\napp_root=");
    r.append(i.app_root_text.as_str());
    r.append("\nresource_dir=");
    r.append(i.resource_dir_text.as_str());
    r.append("\ncurrent_exe=");
    r.append(i.current_exe_text.as_str());
    r.append("\ncurrent_dir=");
    r.append(i.current_dir_text.as_str());
    r.append("\nbinaries_dir=");
    r.append(i.binaries_text.as_str());
    r.append("\n\n[latest_download_log]\npath=");
    r.append(i.latest_download_text.as_str());
    r.append("\n");
    r.append(i.latest_download_tail.as_str());
    r.append("\n\n[latest_video_log]\npath=");
    r.append(i.latest_video_text.as_str());
    r.append("\n");
    r.append(i.latest_video_tail.as_str());
    r.append("\n");
    proof {
        assert(r@ =~= support_bundle_text_of(*i));
    }
    r
}

/// The file name of one support bundle.
pub open spec fn support_bundle_name_of(stamp: Seq<char>) -> Seq<char> {
    "support_bundle_"@ + stamp + ".txt"@
}

/// The path the support bundle is written at, under the logs root.
pub fn support_bundle_path(app_root: &str, stamp: &str) -> (r: String)
    ensures
        r@ == joined(joined(app_root@, "logs"@), support_bundle_name_of(stamp@)),
{
    let logs = logs_root(app_root);
    let name = concat3("support_bundle_", stamp, ".txt");
    path_join(logs.as_str(), name.as_str())
}

} // verus!
