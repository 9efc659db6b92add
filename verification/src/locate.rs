//! Locating the directory that holds the required sidecar executables. The
//! installer and build types place the tools in different relative positions,
//! so the search is layered: the packaged resource directory and its common
//! sublayouts first, then the ancestors of the running executable, then the
//! ancestors of the working directory, each ancestor probed under a handful
//! of conventional layouts. A final repair step plans copies of loose tools
//! found beside the executable into a canonical `binaries` folder. Every
//! probe is made against the filesystem snapshot handed in, and the result is
//! exactly the first probed directory holding a required tool.

use vstd::prelude::*;

use crate::errors::AppError;
use crate::errors::ErrorKind;
use crate::fsview::FsView;
use crate::paths::joined;
use crate::paths::lemma_last_slash;
use crate::paths::parent_dir;
use crate::paths::parent_of;
use crate::paths::path_join;
use crate::text::concat2;
use crate::trail::Trail;

verus! {

/// The plausible file names of the required tools: each of the transcoder,
/// the probe tool and the downloader, under its bare and its
/// architecture-qualified name.
pub open spec fn required_names() -> Seq<Seq<char>> {
    seq![
        "ffmpeg.exe"@,
        "ffmpeg-x86_64-pc-windows-msvc.exe"@,
        "ffprobe.exe"@,
        "ffprobe-x86_64-pc-windows-msvc.exe"@,
        "yt-dlp.exe"@,
        "yt-dlp-x86_64-pc-windows-msvc.exe"@,
    ]
}

/// True iff `dir` holds at least one required tool in the snapshot.
pub open spec fn dir_has_required(fs: Set<Seq<char>>, dir: Seq<char>) -> bool {
    exists|k: int|
        0 <= k < required_names().len() && fs.contains(joined(dir, #[trigger] required_names()[k]))
}

/// Decides whether `dir` holds at least one required tool.
pub fn has_required_binaries(dir: &str, fs: &FsView) -> (r: bool)
    ensures
        r == dir_has_required(fs@, dir@),
{
    let c0 = path_join(dir, "ffmpeg.exe");
    if fs.contains(&c0) {
        proof {
            assert(required_names()[0] == "ffmpeg.exe"@);
            assert(dir_has_required(fs@, dir@));
        }
        return true;
    }
    let c1 = path_join(dir, "ffmpeg-x86_64-pc-windows-msvc.exe");
    if fs.contains(&c1) {
        proof {
            assert(required_names()[1] == "ffmpeg-x86_64-pc-windows-msvc.exe"@);
            assert(dir_has_required(fs@, dir@));
        }
        return true;
    }
    let c2 = path_join(dir, "ffprobe.exe");
    if fs.contains(&c2) {
        proof {
            assert(required_names()[2] == "ffprobe.exe"@);
            assert(dir_has_required(fs@, dir@));
        }
        return true;
    }
    let c3 = path_join(dir, "ffprobe-x86_64-pc-windows-msvc.exe");
    if fs.contains(&c3) {
        proof {
            assert(required_names()[3] == "ffprobe-x86_64-pc-windows-msvc.exe"@);
            assert(dir_has_required(fs@, dir@));
        }
        return true;
    }
    let c4 = path_join(dir, "yt-dlp.exe");
    if fs.contains(&c4) {
        proof {
            assert(required_names()[4] == "yt-dlp.exe"@);
            assert(dir_has_required(fs@, dir@));
        }
        return true;
    }
    let c5 = path_join(dir, "yt-dlp-x86_64-pc-windows-msvc.exe");
    if fs.contains(&c5) {
        proof {
            assert(required_names()[5] == "yt-dlp-x86_64-pc-windows-msvc.exe"@);
            assert(dir_has_required(fs@, dir@));
        }
        return true;
    }
    proof {
        if dir_has_required(fs@, dir@) {
            let k = choose|k: int|
                0 <= k < required_names().len() && fs@.contains(
                    joined(dir@, #[trigger] required_names()[k]),
                );
            assert(k == 0 || k == 1 || k == 2 || k == 3 || k == 4 || k == 5);
        }
    }
    false
}

/// The first of `paths` that exists in the snapshot.
pub open spec fn first_present(paths: Seq<Seq<char>>, fs: Set<Seq<char>>) -> Option<Seq<char>>
    decreases paths.len(),
{
    if paths.len() == 0 {
        Option::None
    } else if fs.contains(paths[0]) {
        Option::Some(paths[0])
    } else {
        first_present(paths.skip(1), fs)
    }
}

/// Some path is present iff `first_present` finds one.
pub proof fn lemma_first_present_some(paths: Seq<Seq<char>>, fs: Set<Seq<char>>)
    ensures
        first_present(paths, fs) is Some <==> exists|i: int|
            0 <= i < paths.len() && fs.contains(#[trigger] paths[i]),
        first_present(paths, fs) matches Some(p) ==> fs.contains(p),
    decreases paths.len(),
{
    if paths.len() == 0 {
    } else if fs.contains(paths[0]) {
    } else {
        lemma_first_present_some(paths.skip(1), fs);
        if exists|i: int| 0 <= i < paths.len() && fs.contains(#[trigger] paths[i]) {
            let i = choose|i: int| 0 <= i < paths.len() && fs.contains(#[trigger] paths[i]);
            assert(paths.skip(1)[i - 1] == paths[i]);
        }
        if first_present(paths.skip(1), fs) is Some {
            let i = choose|i: int|
                0 <= i < paths.skip(1).len() && fs.contains(#[trigger] paths.skip(1)[i]);
            assert(paths[i + 1] == paths.skip(1)[i]);
        }
    }
}

/// Returns the first of `paths` that exists in the snapshot.
pub fn first_existing(paths: &Vec<String>, fs: &FsView) -> (r: Option<String>)
    ensures
        match r {
            Option::Some(p) => first_present(paths@.map_values(|q: String| q@), fs@)
                == Option::Some(p@),
            Option::None => first_present(paths@.map_values(|q: String| q@), fs@)
                is None,
        },
{
    let ghost views = paths@.map_values(|q: String| q@);
    let n = paths.len();
    let mut i: usize = 0;
    proof {
        assert(views.skip(0) =~= views);
    }
    while i < n
        invariant
            i <= n,
            n == paths@.len(),
            views == paths@.map_values(|q: String| q@),
            first_present(views, fs@) == first_present(views.skip(i as int), fs@),
        decreases n - i,
    {
        if fs.contains(&paths[i]) {
            proof {
                assert(views.skip(i as int)[0] == paths@[i as int]@);
            }
            return Option::Some(paths[i].clone());
        }
        proof {
            assert(views.skip(i as int)[0] == paths@[i as int]@);
            assert(views.skip(i as int).skip(1) =~= views.skip(i as int + 1));
        }
        i = i + 1;
    }
    proof {
        assert(views.skip(n as int) =~= Seq::<Seq<char>>::empty());
    }
    Option::None
}

/// The first of `probes` that holds a required tool.
pub open spec fn first_hit(probes: Seq<Seq<char>>, fs: Set<Seq<char>>) -> Option<Seq<char>>
    decreases probes.len(),
{
    if probes.len() == 0 {
        Option::None
    } else if dir_has_required(fs, probes[0]) {
        Option::Some(probes[0])
    } else {
        first_hit(probes.skip(1), fs)
    }
}

/// The layouts probed at one ancestor `a`, in order: its `binaries`
/// subfolder, the ancestor itself, a nested `src/binaries` layout, and a
/// `resources` layout with its own `binaries` subfolder.
pub open spec fn ancestor_probes(a: Seq<char>) -> Seq<Seq<char>> {
    seq![
        joined(a, "binaries"@),
        a,
        joined(joined(a, "src"@), "binaries"@),
        joined(a, "resources"@),
        joined(joined(a, "resources"@), "binaries"@),
    ]
}

/// A parent directory is strictly shorter than the path it came from.
pub proof fn lemma_parent_shorter(s: Seq<char>)
    ensures
        parent_dir(s) matches Some(p) ==> p.len() < s.len(),
{
    lemma_last_slash(s);
}

/// The first directory holding a required tool, walking up from `start`:
/// each ancestor is probed under the conventional layouts before its own
/// parent is tried.
pub open spec fn search_from(start: Seq<char>, fs: Set<Seq<char>>) -> Option<Seq<char>>
    decreases start.len(),
{
    match first_hit(ancestor_probes(start), fs) {
        Option::Some(d) => Option::Some(d),
        Option::None => match parent_dir(start) {
            Option::Some(p) => if p.len() < start.len() {
                search_from(p, fs)
            } else {
                Option::None
            },
            Option::None => Option::None,
        },
    }
}

/// Probes the conventional layouts at one ancestor.
fn probe_ancestor(a: &str, fs: &FsView) -> (r: Option<String>)
    ensures
        match r {
            Option::Some(d) => first_hit(ancestor_probes(a@), fs@) == Option::Some(d@),
            Option::None => first_hit(ancestor_probes(a@), fs@) is None,
        },
{
    let ghost ps = ancestor_probes(a@);
    let p0 = path_join(a, "binaries");
    let src_dir = path_join(a, "src");
    let p2 = path_join(src_dir.as_str(), "binaries");
    let p3 = path_join(a, "resources");
    let p4 = path_join(p3.as_str(), "binaries");
    proof {
        reveal_with_fuel(first_hit, 6);
        assert(ps[0] == p0@);
        assert(ps.skip(1) =~= seq![a@, p2@, p3@, p4@]);
        assert(ps.skip(1).skip(1) =~= seq![p2@, p3@, p4@]);
        assert(ps.skip(1).skip(1).skip(1) =~= seq![p3@, p4@]);
        assert(ps.skip(1).skip(1).skip(1).skip(1) =~= seq![p4@]);
        assert(ps.skip(1).skip(1).skip(1).skip(1).skip(1) =~= Seq::<Seq<char>>::empty());
    }
    if has_required_binaries(p0.as_str(), fs) {
        return Option::Some(p0);
    }
    if has_required_binaries(a, fs) {
        return Option::Some(a.to_owned());
    }
    if has_required_binaries(p2.as_str(), fs) {
        return Option::Some(p2);
    }
    if has_required_binaries(p3.as_str(), fs) {
        return Option::Some(p3);
    }
    if has_required_binaries(p4.as_str(), fs) {
        return Option::Some(p4);
    }
    proof {
        reveal_with_fuel(first_hit, 6);
    }
    Option::None
}

/// Walks the ancestors of `start`, probing each under the conventional
/// layouts, and returns the first directory holding a required tool.
pub fn find_binaries_dir(start: &str, fs: &FsView) -> (r: Option<String>)
    ensures
        match r {
            Option::Some(d) => search_from(start@, fs@) == Option::Some(d@),
            Option::None => search_from(start@, fs@) is None,
        },
    decreases start@.len(),
{
    let hit = probe_ancestor(start, fs);
    match hit {
        Option::Some(d) => Option::Some(d),
        Option::None => {
            match parent_of(start) {
                Option::Some(p) => {
                    proof {
                        lemma_parent_shorter(start@);
                    }
                    find_binaries_dir(p.as_str(), fs)
                },
                Option::None => Option::None,
            }
        },
    }
}

/// A path's parent directory, or the path itself where it has none.
pub open spec fn parent_or_self(d: Seq<char>) -> Seq<char> {
    match parent_dir(d) {
        Option::Some(p) => p,
        Option::None => d,
    }
}

/// The candidates probed under the packaged resource directory, in order:
/// its `binaries` subfolder, the resource directory itself, its parent, and
/// a `../binaries` relative layout.
pub open spec fn resource_probes(rd: Seq<char>) -> Seq<Seq<char>> {
    seq![
        joined(rd, "binaries"@),
        rd,
        parent_or_self(rd),
        joined(joined(rd, ".."@), "binaries"@),
    ]
}

/// The directory the layered search settles on: the first hit among the
/// resource-directory candidates, else the first hit walking the ancestors
/// of the executable's directory, else of the working directory.
pub open spec fn located_dir(
    resource_dir: Option<Seq<char>>,
    exe_dir: Option<Seq<char>>,
    cwd: Option<Seq<char>>,
    fs: Set<Seq<char>>,
) -> Option<Seq<char>> {
    let from_resource = match resource_dir {
        Option::Some(rd) => first_hit(resource_probes(rd), fs),
        Option::None => Option::None,
    };
    match from_resource {
        Option::Some(d) => Option::Some(d),
        Option::None => {
            let from_exe = match exe_dir {
                Option::Some(e) => search_from(e, fs),
                Option::None => Option::None,
            };
            match from_exe {
                Option::Some(d) => Option::Some(d),
                Option::None => match cwd {
                    Option::Some(c) => search_from(c, fs),
                    Option::None => Option::None,
                },
            }
        },
    }
}

/// Probes the resource-directory candidates, appending one diagnostic entry
/// per candidate.
fn probe_resource(rd: &str, fs: &FsView, trail: &mut Trail) -> (r: Option<String>)
    ensures
        match r {
            Option::Some(d) => first_hit(resource_probes(rd@), fs@) == Option::Some(d@),
            Option::None => first_hit(resource_probes(rd@), fs@) is None,
        },
        old(trail)@.is_prefix_of(final(trail)@),
{
    let ghost ps = resource_probes(rd@);
    let ghost t0 = trail@;
    let p0 = path_join(rd, "binaries");
    let p2 = match parent_of(rd) {
        Option::Some(p) => p,
        Option::None => rd.to_owned(),
    };
    let dotdot = path_join(rd, "..");
    let p3 = path_join(dotdot.as_str(), "binaries");
    proof {
        reveal_with_fuel(first_hit, 5);
        assert(ps[0] == p0@);
        assert(ps.skip(1) =~= seq![rd@, p2@, p3@]);
        assert(ps.skip(1).skip(1) =~= seq![p2@, p3@]);
        assert(ps.skip(1).skip(1).skip(1) =~= seq![p3@]);
        assert(ps.skip(1).skip(1).skip(1).skip(1) =~= Seq::<Seq<char>>::empty());
    }
    let h0 = has_required_binaries(p0.as_str(), fs);
    trail.push(concat2("candidate(resource)=", p0.as_str()));
    proof {
        assert(trail@.take(t0.len() as int) =~= t0);
    }
    if h0 {
        return Option::Some(p0);
    }
    let h1 = has_required_binaries(rd, fs);
    trail.push(concat2("candidate(resource)=", rd));
    proof {
        assert(trail@.take(t0.len() as int) =~= t0);
    }
    if h1 {
        return Option::Some(rd.to_owned());
    }
    let h2 = has_required_binaries(p2.as_str(), fs);
    trail.push(concat2("candidate(resource)=", p2.as_str()));
    proof {
        assert(trail@.take(t0.len() as int) =~= t0);
    }
    if h2 {
        return Option::Some(p2);
    }
    let h3 = has_required_binaries(p3.as_str(), fs);
    trail.push(concat2("candidate(resource)=", p3.as_str()));
    proof {
        assert(trail@.take(t0.len() as int) =~= t0);
    }
    if h3 {
        return Option::Some(p3);
    }
    Option::None
}

/// Runs the full layered search: the packaged resource directory and its
/// sublayouts, then the ancestors of the running executable's directory,
/// then the ancestors of the working directory. Each layer appends
/// diagnostic entries to the returned trail, which is kept even on success.
/// When the search fails, the caller may still plan a repair of the layout
/// beside the executable with `repair_plan`, carry it out, and re-probe with
/// `has_required_binaries`.
pub fn binaries_search(
    resource_dir: Option<&str>,
    exe_dir: Option<&str>,
    cwd: Option<&str>,
    fs: &FsView,
) -> (r: (Option<String>, Trail))
    ensures
        ({
            let sought = located_dir(
                match resource_dir {
                    Option::Some(rd) => Option::Some(rd@),
                    Option::None => Option::None,
                },
                match exe_dir {
                    Option::Some(e) => Option::Some(e@),
                    Option::None => Option::None,
                },
                match cwd {
                    Option::Some(c) => Option::Some(c@),
                    Option::None => Option::None,
                },
                fs@,
            );
            match r.0 {
                Option::Some(d) => sought == Option::Some(d@),
                Option::None => sought is None,
            }
        }),
{
    let mut trail = Trail::new();
    let from_resource: Option<String> = match resource_dir {
        Option::Some(rd) => {
            trail.push(concat2("resource_dir=", rd));
            probe_resource(rd, fs, &mut trail)
        },
        Option::None => {
            trail.push("resource_dir_error=unavailable".to_owned());
            Option::None
        },
    };
    if let Option::Some(d) = from_resource {
        return (Option::Some(d), trail);
    }
    let from_exe: Option<String> = match exe_dir {
        Option::Some(e) => {
            trail.push(concat2("current_exe_dir=", e));
            find_binaries_dir(e, fs)
        },
        Option::None => {
            trail.push("current_exe_error=unavailable".to_owned());
            Option::None
        },
    };
    if let Option::Some(d) = from_exe {
        trail.push(concat2("candidate(exe_ancestors)=", d.as_str()));
        return (Option::Some(d), trail);
    }
    trail.push("candidate(exe_ancestors)=none".to_owned());
    let from_cwd: Option<String> = match cwd {
        Option::Some(c) => {
            trail.push(concat2("current_dir=", c));
            find_binaries_dir(c, fs)
        },
        Option::None => {
            trail.push("current_dir_error=unavailable".to_owned());
            Option::None
        },
    };
    if let Option::Some(d) = from_cwd {
        trail.push(concat2("candidate(cwd_ancestors)=", d.as_str()));
        return (Option::Some(d), trail);
    }
    trail.push("candidate(cwd_ancestors)=none".to_owned());
    (Option::None, trail)
}

/// One planned copy of a loose tool into the canonical binaries folder.
pub struct CopyOp {
    pub src: String,
    pub dest: String,
}

/// The copy planned for one tool: where a loose copy sits directly beside
/// the executable (architecture-qualified name preferred) and the canonical
/// folder lacks the tool, it is copied in under its qualified name.
pub open spec fn tool_copy(
    exe_dir: Seq<char>,
    triple: Seq<char>,
    bare: Seq<char>,
    fs: Set<Seq<char>>,
) -> Option<(Seq<char>, Seq<char>)> {
    let dest = joined(joined(exe_dir, "binaries"@), triple);
    match first_present(seq![joined(exe_dir, triple), joined(exe_dir, bare)], fs) {
        Option::Some(src) => if fs.contains(dest) {
            Option::None
        } else {
            Option::Some((src, dest))
        },
        Option::None => Option::None,
    }
}

/// A planned copy as a sequence of zero or one entries.
pub open spec fn copy_entry(o: Option<(Seq<char>, Seq<char>)>) -> Seq<(Seq<char>, Seq<char>)> {
    match o {
        Option::Some(p) => seq![p],
        Option::None => Seq::empty(),
    }
}

/// Every copy the repair step plans, tool by tool.
pub open spec fn repair_copies(exe_dir: Seq<char>, fs: Set<Seq<char>>) -> Seq<
    (Seq<char>, Seq<char>),
> {
    copy_entry(tool_copy(exe_dir, "ffmpeg-x86_64-pc-windows-msvc.exe"@, "ffmpeg.exe"@, fs))
        + copy_entry(tool_copy(exe_dir, "ffprobe-x86_64-pc-windows-msvc.exe"@, "ffprobe.exe"@, fs))
        + copy_entry(tool_copy(exe_dir, "yt-dlp-x86_64-pc-windows-msvc.exe"@, "yt-dlp.exe"@, fs))
}

/// Plans one tool's copy.
fn plan_tool(exe_dir: &str, bdir: &str, triple: &str, bare: &str, fs: &FsView) -> (r: Option<
    CopyOp,
>)
    requires
        bdir@ == joined(exe_dir@, "binaries"@),
    ensures
        match r {
            Option::Some(c) => tool_copy(exe_dir@, triple@, bare@, fs@) == Option::Some(
                (c.src@, c.dest@),
            ),
            Option::None => tool_copy(exe_dir@, triple@, bare@, fs@) is None,
        },
{
    let cand0 = path_join(exe_dir, triple);
    let cand1 = path_join(exe_dir, bare);
    proof {
        reveal_with_fuel(first_present, 3);
        let probes = seq![cand0@, cand1@];
        assert(probes.skip(1) =~= seq![cand1@]);
        assert(probes.skip(1).skip(1) =~= Seq::<Seq<char>>::empty());
    }
    let dest = path_join(bdir, triple);
    let src: Option<String> = if fs.contains(&cand0) {
        Option::Some(cand0)
    } else if fs.contains(&cand1) {
        Option::Some(cand1)
    } else {
        Option::None
    };
    match src {
        Option::Some(s) => {
            if fs.contains(&dest) {
                Option::None
            } else {
                Option::Some(CopyOp { src: s, dest })
            }
        },
        Option::None => Option::None,
    }
}

/// Plans the repair of the sidecar layout beside the running executable: the
/// canonical `binaries` folder to create, and the loose tools to copy into
/// it. The caller creates the folder, carries the copies out, and re-probes.
pub fn repair_plan(exe_dir: &str, fs: &FsView) -> (r: (String, Vec<CopyOp>))
    ensures
        r.0@ == joined(exe_dir@, "binaries"@),
        r.1@.map_values(|c: CopyOp| (c.src@, c.dest@)) == repair_copies(exe_dir@, fs@),
{
    let bdir = path_join(exe_dir, "binaries");
    let mut plan: Vec<CopyOp> = Vec::new();
    let c0 = plan_tool(exe_dir, bdir.as_str(), "ffmpeg-x86_64-pc-windows-msvc.exe", "ffmpeg.exe", fs);
    let c1 = plan_tool(
        exe_dir,
        bdir.as_str(),
        "ffprobe-x86_64-pc-windows-msvc.exe",
        "ffprobe.exe",
        fs,
    );
    let c2 = plan_tool(exe_dir, bdir.as_str(), "yt-dlp-x86_64-pc-windows-msvc.exe", "yt-dlp.exe", fs);
    if let Option::Some(c) = c0 {
        plan.push(c);
    }
    if let Option::Some(c) = c1 {
        plan.push(c);
    }
    if let Option::Some(c) = c2 {
        plan.push(c);
    }
    proof {
        assert(plan@.map_values(|c: CopyOp| (c.src@, c.dest@)) =~= repair_copies(exe_dir@, fs@));
    }
    (bdir, plan)
}

/// Settles the repair step's outcome after the copies ran: the repaired
/// folder where a re-probe now finds a tool; a distinct failure where copies
/// were made and the tools are still missing; nothing where there was
/// nothing to repair.
pub fn repair_verdict(binaries_dir: String, copied_any: bool, has_required_after: bool) -> (r:
    Result<Option<String>, AppError>)
    ensures
        has_required_after ==> (r matches Ok(d) && d matches Some(b) && b == binaries_dir),
        !has_required_after && copied_any ==> (r matches Err(e) && e.kind == ErrorKind::NotFound),
        !has_required_after && !copied_any ==> (r matches Ok(d) && d is None),
{
    if has_required_after {
        Result::Ok(Option::Some(binaries_dir))
    } else if copied_any {
        Result::Err(
            AppError::new(
                ErrorKind::NotFound,
                "Attempted repair but required binaries still missing".to_owned(),
            ),
        )
    } else {
        Result::Ok(Option::None)
    }
}

/// The repair step restores a flat layout: where a required tool sits loose
/// directly beside the running executable, and the planned copies are then
/// carried out — every planned destination exists afterwards and nothing
/// that existed is gone — the canonical `binaries` folder beside the
/// executable holds a required tool, and a retry of the ancestor search from
/// the executable's directory succeeds.
pub proof fn lemma_repair_restores(exe_dir: Seq<char>, fs: Set<Seq<char>>, fs2: Set<Seq<char>>)
    requires
        exists|k: int|
            0 <= k < required_names().len() && fs.contains(
                joined(exe_dir, #[trigger] required_names()[k]),
            ),
        fs.subset_of(fs2),
        forall|i: int|
            0 <= i < repair_copies(exe_dir, fs).len() ==> fs2.contains(
                (#[trigger] repair_copies(exe_dir, fs)[i]).1,
            ),
    ensures
        dir_has_required(fs2, joined(exe_dir, "binaries"@)),
        search_from(exe_dir, fs2) is Some,
{
    let bdir = joined(exe_dir, "binaries"@);
    let k = choose|k: int|
        0 <= k < required_names().len() && fs.contains(
            joined(exe_dir, #[trigger] required_names()[k]),
        );
    let copies = repair_copies(exe_dir, fs);
    let c_ffmpeg = tool_copy(exe_dir, "ffmpeg-x86_64-pc-windows-msvc.exe"@, "ffmpeg.exe"@, fs);
    let c_ffprobe = tool_copy(exe_dir, "ffprobe-x86_64-pc-windows-msvc.exe"@, "ffprobe.exe"@, fs);
    let c_ytdlp = tool_copy(exe_dir, "yt-dlp-x86_64-pc-windows-msvc.exe"@, "yt-dlp.exe"@, fs);
    assert(k == 0 || k == 1 || k == 2 || k == 3 || k == 4 || k == 5);
    if k == 0 || k == 1 {
        let triple = "ffmpeg-x86_64-pc-windows-msvc.exe"@;
        let bare = "ffmpeg.exe"@;
        let probes = seq![joined(exe_dir, triple), joined(exe_dir, bare)];
        lemma_first_present_some(probes, fs);
        assert(fs.contains(probes[if k == 0 { 1int } else { 0int }]));
        if fs.contains(joined(bdir, triple)) {
            assert(fs2.contains(joined(bdir, required_names()[1])));
        } else {
            let src = first_present(probes, fs)->Some_0;
            assert(c_ffmpeg == Option::Some((src, joined(bdir, triple))));
            assert(copies[0] == (src, joined(bdir, triple)));
            assert(fs2.contains(joined(bdir, required_names()[1])));
        }
    } else if k == 2 || k == 3 {
        let triple = "ffprobe-x86_64-pc-windows-msvc.exe"@;
        let bare = "ffprobe.exe"@;
        let probes = seq![joined(exe_dir, triple), joined(exe_dir, bare)];
        lemma_first_present_some(probes, fs);
        assert(fs.contains(probes[if k == 2 { 1int } else { 0int }]));
        if fs.contains(joined(bdir, triple)) {
            assert(fs2.contains(joined(bdir, required_names()[3])));
        } else {
            let src = first_present(probes, fs)->Some_0;
            assert(c_ffprobe == Option::Some((src, joined(bdir, triple))));
            let at = copy_entry(c_ffmpeg).len() as int;
            assert(copies[at] == (src, joined(bdir, triple)));
            assert(fs2.contains(joined(bdir, required_names()[3])));
        }
    } else {
        let triple = "yt-dlp-x86_64-pc-windows-msvc.exe"@;
        let bare = "yt-dlp.exe"@;
        let probes = seq![joined(exe_dir, triple), joined(exe_dir, bare)];
        lemma_first_present_some(probes, fs);
        assert(fs.contains(probes[if k == 4 { 1int } else { 0int }]));
        if fs.contains(joined(bdir, triple)) {
            assert(fs2.contains(joined(bdir, required_names()[5])));
        } else {
            let src = first_present(probes, fs)->Some_0;
            assert(c_ytdlp == Option::Some((src, joined(bdir, triple))));
            let at = copy_entry(c_ffmpeg).len() + copy_entry(c_ffprobe).len();
            assert(copies[at as int] == (src, joined(bdir, triple)));
            assert(fs2.contains(joined(bdir, required_names()[5])));
        }
    }
    assert(dir_has_required(fs2, bdir));
    assert(ancestor_probes(exe_dir)[0] == bdir);
    assert(first_hit(ancestor_probes(exe_dir), fs2) is Some);
}

/// The transcoder executable within the located binaries directory: the
/// architecture-qualified name is preferred, then the bare name.
pub open spec fn ffmpeg_pick(bin_dir: Seq<char>, fs: Set<Seq<char>>) -> Option<Seq<char>> {
    first_present(
        seq![
            joined(bin_dir, "ffmpeg-x86_64-pc-windows-msvc.exe"@),
            joined(bin_dir, "ffmpeg.exe"@),
        ],
        fs,
    )
}

/// Picks the transcoder executable out of the located binaries directory.
pub fn ffmpeg_path(bin_dir: &str, fs: &FsView) -> (r: Result<String, AppError>)
    ensures
        r matches Ok(p) ==> ffmpeg_pick(bin_dir@, fs@) == Option::Some(p@),
        r matches Err(e) ==> ffmpeg_pick(bin_dir@, fs@) is None && e.kind == ErrorKind::NotFound,
{
    let ghost ps = ffmpeg_pick(bin_dir@, fs@);
    let c0 = path_join(bin_dir, "ffmpeg-x86_64-pc-windows-msvc.exe");
    let c1 = path_join(bin_dir, "ffmpeg.exe");
    proof {
        reveal_with_fuel(first_present, 3);
        let probes = seq![c0@, c1@];
        assert(probes.skip(1) =~= seq![c1@]);
        assert(probes.skip(1).skip(1) =~= Seq::<Seq<char>>::empty());
    }
    if fs.contains(&c0) {
        return Result::Ok(c0);
    }
    if fs.contains(&c1) {
        return Result::Ok(c1);
    }
    Result::Err(AppError::new(ErrorKind::NotFound, "ffmpeg executable not found".to_owned()))
}

} // verus!
