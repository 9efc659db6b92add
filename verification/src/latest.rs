//! Choosing the most recent artifact out of a directory listing. The shell
//! lists a (sandbox-checked) directory and hands in each file's path and
//! modification time; the selection — the matching entry with the maximal
//! modification time, the later-listed one among equals, entries without a
//! readable time ranking below all others — is made and verified here.

use vstd::prelude::*;

use crate::names::file_part;
use crate::names::file_name_part;
use crate::names::has_m4a_extension;
use crate::names::is_m4a_path;
use crate::text::str_starts_with;

verus! {

/// One file of a directory listing: its path and, where readable, its
/// modification time in nanoseconds of the system epoch.
pub struct FileEntry {
    pub path: String,
    pub mtime: Option<u64>,
}

/// Orders modification times: an unreadable time ranks below every other.
pub open spec fn mtime_le(a: Option<u64>, b: Option<u64>) -> bool {
    match (a, b) {
        (Option::None, _) => true,
        (Option::Some(_), Option::None) => false,
        (Option::Some(x), Option::Some(y)) => x <= y,
    }
}

/// Decides the modification-time order.
pub fn mtime_le_exec(a: &Option<u64>, b: &Option<u64>) -> (r: bool)
    ensures
        r == mtime_le(*a, *b),
{
    match (a, b) {
        (Option::None, _) => true,
        (Option::Some(_), Option::None) => false,
        (Option::Some(x), Option::Some(y)) => *x <= *y,
    }
}

/// Entry `i` is the latest among the entries selected by `sel`: it is
/// selected, no selected entry has a later modification time, and among
/// equal times it is the last listed.
pub open spec fn picked_latest(
    entries: Seq<FileEntry>,
    sel: spec_fn(FileEntry) -> bool,
    i: int,
) -> bool {
    &&& 0 <= i < entries.len()
    &&& sel(entries[i])
    &&& forall|j: int|
        0 <= j < entries.len() && sel(#[trigger] entries[j]) ==> mtime_le(
            entries[j].mtime,
            entries[i].mtime,
        ) && (entries[j].mtime == entries[i].mtime ==> j <= i)
}

/// Picks the most recently modified file with the downloaded-audio extension
/// out of a directory listing, ignoring every other entry.
pub fn find_latest_download(entries: &Vec<FileEntry>) -> (r: Option<String>)
    ensures
        match r {
            Option::Some(p) => exists|i: int|
                picked_latest(entries@, |e: FileEntry| is_m4a_path(e.path@), i) && p@
                    == entries@[i].path@,
            Option::None => forall|j: int|
                0 <= j < entries@.len() ==> !is_m4a_path((#[trigger] entries@[j]).path@),
        },
{
    let ghost sel = |e: FileEntry| is_m4a_path(e.path@);
    let n = entries.len();
    let mut best: Option<usize> = Option::None;
    let mut i: usize = 0;
    while i < n
        invariant
            i <= n,
            n == entries@.len(),
            sel == (|e: FileEntry| is_m4a_path(e.path@)),
            match best {
                Option::Some(b) => b < i && sel(entries@[b as int]) && forall|j: int|
                    0 <= j < i && sel(#[trigger] entries@[j]) ==> mtime_le(
                        entries@[j].mtime,
                        entries@[b as int].mtime,
                    ) && (entries@[j].mtime == entries@[b as int].mtime ==> j <= b),
                Option::None => forall|j: int|
                    0 <= j < i ==> !sel(#[trigger] entries@[j]),
            },
        decreases n - i,
    {
        if has_m4a_extension(entries[i].path.as_str()) {
            let replace = match &best {
                Option::None => true,
                Option::Some(b) => mtime_le_exec(&entries[*b].mtime, &entries[i].mtime),
            };
            if replace {
                best = Option::Some(i);
            }
        }
        i = i + 1;
    }
    match best {
        Option::Some(b) => {
            proof {
                assert(picked_latest(entries@, sel, b as int));
            }
            Option::Some(entries[b].path.clone())
        },
        Option::None => Option::None,
    }
}

/// Picks the most recently modified file whose name begins with `prefix` out
/// of a recursive listing, ignoring every other entry.
pub fn latest_file_with_prefix(entries: &Vec<FileEntry>, prefix: &str) -> (r: Option<String>)
    ensures
        match r {
            Option::Some(p) => exists|i: int|
                picked_latest(
                    entries@,
                    |e: FileEntry| prefix@.is_prefix_of(file_part(e.path@)),
                    i,
                ) && p@ == entries@[i].path@,
            Option::None => forall|j: int|
                0 <= j < entries@.len() ==> !prefix@.is_prefix_of(
                    file_part((#[trigger] entries@[j]).path@),
                ),
        },
{
    let ghost sel = |e: FileEntry| prefix@.is_prefix_of(file_part(e.path@));
    let n = entries.len();
    let mut best: Option<usize> = Option::None;
    let mut i: usize = 0;
    while i < n
        invariant
            i <= n,
            n == entries@.len(),
            sel == (|e: FileEntry| prefix@.is_prefix_of(file_part(e.path@))),
            match best {
                Option::Some(b) => b < i && sel(entries@[b as int]) && forall|j: int|
                    0 <= j < i && sel(#[trigger] entries@[j]) ==> mtime_le(
                        entries@[j].mtime,
                        entries@[b as int].mtime,
                    ) && (entries@[j].mtime == entries@[b as int].mtime ==> j <= b),
                Option::None => forall|j: int|
                    0 <= j < i ==> !sel(#[trigger] entries@[j]),
            },
        decreases n - i,
    {
        let name = file_name_part(entries[i].path.as_str());
        if str_starts_with(name.as_str(), prefix) {
            let replace = match &best {
                Option::None => true,
                Option::Some(b) => mtime_le_exec(&entries[*b].mtime, &entries[i].mtime),
            };
            if replace {
                best = Option::Some(i);
            }
        }
        i = i + 1;
    }
    match best {
        Option::Some(b) => {
            proof {
                assert(picked_latest(entries@, sel, b as int));
            }
            Option::Some(entries[b].path.clone())
        },
        Option::None => Option::None,
    }
}

} // verus!
