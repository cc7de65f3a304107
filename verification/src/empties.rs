//! The empty-folder scanner: finds the top-most directories whose subtrees
//! contain no regular file, honouring the hidden-folder switch and a list of
//! folder names to skip outright.

use vstd::prelude::*;

use crate::fs_tree::{
    FsEntry, child_path, entry_name, has_file_below, hidden, is_hidden, join_path, name_of,
    subtree_has_file,
};
use crate::platform::Platform;
use crate::text::eq_exact;

verus! {

/// All build folder names of the platforms from index `i` on, concatenated.
pub open spec fn concat_folders(platforms: Seq<Platform>, i: int) -> Seq<String>
    decreases platforms.len() - i,
{
    if i < 0 || i >= platforms.len() {
        Seq::empty()
    } else {
        platforms[i].folders@ + concat_folders(platforms, i + 1)
    }
}

/// The first `n` values with later exact repetitions of earlier values
/// dropped.
pub open spec fn dedup_prefix(values: Seq<String>, n: int) -> Seq<String>
    decreases n,
{
    if n <= 0 {
        Seq::empty()
    } else {
        let prev = dedup_prefix(values, n - 1);
        if exists|k: int| 0 <= k < prev.len() && #[trigger] prev[k]@ == values[n - 1]@ {
            prev
        } else {
            prev.push(values[n - 1])
        }
    }
}

/// The skip list that the empty-folder commands use: every configured build
/// folder name, each kept once, in first-appearance order.
pub fn unique_folder_names(platforms: &Vec<Platform>) -> (r: Vec<String>)
    ensures
        r@ == dedup_prefix(concat_folders(platforms@, 0), concat_folders(platforms@, 0).len() as int),
{
    let ghost whole = concat_folders(platforms@, 0);
    let mut flat: Vec<String> = Vec::new();
    let mut i: usize = 0;
    while i < platforms.len()
        invariant
            i <= platforms@.len(),
            whole == concat_folders(platforms@, 0),
            flat@ + concat_folders(platforms@, i as int) == whole,
        decreases platforms@.len() - i,
    {
        let ghost old_flat = flat@;
        let mut j: usize = 0;
        while j < platforms[i].folders.len()
            invariant
                i < platforms@.len(),
                j <= platforms@[i as int].folders@.len(),
                flat@ == old_flat + platforms@[i as int].folders@.take(j as int),
            decreases platforms@[i as int].folders@.len() - j,
        {
            flat.push(platforms[i].folders[j].clone());
            proof {
                assert(flat@ =~= old_flat + platforms@[i as int].folders@.take(j + 1));
            }
            j = j + 1;
        }
        proof {
            assert(platforms@[i as int].folders@.take(platforms@[i as int].folders@.len() as int)
                =~= platforms@[i as int].folders@);
            assert(flat@ + concat_folders(platforms@, i + 1) =~= whole);
        }
        i = i + 1;
    }
    proof {
        assert(concat_folders(platforms@, platforms@.len() as int) =~= Seq::<String>::empty());
        assert(flat@ + concat_folders(platforms@, platforms@.len() as int) =~= flat@);
        assert(flat@ == whole);
    }
    let mut out: Vec<String> = Vec::new();
    let mut i: usize = 0;
    while i < flat.len()
        invariant
            i <= flat@.len(),
            flat@ == whole,
            out@ == dedup_prefix(flat@, i as int),
        decreases flat@.len() - i,
    {
        if !already_listed(&out, flat[i].as_str()) {
            out.push(flat[i].clone());
        }
        i = i + 1;
    }
    out
}

/// Whether some listed value equals `v` exactly.
fn already_listed(values: &Vec<String>, v: &str) -> (r: bool)
    ensures
        r == exists|k: int| 0 <= k < values@.len() && #[trigger] values@[k]@ == v@,
{
    let mut k: usize = 0;
    while k < values.len()
        invariant
            k <= values@.len(),
            forall|x: int| 0 <= x < k ==> #[trigger] values@[x]@ != v@,
        decreases values@.len() - k,
    {
        if eq_exact(values[k].as_str(), v) {
            return true;
        }
        k = k + 1;
    }
    false
}

/// Whether the name stands in the skip list, compared exactly.
pub open spec fn in_skip_list(name: Seq<char>, skipped: Seq<String>) -> bool {
    exists|i: int| 0 <= i < skipped.len() && #[trigger] skipped[i]@ == name
}

/// The paths that the empty-folder scan of the tree `t`, standing at `path`,
/// reports, in traversal order. A `.git` directory, a hidden directory when
/// hidden folders are off, and a directory on the skip list are passed over
/// without descent. An empty directory is reported and not descended into; a
/// hidden non-empty directory is not descended into either.
pub open spec fn empties_scan(
    t: FsEntry,
    path: Seq<char>,
    show_hidden: bool,
    skipped: Seq<String>,
) -> Seq<Seq<char>>
    decreases t, 1int,
{
    match t {
        FsEntry::File { .. } => Seq::empty(),
        FsEntry::Dir { name, entries } => {
            if name@ == ".git"@ {
                Seq::empty()
            } else if is_hidden(name@) && !show_hidden {
                Seq::empty()
            } else if in_skip_list(name@, skipped) {
                Seq::empty()
            } else if !subtree_has_file(t) {
                seq![path]
            } else if is_hidden(name@) {
                Seq::empty()
            } else {
                empties_scan_entries(entries@, path, show_hidden, skipped, 0)
            }
        },
    }
}

/// The reports of the scans of the entries from index `i` on, concatenated.
pub open spec fn empties_scan_entries(
    entries: Seq<FsEntry>,
    dir_path: Seq<char>,
    show_hidden: bool,
    skipped: Seq<String>,
    i: int,
) -> Seq<Seq<char>>
    decreases entries, entries.len() - i,
{
    if i < 0 || i >= entries.len() {
        Seq::empty()
    } else {
        empties_scan(
            entries[i],
            child_path(dir_path, entry_name(entries[i])),
            show_hidden,
            skipped,
        ) + empties_scan_entries(entries, dir_path, show_hidden, skipped, i + 1)
    }
}

/// Scans the tree `t`, standing at `path`, for empty folders.
pub fn scan_empties(t: &FsEntry, path: &String, show_hidden: bool, skipped: &Vec<String>) -> (r:
    Vec<String>)
    ensures
        r.deep_view() == empties_scan(*t, path@, show_hidden, skipped@),
    decreases *t, 1int,
{
    match t {
        FsEntry::File { .. } => Vec::new(),
        FsEntry::Dir { name, entries } => {
            if eq_exact(name.as_str(), ".git") {
                return Vec::new();
            }
            let hid = hidden(name.as_str());
            if hid && !show_hidden {
                return Vec::new();
            }
            if name_in_skip_list(skipped, name.as_str()) {
                return Vec::new();
            }
            if !has_file_below(t) {
                let mut out: Vec<String> = Vec::new();
                out.push(path.clone());
                proof {
                    assert(out.deep_view() =~~= seq![path@]);
                }
                return out;
            }
            if hid {
                return Vec::new();
            }
            let ghost all = empties_scan_entries(entries@, path@, show_hidden, skipped@, 0);
            let mut out: Vec<String> = Vec::new();
            let mut i: usize = 0;
            while i < entries.len()
                invariant
                    *t == (FsEntry::Dir { name: *name, entries: *entries }),
                    i <= entries@.len(),
                    all == empties_scan_entries(entries@, path@, show_hidden, skipped@, 0),
                    out.deep_view() + empties_scan_entries(
                        entries@,
                        path@,
                        show_hidden,
                        skipped@,
                        i as int,
                    ) == all,
                decreases entries@.len() - i,
            {
                proof {
                    assert(decreases_to!(*t => t->Dir_entries));
                }
                let child_p = join_path(path.as_str(), name_of(&entries[i]).as_str());
                let ghost old_out = out.deep_view();
                let mut sub = scan_empties_at(entries, i, &child_p, show_hidden, skipped);
                let ghost sub_view = sub.deep_view();
                out.append(&mut sub);
                proof {
                    assert(out.deep_view() =~~= old_out + sub_view);
                    assert(out.deep_view() + empties_scan_entries(
                        entries@,
                        path@,
                        show_hidden,
                        skipped@,
                        i + 1,
                    ) =~~= all);
                }
                i = i + 1;
            }
            out
        },
    }
}

/// Scans the entry at index `i`, standing at `path`, for empty folders.
fn scan_empties_at(
    entries: &Vec<FsEntry>,
    i: usize,
    path: &String,
    show_hidden: bool,
    skipped: &Vec<String>,
) -> (r: Vec<String>)
    requires
        i < entries@.len(),
    ensures
        r.deep_view() == empties_scan(entries@[i as int], path@, show_hidden, skipped@),
    decreases *entries, 0int,
{
    scan_empties(&entries[i], path, show_hidden, skipped)
}

/// Whether the name stands in the skip list, compared exactly.
fn name_in_skip_list(skipped: &Vec<String>, name: &str) -> (r: bool)
    ensures
        r == in_skip_list(name@, skipped@),
{
    let mut i: usize = 0;
    while i < skipped.len()
        invariant
            i <= skipped@.len(),
            forall|k: int| 0 <= k < i ==> #[trigger] skipped@[k]@ != name@,
        decreases skipped@.len() - i,
    {
        if eq_exact(skipped[i].as_str(), name) {
            return true;
        }
        i = i + 1;
    }
    false
}

} // verus!
