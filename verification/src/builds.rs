//! The build-artifact scanner: classifies a directory as the build output of
//! a platform and walks a tree collecting every such hit, pruning below each.
//!
//! A directory is a hit for the first platform, in configuration order, that
//! the selection includes, that lists the directory's name among its build
//! folders (ignoring ASCII case), and one of whose associated patterns
//! matches some entry next to the directory (both lower-cased). A candidate
//! whose parent path contains the folder name as a substring (ignoring case)
//! is skipped entirely: a nested `target` inside another `target` tree is a
//! false positive, not a second artifact.

use vstd::prelude::*;

use crate::filter::Filter;
use crate::fs_tree::{FsEntry, child_path, entry_name, entry_names, join_path, name_of, names_of};
use crate::glob::glob_matches;
use crate::platform::Platform;
use crate::selection::{Selection, selection_includes};
use crate::text::{contains_ignore_case, contains_seq, eq_ignore_case, lower};

verus! {

/// Describes an existing build artifact.
#[derive(Debug, Clone)]
pub struct BuildArtifacts {
    /// Development platform name.
    pub name: String,
    /// Build artifact folder located.
    pub folder: String,
}

impl View for BuildArtifacts {
    type V = (Seq<char>, Seq<char>);

    open spec fn view(&self) -> (Seq<char>, Seq<char>) {
        (self.name@, self.folder@)
    }
}

impl DeepView for BuildArtifacts {
    type V = (Seq<char>, Seq<char>);

    open spec fn deep_view(&self) -> (Seq<char>, Seq<char>) {
        self.view()
    }
}

/// Whether `b` is one of the listed build folder names, ignoring ASCII case.
pub open spec fn folder_listed(folders: Seq<String>, b: Seq<char>) -> bool {
    exists|j: int| 0 <= j < folders.len() && lower(#[trigger] folders[j]@) == lower(b)
}

/// Whether some associated pattern matches some neighbouring entry name,
/// both lower-cased.
pub open spec fn associated_hit(assoc: Seq<Filter>, names: Seq<Seq<char>>) -> bool {
    exists|a: int, b: int|
        0 <= a < assoc.len() && 0 <= b < names.len() && #[trigger] glob_matches(
            lower(assoc[a]@),
            lower(names[b]),
        )
}

/// Whether the platform is a candidate for a folder named `folder`: the
/// selection includes it and it lists the folder name.
pub open spec fn platform_candidate(p: Platform, filter: Selection, folder: Seq<char>) -> bool {
    selection_includes(filter, p.name@) && folder_listed(p.folders@, folder)
}

/// The platform name a folder is classified under, starting from platform
/// `i`: the first candidate decides — it is rejected outright when the
/// parent path contains the folder name (the nested-artifact guard), wins
/// when an associated pattern matches a neighbouring entry, and otherwise
/// passes the decision on to the remaining platforms.
pub open spec fn build_match(
    folder: Seq<char>,
    parent_path: Seq<char>,
    parent_names: Seq<Seq<char>>,
    filter: Selection,
    platforms: Seq<Platform>,
    i: int,
) -> Option<Seq<char>>
    decreases platforms.len() - i,
{
    if i < 0 || i >= platforms.len() {
        None
    } else if platform_candidate(platforms[i], filter, folder) {
        if contains_seq(lower(parent_path), lower(folder)) {
            None
        } else if associated_hit(platforms[i].associated@, parent_names) {
            Some(platforms[i].name@)
        } else {
            build_match(folder, parent_path, parent_names, filter, platforms, i + 1)
        }
    } else {
        build_match(folder, parent_path, parent_names, filter, platforms, i + 1)
    }
}

/// Determines if a directory named `folder_name`, inside `parent_path` and
/// next to the entries named `parent_names`, is the build artifact of one of
/// the platforms, and of which.
pub fn classify_build_artifact(
    folder_name: &str,
    parent_path: &str,
    parent_names: &Vec<String>,
    filter: &Selection,
    platforms: &Vec<Platform>,
) -> (r: Option<String>)
    ensures
        r.deep_view() == build_match(
            folder_name@,
            parent_path@,
            parent_names.deep_view(),
            *filter,
            platforms@,
            0,
        ),
{
    let ghost target = build_match(
        folder_name@,
        parent_path@,
        parent_names.deep_view(),
        *filter,
        platforms@,
        0,
    );
    let mut i: usize = 0;
    while i < platforms.len()
        invariant
            i <= platforms@.len(),
            target == build_match(
                folder_name@,
                parent_path@,
                parent_names.deep_view(),
                *filter,
                platforms@,
                0,
            ),
            target == build_match(
                folder_name@,
                parent_path@,
                parent_names.deep_view(),
                *filter,
                platforms@,
                i as int,
            ),
        decreases platforms@.len() - i,
    {
        let p = &platforms[i];
        if filter.matches(p.name.as_str()) && folder_in_list(&p.folders, folder_name) {
            if contains_ignore_case(parent_path, folder_name) {
                return None;
            }
            if any_pattern_matches(&p.associated, parent_names) {
                return Some(p.name.clone());
            }
        }
        i = i + 1;
    }
    None
}

/// Whether `name` is one of the listed folder names, ignoring ASCII case.
fn folder_in_list(folders: &Vec<String>, name: &str) -> (r: bool)
    ensures
        r == folder_listed(folders@, name@),
{
    let mut j: usize = 0;
    while j < folders.len()
        invariant
            j <= folders@.len(),
            forall|k: int| 0 <= k < j ==> lower(#[trigger] folders@[k]@) != lower(name@),
        decreases folders@.len() - j,
    {
        if eq_ignore_case(folders[j].as_str(), name) {
            return true;
        }
        j = j + 1;
    }
    false
}

/// Whether some pattern matches some entry name, both lower-cased.
fn any_pattern_matches(assoc: &Vec<Filter>, names: &Vec<String>) -> (r: bool)
    ensures
        r == associated_hit(assoc@, names.deep_view()),
{
    let mut a: usize = 0;
    while a < assoc.len()
        invariant
            a <= assoc@.len(),
            forall|x: int, y: int|
                0 <= x < a && 0 <= y < names.deep_view().len() ==> !(#[trigger] glob_matches(
                    lower(assoc@[x]@),
                    lower(names.deep_view()[y]),
                )),
        decreases assoc@.len() - a,
    {
        let mut b: usize = 0;
        while b < names.len()
            invariant
                a < assoc@.len(),
                b <= names@.len(),
                names@.len() == names.deep_view().len(),
                forall|y: int|
                    0 <= y < b ==> !(#[trigger] glob_matches(
                        lower(assoc@[a as int]@),
                        lower(names.deep_view()[y]),
                    )),
            decreases names@.len() - b,
        {
            if assoc[a].matches_ignore_case(names[b].as_str()) {
                proof {
                    assert(names.deep_view()[b as int] == names@[b as int]@);
                    assert(glob_matches(lower(assoc@[a as int]@), lower(names.deep_view()[
                    b as int])));
                }
                return true;
            }
            proof {
                assert(names.deep_view()[b as int] == names@[b as int]@);
            }
            b = b + 1;
        }
        a = a + 1;
    }
    false
}

/// The artifacts that the scan of the tree `t` reports, in traversal order:
/// `path` is where `t` stands, `parent_path` and `parent_names` describe the
/// directory around it. A classified directory is reported and not descended
/// into; anything else is walked further.
pub open spec fn builds_scan(
    t: FsEntry,
    path: Seq<char>,
    parent_path: Seq<char>,
    parent_names: Seq<Seq<char>>,
    filter: Selection,
    platforms: Seq<Platform>,
) -> Seq<(Seq<char>, Seq<char>)>
    decreases t, 1int,
{
    match t {
        FsEntry::File { .. } => Seq::empty(),
        FsEntry::Dir { name, entries } => {
            match build_match(name@, parent_path, parent_names, filter, platforms, 0) {
                Some(platform_name) => seq![(platform_name, path)],
                None => builds_scan_entries(
                    entries@,
                    path,
                    names_of(entries@),
                    filter,
                    platforms,
                    0,
                ),
            }
        },
    }
}

/// The reports of the scans of the entries from index `i` on, concatenated.
pub open spec fn builds_scan_entries(
    entries: Seq<FsEntry>,
    dir_path: Seq<char>,
    dir_names: Seq<Seq<char>>,
    filter: Selection,
    platforms: Seq<Platform>,
    i: int,
) -> Seq<(Seq<char>, Seq<char>)>
    decreases entries, entries.len() - i,
{
    if i < 0 || i >= entries.len() {
        Seq::empty()
    } else {
        builds_scan(
            entries[i],
            child_path(dir_path, entry_name(entries[i])),
            dir_path,
            dir_names,
            filter,
            platforms,
        ) + builds_scan_entries(entries, dir_path, dir_names, filter, platforms, i + 1)
    }
}

/// Scans the tree `t`, standing at `path` inside `parent_path` and next to
/// the entries named `parent_names`, for build artifacts of the selected
/// platforms.
pub fn scan_build_artifacts(
    t: &FsEntry,
    path: &String,
    parent_path: &String,
    parent_names: &Vec<String>,
    filter: &Selection,
    platforms: &Vec<Platform>,
) -> (r: Vec<BuildArtifacts>)
    ensures
        r.deep_view() == builds_scan(
            *t,
            path@,
            parent_path@,
            parent_names.deep_view(),
            *filter,
            platforms@,
        ),
    decreases *t, 1int,
{
    match t {
        FsEntry::File { .. } => Vec::new(),
        FsEntry::Dir { name, entries } => {
            let hit = classify_build_artifact(
                name.as_str(),
                parent_path.as_str(),
                parent_names,
                filter,
                platforms,
            );
            match hit {
                Some(platform_name) => {
                    let mut out: Vec<BuildArtifacts> = Vec::new();
                    out.push(BuildArtifacts { name: platform_name, folder: path.clone() });
                    proof {
                        assert(out.deep_view() =~~= builds_scan(
                            *t,
                            path@,
                            parent_path@,
                            parent_names.deep_view(),
                            *filter,
                            platforms@,
                        ));
                    }
                    out
                },
                None => {
                    let names = entry_names(entries);
                    let ghost all = builds_scan_entries(
                        entries@,
                        path@,
                        names_of(entries@),
                        *filter,
                        platforms@,
                        0,
                    );
                    let mut out: Vec<BuildArtifacts> = Vec::new();
                    let mut i: usize = 0;
                    while i < entries.len()
                        invariant
                            *t == (FsEntry::Dir { name: *name, entries: *entries }),
                            i <= entries@.len(),
                            names.deep_view() == names_of(entries@),
                            all == builds_scan_entries(
                                entries@,
                                path@,
                                names_of(entries@),
                                *filter,
                                platforms@,
                                0,
                            ),
                            out.deep_view() + builds_scan_entries(
                                entries@,
                                path@,
                                names_of(entries@),
                                *filter,
                                platforms@,
                                i as int,
                            ) == all,
                        decreases entries@.len() - i,
                    {
                        proof {
                            assert(decreases_to!(*t => t->Dir_entries));
                        }
                        let child_p = join_path(path.as_str(), name_of(&entries[i]).as_str());
                        let ghost old_out = out.deep_view();
                        let mut sub = scan_build_artifacts_at(
                            entries,
                            i,
                            &child_p,
                            path,
                            &names,
                            filter,
                            platforms,
                        );
                        let ghost sub_view = sub.deep_view();
                        out.append(&mut sub);
                        proof {
                            assert(out.deep_view() =~~= old_out + sub_view);
                            assert(out.deep_view() + builds_scan_entries(
                                entries@,
                                path@,
                                names_of(entries@),
                                *filter,
                                platforms@,
                                i + 1,
                            ) =~~= all);
                        }
                        i = i + 1;
                    }
                    out
                },
            }
        },
    }
}

/// Scans the entry at index `i`, standing at `path` inside the directory at
/// `dir_path` whose entries are named `dir_names`, for build artifacts.
fn scan_build_artifacts_at(
    entries: &Vec<FsEntry>,
    i: usize,
    path: &String,
    dir_path: &String,
    dir_names: &Vec<String>,
    filter: &Selection,
    platforms: &Vec<Platform>,
) -> (r: Vec<BuildArtifacts>)
    requires
        i < entries@.len(),
    ensures
        r.deep_view() == builds_scan(
            entries@[i as int],
            path@,
            dir_path@,
            dir_names.deep_view(),
            *filter,
            platforms@,
        ),
    decreases *entries, 0int,
{
    scan_build_artifacts(&entries[i], path, dir_path, dir_names, filter, platforms)
}

} // verus!
