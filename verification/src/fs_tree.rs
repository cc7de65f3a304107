//! An explicit model of a directory tree. The scanners walk values of this
//! type; reading a real directory tree into it is left to the callers.

use vstd::prelude::*;
use vstd::string::StrSliceExecFns;

verus! {

/// One node of a directory tree: a regular file, or a directory with its
/// entries in enumeration order.
pub enum FsEntry {
    /// A regular file.
    File {
        /// The file's base name.
        name: String,
    },
    /// A directory.
    Dir {
        /// The directory's base name.
        name: String,
        /// The directory's entries, in the order enumeration yields them.
        entries: Vec<FsEntry>,
    },
}

/// The base name of an entry.
pub open spec fn entry_name(t: FsEntry) -> Seq<char> {
    match t {
        FsEntry::File { name } => name@,
        FsEntry::Dir { name, .. } => name@,
    }
}

/// The base names of a list of entries.
pub open spec fn names_of(entries: Seq<FsEntry>) -> Seq<Seq<char>> {
    entries.map_values(|e: FsEntry| entry_name(e))
}

/// A hidden entry: its name starts with a dot.
pub open spec fn is_hidden(name: Seq<char>) -> bool {
    name.len() > 0 && name[0] == '.'
}

/// The path of an entry named `name` inside the directory at `dir`.
pub open spec fn child_path(dir: Seq<char>, name: Seq<char>) -> Seq<char> {
    dir + seq!['/'] + name
}

/// Whether the subtree rooted at `t` contains a regular file anywhere,
/// `t` itself included.
pub open spec fn subtree_has_file(t: FsEntry) -> bool
    decreases t, 0int,
{
    match t {
        FsEntry::File { .. } => true,
        FsEntry::Dir { entries, .. } => entries_have_file(entries@, 0),
    }
}

/// Whether any of the entries from index `i` on roots a subtree with a file.
pub open spec fn entries_have_file(entries: Seq<FsEntry>, i: int) -> bool
    decreases entries, entries.len() - i,
{
    if i < 0 || i >= entries.len() {
        false
    } else {
        subtree_has_file(entries[i]) || entries_have_file(entries, i + 1)
    }
}

/// The base name of an entry.
pub fn name_of(t: &FsEntry) -> (r: &String)
    ensures
        r@ == entry_name(*t),
{
    match t {
        FsEntry::File { name } => name,
        FsEntry::Dir { name, .. } => name,
    }
}

/// The base names of the entries, in order.
pub fn entry_names(entries: &Vec<FsEntry>) -> (r: Vec<String>)
    ensures
        r.deep_view() == names_of(entries@),
{
    let mut names: Vec<String> = Vec::new();
    let mut i: usize = 0;
    while i < entries.len()
        invariant
            i <= entries@.len(),
            names@.len() == i,
            forall|k: int| 0 <= k < i ==> names@[k]@ == entry_name(#[trigger] entries@[k]),
        decreases entries@.len() - i,
    {
        names.push(name_of(&entries[i]).clone());
        i = i + 1;
    }
    proof {
        assert(names.deep_view() =~~= names_of(entries@));
    }
    names
}

/// Whether the entry's name starts with a dot.
pub fn hidden(name: &str) -> (r: bool)
    ensures
        r == is_hidden(name@),
{
    name.unicode_len() > 0 && name.get_char(0) == '.'
}

/// The path of an entry named `name` inside the directory at `dir`:
/// the two joined with the path separator.
pub fn join_path(dir: &str, name: &str) -> (r: String)
    ensures
        r@ == child_path(dir@, name@),
{
    let mut out = dir.to_owned();
    out.append("/");
    out.append(name);
    proof {
        reveal_strlit("/");
        assert("/"@ =~= seq!['/']);
        assert(out@ =~= child_path(dir@, name@));
    }
    out
}

/// Whether the subtree rooted at `t` contains a regular file anywhere.
pub fn has_file_below(t: &FsEntry) -> (r: bool)
    ensures
        r == subtree_has_file(*t),
    decreases *t, 0int,
{
    match t {
        FsEntry::File { .. } => true,
        FsEntry::Dir { name, entries } => {
            let mut i: usize = 0;
            while i < entries.len()
                invariant
                    *t == (FsEntry::Dir { name: *name, entries: *entries }),
                    i <= entries@.len(),
                    forall|k: int| 0 <= k < i ==> !subtree_has_file(#[trigger] entries@[k]),
                decreases entries@.len() - i,
            {
                proof {
                    assert(decreases_to!(*t => t->Dir_entries));
                }
                if has_file_below_at(entries, i) {
                    proof {
                        lemma_entries_have_file_from(entries@, 0, i as int);
                    }
                    return true;
                }
                i = i + 1;
            }
            proof {
                lemma_entries_no_file(entries@, 0);
            }
            false
        },
    }
}

/// Whether the subtree rooted at `entries[i]` contains a regular file.
fn has_file_below_at(entries: &Vec<FsEntry>, i: usize) -> (r: bool)
    requires
        i < entries@.len(),
    ensures
        r == subtree_has_file(entries@[i as int]),
    decreases *entries, 0int,
{
    has_file_below(&entries[i])
}

/// If the subtree at index `i` has a file, so has the run from `from` on.
proof fn lemma_entries_have_file_from(entries: Seq<FsEntry>, from: int, i: int)
    requires
        0 <= from <= i < entries.len(),
        subtree_has_file(entries[i]),
    ensures
        entries_have_file(entries, from),
    decreases i - from,
{
    if from < i {
        lemma_entries_have_file_from(entries, from + 1, i);
    }
}

/// If no entry's subtree has a file, the run from `from` on has none.
proof fn lemma_entries_no_file(entries: Seq<FsEntry>, from: int)
    requires
        forall|k: int| 0 <= k < entries.len() ==> !subtree_has_file(#[trigger] entries[k]),
    ensures
        !entries_have_file(entries, from),
    decreases entries.len() - from,
{
    if 0 <= from < entries.len() {
        lemma_entries_no_file(entries, from + 1);
    }
}

} // verus!
