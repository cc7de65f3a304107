//! The repository scan: discovering git checkouts in a tree, deciding
//! branch state (ahead/behind, up to date, main-or-master), classifying
//! per-repository errors, and building the report lines. Opening
//! repositories, fetching remotes and reading branch tips are left to the
//! callers; the decisions over what they hand back are made here.

use vstd::prelude::*;
use vstd::string::StrSliceExecFns;
use vstd::string::StringExecFns;

use crate::fs_tree::{FsEntry, child_path, entry_name, join_path, name_of};
use crate::text::{eq_exact, remove_all, remove_all_occurrences};

verus! {

/// Which divergence counts as outdated.
#[derive(Copy, Clone, Debug, Eq, PartialEq)]
pub enum OutdatedFilter {
    /// Only repos whose local branch has commits its upstream lacks.
    Ahead,
    /// Repos diverged from their upstream in either direction.
    Either,
    /// Only repos whose upstream has commits the local branch lacks.
    Behind,
}

/// The commit-count divergence of a local branch from its upstream.
#[derive(Copy, Clone, Debug, Eq, PartialEq)]
pub struct AheadBehind {
    /// Commits on the local branch that the upstream lacks.
    pub ahead: usize,
    /// Commits on the upstream that the local branch lacks.
    pub behind: usize,
}

/// One local branch: its short name, and its divergence from its upstream,
/// or `None` when it has no upstream configured.
#[derive(Debug, Clone)]
pub struct BranchInfo {
    /// The branch's short name.
    pub name: String,
    /// Divergence from the upstream, when one is configured.
    pub status: Option<AheadBehind>,
}

/// A per-repository error: its rendered message, and whether it reports an
/// unborn branch (a repository without commits), which is an expected state
/// and never shown as an error.
#[derive(Debug, Clone)]
pub struct RepoError {
    /// The error message as the underlying library renders it.
    pub message: String,
    /// Whether the error is an unborn-branch report.
    pub unborn: bool,
}

/// What a repository's HEAD points at.
#[derive(Debug, Clone, Eq, PartialEq)]
pub enum BranchName {
    /// HEAD is on a branch with this short name.
    Branch(String),
    /// HEAD is detached at the commit with this id.
    Head(String),
}

/// Whether the directory's entries mark it as a repository root: one of them
/// is a directory named `.git`.
pub open spec fn is_repo_root(entries: Seq<FsEntry>) -> bool {
    exists|i: int|
        0 <= i < entries.len() && #[trigger] entries[i] is Dir && entry_name(entries[i])
            == ".git"@
}

/// The repository roots that the scan of the tree `t`, standing at `path`,
/// discovers, in traversal order. Descent stops at each discovered root.
pub open spec fn repos_scan(t: FsEntry, path: Seq<char>) -> Seq<Seq<char>>
    decreases t, 1int,
{
    match t {
        FsEntry::File { .. } => Seq::empty(),
        FsEntry::Dir { name, entries } => {
            if is_repo_root(entries@) {
                seq![path]
            } else {
                repos_scan_entries(entries@, path, 0)
            }
        },
    }
}

/// The discoveries in the entries from index `i` on, concatenated.
pub open spec fn repos_scan_entries(entries: Seq<FsEntry>, dir_path: Seq<char>, i: int) -> Seq<
    Seq<char>,
>
    decreases entries, entries.len() - i,
{
    if i < 0 || i >= entries.len() {
        Seq::empty()
    } else {
        repos_scan(entries[i], child_path(dir_path, entry_name(entries[i])))
            + repos_scan_entries(entries, dir_path, i + 1)
    }
}

/// Scans the tree `t`, standing at `path`, for repository roots.
pub fn scan_repos(t: &FsEntry, path: &String) -> (r: Vec<String>)
    ensures
        r.deep_view() == repos_scan(*t, path@),
    decreases *t, 1int,
{
    match t {
        FsEntry::File { .. } => Vec::new(),
        FsEntry::Dir { name, entries } => {
            if folder_is_a_repo(entries) {
                let mut out: Vec<String> = Vec::new();
                out.push(path.clone());
                proof {
                    assert(out.deep_view() =~~= seq![path@]);
                }
                return out;
            }
            let ghost all = repos_scan_entries(entries@, path@, 0);
            let mut out: Vec<String> = Vec::new();
            let mut i: usize = 0;
            while i < entries.len()
                invariant
                    *t == (FsEntry::Dir { name: *name, entries: *entries }),
                    i <= entries@.len(),
                    all == repos_scan_entries(entries@, path@, 0),
                    out.deep_view() + repos_scan_entries(entries@, path@, i as int) == all,
                decreases entries@.len() - i,
            {
                proof {
                    assert(decreases_to!(*t => t->Dir_entries));
                }
                let child_p = join_path(path.as_str(), name_of(&entries[i]).as_str());
                let ghost old_out = out.deep_view();
                let mut sub = scan_repos_at(entries, i, &child_p);
                let ghost sub_view = sub.deep_view();
                out.append(&mut sub);
                proof {
                    assert(out.deep_view() =~~= old_out + sub_view);
                    assert(out.deep_view() + repos_scan_entries(entries@, path@, i + 1) =~~= all);
                }
                i = i + 1;
            }
            out
        },
    }
}

/// Scans the entry at index `i`, standing at `path`, for repository roots.
fn scan_repos_at(entries: &Vec<FsEntry>, i: usize, path: &String) -> (r: Vec<String>)
    requires
        i < entries@.len(),
    ensures
        r.deep_view() == repos_scan(entries@[i as int], path@),
    decreases *entries, 0int,
{
    scan_repos(&entries[i], path)
}

/// Determines if the entries mark their directory as a git repository:
/// one of them is a directory named `.git`.
pub fn folder_is_a_repo(entries: &Vec<FsEntry>) -> (r: bool)
    ensures
        r == is_repo_root(entries@),
{
    let mut i: usize = 0;
    while i < entries.len()
        invariant
            i <= entries@.len(),
            forall|k: int|
                0 <= k < i ==> !(#[trigger] entries@[k] is Dir && entry_name(entries@[k])
                    == ".git"@),
        decreases entries@.len() - i,
    {
        match &entries[i] {
            FsEntry::Dir { name, .. } => {
                if eq_exact(name.as_str(), ".git") {
                    proof {
                        assert(entries@[i as int] is Dir && entry_name(entries@[i as int])
                            == ".git"@);
                    }
                    return true;
                }
            },
            FsEntry::File { .. } => {},
        }
        i = i + 1;
    }
    false
}

/// Whether a branch name names the main line: `main` or `master`, bare or in
/// `refs/heads/` form, case-sensitively.
pub open spec fn main_or_master(name: Seq<char>) -> bool {
    ||| name == "main"@
    ||| name == "master"@
    ||| name == "refs/heads/main"@
    ||| name == "refs/heads/master"@
}

/// Whether a branch name names the main line.
pub fn is_main_or_master(name: &str) -> (r: bool)
    ensures
        r == main_or_master(name@),
{
    eq_exact(name, "main") || eq_exact(name, "master") || eq_exact(name, "refs/heads/main")
        || eq_exact(name, "refs/heads/master")
}

/// Whether a repository whose HEAD resolves to `head_name` sits on a branch
/// other than the main line.
pub fn repo_is_branched(head_name: &str) -> (r: bool)
    ensures
        r == !main_or_master(head_name@),
{
    !is_main_or_master(head_name)
}

/// Whether one branch's divergence makes it outdated under the filter:
/// `Ahead` asks for local commits the upstream lacks, `Behind` for upstream
/// commits the local branch lacks, `Either` for any divergence.
pub open spec fn outdated_under(filter: OutdatedFilter, status: AheadBehind) -> bool {
    match filter {
        OutdatedFilter::Ahead => status.ahead > 0,
        OutdatedFilter::Behind => status.behind > 0,
        OutdatedFilter::Either => status.ahead > 0 || status.behind > 0,
    }
}

/// Whether one branch's divergence makes it outdated under the filter.
pub fn branch_is_outdated(filter: OutdatedFilter, status: AheadBehind) -> (r: bool)
    ensures
        r == outdated_under(filter, status),
{
    match filter {
        OutdatedFilter::Ahead => status.ahead > 0,
        OutdatedFilter::Behind => status.behind > 0,
        OutdatedFilter::Either => status.ahead > 0 || status.behind > 0,
    }
}

/// Whether the branch takes part in the check: always, unless only the main
/// line is asked for and the branch is not on it. Branches without an
/// upstream never take part.
pub open spec fn branch_considered(b: BranchInfo, only_main: bool) -> bool {
    (!only_main || main_or_master(b.name@)) && b.status is Some
}

/// Whether some considered branch is outdated under the filter.
pub open spec fn some_branch_outdated(
    branches: Seq<BranchInfo>,
    filter: OutdatedFilter,
    only_main: bool,
) -> bool {
    exists|i: int|
        0 <= i < branches.len() && #[trigger] branch_considered(branches[i], only_main)
            && outdated_under(filter, branches[i].status->0)
}

/// Whether every considered branch has zero commits ahead and zero behind.
pub open spec fn all_branches_up_to_date(branches: Seq<BranchInfo>, only_main: bool) -> bool {
    forall|i: int|
        0 <= i < branches.len() && #[trigger] branch_considered(branches[i], only_main)
            ==> branches[i].status->0 == (AheadBehind { ahead: 0, behind: 0 })
}

/// Whether the repository counts as outdated: some considered branch
/// diverges from its upstream in the asked-for direction.
pub fn repo_is_outdated(branches: &Vec<BranchInfo>, filter: OutdatedFilter, only_main: bool) -> (r:
    bool)
    ensures
        r == some_branch_outdated(branches@, filter, only_main),
{
    let mut i: usize = 0;
    while i < branches.len()
        invariant
            i <= branches@.len(),
            forall|k: int|
                0 <= k < i ==> !(#[trigger] branch_considered(branches@[k], only_main)
                    && outdated_under(filter, branches@[k].status->0)),
        decreases branches@.len() - i,
    {
        let b = &branches[i];
        let eligible = !only_main || is_main_or_master(b.name.as_str());
        if eligible {
            match b.status {
                Some(status) => {
                    if branch_is_outdated(filter, status) {
                        proof {
                            assert(branch_considered(branches@[i as int], only_main));
                        }
                        return true;
                    }
                },
                None => {},
            }
        }
        i = i + 1;
    }
    false
}

/// Whether the repository counts as up to date: every considered branch has
/// zero commits ahead of and zero behind its upstream.
pub fn repo_is_up_to_date(branches: &Vec<BranchInfo>, only_main: bool) -> (r: bool)
    ensures
        r == all_branches_up_to_date(branches@, only_main),
{
    let mut i: usize = 0;
    while i < branches.len()
        invariant
            i <= branches@.len(),
            forall|k: int|
                0 <= k < i && #[trigger] branch_considered(branches@[k], only_main)
                    ==> branches@[k].status->0 == (AheadBehind { ahead: 0, behind: 0 }),
        decreases branches@.len() - i,
    {
        let b = &branches[i];
        let eligible = !only_main || is_main_or_master(b.name.as_str());
        if eligible {
            match b.status {
                Some(status) => {
                    if status.ahead != 0 || status.behind != 0 {
                        proof {
                            assert(branch_considered(branches@[i as int], only_main));
                        }
                        return false;
                    }
                },
                None => {},
            }
        }
        i = i + 1;
    }
    true
}

/// Whether some local branch carries exactly this name.
pub fn has_branch_named(names: &Vec<String>, branch_name: &str) -> (r: bool)
    ensures
        r == exists|i: int| 0 <= i < names@.len() && #[trigger] names@[i]@ == branch_name@,
{
    let mut i: usize = 0;
    while i < names.len()
        invariant
            i <= names@.len(),
            forall|k: int| 0 <= k < i ==> #[trigger] names@[k]@ != branch_name@,
        decreases names@.len() - i,
    {
        if eq_exact(names[i].as_str(), branch_name) {
            return true;
        }
        i = i + 1;
    }
    false
}

/// Whether the repository is freshly initialized and nothing more: resolving
/// HEAD failed, and the failure reports an unborn branch.
pub fn repo_is_init_only(head_error: &Option<RepoError>) -> (r: bool)
    ensures
        r == (head_error matches Some(e) && e.unborn),
{
    match head_error {
        Some(e) => e.unborn,
        None => false,
    }
}

/// Whether the repository has no remotes configured and is not merely
/// freshly initialized.
pub fn repo_without_remotes(remote_count: usize, init_only: bool) -> (r: bool)
    ensures
        r == (remote_count == 0 && !init_only),
{
    remote_count == 0 && !init_only
}

/// What the HEAD reference denotes: the commit id when the reference's short
/// name is the literal `HEAD` and a target commit is known, the branch with
/// that short name otherwise.
pub fn branch_name_of(shorthand: String, target: Option<String>) -> (r: BranchName)
    ensures
        (shorthand@ == "HEAD"@ && target is Some) ==> r == BranchName::Head(target->0),
        (shorthand@ != "HEAD"@ || target is None) ==> r == BranchName::Branch(shorthand),
{
    if eq_exact(shorthand.as_str(), "HEAD") {
        match target {
            Some(oid) => BranchName::Head(oid),
            None => BranchName::Branch(shorthand),
        }
    } else {
        BranchName::Branch(shorthand)
    }
}

impl BranchName {
    /// The readable form: `branch: ` or `head: ` followed by the name or id.
    pub fn to_display_string(&self) -> (r: String)
        ensures
            self matches BranchName::Branch(name) ==> r@ == "branch: "@ + name@,
            self matches BranchName::Head(id) ==> r@ == "head: "@ + id@,
    {
        match self {
            BranchName::Branch(name) => {
                let mut out = String::from_str("branch: ");
                out.append(name.as_str());
                out
            },
            BranchName::Head(id) => {
                let mut out = String::from_str("head: ");
                out.append(id.as_str());
                out
            },
        }
    }
}

/// The error line shown for a repository, or nothing: an unborn-branch error
/// is never shown; any other message is shown after the repository's path,
/// with every mention of ` at '<path>'` removed as redundant, and after the
/// leading context when one is given.
pub open spec fn repo_error_line(
    path: Seq<char>,
    err_message: Seq<char>,
    prefix: Option<&str>,
) -> Seq<char> {
    let cleaned = remove_all(err_message, " at '"@ + path + "'"@);
    let lead = match prefix {
        Some(p) => p@ + " "@,
        None => Seq::empty(),
    };
    lead + path + " - Err: "@ + cleaned
}

/// The error output for a repository: nothing for an unborn-branch error,
/// the error line otherwise.
pub fn repo_error_output(path: &str, err: &RepoError, prefix: Option<&str>) -> (r: Option<String>)
    ensures
        err.unborn ==> r is None,
        !err.unborn ==> (r matches Some(line) && line@ == repo_error_line(
            path@,
            err.message@,
            prefix,
        )),
{
    if err.unborn {
        return None;
    }
    let mut pattern = String::from_str(" at '");
    pattern.append(path);
    pattern.append("'");
    proof {
        reveal_strlit(" at '");
        assert(pattern@.len() > 0);
        assert(pattern@ == " at '"@ + path@ + "'"@);
    }
    let cleaned = remove_all_occurrences(err.message.as_str(), pattern.as_str());
    let mut line = match prefix {
        Some(p) => {
            let mut lead = p.to_owned();
            lead.append(" ");
            lead
        },
        None => String::new(),
    };
    line.append(path);
    line.append(" - Err: ");
    line.append(cleaned.as_str());
    proof {
        assert(line@ =~= repo_error_line(path@, err.message@, prefix));
    }
    Some(line)
}

/// The report line for a found repository: its path, the branch or head it
/// stands on, and the extra note when one is given.
pub fn repo_report_line(path: &str, branch_display: &str, message: Option<&String>) -> (r: String)
    ensures
        message matches Some(m) ==> r@ == path@ + " - "@ + branch_display@ + "; "@ + m@,
        message is None ==> r@ == path@ + " - "@ + branch_display@,
{
    let mut out = path.to_owned();
    out.append(" - ");
    out.append(branch_display);
    match message {
        Some(m) => {
            out.append("; ");
            out.append(m.as_str());
            proof {
                assert(out@ =~= path@ + " - "@ + branch_display@ + "; "@ + m@);
            }
        },
        None => {},
    }
    out
}

} // verus!
