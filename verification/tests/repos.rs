use cleaner::repos::{
    AheadBehind, BranchInfo, BranchName, OutdatedFilter, RepoError, branch_is_outdated,
    branch_name_of, has_branch_named, is_main_or_master, repo_error_output, repo_is_branched,
    repo_is_init_only, repo_is_outdated, repo_is_up_to_date, repo_report_line,
    repo_without_remotes,
};

#[test]
fn a_branch_ahead_and_behind_matches_every_outdated_filter() {
    let status = AheadBehind { ahead: 3, behind: 1 };

    assert!(branch_is_outdated(OutdatedFilter::Ahead, status));
    assert!(branch_is_outdated(OutdatedFilter::Behind, status));
    assert!(branch_is_outdated(OutdatedFilter::Either, status));
}

#[test]
fn a_synced_branch_matches_no_outdated_filter_and_is_up_to_date() {
    let status = AheadBehind { ahead: 0, behind: 0 };

    assert!(!branch_is_outdated(OutdatedFilter::Ahead, status));
    assert!(!branch_is_outdated(OutdatedFilter::Behind, status));
    assert!(!branch_is_outdated(OutdatedFilter::Either, status));

    let branches = vec![BranchInfo { name: String::from("main"), status: Some(status) }];

    assert!(repo_is_up_to_date(&branches, false));
    assert!(!repo_is_outdated(&branches, OutdatedFilter::Either, false));
}

#[test]
fn an_ahead_only_branch_is_outdated_one_way() {
    let status = AheadBehind { ahead: 2, behind: 0 };

    assert!(branch_is_outdated(OutdatedFilter::Ahead, status));
    assert!(!branch_is_outdated(OutdatedFilter::Behind, status));
    assert!(branch_is_outdated(OutdatedFilter::Either, status));
}

#[test]
fn branches_without_an_upstream_are_excluded_from_consideration() {
    let branches = vec![BranchInfo { name: String::from("feature"), status: None }];

    assert!(!repo_is_outdated(&branches, OutdatedFilter::Either, false));
    assert!(repo_is_up_to_date(&branches, false));
}

#[test]
fn only_main_restricts_the_branches_considered() {
    let branches = vec![
        BranchInfo {
            name: String::from("feature"),
            status: Some(AheadBehind { ahead: 5, behind: 0 }),
        },
        BranchInfo {
            name: String::from("main"),
            status: Some(AheadBehind { ahead: 0, behind: 0 }),
        },
    ];

    assert!(repo_is_outdated(&branches, OutdatedFilter::Either, false));
    assert!(!repo_is_outdated(&branches, OutdatedFilter::Either, true));
    assert!(!repo_is_up_to_date(&branches, false));
    assert!(repo_is_up_to_date(&branches, true));
}

#[test]
fn main_and_master_are_recognized_in_both_forms() {
    assert!(is_main_or_master("main"));
    assert!(is_main_or_master("master"));
    assert!(is_main_or_master("refs/heads/main"));
    assert!(is_main_or_master("refs/heads/master"));
    assert!(!is_main_or_master("Main"));
    assert!(!is_main_or_master("develop"));
    assert!(!is_main_or_master("refs/heads/feature"));

    assert!(repo_is_branched("refs/heads/feature"));
    assert!(!repo_is_branched("refs/heads/main"));
}

#[test]
fn an_unborn_repository_produces_no_error_output() {
    let err = RepoError { message: String::from("reference 'refs/heads/main' not found"), unborn: true };

    assert_eq!(None, repo_error_output("/repos/fresh", &err, None));
    assert_eq!(None, repo_error_output("/repos/fresh", &err, Some("Couldn't fetch remote")));
}

#[test]
fn an_unborn_head_marks_a_repository_as_init_only() {
    let unborn = RepoError { message: String::from("no commits yet"), unborn: true };
    let other = RepoError { message: String::from("corrupt"), unborn: false };

    assert!(repo_is_init_only(&Some(unborn)));
    assert!(!repo_is_init_only(&Some(other)));
    assert!(!repo_is_init_only(&None));
}

#[test]
fn error_output_strips_the_redundant_path_from_the_message() {
    let err = RepoError {
        message: String::from("could not find repository at '/x/y'; class=Repository"),
        unborn: false,
    };

    let line = repo_error_output("/x/y", &err, None);

    assert_eq!(
        Some(String::from("/x/y - Err: could not find repository; class=Repository")),
        line
    );
}

#[test]
fn error_output_keeps_a_leading_context() {
    let err = RepoError { message: String::from("timed out"), unborn: false };

    let line = repo_error_output("/x/y", &err, Some("Couldn't fetch remote"));

    assert_eq!(Some(String::from("Couldn't fetch remote /x/y - Err: timed out")), line);
}

#[test]
fn a_head_reference_displays_its_commit_and_a_branch_its_name() {
    let detached = branch_name_of(String::from("HEAD"), Some(String::from("ab12cd")));
    assert_eq!(BranchName::Head(String::from("ab12cd")), detached);
    assert_eq!("head: ab12cd", detached.to_display_string());

    let on_branch = branch_name_of(String::from("main"), Some(String::from("ab12cd")));
    assert_eq!(BranchName::Branch(String::from("main")), on_branch);
    assert_eq!("branch: main", on_branch.to_display_string());

    let unresolved = branch_name_of(String::from("HEAD"), None);
    assert_eq!(BranchName::Branch(String::from("HEAD")), unresolved);
}

#[test]
fn report_lines_carry_the_path_branch_and_note() {
    let with_note = repo_report_line(
        "/repos/app",
        "branch: main",
        Some(&String::from("changes: 3")),
    );
    assert_eq!("/repos/app - branch: main; changes: 3", with_note);

    let without_note = repo_report_line("/repos/app", "head: ab12cd", None);
    assert_eq!("/repos/app - head: ab12cd", without_note);
}

#[test]
fn local_repositories_are_those_with_no_remotes_and_some_history() {
    assert!(repo_without_remotes(0, false));
    assert!(!repo_without_remotes(0, true));
    assert!(!repo_without_remotes(2, false));
}

#[test]
fn branch_lookup_is_exact() {
    let names = vec![String::from("main"), String::from("feature")];

    assert!(has_branch_named(&names, "main"));
    assert!(!has_branch_named(&names, "Main"));
    assert!(!has_branch_named(&names, "master"));
}
