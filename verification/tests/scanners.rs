use cleaner::builds::{classify_build_artifact, scan_build_artifacts};
use cleaner::empties::unique_folder_names;
use cleaner::empties::scan_empties;
use cleaner::filter::Filter;
use cleaner::fs_tree::FsEntry;
use cleaner::platform::Platform;
use cleaner::repos::scan_repos;
use cleaner::selection::Selection;

fn file(name: &str) -> FsEntry {
    FsEntry::File { name: String::from(name) }
}

fn dir(name: &str, entries: Vec<FsEntry>) -> FsEntry {
    FsEntry::Dir { name: String::from(name), entries }
}

fn rust_platform() -> Platform {
    Platform {
        name: String::from("Rust"),
        folders: vec![String::from("target")],
        associated: vec![Filter::new(String::from("Cargo.toml"))],
    }
}

#[test]
fn a_build_artifact_next_to_its_marker_is_reported_once_and_pruned() {
    let tree = dir(
        "root",
        vec![dir(
            "proj",
            vec![
                file("Cargo.toml"),
                dir("target", vec![dir("debug", vec![file("x")])]),
            ],
        )],
    );
    let platforms = vec![rust_platform()];
    let parent_names: Vec<String> = vec![];

    let hits = scan_build_artifacts(
        &tree,
        &String::from("root"),
        &String::from(""),
        &parent_names,
        &Selection::All,
        &platforms,
    );

    assert_eq!(1, hits.len());
    assert_eq!("Rust", hits[0].name);
    assert_eq!("root/proj/target", hits[0].folder);
}

#[test]
fn scanning_below_a_build_artifact_reports_nothing() {
    let tree = dir("debug", vec![file("x")]);
    let platforms = vec![rust_platform()];
    let parent_names = vec![String::from("debug")];

    let hits = scan_build_artifacts(
        &tree,
        &String::from("root/proj/target/debug"),
        &String::from("root/proj/target"),
        &parent_names,
        &Selection::All,
        &platforms,
    );

    assert_eq!(0, hits.len());
}

#[test]
fn a_candidate_without_an_associated_marker_is_not_reported() {
    let tree = dir("root", vec![dir("proj", vec![dir("target", vec![])])]);
    let platforms = vec![rust_platform()];
    let parent_names: Vec<String> = vec![];

    let hits = scan_build_artifacts(
        &tree,
        &String::from("root"),
        &String::from(""),
        &parent_names,
        &Selection::All,
        &platforms,
    );

    assert_eq!(0, hits.len());
}

#[test]
fn the_selection_filter_excludes_platforms() {
    let tree = dir(
        "root",
        vec![dir("proj", vec![file("Cargo.toml"), dir("target", vec![])])],
    );
    let platforms = vec![rust_platform()];
    let parent_names: Vec<String> = vec![];

    let hits = scan_build_artifacts(
        &tree,
        &String::from("root"),
        &String::from(""),
        &parent_names,
        &Selection::Select { values: vec![String::from("web")] },
        &platforms,
    );

    assert_eq!(0, hits.len());

    let hits = scan_build_artifacts(
        &tree,
        &String::from("root"),
        &String::from(""),
        &parent_names,
        &Selection::Select { values: vec![String::from("rust")] },
        &platforms,
    );

    assert_eq!(1, hits.len());
}

#[test]
fn the_first_platform_with_a_marker_wins() {
    let platforms = vec![
        Platform {
            name: String::from("A"),
            folders: vec![String::from("build")],
            associated: vec![Filter::new(String::from("a.txt"))],
        },
        Platform {
            name: String::from("B"),
            folders: vec![String::from("build")],
            associated: vec![Filter::new(String::from("b.txt"))],
        },
    ];
    let parent_names = vec![String::from("b.txt"), String::from("build")];

    let hit = classify_build_artifact("build", "root", &parent_names, &Selection::All, &platforms);

    assert_eq!(Some(String::from("B")), hit);

    let parent_names = vec![String::from("a.txt"), String::from("b.txt")];

    let hit = classify_build_artifact("build", "root", &parent_names, &Selection::All, &platforms);

    assert_eq!(Some(String::from("A")), hit);
}

#[test]
fn a_candidate_whose_parent_path_contains_its_name_is_skipped() {
    let platforms = vec![rust_platform()];
    let parent_names = vec![String::from("Cargo.toml")];

    let hit = classify_build_artifact(
        "target",
        "root/mytarget-stuff",
        &parent_names,
        &Selection::All,
        &platforms,
    );

    assert_eq!(None, hit);

    let hit = classify_build_artifact(
        "target",
        "root/proj",
        &parent_names,
        &Selection::All,
        &platforms,
    );

    assert_eq!(Some(String::from("Rust")), hit);
}

#[test]
fn folder_membership_is_case_insensitive() {
    let platforms = vec![rust_platform()];
    let parent_names = vec![String::from("CARGO.TOML")];

    let hit = classify_build_artifact(
        "Target",
        "root/proj",
        &parent_names,
        &Selection::All,
        &platforms,
    );

    assert_eq!(Some(String::from("Rust")), hit);
}

#[test]
fn only_the_top_most_empty_folder_is_reported() {
    let tree = dir(
        "root",
        vec![
            dir("a", vec![dir("b", vec![])]),
            dir("c", vec![file("file.txt")]),
        ],
    );
    let skipped: Vec<String> = vec![];

    let empties = scan_empties(&tree, &String::from("root"), false, &skipped);

    assert_eq!(vec![String::from("root/a")], empties);
}

#[test]
fn git_folders_are_never_reported_and_hidden_folders_only_when_asked() {
    let tree = dir(
        "root",
        vec![
            dir(".git", vec![]),
            dir(".cache", vec![]),
            file("keep.txt"),
        ],
    );
    let skipped: Vec<String> = vec![];

    let empties = scan_empties(&tree, &String::from("root"), false, &skipped);
    assert_eq!(0, empties.len());

    let empties = scan_empties(&tree, &String::from("root"), true, &skipped);
    assert_eq!(vec![String::from("root/.cache")], empties);
}

#[test]
fn a_hidden_folder_that_is_not_empty_is_not_descended_into() {
    let tree = dir(
        "root",
        vec![
            dir(".hidden", vec![dir("empty-inside", vec![]), file("data")]),
            file("keep.txt"),
        ],
    );
    let skipped: Vec<String> = vec![];

    let empties = scan_empties(&tree, &String::from("root"), true, &skipped);

    assert_eq!(0, empties.len());
}

#[test]
fn skipped_folder_names_are_passed_over() {
    let tree = dir(
        "root",
        vec![dir("target", vec![]), dir("out", vec![]), file("keep.txt")],
    );
    let skipped = vec![String::from("target")];

    let empties = scan_empties(&tree, &String::from("root"), false, &skipped);

    assert_eq!(vec![String::from("root/out")], empties);
}

#[test]
fn repositories_are_found_and_not_searched_inside() {
    let tree = dir(
        "root",
        vec![
            dir(
                "repo1",
                vec![
                    dir(".git", vec![]),
                    dir("src", vec![dir("inner", vec![dir(".git", vec![])])]),
                ],
            ),
            dir("nested", vec![dir("repo2", vec![dir(".git", vec![])])]),
            dir("plain", vec![file("readme")]),
        ],
    );

    let repos = scan_repos(&tree, &String::from("root"));

    assert_eq!(
        vec![String::from("root/repo1"), String::from("root/nested/repo2")],
        repos
    );
}

#[test]
fn a_git_file_does_not_mark_a_repository() {
    let tree = dir("root", vec![dir("worktree", vec![file(".git")])]);

    let repos = scan_repos(&tree, &String::from("root"));

    assert_eq!(0, repos.len());
}

#[test]
fn the_skip_list_holds_each_configured_folder_once() {
    let platforms = vec![
        Platform {
            name: String::from("Rust"),
            folders: vec![String::from("target"), String::from("bin")],
            associated: vec![Filter::new(String::from("Cargo.toml"))],
        },
        Platform {
            name: String::from("Web"),
            folders: vec![String::from("node_modules"), String::from("target"), String::from("Target")],
            associated: vec![Filter::new(String::from("package.json"))],
        },
    ];

    let skip = unique_folder_names(&platforms);

    assert_eq!(
        vec![
            String::from("target"),
            String::from("bin"),
            String::from("node_modules"),
            String::from("Target"),
        ],
        skip
    );
}
