use cleaner::filter::Filter;

#[test]
fn a_literal_pattern_matches_exactly_itself() {
    let pattern = Filter::new(String::from("Cargo.toml"));

    assert!(pattern.matches("Cargo.toml"));
    assert!(!pattern.matches("cargo.toml"));
    assert!(!pattern.matches("Cargo.tom"));
    assert!(!pattern.matches("Cargo.tomll"));
    assert!(!pattern.matches(""));
}

#[test]
fn a_star_matches_any_run_of_characters() {
    let pattern = Filter::new(String::from("*.json"));

    assert!(pattern.matches("package.json"));
    assert!(pattern.matches(".json"));
    assert!(!pattern.matches("package.jsonx"));
    assert!(!pattern.matches("package.js"));
}

#[test]
fn a_question_mark_matches_exactly_one_character() {
    let pattern = Filter::new(String::from("a?c"));

    assert!(pattern.matches("abc"));
    assert!(!pattern.matches("abbc"));
    assert!(!pattern.matches("ac"));
}

#[test]
fn stars_may_stand_anywhere_and_match_nothing() {
    let pattern = Filter::new(String::from("*target*"));

    assert!(pattern.matches("target"));
    assert!(pattern.matches("my-target-dir"));
    assert!(!pattern.matches("tar-get"));
}

#[test]
fn matching_ignoring_case_folds_both_sides() {
    let pattern = Filter::new(String::from("Package.Json"));

    assert!(!pattern.matches("package.json"));
    assert!(pattern.matches_ignore_case("PACKAGE.JSON"));
    assert!(pattern.matches_ignore_case("package.json"));
    assert!(!pattern.matches_ignore_case("package.jsonx"));
}

#[test]
fn the_original_text_is_kept() {
    let pattern = Filter::new(String::from("*.rs"));

    assert_eq!("*.rs", pattern.text());
}
