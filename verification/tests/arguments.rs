use std::str::FromStr;

use cleaner::all_values::AllValues;
use cleaner::selection::Selection;

#[test]
fn all_values_matching_is_case_sensitive() {
    let sut = AllValues::Values { values: vec![String::from("Value")] };

    assert!(!sut.matches("value"));
    assert!(sut.matches("Value"));
    assert!(AllValues::All.matches("anything"));
}

#[test]
fn all_values_parse_like_selections() {
    assert_eq!(AllValues::All, AllValues::from_str(" ALL ").unwrap());
    assert_eq!(
        AllValues::Values { values: vec![String::from("a"), String::from("b")] },
        AllValues::from_str("a, b").unwrap()
    );
}

#[test]
fn all_values_choose_by_variant() {
    assert_eq!("value", AllValues::All.for_all("value", "other"));
    assert_eq!("other", AllValues::All.for_select("value", "other"));

    let listed = AllValues::Values { values: vec![] };
    assert_eq!("other", listed.for_all("value", "other"));
    assert_eq!("value", listed.for_select("value", "other"));
}

#[test]
fn all_values_display_as_a_comma_list() {
    assert_eq!("all", AllValues::All.to_display_string());

    let listed = AllValues::Values {
        values: vec![String::from("one"), String::from("two"), String::from("three")],
    };
    assert_eq!("one, two, three", listed.to_display_string());
}

#[test]
fn all_values_pluralize_like_selections() {
    assert_eq!("s", AllValues::All.pluralize("s"));
    assert_eq!("", AllValues::Values { values: vec![String::from("one")] }.pluralize("s"));
    assert_eq!(
        "s",
        AllValues::Values { values: vec![String::from("one"), String::from("two")] }.pluralize("s")
    );
}

#[test]
fn selections_parse_the_all_token_ignoring_case_and_whitespace() {
    assert_eq!(Selection::All, Selection::from_str("ALL").unwrap());
    assert_eq!(Selection::All, Selection::from_str("  AlL  ").unwrap());
    assert_eq!(
        Selection::Select { values: vec![] },
        Selection::from_str("").unwrap()
    );
    assert_eq!(
        Selection::Select { values: vec![String::from("a"), String::from("b")] },
        Selection::from_str("a,,b,").unwrap()
    );
}
