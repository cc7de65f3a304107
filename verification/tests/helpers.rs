use cleaner::display::{artifact_label, list_output, max_name_width, platform_names, relative_path};
use cleaner::editor::delete_selected_entries;
use cleaner::filter::Filter;
use cleaner::platform::Platform;
use cleaner::question::{DefaultAnswer, Response, interpret_answer};

fn platform(name: &str) -> Platform {
    Platform {
        name: String::from(name),
        folders: vec![String::from("target")],
        associated: vec![Filter::new(String::from("Cargo.toml"))],
    }
}

#[test]
fn artifact_labels_pad_the_platform_name_to_the_widest() {
    assert_eq!("[Rust ] proj/target", artifact_label("Rust", 5, "proj/target"));
    assert_eq!("[Rust] proj/target", artifact_label("Rust", 3, "proj/target"));
}

#[test]
fn the_widest_platform_name_sets_the_label_width() {
    let platforms = vec![platform("Rust"), platform("Web"), platform(".Net Core")];

    assert_eq!(9, max_name_width(&platforms));

    let none: Vec<Platform> = vec![];
    assert_eq!(0, max_name_width(&none));
}

#[test]
fn platform_names_are_listed_in_order() {
    let platforms = vec![platform("Rust"), platform("Web")];

    assert_eq!(vec![String::from("Rust"), String::from("Web")], platform_names(&platforms));
}

#[test]
fn paths_are_shown_relative_to_the_scanned_root() {
    assert_eq!("proj/target", relative_path("root/proj/target", "root"));
    assert_eq!("x", relative_path("root/x", "root/"));
}

#[test]
fn an_empty_leading_item_leaves_no_dangling_separator() {
    assert_eq!("x", list_output(&vec![String::from(""), String::from("x")]));
}

#[test]
fn answers_are_read_from_one_byte_of_input() {
    assert_eq!(Response::Yes { defaulted: false }, interpret_answer(b'y', DefaultAnswer::No));
    assert_eq!(Response::Yes { defaulted: false }, interpret_answer(b'Y', DefaultAnswer::No));
    assert_eq!(Response::No { defaulted: false }, interpret_answer(b'n', DefaultAnswer::Yes));
    assert_eq!(Response::No { defaulted: false }, interpret_answer(b'N', DefaultAnswer::Yes));
    assert_eq!(Response::Yes { defaulted: true }, interpret_answer(b'\n', DefaultAnswer::Yes));
    assert_eq!(Response::No { defaulted: true }, interpret_answer(b'\n', DefaultAnswer::No));
    assert_eq!(Response::Yes { defaulted: false }, interpret_answer(b'x', DefaultAnswer::Yes));
    assert_eq!(Response::No { defaulted: false }, interpret_answer(b'x', DefaultAnswer::No));
}

#[test]
fn default_answers_show_their_capitalized_hint() {
    assert_eq!("Y/n", DefaultAnswer::Yes.to_display_string());
    assert_eq!("y/N", DefaultAnswer::No.to_display_string());
}

#[test]
fn deleting_selected_entries_removes_first_occurrences_in_order() {
    let mut values = vec![
        String::from("a"),
        String::from("b"),
        String::from("c"),
        String::from("b"),
    ];
    let selected = vec![String::from("b"), String::from("missing")];

    delete_selected_entries(&mut values, &selected);

    assert_eq!(vec![String::from("a"), String::from("c"), String::from("b")], values);
}
