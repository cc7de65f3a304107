use cleaner::filter::Filter;
use cleaner::platform::Platform;

#[test]
fn given_two_same_platforms_both_should_be_the_same() {
    let web = Platform {
        name: String::from("Web"),
        folders: vec![String::from("node_modules")],
        associated: vec![Filter::new(String::from("package.json"))],
    };

    let nodejs = Platform {
        name: String::from("NodeJS"),
        folders: vec![String::from("node_modules")],
        associated: vec![Filter::new(String::from("package.json"))],
    };

    let the_same = web.same_as(&nodejs);

    assert!(the_same);

    let the_same = nodejs.same_as(&web);

    assert!(the_same);
}

#[test]
fn given_two_different_platforms_neither_should_be_the_same() {
    let web = Platform {
        name: String::from("Web"),
        folders: vec![String::from("node_modules")],
        associated: vec![Filter::new(String::from("package.json"))],
    };

    let rust = Platform {
        name: String::from("Rust"),
        folders: vec![String::from("target")],
        associated: vec![Filter::new(String::from("cargo.toml"))],
    };

    let not_the_same = !web.same_as(&rust);

    assert!(not_the_same);

    let not_the_same = !rust.same_as(&web);

    assert!(not_the_same);
}

#[test]
fn changing_the_folders_of_an_equivalent_platform_breaks_equivalence() {
    let web = Platform {
        name: String::from("Web"),
        folders: vec![String::from("node_modules")],
        associated: vec![String::from("package.json")].into_iter().map(Filter::new).collect(),
    };

    let other = Platform {
        name: String::from("NodeJS"),
        folders: vec![String::from("dist")],
        associated: vec![Filter::new(String::from("package.json"))],
    };

    assert!(!web.same_as(&other));
    assert!(!other.same_as(&web));
}

#[test]
fn changing_the_associated_patterns_of_an_equivalent_platform_breaks_equivalence() {
    let web = Platform {
        name: String::from("Web"),
        folders: vec![String::from("node_modules")],
        associated: vec![Filter::new(String::from("package.json"))],
    };

    let other = Platform {
        name: String::from("NodeJS"),
        folders: vec![String::from("node_modules")],
        associated: vec![Filter::new(String::from("yarn.lock"))],
    };

    assert!(!web.same_as(&other));
    assert!(!other.same_as(&web));
}

#[test]
fn platform_equivalence_ignores_case_and_surrounding_whitespace() {
    let first = Platform {
        name: String::from("Web"),
        folders: vec![String::from(" Node_Modules ")],
        associated: vec![Filter::new(String::from("PACKAGE.JSON"))],
    };

    let second = Platform {
        name: String::from("NodeJS"),
        folders: vec![String::from("node_modules")],
        associated: vec![Filter::new(String::from("package.json"))],
    };

    assert!(first.same_as(&second));
    assert!(second.same_as(&first));
}
