use content_delivery::validate::{filename_is_safe, resolve_path};

#[test]
fn safe_names_are_accepted() {
    assert!(filename_is_safe("hello.txt"));
    assert!(filename_is_safe("a"));
    assert!(filename_is_safe(""));
    assert!(filename_is_safe(".hidden"));
    assert!(filename_is_safe("dots.in.name"));
    assert!(filename_is_safe("unicode-café.txt"));
}

#[test]
fn traversal_names_are_rejected() {
    assert!(!filename_is_safe(".."));
    assert!(!filename_is_safe("..."));
    assert!(!filename_is_safe("../x"));
    assert!(!filename_is_safe("x/.."));
    assert!(!filename_is_safe("a/b"));
    assert!(!filename_is_safe("a\\b"));
    assert!(!filename_is_safe("/"));
    assert!(!filename_is_safe("\\"));
}

#[test]
fn resolution_joins_root_and_name() {
    assert_eq!(resolve_path("resources", "hello.txt"), "resources/hello.txt");
    assert_eq!(resolve_path("resources", ""), "resources/");
}
