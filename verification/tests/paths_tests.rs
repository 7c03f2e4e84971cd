use filebridge::paths::is_absolute_path;
use filebridge::paths::join_paths;
use filebridge::paths::parent_dir;
use filebridge::paths::resolve;
use filebridge::paths::PathError;

#[test]
fn resolve_sibling() {
    assert_eq!(resolve("/a/b/c.txt", "d.png").unwrap(), "/a/b/d.png");
}

#[test]
fn resolve_root_fails() {
    let e = resolve("/", "x").unwrap_err();
    assert_eq!(e, PathError::NoParent);
    assert_eq!(e.message(), "Failed to get parent directory");
}

#[test]
fn resolve_empty_base_fails() {
    assert!(resolve("", "x").is_err());
}

#[test]
fn resolve_bare_file() {
    assert_eq!(resolve("c.txt", "d.png").unwrap(), "d.png");
}

#[test]
fn resolve_file_under_root() {
    assert_eq!(resolve("/c.txt", "d.png").unwrap(), "/d.png");
}

#[test]
fn resolve_absolute_relative_part_stands_alone() {
    assert_eq!(resolve("/a/b.txt", "/abs/x").unwrap(), "/abs/x");
}

#[test]
fn resolve_ignores_trailing_separator() {
    assert_eq!(resolve("/a/b/", "c").unwrap(), "/a/c");
}

#[test]
fn parent_of_nested_path() {
    assert_eq!(parent_dir("/a/b").unwrap(), "/a");
    assert_eq!(parent_dir("a/b").unwrap(), "a");
    assert_eq!(parent_dir("a").unwrap(), "");
    assert!(parent_dir("/").is_none());
    assert!(parent_dir("///").is_none());
}

#[test]
fn join_keeps_exactly_one_separator() {
    assert_eq!(join_paths("/a/", "b"), "/a/b");
    assert_eq!(join_paths("/a", "b"), "/a/b");
    assert_eq!(join_paths("", "b"), "b");
    assert_eq!(join_paths("/", "b"), "/b");
}

#[test]
fn absolute_paths_recognized() {
    assert!(is_absolute_path("/x"));
    assert!(!is_absolute_path("x"));
    assert!(!is_absolute_path(""));
}
