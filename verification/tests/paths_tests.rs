use liveserve::paths::{resolve_request, resolve_under_root, validate_path, with_index_file};

#[test]
fn rejects_parent_segment() {
    assert!(!validate_path(b"../etc/passwd"));
}

#[test]
fn rejects_lone_parent() {
    assert!(!validate_path(b".."));
}

#[test]
fn rejects_nested_parent() {
    assert!(!validate_path(b"a/../b"));
}

#[test]
fn rejects_trailing_parent() {
    assert!(!validate_path(b"a/b/.."));
}

#[test]
fn rejects_absolute_anchor() {
    assert!(!validate_path(b"/etc/passwd"));
}

#[test]
fn accepts_normal_path() {
    assert!(validate_path(b"a/b/c.html"));
}

#[test]
fn accepts_empty_path() {
    assert!(validate_path(b""));
}

#[test]
fn accepts_current_dir_and_dotted_names() {
    assert!(validate_path(b"./a/.hidden/a..b/..."));
}

#[test]
fn resolve_request_rejects_traversal() {
    assert!(resolve_request(b"/site", b"../etc/passwd").is_none());
    assert!(resolve_request(b"/site", b"a/../../etc/passwd").is_none());
    assert!(resolve_request(b"/site", b"/etc/passwd").is_none());
}

#[test]
fn resolve_request_joins_under_root() {
    let p = resolve_request(b"/site", b"a/b.txt").unwrap();
    assert_eq!(p, b"/site/a/b.txt".to_vec());
}

#[test]
fn resolve_empty_request_is_root() {
    let p = resolve_under_root(b"/site", b"");
    assert_eq!(p, b"/site".to_vec());
}

#[test]
fn index_file_appended_for_directory() {
    let mut p = b"/site".to_vec();
    with_index_file(&mut p);
    assert_eq!(p, b"/site/index.html".to_vec());
}
