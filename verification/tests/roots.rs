use opendal::path::normalize_root;

#[test]
fn empty_root_normalizes_to_root_scope() {
    assert_eq!(normalize_root(""), "/");
}

#[test]
fn relative_root_gains_both_separators() {
    assert_eq!(normalize_root("a/b"), "/a/b/");
}

#[test]
fn bracketed_root_is_kept() {
    assert_eq!(normalize_root("/a/b/"), "/a/b/");
}

#[test]
fn separator_runs_collapse() {
    assert_eq!(normalize_root("//a///b"), "/a/b/");
}

#[test]
fn normalization_is_idempotent() {
    for input in ["", "a/b", "/a/b/", "//a///b", "/", "work", "a", "x//"] {
        let once = normalize_root(input);
        let twice = normalize_root(&once);
        assert_eq!(twice, once);
        assert!(once.starts_with('/'));
        assert!(once.ends_with('/'));
    }
}
