use repohost::api::dumb_protocol_path;
use repohost::paths::{
    check_rel_path, check_segment, create_repo_path, default_repo_root, dumb_file_path,
    join_prefix, repo_path,
};

#[test]
fn segment_allows_ordinary_names() {
    assert!(check_segment("alice"));
    assert!(check_segment("proj"));
    assert!(check_segment("proj.git"));
    assert!(check_segment("a-b_c.d"));
    assert!(check_segment("A9"));
}

#[test]
fn segment_rejects_traversal_and_separators() {
    assert!(!check_segment(""));
    assert!(!check_segment("."));
    assert!(!check_segment(".."));
    assert!(!check_segment("a/b"));
    assert!(!check_segment("a b"));
    assert!(!check_segment("a\\b"));
    assert!(!check_segment("\u{0}"));
}

#[test]
fn rel_path_accepts_nested_files() {
    assert!(check_rel_path("a.txt"));
    assert!(check_rel_path("dir/nested.txt"));
    assert!(check_rel_path("a/b/c"));
    assert!(check_rel_path(".hidden"));
}

#[test]
fn rel_path_rejects_empty_and_traversal() {
    assert!(!check_rel_path(""));
    assert!(!check_rel_path("/a"));
    assert!(!check_rel_path("a/"));
    assert!(!check_rel_path("a//b"));
    assert!(!check_rel_path("a/../b"));
    assert!(!check_rel_path(".."));
    assert!(!check_rel_path("a/./b"));
}

#[test]
fn open_path_is_plain_join() {
    assert_eq!(repo_path("repos", "alice", "proj"), "repos/alice/proj");
    assert_eq!(repo_path("repos", "alice", "proj.git"), "repos/alice/proj.git");
}

#[test]
fn create_path_enforces_git_extension() {
    assert_eq!(create_repo_path("repos", "alice", "proj"), "repos/alice/proj.git");
    assert_eq!(create_repo_path("repos", "alice", "proj.tar"), "repos/alice/proj.git");
    assert_eq!(create_repo_path("repos", "alice", "a.b.c"), "repos/alice/a.b.git");
    assert_eq!(create_repo_path("repos", "alice", ".hidden"), "repos/alice/.hidden.git");
    assert_eq!(create_repo_path("repos", "alice", "proj.git"), "repos/alice/proj.git");
}

#[test]
fn creation_path_is_deterministic() {
    let first = create_repo_path("repos", "alice", "proj");
    let other_user = create_repo_path("repos", "bob", "tool");
    let second = create_repo_path("repos", "alice", "proj");
    assert_eq!(first, second);
    assert_eq!(first, "repos/alice/proj.git");
    assert_eq!(other_user, "repos/bob/tool.git");
    // Interleaving calls for other users and names does not change the
    // mapping.
    let third = create_repo_path("repos", "alice", "proj");
    assert_eq!(third, first);
}

#[test]
fn dumb_path_joins_all_parts() {
    assert_eq!(
        dumb_file_path("repos", "alice", "proj.git", "info/refs"),
        "repos/alice/proj.git/info/refs"
    );
}

#[test]
fn dumb_protocol_path_validates() {
    let ok = dumb_protocol_path("repos", "alice", "proj.git", "info/refs");
    assert_eq!(ok.unwrap(), "repos/alice/proj.git/info/refs");
    let bad = dumb_protocol_path("repos", "alice", "proj.git", "../secret");
    assert!(bad.unwrap_err().is_not_found());
    let bad_user = dumb_protocol_path("repos", "../alice", "proj.git", "info/refs");
    assert!(bad_user.unwrap_err().is_not_found());
}

#[test]
fn join_prefix_skips_separator_at_root() {
    assert_eq!(join_prefix("", "a.txt"), "a.txt");
    assert_eq!(join_prefix("dir", "nested.txt"), "dir/nested.txt");
}

#[test]
fn default_root_name() {
    assert_eq!(default_repo_root(), "repos");
}
