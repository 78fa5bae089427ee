use repohost::api::{
    create_repo, fetch_repo, get_blob, get_branches, probe_repo, process_tree,
    read_blob_from_branch,
};
use repohost::json::{branches_json, node_json};
use repohost::node::Node;

/// A fresh scratch directory for one test run, so repeated runs never
/// collide.
fn unique_root(tag: &str) -> String {
    let nanos = std::time::SystemTime::now()
        .duration_since(std::time::UNIX_EPOCH)
        .unwrap()
        .as_nanos();
    format!("/tmp/repohost_it/{}_{}", tag, nanos)
}

fn open_repo(root: &str, user: &str, name: &str) -> git2::Repository {
    git2::Repository::open_bare(format!("{}/{}/{}", root, user, name)).unwrap()
}

fn sig() -> git2::Signature<'static> {
    git2::Signature::new("Alice", "alice@example.com", &git2::Time::new(1700000000, 0)).unwrap()
}

/// Writes a single-file tree and commits it, updating `update_ref`.
fn commit_file(
    repo: &git2::Repository,
    update_ref: &str,
    file: &str,
    content: &[u8],
    message: &str,
) -> git2::Oid {
    let blob = repo.blob(content).unwrap();
    let mut tb = repo.treebuilder(None).unwrap();
    tb.insert(file, blob, 0o100644).unwrap();
    let tree = repo.find_tree(tb.write().unwrap()).unwrap();
    let s = sig();
    repo.commit(Some(update_ref), &s, &s, message, &tree, &[]).unwrap()
}

/// Writes a `dir/nested.txt` tree and commits it to HEAD's branch.
fn commit_nested(repo: &git2::Repository, message: &str) -> git2::Oid {
    let blob = repo.blob(b"data").unwrap();
    let mut sub = repo.treebuilder(None).unwrap();
    sub.insert("nested.txt", blob, 0o100644).unwrap();
    let sub_id = sub.write().unwrap();
    let mut top = repo.treebuilder(None).unwrap();
    top.insert("dir", sub_id, 0o040000).unwrap();
    let tree = repo.find_tree(top.write().unwrap()).unwrap();
    let s = sig();
    repo.commit(Some("HEAD"), &s, &s, message, &tree, &[]).unwrap()
}

/// The short name of the branch HEAD points at.
fn head_branch(repo: &git2::Repository) -> String {
    repo.head().unwrap().shorthand().unwrap().to_string()
}

#[test]
fn single_file_round_trip() {
    let root = unique_root("round_trip");
    create_repo(&root, "alice", "proj").unwrap();
    let repo = open_repo(&root, "alice", "proj.git");
    let oid = commit_file(&repo, "HEAD", "a.txt", b"hello", "first commit\n");
    let node = fetch_repo(&root, "alice", "proj.git").unwrap();
    let expected = format!(
        "{{\"type\":\"directory\",\"name\":\"root\",\"childs\":[{{\"type\":\"file\",\"name\":\"a.txt\",\"commit\":\"{}\",\"message\":\"first commit\\n\",\"modified\":1700000000}}]}}",
        oid
    );
    assert_eq!(node_json(&node), expected);
}

#[test]
fn nested_structure_preserved() {
    let root = unique_root("nested");
    create_repo(&root, "alice", "proj").unwrap();
    let repo = open_repo(&root, "alice", "proj.git");
    let oid = commit_nested(&repo, "add nested\n");
    let node = fetch_repo(&root, "alice", "proj.git").unwrap();
    match &node {
        Node::Directory { name, childs } => {
            assert_eq!(name.as_str(), "root");
            assert_eq!(childs.len(), 1);
            match &childs[0] {
                Node::Directory { name, childs } => {
                    assert_eq!(name.as_str(), "dir");
                    assert_eq!(childs.len(), 1);
                    match &childs[0] {
                        Node::File { name, commit, message, modified } => {
                            assert_eq!(name.as_str(), "nested.txt");
                            assert_eq!(commit.as_str(), format!("{}", oid).as_str());
                            assert_eq!(message.as_str(), "add nested\n");
                            assert_eq!(*modified, 1700000000);
                        },
                        _ => panic!("expected a file node"),
                    }
                },
                _ => panic!("expected a directory node"),
            }
        },
        _ => panic!("expected the synthetic root directory"),
    }
}

#[test]
fn branches_have_isolated_content() {
    let root = unique_root("isolation");
    create_repo(&root, "alice", "proj").unwrap();
    let repo = open_repo(&root, "alice", "proj.git");
    commit_file(&repo, "refs/heads/one", "f.txt", b"content one", "one\n");
    commit_file(&repo, "refs/heads/two", "f.txt", b"content two", "two\n");
    let b1 = get_blob(&root, "alice", "proj.git", "one", "f.txt").unwrap();
    let b2 = get_blob(&root, "alice", "proj.git", "two", "f.txt").unwrap();
    assert_eq!(b1.as_slice(), b"content one");
    assert_eq!(b2.as_slice(), b"content two");
    let direct = read_blob_from_branch(&repo, "f.txt", "one").unwrap();
    assert_eq!(direct.as_slice(), b"content one");
}

#[test]
fn missing_and_non_blob_paths_collapse_alike() {
    let root = unique_root("not_found");
    create_repo(&root, "alice", "proj").unwrap();
    let repo = open_repo(&root, "alice", "proj.git");
    commit_nested(&repo, "add nested\n");
    let branch = head_branch(&repo);
    let missing = get_blob(&root, "alice", "proj.git", &branch, "absent.txt").unwrap_err();
    let non_blob = get_blob(&root, "alice", "proj.git", &branch, "dir").unwrap_err();
    assert!(missing.is_not_found());
    assert!(non_blob.is_not_found());
    assert_eq!(missing.status_code(), non_blob.status_code());
    assert_eq!(missing.body(), non_blob.body());
}

#[test]
fn repeated_reads_are_byte_identical() {
    let root = unique_root("idempotent");
    create_repo(&root, "alice", "proj").unwrap();
    let repo = open_repo(&root, "alice", "proj.git");
    commit_file(&repo, "HEAD", "a.txt", b"hello", "first commit\n");
    let n1 = fetch_repo(&root, "alice", "proj.git").unwrap();
    let n2 = fetch_repo(&root, "alice", "proj.git").unwrap();
    assert_eq!(node_json(&n1), node_json(&n2));
    let l1 = get_branches(&root, "alice", "proj.git").unwrap();
    let l2 = get_branches(&root, "alice", "proj.git").unwrap();
    assert_eq!(branches_json(&l1), branches_json(&l2));
}

#[test]
fn branch_listing_returns_local_short_names() {
    let root = unique_root("branches");
    create_repo(&root, "alice", "proj").unwrap();
    let repo = open_repo(&root, "alice", "proj.git");
    commit_file(&repo, "refs/heads/one", "f.txt", b"a", "one\n");
    commit_file(&repo, "refs/heads/two", "f.txt", b"b", "two\n");
    let mut names = get_branches(&root, "alice", "proj.git").unwrap();
    names.sort();
    assert_eq!(names, vec!["one".to_string(), "two".to_string()]);
}

#[test]
fn create_provisions_deterministic_path() {
    let root = unique_root("provision");
    create_repo(&root, "alice", "proj").unwrap();
    // The repository is reachable at exactly the path the pure mapping
    // gives for the pair.
    let path = repohost::paths::create_repo_path(&root, "alice", "proj");
    assert!(git2::Repository::open_bare(&path).is_ok());
    // Creating for the same pair again addresses the same path; the
    // underlying primitive reinitializes it.
    create_repo(&root, "alice", "proj").unwrap();
    assert!(git2::Repository::open_bare(&path).is_ok());
}

#[test]
fn process_tree_mirrors_entries_and_bounds_depth() {
    let root = unique_root("process");
    create_repo(&root, "alice", "proj").unwrap();
    let repo = open_repo(&root, "alice", "proj.git");
    commit_nested(&repo, "add nested\n");
    let tree = repo.head().unwrap().peel_to_tree().unwrap();
    let nodes = process_tree(&repo, &tree, "", 8).unwrap();
    assert_eq!(nodes.len(), 1);
    assert!(nodes[0].is_directory());
    assert_eq!(nodes[0].name().as_str(), "dir");
    // With no depth left, a subtree cannot be entered: the whole
    // materialization aborts with a store fault.
    let err = process_tree(&repo, &tree, "", 0).unwrap_err();
    assert!(!err.is_not_found());
}

#[test]
fn error_classes_at_the_boundary() {
    let root = unique_root("errors");
    // Unsafe segments are rejected with the not-found class.
    assert!(create_repo(&root, "../alice", "proj").unwrap_err().is_not_found());
    assert!(fetch_repo(&root, "alice", "..").unwrap_err().is_not_found());
    assert!(get_branches(&root, "a/b", "c").unwrap_err().is_not_found());
    assert!(get_blob(&root, "alice", ".", "b", "p").unwrap_err().is_not_found());
    assert!(probe_repo(&root, "", "proj").unwrap_err().is_not_found());
    // A repository that does not exist is a store fault, with the
    // boundary's description prefix.
    let e = probe_repo(&root, "alice", "nope").unwrap_err();
    assert!(!e.is_not_found());
    let body = e.body();
    assert!(body.starts_with("Something went wrong when: "));
    // The description of the underlying cause is carried, not dropped.
    assert!(body.len() > "Something went wrong when: ".len());
    // A repository with no commits has no HEAD to peel: store fault.
    create_repo(&root, "alice", "proj").unwrap();
    let unborn = fetch_repo(&root, "alice", "proj.git").unwrap_err();
    assert!(!unborn.is_not_found());
    // A missing branch collapses to not-found on the blob route.
    let repo = open_repo(&root, "alice", "proj.git");
    commit_file(&repo, "HEAD", "a.txt", b"x", "m\n");
    assert!(get_blob(&root, "alice", "proj.git", "nosuch", "a.txt").unwrap_err().is_not_found());
    // And probing now succeeds.
    probe_repo(&root, "alice", "proj.git").unwrap();
}
