//! The repository operations behind the HTTP surface: provisioning a
//! bare repository, probing one, materializing a branch tree into a node
//! graph, listing local branches, retrieving a blob by branch and path,
//! and computing the path for the legacy file-serving route.  Every
//! operation validates client-supplied segments before they reach a
//! filesystem join, and collapses its failures to the two boundary
//! classes.

use vstd::prelude::*;
use crate::error::{ApiError, collapse_to_not_found};
use crate::git::{
    tree_entries, tree_of_id, tree_path_entries, blob_bytes_of, error_text, is_hex_oid, RawEntry,
    PathEntry, EntryKind, Provenance, git_init_bare, git_open_bare, head_tree, tree_len,
    tree_entry_at, file_provenance, branch_tip_tree, tree_entry_at_path, blob_content,
    branches_local, branches_next, git_error_display,
};
use crate::node::{Node, node_name};
use crate::paths::{
    is_safe_segment, is_safe_rel_path, check_segment, check_rel_path, repo_path, create_repo_path,
    dumb_file_path, join_prefix, spec_repo_path, spec_join,
};

verus! {

/// The deepest directory nesting a materialization will follow; a tree
/// nested beyond it aborts with a store fault rather than recursing
/// without bound.
pub const MAX_TREE_DEPTH: u64 = 4096;

/// The most branch-listing steps a single request will take.
pub const MAX_BRANCH_STEPS: u64 = 1000000000;

/// Wraps a Git failure in the store-fault class, carrying its
/// human-readable description.
fn store_error(e: git2::Error) -> (r: ApiError)
    ensures
        r matches ApiError::Store { detail } && detail@ == error_text(e),
{
    ApiError::Store { detail: git_error_display(&e) }
}

/// The store fault reported when materialization runs out of depth.
fn depth_error() -> (r: ApiError)
    ensures
        r is Store,
{
    ApiError::Store { detail: String::from_str("tree nesting exceeds the materialization limit") }
}

/// The store fault reported when blame yields no hunk for a file.
fn blame_error() -> (r: ApiError)
    ensures
        r is Store,
{
    ApiError::Store { detail: String::from_str("blame returned no hunks for a file entry") }
}

/// The store fault reported for a branch name that is not valid UTF-8.
fn branch_name_error() -> (r: ApiError)
    ensures
        r is Store,
{
    ApiError::Store { detail: String::from_str("branch name is not valid utf-8") }
}

/// The store fault reported when branch listing does not finish.
fn branch_steps_error() -> (r: ApiError)
    ensures
        r is Store,
{
    ApiError::Store { detail: String::from_str("branch listing exceeded the step limit") }
}

/// True when both repository-addressing segments are safe to join.
pub open spec fn spec_repo_ref_ok(user: Seq<char>, name: Seq<char>) -> bool {
    is_safe_segment(user) && is_safe_segment(name)
}

/// Creates a bare repository for `user` and `name` under `root`, at the
/// deterministic path `<root>/<user>/<name>` with a `git` extension
/// enforced on the name.  Unsafe segments are rejected with the
/// not-found class before anything touches the filesystem; with safe
/// segments the only possible failure is a store fault from the
/// underlying initialization.
pub fn create_repo(root: &str, user: &str, name: &str) -> (r: Result<(), ApiError>)
    ensures
        !spec_repo_ref_ok(user@, name@) ==> r == Err::<(), ApiError>(ApiError::NotFound),
        spec_repo_ref_ok(user@, name@) ==> (r matches Err(e) ==> e is Store),
{
    if !check_segment(user) || !check_segment(name) {
        return Err(ApiError::NotFound);
    }
    let path = create_repo_path(root, user, name);
    match git_init_bare(path.as_str()) {
        Ok(()) => Ok(()),
        Err(e) => Err(store_error(e)),
    }
}

/// Probes a repository: opens it and peels HEAD to a tree, returning
/// nothing on success.  Unsafe segments are rejected with the not-found
/// class; with safe segments any failure is a store fault.
pub fn probe_repo(root: &str, user: &str, name: &str) -> (r: Result<(), ApiError>)
    ensures
        !spec_repo_ref_ok(user@, name@) ==> r == Err::<(), ApiError>(ApiError::NotFound),
        spec_repo_ref_ok(user@, name@) ==> (r matches Err(e) ==> e is Store),
{
    if !check_segment(user) || !check_segment(name) {
        return Err(ApiError::NotFound);
    }
    let path = repo_path(root, user, name);
    let repo = match git_open_bare(path.as_str()) {
        Ok(repo) => repo,
        Err(e) => return Err(store_error(e)),
    };
    let probed = match head_tree(&repo) {
        Ok(_) => Ok(()),
        Err(e) => Err(store_error(e)),
    };
    probed
}

/// Whether a node list mirrors a tree's entries, recursively: same
/// length and, entry by entry, the same name, a directory node exactly
/// where the entry is a subtree, and a directory node's children in turn
/// mirroring the contents addressed by that entry's identifier — so
/// nesting depth in the node graph equals nesting depth in the store.
pub open spec fn nodes_match_entries(ns: Seq<Node>, es: Seq<(Seq<char>, bool, Seq<char>)>) -> bool
    decreases ns,
{
    &&& ns.len() == es.len()
    &&& (forall|i: int| 0 <= i < ns.len() ==> node_matches_entry(#[trigger] ns[i], es[i]))
}

/// See `nodes_match_entries`.  A file node's commit identifier is always
/// the canonical forty-digit lowercase hex form.
pub open spec fn node_matches_entry(n: Node, e: (Seq<char>, bool, Seq<char>)) -> bool
    decreases n,
{
    &&& node_name(n) == e.0
    &&& ((n is Directory) <==> e.1)
    &&& (n matches Node::File { commit, .. } ==> is_hex_oid(commit@))
    &&& (n matches Node::Directory { childs, .. } ==> nodes_match_entries(
        childs@,
        tree_of_id(e.2),
    ))
}

/// Builds the file node for one blame-derived provenance value: the
/// node's commit, message and timestamp are exactly the provenance's.
pub fn file_node(name: String, p: Provenance) -> (n: Node)
    ensures
        n == (Node::File { name, commit: p.commit, message: p.message, modified: p.modified }),
{
    Node::File { name, commit: p.commit, message: p.message, modified: p.modified }
}

/// Builds the synthetic root directory around fully materialized
/// children: the node is a directory named `root` holding exactly the
/// children handed in.
pub fn root_node(childs: Vec<Node>) -> (n: Node)
    ensures
        n matches Node::Directory { name, childs: c } && name@ == ("root")@ && c == childs,
{
    Node::Directory { name: String::from_str("root"), childs }
}

/// Converts a tree object into the node list of its entries, in native
/// order: a directory node per subtree, its children materialized
/// recursively before the directory node is emitted, and a file node per
/// non-tree entry, annotated with blame-derived provenance for the
/// file's first line.  An empty tree always succeeds with an empty list.
/// Any object-store failure aborts the whole materialization; no partial
/// result is returned.  `depth` bounds the recursion, and exhausting it
/// is reported as a store fault.
#[verifier::loop_isolation(false)]
pub fn process_tree<'r>(
    repo: &'r git2::Repository,
    tree: &git2::Tree<'r>,
    prefix: &str,
    depth: u64,
) -> (r: Result<Vec<Node>, ApiError>)
    ensures
        r matches Ok(ns) ==> nodes_match_entries(ns@, tree_entries(*tree)),
        r matches Err(e) ==> e is Store,
        tree_entries(*tree).len() == 0 ==> (r matches Ok(ns) && ns@.len() == 0),
    decreases depth,
{
    let n = tree_len(tree);
    let mut out: Vec<Node> = Vec::new();
    let mut i: usize = 0;
    while i < n
        invariant
            n == tree_entries(*tree).len(),
            i <= n,
            nodes_match_entries(out@, tree_entries(*tree).subrange(0, i as int)),
        decreases n - i,
    {
        let entry = match tree_entry_at(repo, tree, i) {
            Ok(e) => e,
            Err(ge) => return Err(store_error(ge)),
        };
        let node = match entry {
            RawEntry::Dir { name, subtree } => {
                if depth == 0 {
                    return Err(depth_error());
                }
                let full = join_prefix(prefix, name.as_str());
                match process_tree(repo, &subtree, full.as_str(), depth - 1) {
                    Ok(childs) => Node::Directory { name, childs },
                    Err(e) => return Err(e),
                }
            },
            RawEntry::Leaf { name } => {
                let full = join_prefix(prefix, name.as_str());
                match file_provenance(repo, full.as_str()) {
                    Ok(Some(p)) => file_node(name, p),
                    Ok(None) => return Err(blame_error()),
                    Err(ge) => return Err(store_error(ge)),
                }
            },
        };
        out.push(node);
        proof {
            let es = tree_entries(*tree);
            assert(es.subrange(0, i + 1).drop_last() =~= es.subrange(0, i as int));
            assert(es.subrange(0, i + 1).last() == es[i as int]);
        }
        i = i + 1;
    }
    proof {
        assert(tree_entries(*tree).subrange(0, n as int) =~= tree_entries(*tree));
    }
    Ok(out)
}

/// The children of a directory node; a file node has none.
pub open spec fn node_childs(n: Node) -> Seq<Node> {
    match n {
        Node::Directory { childs, .. } => childs@,
        Node::File { .. } => Seq::empty(),
    }
}

/// Materializes the HEAD tree of `user`/`name` under `root` into a node
/// graph rooted at a synthetic directory named `root`, whose children
/// mirror, recursively, the entries of the resolved tree.  Unsafe
/// segments are rejected with the not-found class; with safe segments
/// any failure is a store fault.
pub fn fetch_repo(root: &str, user: &str, name: &str) -> (r: Result<Node, ApiError>)
    ensures
        !spec_repo_ref_ok(user@, name@) ==> r == Err::<Node, ApiError>(ApiError::NotFound),
        spec_repo_ref_ok(user@, name@) ==> (r matches Err(e) ==> e is Store),
        r matches Ok(node) ==> node is Directory && node_name(node) == ("root")@ && (exists|
            t: git2::Tree,
        | nodes_match_entries(node_childs(node), #[trigger] tree_entries(t))),
{
    if !check_segment(user) || !check_segment(name) {
        return Err(ApiError::NotFound);
    }
    let path = repo_path(root, user, name);
    let repo = match git_open_bare(path.as_str()) {
        Ok(repo) => repo,
        Err(e) => return Err(store_error(e)),
    };
    let tree = match head_tree(&repo) {
        Ok(t) => t,
        Err(e) => return Err(store_error(e)),
    };
    let childs = match process_tree(&repo, &tree, "", MAX_TREE_DEPTH) {
        Ok(c) => c,
        Err(e) => return Err(e),
    };
    proof {
        assert(nodes_match_entries(childs@, tree_entries(tree)));
    }
    Ok(root_node(childs))
}

/// Lists the short names of the repository's local branches, in the
/// underlying store's iteration order.  Unsafe segments are rejected
/// with the not-found class; with safe segments any failure is a store
/// fault.
#[verifier::loop_isolation(false)]
pub fn get_branches(root: &str, user: &str, name: &str) -> (r: Result<Vec<String>, ApiError>)
    ensures
        !spec_repo_ref_ok(user@, name@) ==> r == Err::<Vec<String>, ApiError>(ApiError::NotFound),
        spec_repo_ref_ok(user@, name@) ==> (r matches Err(e) ==> e is Store),
{
    if !check_segment(user) || !check_segment(name) {
        return Err(ApiError::NotFound);
    }
    let path = repo_path(root, user, name);
    let repo = match git_open_bare(path.as_str()) {
        Ok(repo) => repo,
        Err(e) => return Err(store_error(e)),
    };
    let mut it = match branches_local(&repo) {
        Ok(it) => it,
        Err(e) => return Err(store_error(e)),
    };
    let mut out: Vec<String> = Vec::new();
    let mut steps: u64 = 0;
    loop
        invariant
            steps <= MAX_BRANCH_STEPS,
        decreases MAX_BRANCH_STEPS - steps,
    {
        if steps == MAX_BRANCH_STEPS {
            return Err(branch_steps_error());
        }
        match branches_next(&mut it) {
            None => {
                return Ok(out);
            },
            Some(Ok(Some(short_name))) => {
                out.push(short_name);
            },
            Some(Ok(None)) => {
                return Err(branch_name_error());
            },
            Some(Err(e)) => {
                return Err(store_error(e));
            },
        }
        steps = steps + 1;
    }
}

/// The edge-case policy for blob retrieval: an entry that exists but is
/// not of blob kind is rejected with exactly the same not-found outcome
/// as a missing path, and a blob entry passes its identifier through.
pub fn require_blob(entry: PathEntry) -> (r: Result<String, ApiError>)
    ensures
        entry.kind is Blob ==> r == Ok::<String, ApiError>(entry.id),
        !(entry.kind is Blob) ==> r == Err::<String, ApiError>(ApiError::NotFound),
{
    match entry.kind {
        EntryKind::Blob => Ok(entry.id),
        _ => Err(ApiError::NotFound),
    }
}

/// Looks up `file_path` within a resolved tree and returns the raw
/// bytes of the blob there.  Success returns exactly the bytes addressed
/// by the blob identifier the path resolves to; a path that does not
/// resolve is a store fault at this layer; and the not-found class
/// arises here only for a path that resolves to a non-blob entry — the
/// distinct edge case the boundary later collapses with a missing path.
pub fn read_blob_in_tree(repo: &git2::Repository, tree: &git2::Tree, file_path: &str) -> (r:
    Result<Vec<u8>, ApiError>)
    ensures
        r matches Ok(bytes) ==> tree_path_entries(*tree).contains_key(file_path@)
            && tree_path_entries(*tree)[file_path@].1 && bytes@ == blob_bytes_of(
            tree_path_entries(*tree)[file_path@].0,
        ),
        !tree_path_entries(*tree).contains_key(file_path@) ==> (r matches Err(e) && e is Store),
        r == Err::<Vec<u8>, ApiError>(ApiError::NotFound) ==> tree_path_entries(
            *tree,
        ).contains_key(file_path@) && !tree_path_entries(*tree)[file_path@].1,
        tree_path_entries(*tree).contains_key(file_path@) && tree_path_entries(
            *tree,
        )[file_path@].1 ==> (r matches Err(e) ==> e is Store),
{
    let entry = match tree_entry_at_path(tree, file_path) {
        Ok(e) => e,
        Err(ge) => return Err(store_error(ge)),
    };
    let id = match require_blob(entry) {
        Ok(id) => id,
        Err(e) => return Err(e),
    };
    match blob_content(repo, id.as_str()) {
        Ok(bytes) => Ok(bytes),
        Err(ge) => Err(store_error(ge)),
    }
}

/// Resolves the local branch `branch_name` to its tip tree and reads
/// the blob at `file_path` within it through `read_blob_in_tree`, which
/// carries the exact lookup contract.  A branch that does not resolve
/// is a store fault; success returns the content-addressed bytes of a
/// blob the path resolves to in the tip tree.
pub fn read_blob_from_branch(
    repo: &git2::Repository,
    file_path: &str,
    branch_name: &str,
) -> (r: Result<Vec<u8>, ApiError>)
    ensures
        r matches Ok(bytes) ==> (exists|t: git2::Tree|
            #[trigger] tree_path_entries(t).contains_key(file_path@) && tree_path_entries(
                t,
            )[file_path@].1 && bytes@ == blob_bytes_of(tree_path_entries(t)[file_path@].0)),
        r == Err::<Vec<u8>, ApiError>(ApiError::NotFound) ==> (exists|t: git2::Tree|
            #[trigger] tree_path_entries(t).contains_key(file_path@) && !tree_path_entries(
                t,
            )[file_path@].1),
{
    let tree = match branch_tip_tree(repo, branch_name) {
        Ok(t) => t,
        Err(e) => return Err(store_error(e)),
    };
    let read = read_blob_in_tree(repo, &tree, file_path);
    read
}

/// Returns the raw bytes of the blob at `path` on `branch` in the
/// repository of `user`/`name` under `root`.  Unsafe segments are
/// rejected with the not-found class; a failure to open the repository
/// is a store fault; and every failure past that point — missing branch,
/// missing path, or a path that names a non-blob entry — is collapsed to
/// the same bare not-found outcome.
pub fn get_blob(root: &str, user: &str, name: &str, branch: &str, path: &str) -> (r: Result<
    Vec<u8>,
    ApiError,
>)
    ensures
        !spec_repo_ref_ok(user@, name@) ==> r == Err::<Vec<u8>, ApiError>(ApiError::NotFound),
        r matches Ok(bytes) ==> (exists|t: git2::Tree|
            #[trigger] tree_path_entries(t).contains_key(path@) && tree_path_entries(
                t,
            )[path@].1 && bytes@ == blob_bytes_of(tree_path_entries(t)[path@].0)),
{
    if !check_segment(user) || !check_segment(name) {
        return Err(ApiError::NotFound);
    }
    let repo_dir = repo_path(root, user, name);
    let repo = match git_open_bare(repo_dir.as_str()) {
        Ok(repo) => repo,
        Err(e) => return Err(store_error(e)),
    };
    collapse_to_not_found(read_blob_from_branch(&repo, path, branch))
}

/// The filesystem path a legacy-route file is served from, or the
/// not-found class when any segment of the request is unsafe to join:
/// `<root>/<user>/<name>/<file>` otherwise.
pub fn dumb_protocol_path(root: &str, user: &str, name: &str, file: &str) -> (r: Result<
    String,
    ApiError,
>)
    ensures
        spec_repo_ref_ok(user@, name@) && is_safe_rel_path(file@) ==> (r matches Ok(p) && p@
            == spec_join(spec_repo_path(root@, user@, name@), file@)),
        !(spec_repo_ref_ok(user@, name@) && is_safe_rel_path(file@)) ==> r == Err::<
            String,
            ApiError,
        >(ApiError::NotFound),
{
    if !check_segment(user) || !check_segment(name) || !check_rel_path(file) {
        return Err(ApiError::NotFound);
    }
    Ok(dumb_file_path(root, user, name, file))
}

} // verus!
