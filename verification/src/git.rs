//! The trusted boundary to the Git object database.  Every item here
//! either declares a `git2` type so that verified code can carry its
//! values, or wraps one narrow `git2` operation behind a contract that
//! states only what that crate's source shows.  Nothing else in the
//! library touches `git2` directly.

use vstd::prelude::*;

verus! {

#[verifier::external_type_specification]
#[verifier::external_body]
pub struct ExRepository(git2::Repository);

#[verifier::external_type_specification]
#[verifier::external_body]
pub struct ExTree<'a>(git2::Tree<'a>);

#[verifier::external_type_specification]
#[verifier::external_body]
pub struct ExGitError(git2::Error);

#[verifier::external_type_specification]
#[verifier::external_body]
pub struct ExOid(git2::Oid);

#[verifier::external_type_specification]
#[verifier::external_body]
pub struct ExBranches<'a>(git2::Branches<'a>);

#[verifier::external_type_specification]
#[verifier::external_body]
pub struct ExBranch<'a>(git2::Branch<'a>);

#[verifier::external_type_specification]
#[verifier::external_body]
pub struct ExBranchType(git2::BranchType);

/// What a loaded tree object holds: one triple per entry, in the tree's
/// native order, giving the entry's name, whether the entry is itself a
/// tree, and the hex identifier of the object it stores.  A tree object
/// is immutable once loaded, so its contents are a function of the
/// handle.
pub uninterp spec fn tree_entries(t: git2::Tree) -> Seq<(Seq<char>, bool, Seq<char>)>;

/// The entry list of the tree object with the given hex identifier.
/// Objects are content-addressed: an identifier determines the stored
/// bytes, so a tree's contents are a function of its identifier alone,
/// and resolving a subtree entry yields exactly the tree this names.
pub uninterp spec fn tree_of_id(id_hex: Seq<char>) -> Seq<(Seq<char>, bool, Seq<char>)>;

/// The entries of a tree reachable by slash-separated path: each
/// resolvable path mapped to the hex identifier of the object there and
/// whether that object is a blob.  Like `tree_entries`, a function of
/// the immutable tree object.
pub uninterp spec fn tree_path_entries(t: git2::Tree) -> Map<Seq<char>, (Seq<char>, bool)>;

/// The raw bytes of the blob object with the given hex identifier.
/// Sound as a function of the identifier alone because objects are
/// content-addressed.
pub uninterp spec fn blob_bytes_of(id_hex: Seq<char>) -> Seq<u8>;

/// The human-readable description of a Git failure, a pure function of
/// the error value's stored message, class and code.
pub uninterp spec fn error_text(e: git2::Error) -> Seq<char>;

/// Blame-derived provenance for one file: the commit that last touched
/// the file's first line, that commit's message verbatim, and its
/// committer timestamp in seconds since the epoch.
pub struct Provenance {
    pub commit: String,
    pub message: String,
    pub modified: i64,
}

/// One entry of a tree, as handed to the materializer: a subtree with
/// its loaded tree object, or a leaf (blob or other non-tree object).
pub enum RawEntry<'r> {
    Dir { name: String, subtree: git2::Tree<'r> },
    Leaf { name: String },
}

/// Whether a raw entry agrees with the model of a tree entry: same name,
/// and a subtree exactly when the model says the entry is a tree.
pub open spec fn raw_entry_matches(e: RawEntry, m: (Seq<char>, bool, Seq<char>)) -> bool {
    match e {
        RawEntry::Dir { name, .. } => m.1 && name@ == m.0,
        RawEntry::Leaf { name } => !m.1 && name@ == m.0,
    }
}

/// The kind of object a resolved tree entry points at.
#[derive(Debug, Clone, Copy)]
pub enum EntryKind {
    Blob,
    Tree,
    Commit,
    Tag,
    Any,
    Unknown,
}

/// A tree entry resolved by path: the kind of object it points at and
/// that object's hex identifier.
pub struct PathEntry {
    pub kind: EntryKind,
    pub id: String,
}

/// A lowercase hexadecimal digit.
pub open spec fn is_hex_char(c: char) -> bool {
    ('0' <= c <= '9') || ('a' <= c <= 'f')
}

/// The canonical forty-digit lowercase hex form of an object identifier.
pub open spec fn is_hex_oid(s: Seq<char>) -> bool {
    s.len() == 40 && (forall|i: int| 0 <= i < 40 ==> is_hex_char(#[trigger] s[i]))
}

/// Relies on `git2::Repository::init_bare`: initializes a new bare
/// repository at `path` (creating missing directories along the way, as
/// its default init options request).
#[verifier::external_body]
pub(crate) fn git_init_bare(path: &str) -> (r: Result<(), git2::Error>) {
    match git2::Repository::init_bare(path) {
        Ok(_) => Ok(()),
        Err(e) => Err(e),
    }
}

/// Relies on `git2::Repository::open_bare`: opens an existing bare
/// repository at `path`.
#[verifier::external_body]
pub(crate) fn git_open_bare(path: &str) -> (r: Result<git2::Repository, git2::Error>) {
    git2::Repository::open_bare(path)
}

/// Relies on `git2::Repository::head` and `git2::Reference::peel_to_tree`:
/// resolves HEAD and peels it to the tree of its tip commit.
#[verifier::external_body]
pub(crate) fn head_tree<'r>(repo: &'r git2::Repository) -> (r: Result<
    git2::Tree<'r>,
    git2::Error,
>) {
    repo.head()?.peel_to_tree()
}

/// Relies on `git2::Tree::len`: the number of entries in the tree.
#[verifier::external_body]
pub(crate) fn tree_len(t: &git2::Tree) -> (n: usize)
    ensures
        n == tree_entries(*t).len(),
{
    t.len()
}

/// Relies on `git2::Tree::get` (an entry for every index below `len`),
/// `git2::TreeEntry::name` (the entry name, failing on non-UTF-8),
/// `git2::TreeEntry::to_object` and `git2::Object::into_tree` (the entry
/// resolved by its stored identifier, a tree exactly when the object is
/// one — so a subtree's contents are those addressed by the entry's
/// identifier).
#[verifier::external_body]
pub(crate) fn tree_entry_at<'r>(repo: &'r git2::Repository, t: &git2::Tree<'r>, i: usize) -> (r:
    Result<RawEntry<'r>, git2::Error>)
    requires
        i < tree_entries(*t).len(),
    ensures
        r matches Ok(e) ==> raw_entry_matches(e, tree_entries(*t)[i as int]),
        r matches Ok(e) ==> (e matches RawEntry::Dir { subtree, .. } ==> tree_entries(subtree)
            == tree_of_id(tree_entries(*t)[i as int].2)),
{
    let entry = t.get(i).unwrap();
    let name = entry.name()?.to_owned();
    match entry.to_object(repo)?.into_tree() {
        Ok(subtree) => Ok(RawEntry::Dir { name, subtree }),
        Err(_) => Ok(RawEntry::Leaf { name }),
    }
}

/// Relies on `git2::Repository::blame_file` with default options,
/// `git2::Blame::get_index` at index zero (`None` when the blame has no
/// hunks), `git2::BlameHunk::final_commit_id`,
/// `git2::Repository::find_commit`, `git2::Commit::message` (failing on
/// non-UTF-8), `git2::Commit::committer`, `git2::Signature::when`,
/// `git2::Time::seconds`, and `git2::Oid::to_string` (forty lowercase
/// hex digits).
#[verifier::external_body]
pub(crate) fn file_provenance(repo: &git2::Repository, path: &str) -> (r: Result<
    Option<Provenance>,
    git2::Error,
>)
    ensures
        match r {
            Ok(Some(p)) => is_hex_oid(p.commit@),
            _ => true,
        },
{
    let mut opts = git2::BlameOptions::new();
    let blame = repo.blame_file(std::path::Path::new(path), Some(&mut opts))?;
    let hunk = match blame.get_index(0) {
        Some(h) => h,
        None => return Ok(None),
    };
    let id = hunk.final_commit_id();
    let commit = repo.find_commit(id)?;
    let message = commit.message()?.to_owned();
    let modified = commit.committer().when().seconds();
    Ok(Some(Provenance { commit: id.to_string(), message, modified }))
}

/// Relies on `git2::Repository::find_branch` with the local branch type,
/// `git2::Branch::get`, `git2::Reference::peel_to_commit` and
/// `git2::Commit::tree`: the tree of the named local branch's tip.
#[verifier::external_body]
pub(crate) fn branch_tip_tree<'r>(repo: &'r git2::Repository, branch_name: &str) -> (r: Result<
    git2::Tree<'r>,
    git2::Error,
>) {
    let branch = repo.find_branch(branch_name, git2::BranchType::Local)?;
    branch.get().peel_to_commit()?.tree()
}

/// Relies on `git2::Tree::get_path` (an entry exactly for a path that
/// resolves within the tree, an error otherwise), `git2::TreeEntry::kind`
/// and `git2::TreeEntry::id` with `git2::Oid::to_string`: the entry at a
/// slash-separated path, reduced to its object kind and hex identifier.
#[verifier::external_body]
pub(crate) fn tree_entry_at_path(t: &git2::Tree, path: &str) -> (r: Result<
    PathEntry,
    git2::Error,
>)
    ensures
        r matches Ok(pe) ==> tree_path_entries(*t).contains_key(path@) && pe.id@
            == tree_path_entries(*t)[path@].0 && ((pe.kind is Blob) <==> tree_path_entries(
            *t,
        )[path@].1),
        !tree_path_entries(*t).contains_key(path@) ==> r is Err,
{
    let entry = t.get_path(std::path::Path::new(path))?;
    let kind = match entry.kind() {
        Some(git2::ObjectType::Blob) => EntryKind::Blob,
        Some(git2::ObjectType::Tree) => EntryKind::Tree,
        Some(git2::ObjectType::Commit) => EntryKind::Commit,
        Some(git2::ObjectType::Tag) => EntryKind::Tag,
        Some(git2::ObjectType::Any) => EntryKind::Any,
        None => EntryKind::Unknown,
    };
    Ok(PathEntry { kind, id: entry.id().to_string() })
}

/// Relies on `git2::Oid::from_str`, `git2::Repository::find_blob` and
/// `git2::Blob::content`: the raw bytes of the blob object with the
/// given hex identifier.  Objects are content-addressed, so the bytes
/// found under an identifier are a function of the identifier.
#[verifier::external_body]
pub(crate) fn blob_content(repo: &git2::Repository, id_hex: &str) -> (r: Result<
    Vec<u8>,
    git2::Error,
>)
    ensures
        r matches Ok(bytes) ==> bytes@ == blob_bytes_of(id_hex@),
{
    let oid = git2::Oid::from_str(id_hex)?;
    Ok(repo.find_blob(oid)?.content().to_vec())
}

/// Relies on `git2::Repository::branches` filtered to local branches: an
/// iterator over the repository's local branches.
#[verifier::external_body]
pub(crate) fn branches_local<'r>(repo: &'r git2::Repository) -> (r: Result<
    git2::Branches<'r>,
    git2::Error,
>) {
    repo.branches(Some(git2::BranchType::Local))
}

/// Relies on the `Iterator` impl of `git2::Branches` and on
/// `git2::Branch::name` (`Ok(None)` for a name that is not valid UTF-8):
/// the next branch's short name, `None` when the listing is exhausted.
#[verifier::external_body]
pub(crate) fn branches_next(it: &mut git2::Branches) -> (r: Option<
    Result<Option<String>, git2::Error>,
>) {
    match it.next() {
        None => None,
        Some(Err(e)) => Some(Err(e)),
        Some(Ok((branch, _kind))) => match branch.name() {
            Err(e) => Some(Err(e)),
            Ok(None) => Some(Ok(None)),
            Ok(Some(n)) => Some(Ok(Some(n.to_owned()))),
        },
    }
}

/// Relies on the `Display` impl of `git2::Error`: the human-readable
/// description of a failure, as the HTTP boundary reports it.  The
/// rendering reads only the error value's stored message, class and
/// code, so it is a function of the value.
#[verifier::external_body]
pub(crate) fn git_error_display(e: &git2::Error) -> (r: String)
    ensures
        r@ == error_text(*e),
{
    format!("{}", e)
}

} // verus!
