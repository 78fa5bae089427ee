//! Deterministic construction of on-disk repository paths from a
//! `(user, name)` pair, and validation of client-supplied path segments so
//! that nothing joined into a filesystem path can escape the repository
//! root.

use vstd::prelude::*;

verus! {

/// Characters a path segment may contain: alphanumerics, hyphen,
/// underscore and dot.
pub open spec fn is_segment_char(c: char) -> bool {
    ||| 'a' <= c <= 'z'
    ||| 'A' <= c <= 'Z'
    ||| '0' <= c <= '9'
    ||| c == '-'
    ||| c == '_'
    ||| c == '.'
}

/// A path segment is accepted only when it is non-empty, every character
/// is drawn from the allow-list, and it is neither `.` nor `..`; this
/// keeps client-supplied names from escaping the repository root when
/// they are joined into a filesystem path.
pub open spec fn is_safe_segment(s: Seq<char>) -> bool {
    &&& s.len() > 0
    &&& (forall|i: int| 0 <= i < s.len() ==> #[trigger] is_segment_char(s[i]))
    &&& s != seq!['.']
    &&& s != seq!['.', '.']
}

/// A span `[i, j)` of `s` that lies between two slashes (or the ends of
/// the string): the candidate segments of a slash-separated path.
pub open spec fn is_segment_span(s: Seq<char>, i: int, j: int) -> bool {
    &&& 0 <= i <= j <= s.len()
    &&& (i == 0 || s[i - 1] == '/')
    &&& (j == s.len() || s[j] == '/')
    &&& (forall|k: int| i <= k < j ==> s[k] != '/')
}

/// A relative path is accepted only when it is non-empty and every
/// slash-separated segment is itself safe.  An empty segment (a leading,
/// trailing or doubled slash) fails because the empty sequence is not a
/// safe segment.
pub open spec fn is_safe_rel_path(s: Seq<char>) -> bool {
    &&& s.len() > 0
    &&& (forall|i: int, j: int|
        is_segment_span(s, i, j) ==> is_safe_segment(#[trigger] s.subrange(i, j)))
}

/// Decides whether `c` is on the segment allow-list.
pub fn check_segment_char(c: char) -> (b: bool)
    ensures
        b == is_segment_char(c),
{
    ('a' <= c && c <= 'z') || ('A' <= c && c <= 'Z') || ('0' <= c && c <= '9') || c == '-' || c
        == '_' || c == '.'
}

/// Decides whether `s` is a safe path segment.
pub fn check_segment(s: &str) -> (b: bool)
    ensures
        b == is_safe_segment(s@),
{
    let n = s.unicode_len();
    if n == 0 {
        return false;
    }
    if n == 1 && s.get_char(0) == '.' {
        proof {
            assert(s@ =~= seq!['.']);
        }
        return false;
    }
    if n == 2 && s.get_char(0) == '.' && s.get_char(1) == '.' {
        proof {
            assert(s@ =~= seq!['.', '.']);
        }
        return false;
    }
    let mut i: usize = 0;
    while i < n
        invariant
            n == s@.len(),
            i <= n,
            forall|k: int| 0 <= k < i ==> #[trigger] is_segment_char(s@[k]),
        decreases n - i,
    {
        if !check_segment_char(s.get_char(i)) {
            return false;
        }
        i = i + 1;
    }
    proof {
        assert(s@ != seq!['.'] && s@ != seq!['.', '.']) by {
            if s@ =~= seq!['.'] {
                assert(s@.len() == 1 && s@[0] == '.');
            }
            if s@ =~= seq!['.', '.'] {
                assert(s@.len() == 2 && s@[0] == '.' && s@[1] == '.');
            }
        }
    }
    true
}

/// Decides whether `s` is a safe relative path: non-empty, with every
/// slash-separated segment on the allow-list and none equal to `.` or
/// `..`.
pub fn check_rel_path(s: &str) -> (b: bool)
    ensures
        b == is_safe_rel_path(s@),
{
    let n = s.unicode_len();
    if n == 0 {
        return false;
    }
    let mut seg_start: usize = 0;
    let mut i: usize = 0;
    loop
        invariant
            n == s@.len(),
            0 < n,
            seg_start <= i <= n,
            seg_start == 0 || s@[seg_start - 1] == '/',
            forall|k: int| seg_start <= k < i ==> s@[k] != '/',
            forall|a: int, b: int|
                is_segment_span(s@, a, b) && b < i ==> is_safe_segment(
                    #[trigger] s@.subrange(a, b),
                ),
        decreases n - i,
    {
        if i == n || s.get_char(i) == '/' {
            if !check_segment(s.substring_char(seg_start, i)) {
                proof {
                    assert(is_segment_span(s@, seg_start as int, i as int));
                }
                return false;
            }
            proof {
                // Any span ending exactly at `i` must start at `seg_start`:
                // its start is 0 or follows a slash, and it contains no
                // slash, which pins it to the current segment.
                assert forall|a: int, b: int|
                    is_segment_span(s@, a, b) && b < i + 1 implies is_safe_segment(
                    #[trigger] s@.subrange(a, b),
                ) by {
                    if b == i {
                        if a < seg_start {
                            assert(s@[seg_start - 1] == '/');
                        }
                        if a > seg_start {
                            assert(s@[a - 1] == '/');
                        }
                        assert(a == seg_start);
                    }
                }
            }
            if i == n {
                proof {
                    assert forall|a: int, b: int| is_segment_span(s@, a, b) implies is_safe_segment(
                        #[trigger] s@.subrange(a, b),
                    ) by {
                        assert(b <= n < i + 1);
                    }
                }
                return true;
            }
            seg_start = i + 1;
        }
        i = i + 1;
    }
}

/// The slash-join of two path pieces.
pub open spec fn spec_join(a: Seq<char>, b: Seq<char>) -> Seq<char> {
    a + seq!['/'] + b
}

/// The on-disk directory a repository is opened from:
/// `<root>/<user>/<name>`.
pub open spec fn spec_repo_path(root: Seq<char>, user: Seq<char>, name: Seq<char>) -> Seq<char> {
    spec_join(spec_join(root, user), name)
}

/// The index of the last `.` in `s`, or `-1` when there is none.
pub open spec fn last_dot_index(s: Seq<char>) -> int
    decreases s.len(),
{
    if s.len() == 0 {
        -1
    } else if s[s.len() - 1] == '.' {
        s.len() - 1
    } else {
        last_dot_index(s.drop_last())
    }
}

/// `name` with a `git` extension enforced: if the segment already has an
/// extension (a dot after its first character) the extension is replaced,
/// otherwise `.git` is appended.  This mirrors how a filesystem path's
/// extension is set.
pub open spec fn spec_with_git_ext(name: Seq<char>) -> Seq<char> {
    if last_dot_index(name) >= 1 {
        name.subrange(0, last_dot_index(name)) + (".git")@
    } else {
        name + (".git")@
    }
}

/// The on-disk directory a repository is created at:
/// `<root>/<user>/<name>` with a `git` extension enforced on the name.
pub open spec fn spec_create_repo_path(
    root: Seq<char>,
    user: Seq<char>,
    name: Seq<char>,
) -> Seq<char> {
    spec_join(spec_join(root, user), spec_with_git_ext(name))
}

/// Finds the index of the last `.` in `s`, or `None` when there is none.
fn find_last_dot(s: &str) -> (r: Option<usize>)
    ensures
        match r {
            Some(i) => i == last_dot_index(s@) && i < s@.len(),
            None => last_dot_index(s@) == -1,
        },
{
    let n = s.unicode_len();
    proof {
        assert(s@.subrange(0, n as int) =~= s@);
    }
    let mut i: usize = n;
    while i > 0
        invariant
            n == s@.len(),
            i <= n,
            last_dot_index(s@) == last_dot_index(s@.subrange(0, i as int)),
        decreases i,
    {
        if s.get_char(i - 1) == '.' {
            proof {
                assert(s@.subrange(0, i as int).last() == '.');
            }
            return Some(i - 1);
        }
        proof {
            assert(s@.subrange(0, i as int).drop_last() =~= s@.subrange(0, i - 1));
        }
        i = i - 1;
    }
    proof {
        assert(s@.subrange(0, 0) =~= Seq::<char>::empty());
    }
    None
}

/// Joins `root`, `user` and `name` into the directory a repository is
/// opened from.
pub fn repo_path(root: &str, user: &str, name: &str) -> (r: String)
    ensures
        r@ == spec_repo_path(root@, user@, name@),
{
    let mut out = String::new();
    out.append(root);
    proof {
        reveal_strlit("/");
    }
    out.append("/");
    out.append(user);
    out.append("/");
    out.append(name);
    proof {
        assert(out@ =~= spec_repo_path(root@, user@, name@));
    }
    out
}

/// Joins `root`, `user` and `name` into the directory a repository is
/// created at, with a `git` extension enforced on the name.
pub fn create_repo_path(root: &str, user: &str, name: &str) -> (r: String)
    ensures
        r@ == spec_create_repo_path(root@, user@, name@),
{
    let mut out = String::new();
    out.append(root);
    proof {
        reveal_strlit("/");
        reveal_strlit(".git");
    }
    out.append("/");
    out.append(user);
    out.append("/");
    match find_last_dot(name) {
        Some(d) if d >= 1 => {
            out.append(name.substring_char(0, d));
        },
        _ => {
            out.append(name);
        },
    }
    out.append(".git");
    proof {
        assert(out@ =~= spec_create_repo_path(root@, user@, name@));
    }
    out
}

/// The path a literal repository file is served from on the legacy
/// retrieval route: `<root>/<user>/<name>/<file>`.
pub fn dumb_file_path(root: &str, user: &str, name: &str, file: &str) -> (r: String)
    ensures
        r@ == spec_join(spec_repo_path(root@, user@, name@), file@),
{
    let mut out = repo_path(root, user, name);
    proof {
        reveal_strlit("/");
    }
    out.append("/");
    out.append(file);
    proof {
        assert(out@ =~= spec_join(spec_repo_path(root@, user@, name@), file@));
    }
    out
}

/// The path of a tree entry during materialization: the parent path
/// joined with the entry name, with no separator at the root.
pub fn join_prefix(prefix: &str, name: &str) -> (r: String)
    ensures
        prefix@.len() == 0 ==> r@ == name@,
        prefix@.len() > 0 ==> r@ == spec_join(prefix@, name@),
{
    let mut out = String::new();
    if prefix.unicode_len() > 0 {
        out.append(prefix);
        proof {
            reveal_strlit("/");
        }
        out.append("/");
    }
    out.append(name);
    proof {
        if prefix@.len() > 0 {
            assert(out@ =~= spec_join(prefix@, name@));
        } else {
            assert(out@ =~= name@);
        }
    }
    out
}

/// The default repository root directory, relative to the working
/// directory of the server process.
pub fn default_repo_root() -> (r: String)
    ensures
        r@ == ("repos")@,
{
    proof {
        reveal_strlit("repos");
    }
    let mut out = String::new();
    out.append("repos");
    out
}

/// With separators excluded from safe segments, the joined repository
/// path determines both parts: two distinct safe `(user, name)` pairs
/// never address the same directory under one root.
pub proof fn lemma_repo_path_injective(
    root: Seq<char>,
    u1: Seq<char>,
    n1: Seq<char>,
    u2: Seq<char>,
    n2: Seq<char>,
)
    requires
        is_safe_segment(u1),
        is_safe_segment(n1),
        is_safe_segment(u2),
        is_safe_segment(n2),
        spec_repo_path(root, u1, n1) == spec_repo_path(root, u2, n2),
    ensures
        u1 == u2,
        n1 == n2,
{
    let p1 = spec_repo_path(root, u1, n1);
    let p2 = spec_repo_path(root, u2, n2);
    let r = root.len() as int;
    assert(p1.len() == r + 1 + u1.len() + 1 + n1.len());
    assert(p2.len() == r + 1 + u2.len() + 1 + n2.len());
    // The user segments have the same length: otherwise the shorter
    // side's closing slash lands inside the other side's user segment,
    // and a segment character is never a slash.
    if u1.len() < u2.len() {
        let k = r + 1 + u1.len();
        assert(p1[k] == '/');
        assert(p2[k] == u2[u1.len() as int]);
        assert(is_segment_char(u2[u1.len() as int]));
        assert(false);
    }
    if u2.len() < u1.len() {
        let k = r + 1 + u2.len();
        assert(p2[k] == '/');
        assert(p1[k] == u1[u2.len() as int]);
        assert(is_segment_char(u1[u2.len() as int]));
        assert(false);
    }
    assert(u1 =~= u2) by {
        assert forall|i: int| 0 <= i < u1.len() implies u1[i] == u2[i] by {
            assert(p1[r + 1 + i] == u1[i]);
            assert(p2[r + 1 + i] == u2[i]);
        }
    }
    assert(n1 =~= n2) by {
        assert forall|i: int| 0 <= i < n1.len() implies n1[i] == n2[i] by {
            assert(p1[r + 1 + u1.len() + 1 + i] == n1[i]);
            assert(p2[r + 1 + u2.len() + 1 + i] == n2[i]);
        }
    }
}

/// Creating a repository for a given user and name always yields the same
/// on-disk path: the mapping is a pure function of the pair, independent
/// of any other call.
pub proof fn lemma_create_path_deterministic(
    root: Seq<char>,
    u1: Seq<char>,
    n1: Seq<char>,
    u2: Seq<char>,
    n2: Seq<char>,
)
    requires
        u1 == u2,
        n1 == n2,
    ensures
        spec_create_repo_path(root, u1, n1) == spec_create_repo_path(root, u2, n2),
{
}

} // verus!
