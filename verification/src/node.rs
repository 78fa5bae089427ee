//! The node graph a materialized repository tree is rendered as: a tagged
//! union of directories (with ordered children) and files (annotated with
//! the commit that last touched their first line, per blame).

use vstd::prelude::*;

verus! {

/// One entry of a materialized tree.
///
/// A `File` carries the identifier of the commit that blame attributes
/// the file's first line to, that commit's message verbatim, and its
/// committer timestamp in seconds since the epoch.  A `Directory` carries
/// its children in the underlying tree's native entry order.  The root of
/// a materialization is always a synthetic `Directory` named `root`.
#[derive(Debug)]
pub enum Node {
    File { name: String, commit: String, message: String, modified: i64 },
    Directory { name: String, childs: Vec<Node> },
}

/// The name of a node.
pub open spec fn node_name(n: Node) -> Seq<char> {
    match n {
        Node::File { name, .. } => name@,
        Node::Directory { name, .. } => name@,
    }
}

impl Node {
    /// The name of this node.
    pub fn name(&self) -> (r: &String)
        ensures
            r@ == node_name(*self),
    {
        match self {
            Node::File { name, .. } => name,
            Node::Directory { name, .. } => name,
        }
    }

    /// True exactly when this node is a directory.
    pub fn is_directory(&self) -> (b: bool)
        ensures
            b == (*self is Directory),
    {
        match self {
            Node::Directory { .. } => true,
            Node::File { .. } => false,
        }
    }
}

} // verus!
