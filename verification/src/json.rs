//! The JSON wire format for materialized trees and branch lists, pinned
//! character by character: a discriminated object with a `type` tag of
//! `file` or `directory`, file objects carrying `name`, `commit`,
//! `message` and `modified`, directory objects carrying `name` and
//! `childs`.  Strings are escaped the way the surrounding ecosystem
//! escapes them: quote, backslash and the named control characters get a
//! two-character escape, any other control character becomes `\u00XX`.

use vstd::prelude::*;
use crate::node::Node;
use crate::text::{spec_dec_i64, push_dec_i64};

verus! {

broadcast use vstd::std_specs::vec::group_vec_axioms;

/// The lowercase hex digit for a value below sixteen.
pub open spec fn hex_digit(n: int) -> char
    recommends
        0 <= n < 16,
{
    if n == 0 {
        '0'
    } else if n == 1 {
        '1'
    } else if n == 2 {
        '2'
    } else if n == 3 {
        '3'
    } else if n == 4 {
        '4'
    } else if n == 5 {
        '5'
    } else if n == 6 {
        '6'
    } else if n == 7 {
        '7'
    } else if n == 8 {
        '8'
    } else if n == 9 {
        '9'
    } else if n == 10 {
        'a'
    } else if n == 11 {
        'b'
    } else if n == 12 {
        'c'
    } else if n == 13 {
        'd'
    } else if n == 14 {
        'e'
    } else {
        'f'
    }
}

/// The one-character string for a lowercase hex digit.
fn hex_digit_str(d: u32) -> (r: &'static str)
    requires
        d < 16,
    ensures
        r@ == seq![hex_digit(d as int)],
{
    proof {
        reveal_strlit("0");
        reveal_strlit("1");
        reveal_strlit("2");
        reveal_strlit("3");
        reveal_strlit("4");
        reveal_strlit("5");
        reveal_strlit("6");
        reveal_strlit("7");
        reveal_strlit("8");
        reveal_strlit("9");
        reveal_strlit("a");
        reveal_strlit("b");
        reveal_strlit("c");
        reveal_strlit("d");
        reveal_strlit("e");
        reveal_strlit("f");
    }
    if d == 0 {
        "0"
    } else if d == 1 {
        "1"
    } else if d == 2 {
        "2"
    } else if d == 3 {
        "3"
    } else if d == 4 {
        "4"
    } else if d == 5 {
        "5"
    } else if d == 6 {
        "6"
    } else if d == 7 {
        "7"
    } else if d == 8 {
        "8"
    } else if d == 9 {
        "9"
    } else if d == 10 {
        "a"
    } else if d == 11 {
        "b"
    } else if d == 12 {
        "c"
    } else if d == 13 {
        "d"
    } else if d == 14 {
        "e"
    } else {
        "f"
    }
}

/// How a single character appears inside a JSON string literal.
pub open spec fn escape_char(c: char) -> Seq<char> {
    if c == '"' {
        seq!['\\', '"']
    } else if c == '\\' {
        seq!['\\', '\\']
    } else if c == '\u{8}' {
        seq!['\\', 'b']
    } else if c == '\t' {
        seq!['\\', 't']
    } else if c == '\n' {
        seq!['\\', 'n']
    } else if c == '\u{c}' {
        seq!['\\', 'f']
    } else if c == '\r' {
        seq!['\\', 'r']
    } else if (c as u32) < 32 {
        seq!['\\', 'u', '0', '0', hex_digit(c as u32 as int / 16), hex_digit(c as u32 as int % 16)]
    } else {
        seq![c]
    }
}

/// The escaped body of a JSON string literal.
pub open spec fn spec_escape(s: Seq<char>) -> Seq<char>
    decreases s.len(),
{
    if s.len() == 0 {
        Seq::empty()
    } else {
        spec_escape(s.drop_last()) + escape_char(s.last())
    }
}

/// A complete JSON string literal: quotes around the escaped body.
pub open spec fn spec_quoted(s: Seq<char>) -> Seq<char> {
    seq!['"'] + spec_escape(s) + seq!['"']
}

/// Appends the escaped body of `s` to `out`.
#[verifier::loop_isolation(false)]
fn push_escaped(out: &mut String, s: &str)
    ensures
        final(out)@ == old(out)@ + spec_escape(s@),
{
    proof {
        reveal_strlit("\\\"");
        reveal_strlit("\\\\");
        reveal_strlit("\\b");
        reveal_strlit("\\t");
        reveal_strlit("\\n");
        reveal_strlit("\\f");
        reveal_strlit("\\r");
        reveal_strlit("\\u00");
    }
    let n = s.unicode_len();
    let mut i: usize = 0;
    while i < n
        invariant
            n == s@.len(),
            i <= n,
            out@ == old(out)@ + spec_escape(s@.subrange(0, i as int)),
        decreases n - i,
    {
        let c = s.get_char(i);
        if c == '"' {
            out.append("\\\"");
        } else if c == '\\' {
            out.append("\\\\");
        } else if c == '\u{8}' {
            out.append("\\b");
        } else if c == '\t' {
            out.append("\\t");
        } else if c == '\n' {
            out.append("\\n");
        } else if c == '\u{c}' {
            out.append("\\f");
        } else if c == '\r' {
            out.append("\\r");
        } else if (c as u32) < 32 {
            out.append("\\u00");
            let v: u32 = c as u32;
            out.append(hex_digit_str(v / 16));
            out.append(hex_digit_str(v % 16));
        } else {
            out.append(s.substring_char(i, i + 1));
            proof {
                assert(s@.subrange(i as int, i + 1) =~= seq![s@[i as int]]);
            }
        }
        proof {
            assert(s@.subrange(0, i + 1).drop_last() =~= s@.subrange(0, i as int));
            assert(s@.subrange(0, i + 1).last() == s@[i as int]);
            assert(out@ =~= old(out)@ + spec_escape(s@.subrange(0, i + 1)));
        }
        i = i + 1;
    }
    proof {
        assert(s@.subrange(0, n as int) =~= s@);
    }
}

/// Appends `s` as a complete JSON string literal to `out`.
fn push_quoted(out: &mut String, s: &str)
    ensures
        final(out)@ == old(out)@ + spec_quoted(s@),
{
    proof {
        reveal_strlit("\"");
    }
    out.append("\"");
    push_escaped(out, s);
    out.append("\"");
    proof {
        assert(out@ =~= old(out)@ + spec_quoted(s@));
    }
}

/// The JSON object for one node: a `file` object with `name`, `commit`,
/// `message` and `modified`, or a `directory` object with `name` and a
/// `childs` array holding its children in order.
pub open spec fn spec_node_json(n: Node) -> Seq<char>
    decreases n,
{
    match n {
        Node::File { name, commit, message, modified } => ("{\"type\":\"file\",\"name\":")@
            + spec_quoted(name@) + (",\"commit\":")@ + spec_quoted(commit@) + (",\"message\":")@
            + spec_quoted(message@) + (",\"modified\":")@ + spec_dec_i64(modified as int) + ("}")@,
        Node::Directory { name, childs } => ("{\"type\":\"directory\",\"name\":")@ + spec_quoted(
            name@,
        ) + (",\"childs\":[")@ + spec_nodes_json(childs@) + ("]}")@,
    }
}

/// The comma-separated JSON objects of a node sequence.
pub open spec fn spec_nodes_json(s: Seq<Node>) -> Seq<char>
    decreases s,
{
    if s.len() == 0 {
        Seq::empty()
    } else if s.len() == 1 {
        spec_node_json(s[0])
    } else {
        spec_nodes_json(s.drop_last()) + seq![','] + spec_node_json(s.last())
    }
}

/// Appends the JSON rendering of `n` to `out`.
#[verifier::loop_isolation(false)]
pub fn write_node(n: &Node, out: &mut String)
    ensures
        final(out)@ == old(out)@ + spec_node_json(*n),
    decreases *n,
{
    match n {
        Node::File { name, commit, message, modified } => {
            out.append("{\"type\":\"file\",\"name\":");
            push_quoted(out, name.as_str());
            out.append(",\"commit\":");
            push_quoted(out, commit.as_str());
            out.append(",\"message\":");
            push_quoted(out, message.as_str());
            out.append(",\"modified\":");
            push_dec_i64(out, *modified);
            out.append("}");
            proof {
                assert(out@ =~= old(out)@ + spec_node_json(*n));
            }
        },
        Node::Directory { name, childs } => {
            out.append("{\"type\":\"directory\",\"name\":");
            push_quoted(out, name.as_str());
            out.append(",\"childs\":[");
            let ghost pre: Seq<char> = out@;
            let m = childs.len();
            let mut i: usize = 0;
            proof {
                assert(childs@.subrange(0, 0) =~= Seq::<Node>::empty());
            }
            while i < m
                invariant
                    m == childs@.len(),
                    i <= m,
                    out@ == pre + spec_nodes_json(childs@.subrange(0, i as int)),
                decreases m - i,
            {
                if i > 0 {
                    proof {
                        reveal_strlit(",");
                    }
                    out.append(",");
                }
                proof {
                    assert(decreases_to!(*n => *childs));
                    assert(decreases_to!(*childs => childs@));
                    assert(decreases_to!(childs@ => childs@[i as int]));
                }
                write_node(&childs[i], out);
                proof {
                    assert(childs@.subrange(0, i + 1).last() == childs@[i as int]);
                    assert(childs@.subrange(0, i + 1).drop_last() =~= childs@.subrange(
                        0,
                        i as int,
                    ));
                    assert(out@ =~= pre + spec_nodes_json(childs@.subrange(0, i + 1)));
                }
                i = i + 1;
            }
            out.append("]}");
            proof {
                assert(childs@.subrange(0, m as int) =~= childs@);
                assert(out@ =~= old(out)@ + spec_node_json(*n));
            }
        },
    }
}

/// The JSON rendering of a node graph.
pub fn node_json(n: &Node) -> (r: String)
    ensures
        r@ == spec_node_json(*n),
{
    let mut out = String::new();
    write_node(n, &mut out);
    proof {
        assert(out@ =~= spec_node_json(*n));
    }
    out
}

/// The comma-separated JSON string literals of a name list.
pub open spec fn spec_strings_json(s: Seq<String>) -> Seq<char>
    decreases s.len(),
{
    if s.len() == 0 {
        Seq::empty()
    } else if s.len() == 1 {
        spec_quoted(s[0]@)
    } else {
        spec_strings_json(s.drop_last()) + seq![','] + spec_quoted(s.last()@)
    }
}

/// The JSON array of branch names, in the order they were listed.
pub open spec fn spec_branches_json(s: Seq<String>) -> Seq<char> {
    seq!['['] + spec_strings_json(s) + seq![']']
}

/// Renders a branch-name list as a JSON array of strings.
#[verifier::loop_isolation(false)]
pub fn branches_json(v: &Vec<String>) -> (r: String)
    ensures
        r@ == spec_branches_json(v@),
{
    proof {
        reveal_strlit("[");
        reveal_strlit("]");
        reveal_strlit(",");
    }
    let mut out = String::new();
    out.append("[");
    let ghost pre: Seq<char> = out@;
    let m = v.len();
    let mut i: usize = 0;
    proof {
        assert(v@.subrange(0, 0) =~= Seq::<String>::empty());
    }
    while i < m
        invariant
            m == v@.len(),
            i <= m,
            out@ == pre + spec_strings_json(v@.subrange(0, i as int)),
        decreases m - i,
    {
        if i > 0 {
            out.append(",");
        }
        push_quoted(&mut out, v[i].as_str());
        proof {
            assert(v@.subrange(0, i + 1).last() == v@[i as int]);
            assert(v@.subrange(0, i + 1).drop_last() =~= v@.subrange(0, i as int));
            assert(out@ =~= pre + spec_strings_json(v@.subrange(0, i + 1)));
        }
        i = i + 1;
    }
    out.append("]");
    proof {
        assert(v@.subrange(0, m as int) =~= v@);
        assert(out@ =~= spec_branches_json(v@));
    }
    out
}

/// Rendering depends on the value alone: two reads of an unmodified
/// repository that produced equal node graphs render to byte-identical
/// JSON, and likewise for branch lists.
pub proof fn lemma_node_json_deterministic(a: Node, b: Node)
    requires
        a == b,
    ensures
        spec_node_json(a) == spec_node_json(b),
{
}

/// See `lemma_node_json_deterministic`: the branch-list rendering also
/// depends on the listed names alone.
pub proof fn lemma_branches_json_deterministic(a: Seq<String>, b: Seq<String>)
    requires
        a == b,
    ensures
        spec_branches_json(a) == spec_branches_json(b),
{
}

} // verus!
