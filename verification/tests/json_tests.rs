use repohost::error::ApiError;
use repohost::json::{branches_json, node_json};
use repohost::node::Node;

fn file(name: &str, commit: &str, message: &str, modified: i64) -> Node {
    Node::File {
        name: name.to_string(),
        commit: commit.to_string(),
        message: message.to_string(),
        modified,
    }
}

#[test]
fn file_node_renders_all_fields() {
    let n = file("a.txt", "abc123", "first commit\n", 1700000000);
    assert_eq!(
        node_json(&n),
        "{\"type\":\"file\",\"name\":\"a.txt\",\"commit\":\"abc123\",\"message\":\"first commit\\n\",\"modified\":1700000000}"
    );
}

#[test]
fn directory_node_renders_children_in_order() {
    let n = Node::Directory {
        name: "root".to_string(),
        childs: vec![
            file("a.txt", "c1", "m1\n", 1),
            file("b.txt", "c2", "m2\n", 2),
        ],
    };
    assert_eq!(
        node_json(&n),
        "{\"type\":\"directory\",\"name\":\"root\",\"childs\":[{\"type\":\"file\",\"name\":\"a.txt\",\"commit\":\"c1\",\"message\":\"m1\\n\",\"modified\":1},{\"type\":\"file\",\"name\":\"b.txt\",\"commit\":\"c2\",\"message\":\"m2\\n\",\"modified\":2}]}"
    );
}

#[test]
fn nested_directories_preserve_depth() {
    let n = Node::Directory {
        name: "root".to_string(),
        childs: vec![Node::Directory {
            name: "dir".to_string(),
            childs: vec![file("nested.txt", "c", "m\n", 7)],
        }],
    };
    assert_eq!(
        node_json(&n),
        "{\"type\":\"directory\",\"name\":\"root\",\"childs\":[{\"type\":\"directory\",\"name\":\"dir\",\"childs\":[{\"type\":\"file\",\"name\":\"nested.txt\",\"commit\":\"c\",\"message\":\"m\\n\",\"modified\":7}]}]}"
    );
}

#[test]
fn empty_directory_renders_empty_array() {
    let n = Node::Directory { name: "root".to_string(), childs: vec![] };
    assert_eq!(node_json(&n), "{\"type\":\"directory\",\"name\":\"root\",\"childs\":[]}");
}

#[test]
fn strings_are_escaped() {
    let n = file("a\"b\\c", "c", "tab\there\nbell\u{7}end", -5);
    assert_eq!(
        node_json(&n),
        "{\"type\":\"file\",\"name\":\"a\\\"b\\\\c\",\"commit\":\"c\",\"message\":\"tab\\there\\nbell\\u0007end\",\"modified\":-5}"
    );
}

#[test]
fn control_characters_use_unicode_escapes() {
    let n = file("\u{1}\u{1f}", "c", "\u{8}\u{c}\r", 0);
    assert_eq!(
        node_json(&n),
        "{\"type\":\"file\",\"name\":\"\\u0001\\u001f\",\"commit\":\"c\",\"message\":\"\\b\\f\\r\",\"modified\":0}"
    );
}

#[test]
fn non_ascii_passes_through_unescaped() {
    let n = file("héllo", "c", "grüß\n", 0);
    assert_eq!(
        node_json(&n),
        "{\"type\":\"file\",\"name\":\"héllo\",\"commit\":\"c\",\"message\":\"grüß\\n\",\"modified\":0}"
    );
}

#[test]
fn extreme_timestamps_render_exactly() {
    let min = file("a", "c", "m", i64::MIN);
    assert!(node_json(&min).ends_with("\"modified\":-9223372036854775808}"));
    let max = file("a", "c", "m", i64::MAX);
    assert!(node_json(&max).ends_with("\"modified\":9223372036854775807}"));
}

#[test]
fn branch_list_renders_as_string_array() {
    assert_eq!(branches_json(&vec![]), "[]");
    assert_eq!(branches_json(&vec!["main".to_string()]), "[\"main\"]");
    assert_eq!(
        branches_json(&vec!["main".to_string(), "dev\"x".to_string()]),
        "[\"main\",\"dev\\\"x\"]"
    );
}

#[test]
fn rendering_is_idempotent() {
    let n = Node::Directory {
        name: "root".to_string(),
        childs: vec![file("a.txt", "c1", "m1\n", 1)],
    };
    let first = node_json(&n);
    let second = node_json(&n);
    assert_eq!(first, second);
    let names = vec!["main".to_string(), "dev".to_string()];
    assert_eq!(branches_json(&names), branches_json(&names));
}

#[test]
fn error_bodies_match_the_boundary() {
    let store = ApiError::Store { detail: "missing HEAD".to_string() };
    assert_eq!(store.status_code(), 500);
    assert_eq!(store.body(), "Something went wrong when: missing HEAD");
    assert!(!store.is_not_found());
    let nf = ApiError::NotFound;
    assert_eq!(nf.status_code(), 404);
    assert_eq!(nf.body(), "");
    assert!(nf.is_not_found());
}
