use cargo_darwin::analyze::{analyze_tree, check_function_is_test};
use cargo_darwin::error::DarwinError;
use cargo_darwin::mutation::{MutationChunk, Position};
use cargo_darwin::syntax::{kind_from_name, parse_rust, NodeKind, SyntaxNode};
use cargo_darwin::text::{byte_slice, decimal, same_text};

fn leaf(kind: NodeKind, start: usize, end: usize) -> SyntaxNode {
    SyntaxNode {
        kind,
        chunk: MutationChunk {
            start,
            end,
            start_point: Position { row: 0, column: start },
            end_point: Position { row: 0, column: end },
        },
        children: vec![],
    }
}

fn file_with_attribute(text: &str, attribute_end: usize) -> SyntaxNode {
    let mut root = leaf(NodeKind::Other, 0, text.len());
    root.children.push(leaf(NodeKind::AttributeItem, 0, attribute_end));
    root.children.push(leaf(NodeKind::FunctionItem, attribute_end + 1, text.len()));
    root
}

#[test]
fn test_marker_right_before_function() {
    let text = "#[test]\nfn t() {}".to_string();
    let root = file_with_attribute(&text, 7);
    assert_eq!(check_function_is_test(&root, &root.children[1], 1, &text), Ok(true));
    assert_eq!(check_function_is_test(&root, &root.children[0], 0, &text), Ok(false));
}

#[test]
fn other_marker_right_before_function() {
    let text = "#[inline]\nfn t() {}".to_string();
    let root = file_with_attribute(&text, 9);
    assert_eq!(check_function_is_test(&root, &root.children[1], 1, &text), Ok(false));
}

#[test]
fn attribute_with_arguments_matches_by_path() {
    let text = "#[tokio::test(flavor = \"multi_thread\")]\nfn t() {}".to_string();
    let root = file_with_attribute(&text, 39);
    assert_eq!(check_function_is_test(&root, &root.children[1], 1, &text), Ok(true));
    let text = "#[inline(always)]\nfn t() {}".to_string();
    let root = file_with_attribute(&text, 17);
    assert_eq!(check_function_is_test(&root, &root.children[1], 1, &text), Ok(false));
}

#[test]
fn unparsable_attribute_snippet_fails() {
    let text = "#[test]\nstruct S;".to_string();
    let root = file_with_attribute(&text, 7);
    assert_eq!(
        check_function_is_test(&root, &root.children[1], 1, &text),
        Err(DarwinError::Parse { offset: 0 })
    );
}

#[test]
fn hand_built_tree_analysis() {
    let text = "fn f() { a + b }".to_string();
    let mut binary = leaf(NodeKind::BinaryExpression, 9, 14);
    binary.children = vec![
        leaf(NodeKind::Identifier, 9, 10),
        leaf(NodeKind::Plus, 11, 12),
        leaf(NodeKind::Identifier, 13, 14),
    ];
    let mut block = leaf(NodeKind::Block, 7, 16);
    block.children = vec![binary];
    let mut function = leaf(NodeKind::FunctionItem, 0, 16);
    function.children = vec![leaf(NodeKind::Other, 0, 2), leaf(NodeKind::Identifier, 3, 4), block];
    let mut root = leaf(NodeKind::Other, 0, 16);
    root.children = vec![function];
    let found = analyze_tree(&root, &text).unwrap();
    assert_eq!(found.len(), 2);
    assert_eq!(found[0].mutation, "-");
    assert_eq!(found[1].reason, "replace + by *");
    assert_eq!(found[1].function_name, "f");
    assert_eq!(found[1].chunk.start, 11);
    assert!(found[0].get_mutated_file().is_err());
}

#[test]
fn function_without_name_fails() {
    let text = "fn () {}".to_string();
    let mut root = leaf(NodeKind::Other, 0, 8);
    root.children = vec![leaf(NodeKind::FunctionItem, 0, 8)];
    assert_eq!(analyze_tree(&root, &text), Err(DarwinError::Parse { offset: 0 }));
}

#[test]
fn parsed_tree_has_kinds_and_spans() {
    let text = "fn f() -> i8 { 1 - 2 }".to_string();
    let root = parse_rust(&text).unwrap();
    assert_eq!(root.chunk.start, 0);
    assert_eq!(root.chunk.end, text.len());
    assert_eq!(root.children.len(), 1);
    assert_eq!(root.children[0].kind, NodeKind::FunctionItem);
}

#[test]
fn node_kind_names() {
    assert_eq!(kind_from_name("function_item"), NodeKind::FunctionItem);
    assert_eq!(kind_from_name("binary_expression"), NodeKind::BinaryExpression);
    assert_eq!(kind_from_name("-"), NodeKind::Minus);
    assert_eq!(kind_from_name("+"), NodeKind::Plus);
    assert_eq!(kind_from_name("*"), NodeKind::Other);
}

#[test]
fn text_helpers() {
    assert_eq!(decimal(0), "0");
    assert_eq!(decimal(1234567890123), "1234567890123");
    assert!(same_text("abc", "abc"));
    assert!(!same_text("abc", "abd"));
    assert!(!same_text("abc", "ab"));
    assert_eq!(byte_slice("héllo", 1, 3), "é");
}
