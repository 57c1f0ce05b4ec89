use crate::error::DarwinError;
use crate::mutation::{chunk_fits, MutationChunk, Position};
use crate::text::same_text;
use vstd::prelude::*;
use vstd::string::*;
use vstd::utf8::*;

verus! {

broadcast use vstd::std_specs::vec::group_vec_axioms;

/// The kinds of syntax node that analysis tells apart.
#[derive(Debug, Clone, Copy, PartialEq, Eq, Structural)]
pub enum NodeKind {
    FunctionItem,
    AttributeItem,
    Block,
    BinaryExpression,
    Identifier,
    /// The `+` operator token.
    Plus,
    /// The `-` operator token.
    Minus,
    Other,
}

/// A node of a concrete syntax tree: its kind, the span of text it covers,
/// and its children in document order.
#[derive(Debug)]
pub struct SyntaxNode {
    pub kind: NodeKind,
    pub chunk: MutationChunk,
    pub children: Vec<SyntaxNode>,
}

/// The span of the node, and every span below its first `n` children, lie
/// within `text`, on character boundaries.
pub open spec fn fits_upto(node: SyntaxNode, n: int, text: Seq<char>) -> bool
    decreases node, n,
{
    if n <= 0 || n > node.children@.len() {
        chunk_fits(node.chunk, text)
    } else {
        let c = node.children@[n - 1];
        fits_upto(node, n - 1, text) && fits_upto(c, c.children@.len() as int, text)
    }
}

/// Every span of the tree lies within `text`, on character boundaries.
pub open spec fn node_fits(node: SyntaxNode, text: Seq<char>) -> bool {
    fits_upto(node, node.children@.len() as int, text)
}

/// The kind that the Rust grammar's node type name stands for.
pub open spec fn kind_named(name: Seq<char>) -> NodeKind {
    if name == "function_item"@ {
        NodeKind::FunctionItem
    } else if name == "attribute_item"@ {
        NodeKind::AttributeItem
    } else if name == "block"@ {
        NodeKind::Block
    } else if name == "binary_expression"@ {
        NodeKind::BinaryExpression
    } else if name == "identifier"@ {
        NodeKind::Identifier
    } else if name == "+"@ {
        NodeKind::Plus
    } else if name == "-"@ {
        NodeKind::Minus
    } else {
        NodeKind::Other
    }
}

/// The kind that a node type name stands for.
pub fn kind_from_name(name: &str) -> (k: NodeKind)
    ensures
        k == kind_named(name@),
{
    if same_text(name, "function_item") {
        NodeKind::FunctionItem
    } else if same_text(name, "attribute_item") {
        NodeKind::AttributeItem
    } else if same_text(name, "block") {
        NodeKind::Block
    } else if same_text(name, "binary_expression") {
        NodeKind::BinaryExpression
    } else if same_text(name, "identifier") {
        NodeKind::Identifier
    } else if same_text(name, "+") {
        NodeKind::Plus
    } else if same_text(name, "-") {
        NodeKind::Minus
    } else {
        NodeKind::Other
    }
}

/// tree_sitter's parser, held opaque.
#[verifier::external_type_specification]
#[verifier::external_body]
pub struct ExParser(tree_sitter::Parser);

/// A tree_sitter grammar, held opaque.
#[verifier::external_type_specification]
#[verifier::external_body]
pub struct ExLanguage(tree_sitter::Language);

/// tree_sitter's error for a grammar of another ABI version, held opaque.
#[verifier::external_type_specification]
#[verifier::external_body]
pub struct ExLanguageError(tree_sitter::LanguageError);

/// A parsed tree_sitter tree, held opaque.
#[verifier::external_type_specification]
#[verifier::external_body]
pub struct ExTree(tree_sitter::Tree);

/// A node of a tree_sitter tree, held opaque.
#[verifier::external_type_specification]
#[verifier::external_body]
pub struct ExNode<'tree>(tree_sitter::Node<'tree>);

/// tree_sitter's position, whose public `row` and `column` are read.
#[verifier::external_type_specification]
pub struct ExTsPoint(tree_sitter::Point);

/// Relies on tree_sitter::Parser::new: a parser with no language yet; nothing
/// is assumed of it.
pub assume_specification[ tree_sitter::Parser::new ]() -> tree_sitter::Parser;

/// Relies on tree_sitter_rust::language: the Rust grammar; nothing is assumed of it.
pub assume_specification[ tree_sitter_rust::language ]() -> tree_sitter::Language;

/// Relies on tree_sitter::Parser::set_language: gives the parser its grammar,
/// or fails; nothing is assumed of which.
pub assume_specification[ tree_sitter::Parser::set_language ](
    parser: &mut tree_sitter::Parser,
    language: tree_sitter::Language,
) -> Result<(), tree_sitter::LanguageError>;

/// Relies on tree_sitter::Tree::root_node: the tree's root; nothing is assumed of it.
pub assume_specification[ tree_sitter::Tree::root_node ](tree: &tree_sitter::Tree) -> tree_sitter::Node<'_>;

/// Relies on tree_sitter::Node::kind: the name of the node's grammar rule;
/// nothing is assumed of it.
pub assume_specification<'tree>[ tree_sitter::Node::<'tree>::kind ](node: &tree_sitter::Node<'tree>) -> &'static str;

/// Relies on tree_sitter::Node::start_byte: where the node starts; it is checked
/// against the text.
pub assume_specification<'tree>[ tree_sitter::Node::<'tree>::start_byte ](node: &tree_sitter::Node<'tree>) -> usize;

/// Relies on tree_sitter::Node::end_byte: where the node ends; it is checked
/// against the text.
pub assume_specification<'tree>[ tree_sitter::Node::<'tree>::end_byte ](node: &tree_sitter::Node<'tree>) -> usize;

/// Relies on tree_sitter::Node::start_position: the row and column where the
/// node starts, shown in reports only; nothing is assumed of it.
pub assume_specification<'tree>[ tree_sitter::Node::<'tree>::start_position ](node: &tree_sitter::Node<'tree>) -> tree_sitter::Point;

/// Relies on tree_sitter::Node::end_position: the row and column where the
/// node ends; nothing is assumed of it.
pub assume_specification<'tree>[ tree_sitter::Node::<'tree>::end_position ](node: &tree_sitter::Node<'tree>) -> tree_sitter::Point;

/// Relies on tree_sitter::Node::child_count: how many children the node has;
/// nothing is assumed of it.
pub assume_specification<'tree>[ tree_sitter::Node::<'tree>::child_count ](node: &tree_sitter::Node<'tree>) -> usize;

/// Relies on tree_sitter::Node::child: the child at an index, `None` past the
/// last; nothing is assumed of it.
pub assume_specification<'tree>[ tree_sitter::Node::<'tree>::child ](node: &tree_sitter::Node<'tree>, i: usize) -> Option<tree_sitter::Node<'tree>>;

/// Relies on tree_sitter::Parser::parse: parses the whole text afresh with
/// the parser's language; `None` where the parser could not run.
#[verifier::external_body]
fn parse_text(parser: &mut tree_sitter::Parser, text: &str) -> Option<tree_sitter::Tree> {
    parser.parse(text, None)
}

fn point_of(p: tree_sitter::Point) -> (r: Position)
    ensures
        r.row == p.row,
        r.column == p.column,
{
    Position { row: p.row, column: p.column }
}

/// Copies a parsed node and all that lies below it into a [`SyntaxNode`],
/// checking each span against the text. `budget` bounds the number of nodes
/// copied; what is left of it comes back with the node.
fn copy_node(node: &tree_sitter::Node, text: &str, budget: usize) -> (r: Result<
    (SyntaxNode, usize),
    DarwinError,
>)
    ensures
        r matches Ok((n, rest)) ==> node_fits(n, text@) && rest < budget,
    decreases budget,
{
    let start = node.start_byte();
    let end = node.end_byte();
    if budget == 0 {
        return Err(DarwinError::MalformedTree { offset: start });
    }
    let len = text.len();
    if !(start <= end && end <= len && text.is_char_boundary(start) && text.is_char_boundary(end)) {
        return Err(DarwinError::MalformedTree { offset: start });
    }
    assert(end <= text.spec_bytes().len()) by {
        assert(len as int <= text.spec_bytes().len());
    }
    let chunk = MutationChunk {
        start,
        end,
        start_point: point_of(node.start_position()),
        end_point: point_of(node.end_position()),
    };
    let mut children: Vec<SyntaxNode> = Vec::new();
    let mut remaining: usize = budget - 1;
    let count = node.child_count();
    let mut i: usize = 0;
    while i < count
        invariant
            remaining < budget,
            fits_upto(
                SyntaxNode { kind: NodeKind::Other, chunk, children },
                children@.len() as int,
                text@,
            ),
        decreases count - i,
    {
        match node.child(i) {
            Some(child) => {
                match copy_node(&child, text, remaining) {
                    Ok((copied, rest)) => {
                        let ghost before = SyntaxNode { kind: NodeKind::Other, chunk, children };
                        children.push(copied);
                        remaining = rest;
                        proof {
                            let after = SyntaxNode { kind: NodeKind::Other, chunk, children };
                            lemma_fits_same(before, after, before.children@.len() as int, text@);
                        }
                    },
                    Err(e) => {
                        return Err(e);
                    },
                }
            },
            None => {
                return Err(DarwinError::MalformedTree { offset: start });
            },
        }
        i = i + 1;
    }
    let kind = kind_from_name(node.kind());
    let copied = SyntaxNode { kind, chunk, children };
    proof {
        let before = SyntaxNode { kind: NodeKind::Other, chunk, children };
        lemma_fits_same(before, copied, children@.len() as int, text@);
    }
    Ok((copied, remaining))
}

proof fn lemma_fits_same(a: SyntaxNode, b: SyntaxNode, n: int, text: Seq<char>)
    requires
        a.chunk == b.chunk,
        0 <= n <= a.children@.len(),
        n <= b.children@.len(),
        forall|j: int| 0 <= j < n ==> a.children@[j] == b.children@[j],
    ensures
        fits_upto(a, n, text) == fits_upto(b, n, text),
    decreases n,
{
    if n > 0 {
        lemma_fits_same(a, b, n - 1, text);
    }
}

/// Parses Rust source text into a syntax tree whose spans all lie within
/// the text. Fails where the parser cannot run or hands back a span that
/// does not fit the text.
pub fn parse_rust(content: &String) -> (r: Result<SyntaxNode, DarwinError>)
    ensures
        r matches Ok(tree) ==> node_fits(tree, content@),
{
    let mut parser = tree_sitter::Parser::new();
    match parser.set_language(tree_sitter_rust::language()) {
        Ok(()) => {},
        Err(_) => {
            return Err(DarwinError::Parse { offset: 0 });
        },
    }
    let tree = match parse_text(&mut parser, content.as_str()) {
        Some(t) => t,
        None => {
            return Err(DarwinError::Parse { offset: 0 });
        },
    };
    let root = tree.root_node();
    match copy_node(&root, content.as_str(), usize::MAX) {
        Ok((node, _)) => Ok(node),
        Err(e) => Err(e),
    }
}

} // verus!

verus! {

/// The children of a tree that fits a text fit it too.
pub proof fn lemma_child_fits(node: SyntaxNode, text: Seq<char>, i: int)
    requires
        node_fits(node, text),
        0 <= i < node.children@.len(),
    ensures
        node_fits(node.children@[i], text),
        chunk_fits(node.chunk, text),
        chunk_fits(node.children@[i].chunk, text),
{
    lemma_fits_upto(node, node.children@.len() as int, i, text);
    let c = node.children@[i];
    lemma_fits_upto(c, c.children@.len() as int, 0, text);
}

/// A tree that fits a text has a span that fits it.
pub proof fn lemma_fits_chunk(node: SyntaxNode, text: Seq<char>)
    requires
        node_fits(node, text),
    ensures
        chunk_fits(node.chunk, text),
{
    lemma_fits_upto(node, node.children@.len() as int, 0, text);
}

proof fn lemma_fits_upto(node: SyntaxNode, n: int, i: int, text: Seq<char>)
    requires
        fits_upto(node, n, text),
        0 <= n <= node.children@.len(),
    ensures
        0 <= i < n ==> node_fits(node.children@[i], text),
        chunk_fits(node.chunk, text),
    decreases n,
{
    if n > 0 {
        lemma_fits_upto(node, n - 1, i, text);
    }
}

} // verus!
