//! The arena's navigation and the tagger, exercised on a hand-built tree
//! shaped like `#f(x)`: a markup root holding a hash marker and a function
//! call whose argument list carries the parentheses and the argument.

use typst_tokens::Tag;
use typst_tokens::kind::NodeKind;
use typst_tokens::tree::Node;
use typst_tokens::tree::SyntaxTree;
use typst_tokens::tree::build_tree;

fn node(kind: NodeKind, offset: usize, length: usize, depth: usize) -> Node {
    Node { kind, offset, length, depth }
}

fn sample_tree() -> SyntaxTree {
    SyntaxTree {
        nodes: vec![
            node(NodeKind::Markup, 0, 5, 0),
            node(NodeKind::Hash, 0, 1, 1),
            node(NodeKind::FuncCall, 1, 4, 1),
            node(NodeKind::Ident, 1, 1, 2),
            node(NodeKind::Args, 2, 3, 2),
            node(NodeKind::LeftParen, 2, 1, 3),
            node(NodeKind::Ident, 3, 1, 3),
            node(NodeKind::RightParen, 4, 1, 3),
        ],
    }
}

#[test]
fn navigation_relations() {
    let t = sample_tree();
    assert_eq!(t.len(), 8);
    assert_eq!(t.parent_of(0), None);
    assert_eq!(t.parent_of(1), Some(0));
    assert_eq!(t.parent_of(3), Some(2));
    assert_eq!(t.parent_kind(5), Some(NodeKind::Args));
    assert_eq!(t.next_sibling(1), Some(2));
    assert_eq!(t.next_sibling(2), None);
    assert_eq!(t.next_sibling_kind(3), Some(NodeKind::Args));
    assert_eq!(t.subtree_end(2), 8);
    assert_eq!(t.subtree_end(3), 4);
    assert!(t.is_childless(1));
    assert!(!t.is_childless(2));
    assert_eq!(t.leftmost_leaf(2), Some(3));
    assert_eq!(t.prev_leaf(3), Some(1));
    assert_eq!(t.next_leaf(3), Some(5));
    assert_eq!(t.prev_leaf(0), None);
}

#[test]
fn tagger_on_hand_built_tree() {
    let t = sample_tree();
    // The identifier heads an argument list: function; the hash marker
    // inherits it through the call's leftmost leaf.
    assert_eq!(t.highlight(3), Some(Tag::Function));
    assert_eq!(t.highlight(1), Some(Tag::Function));
    // The argument is a plain reference, the parentheses punctuation, and
    // the structural nodes carry nothing.
    assert_eq!(t.highlight(6), None);
    assert_eq!(t.highlight(5), Some(Tag::Punctuation));
    assert_eq!(t.highlight(0), None);
    assert_eq!(t.highlight(2), None);
    let spans = t.collect_spans();
    let triples: Vec<(usize, usize, Tag)> =
        spans.iter().map(|s| (s.offset, s.length, s.tag)).collect();
    assert_eq!(
        triples,
        vec![
            (0, 1, Tag::Function),
            (1, 1, Tag::Function),
            (2, 1, Tag::Punctuation),
            (4, 1, Tag::Punctuation),
        ]
    );
}

#[test]
fn build_tree_decodes_kind_codes() {
    let records: Vec<(u8, usize, usize, usize)> =
        vec![(0, 0, 3, 0), (127, 0, 3, 1), (129, 3, 0, 1)];
    let t = build_tree(&records);
    assert_eq!(t.nodes[0].kind, NodeKind::Markup);
    assert_eq!(t.nodes[1].kind, NodeKind::BlockComment);
    assert_eq!(t.nodes[2].kind, NodeKind::Eof);
    assert_eq!(t.nodes[1].length, 3);
    assert_eq!(t.nodes[2].depth, 1);
}
