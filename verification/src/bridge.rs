//! The boundary to the external parser.
//!
//! Parsing the source text into a syntax tree is delegated to the
//! `typst_syntax` crate; everything downstream of it is verified. The one
//! trusted item flattens the parsed tree into plain pre-order records that
//! [`crate::tree::build_tree`] decodes into the arena.

use vstd::prelude::*;
use vstd::string::StringSliceAdditionalSpecFns;

use crate::tree::records_in_range;

verus! {

/// The pre-order parse records of a source text: one record per node of
/// the syntax tree the parser builds for the text, holding the node's kind
/// discriminant, byte offset, byte length, and depth below the root. The
/// parser is a pure function of the text, so its records are named here
/// rather than spelled out; what holds of them is stated by
/// [`parse_records`] alone.
pub uninterp spec fn parsed(s: Seq<char>) -> Seq<(u8, usize, usize, usize)>;

/// Relies on `typst_syntax::parse`, which deterministically builds the
/// syntax tree of a source text (error recovery included), and on
/// `typst_syntax::LinkedNode`, whose traversal yields every node with its
/// absolute byte offset and length. Each record holds the node's kind as
/// its `repr(u8)` discriminant. The parser always returns a root node, the
/// tree spans the text, so every node's byte range ends within it, and the
/// records are emitted in pre-order starting at the root at depth zero,
/// each child one level below its parent.
#[verifier::external_body]
pub(crate) fn parse_records(text: &str) -> (out: Vec<(u8, usize, usize, usize)>)
    ensures
        out@ == parsed(text@),
        records_in_range(out@, text.spec_bytes().len() as int),
{
    let root = typst_syntax::parse(text);
    let mut out: Vec<(u8, usize, usize, usize)> = Vec::new();
    let mut stack: Vec<(typst_syntax::LinkedNode, usize)> = Vec::new();
    stack.push((typst_syntax::LinkedNode::new(&root), 0usize));
    while let Some((node, depth)) = stack.pop() {
        out.push((node.kind() as u8, node.offset(), node.len(), depth));
        for child in node.children().rev() {
            stack.push((child, depth + 1));
        }
    }
    out
}

} // verus!
