//! Semantic highlighting core for Typst sources.
//!
//! The library classifies every node of a parsed Typst syntax tree into a
//! semantic highlighting category and serializes the classification into the
//! compact position-relative token stream that editors consume: a flat
//! sequence of five-field records `(delta line, delta column, length,
//! category index, modifiers)`.
//!
//! Parsing itself is delegated to the `typst_syntax` crate; the parsed tree
//! is mirrored into a plain pre-order arena ([`tree::SyntaxTree`]) on which
//! all tagging and encoding logic is verified. Offsets, lengths and columns
//! are measured in bytes.
//!
//! The stream's guarantees are stated as contracts and proof functions:
//! [`tokenize`] pins its result to [`tokenize_spec`], a function of the text
//! alone ([`lemma_tokenize_idempotent`]); decoding the deltas reproduces the
//! sorted absolute token list exactly
//! ([`encoder::lemma_delta_round_trip`]), whose positions are non-decreasing
//! in (line, column) ([`encoder::lemma_reconstructed_sort_order`]) and lie
//! within the source ([`encoder::lemma_coverage_bound`]); every record
//! indexes the legend with its category and carries no modifiers
//! ([`encoder::lemma_stream_categories`]); and the stream is five fields
//! per token ([`encoder::lemma_stream_multiple_of_five`]).

pub mod bridge;
pub mod category;
pub mod encoder;
pub mod kind;
pub mod requests;
pub mod tagger;
pub mod tree;

pub use category::Tag;
pub use category::get_token_legend;
pub use encoder::EncodeToken;
pub use requests::ChangeCursorPositionRequest;
pub use requests::DocToSrcJumpResolveRequest;
pub use requests::MemoryFiles;
pub use requests::MemoryFilesShort;
pub use requests::SrcToDocJumpRequest;

use vstd::prelude::*;

use crate::bridge::parse_records;
use crate::bridge::parsed;
use crate::encoder::encode_token_stream;
use crate::encoder::token_stream;
use crate::tree::build_tree;
use crate::tree::lemma_records_decode;
use crate::tree::tree_of_records;

verus! {

/// The token stream of a source text: the encoded stream of the text's
/// parse tree over its bytes, or empty for a text whose byte length
/// exceeds the protocol's 32-bit fields.
pub open spec fn tokenize_spec(s: Seq<char>) -> Seq<int> {
    let bytes = vstd::utf8::encode_utf8(s);
    if bytes.len() > u32::MAX {
        Seq::empty()
    } else {
        token_stream(bytes, tree_of_records(parsed(s)))
    }
}

/// Tokenize a source text: parse it, tag every node of the tree, and
/// encode the tagged spans as the flat delta stream of five-field records.
/// The stream is a function of the text alone, so its length is a multiple
/// of five and repeated calls on identical input agree.
pub fn tokenize(line: &str) -> (r: Vec<u32>)
    ensures
        r@.map_values(|v: u32| v as int) == tokenize_spec(line@),
{
    let bytes: &[u8] = line.as_bytes();
    if bytes.len() > u32::MAX as usize {
        let empty: Vec<u32> = Vec::new();
        proof {
            assert(empty@.map_values(|v: u32| v as int) =~= tokenize_spec(line@));
        }
        return empty;
    }
    let records = parse_records(line);
    let tree = build_tree(&records);
    proof {
        lemma_records_decode(parsed(line@), bytes@.len() as int);
    }
    encode_token_stream(bytes, &tree)
}

/// Tokenizing is idempotent: the stream is a function of the source text
/// alone, so any two results that [`tokenize`]'s contract admits for the
/// same input are identical.
pub proof fn lemma_tokenize_idempotent(s: Seq<char>, r1: Seq<u32>, r2: Seq<u32>)
    requires
        r1.map_values(|v: u32| v as int) == tokenize_spec(s),
        r2.map_values(|v: u32| v as int) == tokenize_spec(s),
    ensures
        r1 == r2,
{
    assert(r1.map_values(|v: u32| v as int).len() == r1.len());
    assert(r2.map_values(|v: u32| v as int).len() == r2.len());
    assert forall|i: int| 0 <= i < r1.len() implies r1[i] == r2[i] by {
        assert(r1.map_values(|v: u32| v as int)[i] == r1[i] as int);
        assert(r2.map_values(|v: u32| v as int)[i] == r2[i] as int);
    }
    assert(r1 =~= r2);
}

} // verus!
