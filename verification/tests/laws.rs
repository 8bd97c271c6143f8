//! Concrete checks of the stream's general properties: determinism of
//! repeated calls, the shape of the records, and bounds and ordering of
//! the positions reconstructed from the deltas.

use typst_tokens::EncodeToken;
use typst_tokens::Tag;
use typst_tokens::tokenize;
use typst_tokens::tree::Node;
use typst_tokens::kind::NodeKind;

const SAMPLE: &str = "= Title\n#let f(x) = y\n/* a \n comment */ $pi$\n- item";

/// Reverse the delta transform: the absolute (line, column, length,
/// category) records of a stream.
fn decode(stream: &[u32]) -> Vec<(u32, u32, u32, u32)> {
    assert_eq!(stream.len() % 5, 0);
    let mut out = Vec::new();
    let mut line = 0u32;
    let mut col = 0u32;
    for chunk in stream.chunks(5) {
        if out.is_empty() {
            line = chunk[0];
            col = chunk[1];
        } else {
            line += chunk[0];
            col = if chunk[0] == 0 { col + chunk[1] } else { chunk[1] };
        }
        out.push((line, col, chunk[2], chunk[3]));
    }
    out
}

#[test]
fn tokenize_is_idempotent() {
    for text in ["", "#let f(x) = y", SAMPLE, "/* \n comment */"] {
        assert_eq!(tokenize(text), tokenize(text));
    }
}

#[test]
fn stream_is_a_multiple_of_five() {
    for text in ["", "= Head", SAMPLE] {
        assert_eq!(tokenize(text).len() % 5, 0);
    }
}

#[test]
fn reconstructed_positions_are_sorted() {
    let decoded = decode(&tokenize(SAMPLE));
    for pair in decoded.windows(2) {
        let (a, b) = (pair[0], pair[1]);
        assert!(a.0 < b.0 || (a.0 == b.0 && a.1 <= b.1));
    }
}

#[test]
fn reconstructed_tokens_lie_within_the_source() {
    let lines: Vec<&str> = SAMPLE.split('\n').collect();
    for (line, col, len, _) in decode(&tokenize(SAMPLE)) {
        assert!((line as usize) < lines.len());
        let start: usize = lines[..line as usize].iter().map(|l| l.len() + 1).sum();
        let offset = start + col as usize;
        assert!(offset + len as usize <= SAMPLE.len());
    }
}

#[test]
fn categories_index_the_legend() {
    let legend = typst_tokens::get_token_legend();
    for (_, _, _, cat) in decode(&tokenize(SAMPLE)) {
        assert!((cat as usize) < legend.len());
    }
}

#[test]
fn encode_lists_the_five_fields() {
    let t = EncodeToken { line: 3, start_char: 7, length: 2, token_type: 14, token_modifiers: 0 };
    assert_eq!(t.encode(), vec![3, 7, 2, 14, 0]);
}

#[test]
fn new_token_carries_span_and_category() {
    let node = Node { kind: NodeKind::LetKw, offset: 7, length: 3, depth: 2 };
    let t = EncodeToken::new(&node, Tag::Keyword);
    assert_eq!(t.line, u32::MAX);
    assert_eq!(t.start_char, 7);
    assert_eq!(t.length, 3);
    assert_eq!(t.token_type, 14);
    assert_eq!(t.token_modifiers, 0);
    assert_eq!(t.encode(), vec![u32::MAX, 7, 3, 14, 0]);
}
