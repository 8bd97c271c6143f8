//! Exact token streams for small sources. Category indices: 0 comment,
//! 1 punctuation, 9 heading, 10 list marker, 11 list term, 12 math
//! delimiter, 14 keyword, 15 operator, 17 string, 18 function,
//! 19 interpolated, 20 error.

use typst_tokens::tokenize;

#[test]
fn empty_source_has_no_tokens() {
    assert_eq!(tokenize(""), Vec::<u32>::new());
}

#[test]
fn multi_line_comment_splits() {
    // A single block comment over two lines decodes to two tokens on
    // consecutive lines: "/* " on line 0 column 0, " comment */" on line 1
    // column 0.
    let tokens = tokenize("/* \n comment */");
    assert_eq!(tokens, vec![0, 0, 3, 0, 0, 1, 0, 11, 0, 0]);
}

#[test]
fn context_disambiguation() {
    // `f` is directly before a parameter list: function. `x` and `y` are
    // plain bindings: no token. `let` and the hash that escapes it are
    // keywords.
    let tokens = tokenize("#let f(x) = y");
    assert_eq!(
        tokens,
        vec![
            0, 0, 1, 14, 0, // `#`, keyword propagated from `let`
            0, 1, 3, 14, 0, // `let`
            0, 4, 1, 18, 0, // `f`, function
            0, 1, 1, 1, 0, // `(`
            0, 2, 1, 1, 0, // `)`
            0, 2, 1, 15, 0, // `=`
        ]
    );
}

#[test]
fn two_statement_delta() {
    let tokens = tokenize("#let f(x) = y\n#let g(x) = z");
    assert_eq!(
        tokens,
        vec![
            0, 0, 1, 14, 0, // `#`
            0, 1, 3, 14, 0, // `let`
            0, 4, 1, 18, 0, // `f`
            0, 1, 1, 1, 0, // `(`
            0, 2, 1, 1, 0, // `)`
            0, 2, 1, 15, 0, // `=`
            1, 0, 1, 14, 0, // `#`: first token of line 1, absolute column
            0, 1, 3, 14, 0, // the second `let`
            0, 4, 1, 18, 0, // `g`
            0, 1, 1, 1, 0, // `(`
            0, 2, 1, 1, 0, // `)`
            0, 2, 1, 15, 0, // `=`
        ]
    );
    // The token that starts the second line carries a delta line of one and
    // its absolute column.
    assert_eq!(tokens[30], 1);
    assert_eq!(tokens[31], 0);
}

#[test]
fn heading_is_one_token() {
    assert_eq!(tokenize("= Head"), vec![0, 0, 6, 9, 0]);
}

#[test]
fn math_identifier_is_interpolated() {
    let tokens = tokenize("$pi$");
    assert_eq!(
        tokens,
        vec![
            0, 0, 1, 12, 0, // `$`
            0, 1, 2, 19, 0, // `pi`
            0, 2, 1, 12, 0, // `$`
        ]
    );
}

#[test]
fn hash_propagates_keyword() {
    let tokens = tokenize("#none");
    assert_eq!(tokens, vec![0, 0, 1, 14, 0, 0, 1, 4, 14, 0]);
}

#[test]
fn hash_propagates_string() {
    let tokens = tokenize("#\"ab\"");
    assert_eq!(tokens, vec![0, 0, 1, 17, 0, 0, 1, 4, 17, 0]);
}

#[test]
fn field_access_chain() {
    // `a` follows the hash through its field-access chain: interpolated;
    // `b` heads a call: function; `x` is a plain argument: no token.
    let tokens = tokenize("#a.b(x)");
    assert_eq!(
        tokens,
        vec![
            0, 0, 1, 19, 0, // `#`
            0, 1, 1, 19, 0, // `a`
            0, 1, 1, 1, 0, // `.`
            0, 1, 1, 18, 0, // `b`
            0, 1, 1, 1, 0, // `(`
            0, 2, 1, 1, 0, // `)`
        ]
    );
}

#[test]
fn show_rule_idents_are_functions() {
    let tokens = tokenize("#show heading: strong");
    assert_eq!(
        tokens,
        vec![
            0, 0, 1, 14, 0, // `#`
            0, 1, 4, 14, 0, // `show`
            0, 5, 7, 18, 0, // `heading`
            0, 7, 1, 1, 0, // `:`
            0, 2, 6, 18, 0, // `strong`
        ]
    );
}

#[test]
fn term_list_term() {
    let tokens = tokenize("/ a: b");
    assert_eq!(
        tokens,
        vec![
            0, 0, 1, 10, 0, // `/`
            0, 2, 1, 11, 0, // the term markup `a`
            0, 1, 1, 1, 0, // `:`
        ]
    );
}

#[test]
fn unterminated_string_is_error() {
    let tokens = tokenize("#\"ab");
    assert_eq!(tokens, vec![0, 1, 3, 20, 0]);
}

#[test]
fn non_ascii_lengths_are_bytes() {
    // The accented character is two bytes long.
    assert_eq!(tokenize("/* é */"), vec![0, 0, 8, 0, 0]);
}

#[test]
fn term_with_strong_markup_keeps_traversal_order() {
    // The term markup and the strong content inside it start at the same
    // position; the stable sort keeps the outer span first, so the strong
    // token follows with both deltas zero.
    let tokens = tokenize("/ *a*: b");
    assert_eq!(
        tokens,
        vec![
            0, 0, 1, 10, 0, // `/`
            0, 2, 3, 11, 0, // the term markup `*a*`
            0, 0, 3, 3, 0, // the strong content at the same position
            0, 3, 1, 1, 0, // `:`
        ]
    );
}

#[test]
fn raw_text_is_one_token() {
    assert_eq!(tokenize("`x`"), vec![0, 0, 3, 6, 0]);
}

#[test]
fn escape_sequence() {
    assert_eq!(tokenize("\\#"), vec![0, 0, 2, 2, 0]);
}

#[test]
fn strong_content_splits_over_lines() {
    // The strong construct itself is tagged and spans the newline; its
    // two fragments land on consecutive lines at column zero.
    let tokens = tokenize("*a\nb*");
    assert_eq!(tokens, vec![0, 0, 2, 3, 0, 1, 0, 2, 3, 0]);
}
