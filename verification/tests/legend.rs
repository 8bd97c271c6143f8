use typst_tokens::Tag;
use typst_tokens::get_token_legend;

#[test]
fn legend_has_one_scope_per_category() {
    let legend = get_token_legend();
    assert_eq!(legend.len(), 21);
}

#[test]
fn legend_entries_follow_declaration_order() {
    let legend = get_token_legend();
    assert_eq!(legend[0], "comment.typst");
    assert_eq!(legend[1], "punctuation.typst");
    assert_eq!(legend[9], "markup.heading.typst");
    assert_eq!(legend[14], "keyword.typst");
    assert_eq!(legend[17], "string.quoted.double.typst");
    assert_eq!(legend[18], "entity.name.function.typst");
    assert_eq!(legend[19], "meta.interpolation.typst");
    assert_eq!(legend[20], "invalid.typst");
}

#[test]
fn tm_scope_names_the_presentation_scope() {
    assert_eq!(Tag::Comment.tm_scope(), "comment.typst");
    assert_eq!(Tag::Escape.tm_scope(), "constant.character.escape.typst");
    assert_eq!(Tag::MathDelimiter.tm_scope(), "punctuation.definition.math.typst");
    assert_eq!(Tag::ListTerm.tm_scope(), "markup.list.term.typst");
    assert_eq!(Tag::Function.tm_scope(), "entity.name.function.typst");
    assert_eq!(Tag::Error.tm_scope(), "invalid.typst");
}

#[test]
fn legend_matches_tm_scope_of_each_tag() {
    let legend = get_token_legend();
    let tags = [
        Tag::Comment,
        Tag::Punctuation,
        Tag::Escape,
        Tag::Strong,
        Tag::Emph,
        Tag::Link,
        Tag::Raw,
        Tag::Label,
        Tag::Ref,
        Tag::Heading,
        Tag::ListMarker,
        Tag::ListTerm,
        Tag::MathDelimiter,
        Tag::MathOperator,
        Tag::Keyword,
        Tag::Operator,
        Tag::Number,
        Tag::String,
        Tag::Function,
        Tag::Interpolated,
        Tag::Error,
    ];
    for (i, tag) in tags.iter().enumerate() {
        assert_eq!(legend[i], tag.tm_scope());
        assert_eq!(tag.index() as usize, i);
    }
}
