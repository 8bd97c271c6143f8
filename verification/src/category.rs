//! The closed set of semantic highlighting categories and their
//! presentation-scope names.
//!
//! The declared order of [`Tag`]'s variants is part of the contract: a tag's
//! position doubles as the numeric identifier transmitted in the encoded
//! token stream and as the index into the legend returned by
//! [`get_token_legend`].

use vstd::prelude::*;

verus! {

/// A syntax highlighting tag.
#[derive(Debug, Copy, Clone, Eq, PartialEq, Hash, Structural)]
pub enum Tag {
    /// A line or block comment.
    Comment,
    /// Punctuation in code.
    Punctuation,
    /// An escape sequence or shorthand.
    Escape,
    /// Strong markup.
    Strong,
    /// Emphasized markup.
    Emph,
    /// A hyperlink.
    Link,
    /// Raw text.
    Raw,
    /// A label.
    Label,
    /// A reference to a label.
    Ref,
    /// A section heading.
    Heading,
    /// A marker of a list, enumeration, or term list.
    ListMarker,
    /// A term in a term list.
    ListTerm,
    /// The delimiters of an equation.
    MathDelimiter,
    /// An operator with special meaning in an equation.
    MathOperator,
    /// A keyword.
    Keyword,
    /// An operator in code.
    Operator,
    /// A numeric literal.
    Number,
    /// A string literal.
    String,
    /// A function or method name.
    Function,
    /// An interpolated variable in markup or math.
    Interpolated,
    /// A syntax error.
    Error,
}

/// The number of highlighting tags.
pub const TAG_COUNT: usize = 21;

/// The stable numeric identifier of a tag: its position in the declared
/// order, and the index of its scope name in the legend.
pub open spec fn tag_index_spec(t: Tag) -> int {
    match t {
        Tag::Comment => 0,
        Tag::Punctuation => 1,
        Tag::Escape => 2,
        Tag::Strong => 3,
        Tag::Emph => 4,
        Tag::Link => 5,
        Tag::Raw => 6,
        Tag::Label => 7,
        Tag::Ref => 8,
        Tag::Heading => 9,
        Tag::ListMarker => 10,
        Tag::ListTerm => 11,
        Tag::MathDelimiter => 12,
        Tag::MathOperator => 13,
        Tag::Keyword => 14,
        Tag::Operator => 15,
        Tag::Number => 16,
        Tag::String => 17,
        Tag::Function => 18,
        Tag::Interpolated => 19,
        Tag::Error => 20,
    }
}

/// The tag standing at a given position of the declared order.
pub open spec fn tag_of_index(i: int) -> Tag {
    if i == 0 {
        Tag::Comment
    } else if i == 1 {
        Tag::Punctuation
    } else if i == 2 {
        Tag::Escape
    } else if i == 3 {
        Tag::Strong
    } else if i == 4 {
        Tag::Emph
    } else if i == 5 {
        Tag::Link
    } else if i == 6 {
        Tag::Raw
    } else if i == 7 {
        Tag::Label
    } else if i == 8 {
        Tag::Ref
    } else if i == 9 {
        Tag::Heading
    } else if i == 10 {
        Tag::ListMarker
    } else if i == 11 {
        Tag::ListTerm
    } else if i == 12 {
        Tag::MathDelimiter
    } else if i == 13 {
        Tag::MathOperator
    } else if i == 14 {
        Tag::Keyword
    } else if i == 15 {
        Tag::Operator
    } else if i == 16 {
        Tag::Number
    } else if i == 17 {
        Tag::String
    } else if i == 18 {
        Tag::Function
    } else if i == 19 {
        Tag::Interpolated
    } else {
        Tag::Error
    }
}

/// The recommended TextMate grammar scope for a highlighting tag.
pub open spec fn tm_scope_spec(t: Tag) -> Seq<char> {
    match t {
        Tag::Comment => "comment.typst"@,
        Tag::Punctuation => "punctuation.typst"@,
        Tag::Escape => "constant.character.escape.typst"@,
        Tag::Strong => "markup.bold.typst"@,
        Tag::Emph => "markup.italic.typst"@,
        Tag::Link => "markup.underline.link.typst"@,
        Tag::Raw => "markup.raw.typst"@,
        Tag::MathDelimiter => "punctuation.definition.math.typst"@,
        Tag::MathOperator => "keyword.operator.math.typst"@,
        Tag::Heading => "markup.heading.typst"@,
        Tag::ListMarker => "punctuation.definition.list.typst"@,
        Tag::ListTerm => "markup.list.term.typst"@,
        Tag::Label => "entity.name.label.typst"@,
        Tag::Ref => "markup.other.reference.typst"@,
        Tag::Keyword => "keyword.typst"@,
        Tag::Operator => "keyword.operator.typst"@,
        Tag::Number => "constant.numeric.typst"@,
        Tag::String => "string.quoted.double.typst"@,
        Tag::Function => "entity.name.function.typst"@,
        Tag::Interpolated => "meta.interpolation.typst"@,
        Tag::Error => "invalid.typst"@,
    }
}

impl Tag {
    /// Return the recommended TextMate grammar scope for the given
    /// highlighting tag.
    pub fn tm_scope(&self) -> (r: &'static str)
        ensures
            r@ == tm_scope_spec(*self),
    {
        match self {
            Tag::Comment => "comment.typst",
            Tag::Punctuation => "punctuation.typst",
            Tag::Escape => "constant.character.escape.typst",
            Tag::Strong => "markup.bold.typst",
            Tag::Emph => "markup.italic.typst",
            Tag::Link => "markup.underline.link.typst",
            Tag::Raw => "markup.raw.typst",
            Tag::MathDelimiter => "punctuation.definition.math.typst",
            Tag::MathOperator => "keyword.operator.math.typst",
            Tag::Heading => "markup.heading.typst",
            Tag::ListMarker => "punctuation.definition.list.typst",
            Tag::ListTerm => "markup.list.term.typst",
            Tag::Label => "entity.name.label.typst",
            Tag::Ref => "markup.other.reference.typst",
            Tag::Keyword => "keyword.typst",
            Tag::Operator => "keyword.operator.typst",
            Tag::Number => "constant.numeric.typst",
            Tag::String => "string.quoted.double.typst",
            Tag::Function => "entity.name.function.typst",
            Tag::Interpolated => "meta.interpolation.typst",
            Tag::Error => "invalid.typst",
        }
    }

    /// The stable numeric identifier transmitted for this tag in the encoded
    /// token stream.
    pub fn index(&self) -> (i: u32)
        ensures
            i == tag_index_spec(*self),
    {
        match self {
            Tag::Comment => 0,
            Tag::Punctuation => 1,
            Tag::Escape => 2,
            Tag::Strong => 3,
            Tag::Emph => 4,
            Tag::Link => 5,
            Tag::Raw => 6,
            Tag::Label => 7,
            Tag::Ref => 8,
            Tag::Heading => 9,
            Tag::ListMarker => 10,
            Tag::ListTerm => 11,
            Tag::MathDelimiter => 12,
            Tag::MathOperator => 13,
            Tag::Keyword => 14,
            Tag::Operator => 15,
            Tag::Number => 16,
            Tag::String => 17,
            Tag::Function => 18,
            Tag::Interpolated => 19,
            Tag::Error => 20,
        }
    }
}

/// Every tag's index stays below [`TAG_COUNT`], and indexing is inverse to
/// [`tag_of_index`].
pub proof fn lemma_tag_index_bounds(t: Tag)
    ensures
        0 <= tag_index_spec(t) < TAG_COUNT as int,
        tag_of_index(tag_index_spec(t)) == t,
{
}

/// The ordered list of presentation-scope names, one per tag in declared
/// order; consumers index into it with the category index of emitted tokens.
pub fn get_token_legend() -> (r: Vec<String>)
    ensures
        r@.len() == TAG_COUNT as int,
        forall|i: int|
            0 <= i < TAG_COUNT as int ==> r@[i]@ == tm_scope_spec(tag_of_index(i)),
{
    let mut r: Vec<String> = Vec::new();
    r.push(String::from_str(Tag::Comment.tm_scope()));
    r.push(String::from_str(Tag::Punctuation.tm_scope()));
    r.push(String::from_str(Tag::Escape.tm_scope()));
    r.push(String::from_str(Tag::Strong.tm_scope()));
    r.push(String::from_str(Tag::Emph.tm_scope()));
    r.push(String::from_str(Tag::Link.tm_scope()));
    r.push(String::from_str(Tag::Raw.tm_scope()));
    r.push(String::from_str(Tag::Label.tm_scope()));
    r.push(String::from_str(Tag::Ref.tm_scope()));
    r.push(String::from_str(Tag::Heading.tm_scope()));
    r.push(String::from_str(Tag::ListMarker.tm_scope()));
    r.push(String::from_str(Tag::ListTerm.tm_scope()));
    r.push(String::from_str(Tag::MathDelimiter.tm_scope()));
    r.push(String::from_str(Tag::MathOperator.tm_scope()));
    r.push(String::from_str(Tag::Keyword.tm_scope()));
    r.push(String::from_str(Tag::Operator.tm_scope()));
    r.push(String::from_str(Tag::Number.tm_scope()));
    r.push(String::from_str(Tag::String.tm_scope()));
    r.push(String::from_str(Tag::Function.tm_scope()));
    r.push(String::from_str(Tag::Interpolated.tm_scope()));
    r.push(String::from_str(Tag::Error.tm_scope()));
    r
}

} // verus!
