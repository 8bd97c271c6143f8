//! The closed enumeration of syntax-node kinds.
//!
//! [`NodeKind`] mirrors the node kinds of the Typst grammar, one variant per
//! kind, in the order the parser declares them; [`kind_of_code`] decodes the
//! `repr(u8)` discriminant under which the parser reports a kind. Variants
//! whose grammar name would collide with a word of the verifier carry a
//! suffix (`NoneKw`, `SetKw`, `EqSign`, ...), covering every keyword and the
//! equals sign.

use vstd::prelude::*;

verus! {

/// A syntactical building block of a Typst file.
#[derive(Debug, Copy, Clone, Eq, PartialEq, Hash, Structural)]
pub enum NodeKind {
    /// The contents of a file or content block.
    Markup,
    /// Plain text without markup.
    Text,
    /// Whitespace with at most one newline in markup.
    Space,
    /// A forced line break: `\`.
    Linebreak,
    /// A paragraph break: one or multiple blank lines.
    Parbreak,
    /// An escape sequence: `\#`, `\u{1F5FA}`.
    Escape,
    /// A shorthand for a unicode codepoint: `~`, `-?`.
    Shorthand,
    /// A smart quote: `'` or `"`.
    SmartQuote,
    /// Strong content: `*Strong*`.
    Strong,
    /// Emphasized content: `_Emphasized_`.
    Emph,
    /// Raw text with optional syntax highlighting: `` `...` ``.
    Raw,
    /// A language tag at the start of raw text.
    RawLang,
    /// A raw delimiter of backticks.
    RawDelim,
    /// A sequence of whitespace to ignore in raw text.
    RawTrimmed,
    /// A hyperlink.
    Link,
    /// A label: `<intro>`.
    Label,
    /// A reference: `@target`.
    Ref,
    /// Introduces a reference: `@`.
    RefMarker,
    /// A section heading: `= Introduction`.
    Heading,
    /// Introduces a section heading: `=`.
    HeadingMarker,
    /// An item in a bullet list: `- ...`.
    ListItem,
    /// Introduces a list item: `-`.
    ListMarker,
    /// An item in an enumeration: `+ ...` or `1. ...`.
    EnumItem,
    /// Introduces an enumeration item: `+`, `1.`.
    EnumMarker,
    /// An item in a term list: `/ Term: Details`.
    TermItem,
    /// Introduces a term item: `/`.
    TermMarker,
    /// A mathematical equation: `$x$`.
    Equation,
    /// The contents of a mathematical equation.
    Math,
    /// An identifier in math: `pi`.
    MathIdent,
    /// An alignment point in math: `&`.
    MathAlignPoint,
    /// Matched delimiters in math: `[x + y]`.
    MathDelimited,
    /// A base with optional attachments in math: `a_1^2`.
    MathAttach,
    /// Grouped primes in math: `a'''`.
    MathPrimes,
    /// A fraction in math: `x/2`.
    MathFrac,
    /// A root in math: `√x`.
    MathRoot,
    /// A hash that switches into code mode: `#`.
    Hash,
    /// A left curly brace: `{`.
    LeftBrace,
    /// A right curly brace: `}`.
    RightBrace,
    /// A left square bracket: `[`.
    LeftBracket,
    /// A right square bracket: `]`.
    RightBracket,
    /// A left round parenthesis: `(`.
    LeftParen,
    /// A right round parenthesis: `)`.
    RightParen,
    /// A comma separator: `,`.
    Comma,
    /// A semicolon: `;`.
    Semicolon,
    /// A colon: `:`.
    Colon,
    /// The strong text toggle and multiplication operator: `*`.
    Star,
    /// The emphasis toggle and math subscript operator: `_`.
    Underscore,
    /// Starts and ends an equation: `$`.
    Dollar,
    /// The plus operator: `+`.
    Plus,
    /// The minus operator: `-`.
    Minus,
    /// The division and fraction operator: `/`.
    Slash,
    /// The math superscript operator: `^`.
    Hat,
    /// The prime in math: `'`.
    Prime,
    /// The field access and method call operator: `.`.
    Dot,
    /// The assignment operator: `=`.
    EqSign,
    /// The equality operator: `==`.
    EqEq,
    /// The inequality operator: `!=`.
    ExclEq,
    /// The less-than operator: `<`.
    Lt,
    /// The less-than or equal operator: `<=`.
    LtEq,
    /// The greater-than operator: `>`.
    Gt,
    /// The greater-than or equal operator: `>=`.
    GtEq,
    /// The add-assign operator: `+=`.
    PlusEq,
    /// The subtract-assign operator: `-=`.
    HyphEq,
    /// The multiply-assign operator: `*=`.
    StarEq,
    /// The divide-assign operator: `/=`.
    SlashEq,
    /// A spread or sink: `..`.
    Dots,
    /// An arrow between a closure's parameters and body: `=>`.
    Arrow,
    /// A root symbol: `√`.
    Root,
    /// The `not` operator keyword.
    NotKw,
    /// The `and` operator keyword.
    AndKw,
    /// The `or` operator keyword.
    OrKw,
    /// The `none` literal keyword.
    NoneKw,
    /// The `auto` literal keyword.
    AutoKw,
    /// The `let` keyword.
    LetKw,
    /// The `set` keyword.
    SetKw,
    /// The `show` keyword.
    ShowKw,
    /// The `context` keyword.
    ContextKw,
    /// The `if` keyword.
    IfKw,
    /// The `else` keyword.
    ElseKw,
    /// The `for` keyword.
    ForKw,
    /// The `in` keyword.
    InKw,
    /// The `while` keyword.
    WhileKw,
    /// The `break` keyword.
    BreakKw,
    /// The `continue` keyword.
    ContinueKw,
    /// The `return` keyword.
    ReturnKw,
    /// The `import` keyword.
    ImportKw,
    /// The `include` keyword.
    IncludeKw,
    /// The `as` keyword.
    AsKw,
    /// The contents of a code block.
    Code,
    /// An identifier: `it`.
    Ident,
    /// A boolean: `true`, `false`.
    Bool,
    /// An integer: `120`.
    Int,
    /// A floating-point number: `1.2`.
    Float,
    /// A numeric value with a unit: `12pt`.
    Numeric,
    /// A quoted string: `"..."`.
    Str,
    /// A code block: `{ ... }`.
    CodeBlock,
    /// A content block: `[ ... ]`.
    ContentBlock,
    /// A grouped expression: `(1 + 2)`.
    Parenthesized,
    /// An array: `(1, "hi")`.
    Array,
    /// A dictionary: `(a: 1)`.
    Dict,
    /// A named pair: `a: 1`.
    Named,
    /// A keyed pair: `"k": v`.
    Keyed,
    /// A unary operation: `-x`.
    Unary,
    /// A binary operation: `a + b`.
    Binary,
    /// A field access: `a.b`.
    FieldAccess,
    /// An invocation of a function or method: `f(x)`.
    FuncCall,
    /// A function call's argument list.
    Args,
    /// Spread arguments or an argument sink: `..x`.
    Spread,
    /// A closure: `(x) => y`.
    Closure,
    /// A closure's parameters.
    Params,
    /// A let binding: `let x = 1`.
    LetBinding,
    /// A set rule: `set text(...)`.
    SetRule,
    /// A show rule: `show heading: it => it`.
    ShowRule,
    /// A contextual expression: `context x`.
    Contextual,
    /// An if-else conditional.
    Conditional,
    /// A while loop.
    WhileLoop,
    /// A for loop.
    ForLoop,
    /// A module import.
    ModuleImport,
    /// Items to import from a module.
    ImportItems,
    /// A renamed import item: `a as b`.
    RenamedImportItem,
    /// A module include.
    ModuleInclude,
    /// A break from a loop.
    LoopBreak,
    /// A continue in a loop.
    LoopContinue,
    /// A return from a function.
    FuncReturn,
    /// A destructuring pattern: `(x, ..y)`.
    Destructuring,
    /// A destructuring assignment: `(x, y) = p`.
    DestructAssignment,
    /// A line comment: `// ...`.
    LineComment,
    /// A block comment: `/* ... */`.
    BlockComment,
    /// An invalid sequence of characters.
    Error,
    /// The end of the file.
    Eof,
}

/// The kind behind a `repr(u8)` discriminant of the parser's kind
/// enumeration; codes outside the declared range decode to [`NodeKind::Eof`],
/// which no rule tags.
pub open spec fn kind_of_code_spec(c: u8) -> NodeKind {
    if c == 0 { NodeKind::Markup }
    else if c == 1 { NodeKind::Text }
    else if c == 2 { NodeKind::Space }
    else if c == 3 { NodeKind::Linebreak }
    else if c == 4 { NodeKind::Parbreak }
    else if c == 5 { NodeKind::Escape }
    else if c == 6 { NodeKind::Shorthand }
    else if c == 7 { NodeKind::SmartQuote }
    else if c == 8 { NodeKind::Strong }
    else if c == 9 { NodeKind::Emph }
    else if c == 10 { NodeKind::Raw }
    else if c == 11 { NodeKind::RawLang }
    else if c == 12 { NodeKind::RawDelim }
    else if c == 13 { NodeKind::RawTrimmed }
    else if c == 14 { NodeKind::Link }
    else if c == 15 { NodeKind::Label }
    else if c == 16 { NodeKind::Ref }
    else if c == 17 { NodeKind::RefMarker }
    else if c == 18 { NodeKind::Heading }
    else if c == 19 { NodeKind::HeadingMarker }
    else if c == 20 { NodeKind::ListItem }
    else if c == 21 { NodeKind::ListMarker }
    else if c == 22 { NodeKind::EnumItem }
    else if c == 23 { NodeKind::EnumMarker }
    else if c == 24 { NodeKind::TermItem }
    else if c == 25 { NodeKind::TermMarker }
    else if c == 26 { NodeKind::Equation }
    else if c == 27 { NodeKind::Math }
    else if c == 28 { NodeKind::MathIdent }
    else if c == 29 { NodeKind::MathAlignPoint }
    else if c == 30 { NodeKind::MathDelimited }
    else if c == 31 { NodeKind::MathAttach }
    else if c == 32 { NodeKind::MathPrimes }
    else if c == 33 { NodeKind::MathFrac }
    else if c == 34 { NodeKind::MathRoot }
    else if c == 35 { NodeKind::Hash }
    else if c == 36 { NodeKind::LeftBrace }
    else if c == 37 { NodeKind::RightBrace }
    else if c == 38 { NodeKind::LeftBracket }
    else if c == 39 { NodeKind::RightBracket }
    else if c == 40 { NodeKind::LeftParen }
    else if c == 41 { NodeKind::RightParen }
    else if c == 42 { NodeKind::Comma }
    else if c == 43 { NodeKind::Semicolon }
    else if c == 44 { NodeKind::Colon }
    else if c == 45 { NodeKind::Star }
    else if c == 46 { NodeKind::Underscore }
    else if c == 47 { NodeKind::Dollar }
    else if c == 48 { NodeKind::Plus }
    else if c == 49 { NodeKind::Minus }
    else if c == 50 { NodeKind::Slash }
    else if c == 51 { NodeKind::Hat }
    else if c == 52 { NodeKind::Prime }
    else if c == 53 { NodeKind::Dot }
    else if c == 54 { NodeKind::EqSign }
    else if c == 55 { NodeKind::EqEq }
    else if c == 56 { NodeKind::ExclEq }
    else if c == 57 { NodeKind::Lt }
    else if c == 58 { NodeKind::LtEq }
    else if c == 59 { NodeKind::Gt }
    else if c == 60 { NodeKind::GtEq }
    else if c == 61 { NodeKind::PlusEq }
    else if c == 62 { NodeKind::HyphEq }
    else if c == 63 { NodeKind::StarEq }
    else if c == 64 { NodeKind::SlashEq }
    else if c == 65 { NodeKind::Dots }
    else if c == 66 { NodeKind::Arrow }
    else if c == 67 { NodeKind::Root }
    else if c == 68 { NodeKind::NotKw }
    else if c == 69 { NodeKind::AndKw }
    else if c == 70 { NodeKind::OrKw }
    else if c == 71 { NodeKind::NoneKw }
    else if c == 72 { NodeKind::AutoKw }
    else if c == 73 { NodeKind::LetKw }
    else if c == 74 { NodeKind::SetKw }
    else if c == 75 { NodeKind::ShowKw }
    else if c == 76 { NodeKind::ContextKw }
    else if c == 77 { NodeKind::IfKw }
    else if c == 78 { NodeKind::ElseKw }
    else if c == 79 { NodeKind::ForKw }
    else if c == 80 { NodeKind::InKw }
    else if c == 81 { NodeKind::WhileKw }
    else if c == 82 { NodeKind::BreakKw }
    else if c == 83 { NodeKind::ContinueKw }
    else if c == 84 { NodeKind::ReturnKw }
    else if c == 85 { NodeKind::ImportKw }
    else if c == 86 { NodeKind::IncludeKw }
    else if c == 87 { NodeKind::AsKw }
    else if c == 88 { NodeKind::Code }
    else if c == 89 { NodeKind::Ident }
    else if c == 90 { NodeKind::Bool }
    else if c == 91 { NodeKind::Int }
    else if c == 92 { NodeKind::Float }
    else if c == 93 { NodeKind::Numeric }
    else if c == 94 { NodeKind::Str }
    else if c == 95 { NodeKind::CodeBlock }
    else if c == 96 { NodeKind::ContentBlock }
    else if c == 97 { NodeKind::Parenthesized }
    else if c == 98 { NodeKind::Array }
    else if c == 99 { NodeKind::Dict }
    else if c == 100 { NodeKind::Named }
    else if c == 101 { NodeKind::Keyed }
    else if c == 102 { NodeKind::Unary }
    else if c == 103 { NodeKind::Binary }
    else if c == 104 { NodeKind::FieldAccess }
    else if c == 105 { NodeKind::FuncCall }
    else if c == 106 { NodeKind::Args }
    else if c == 107 { NodeKind::Spread }
    else if c == 108 { NodeKind::Closure }
    else if c == 109 { NodeKind::Params }
    else if c == 110 { NodeKind::LetBinding }
    else if c == 111 { NodeKind::SetRule }
    else if c == 112 { NodeKind::ShowRule }
    else if c == 113 { NodeKind::Contextual }
    else if c == 114 { NodeKind::Conditional }
    else if c == 115 { NodeKind::WhileLoop }
    else if c == 116 { NodeKind::ForLoop }
    else if c == 117 { NodeKind::ModuleImport }
    else if c == 118 { NodeKind::ImportItems }
    else if c == 119 { NodeKind::RenamedImportItem }
    else if c == 120 { NodeKind::ModuleInclude }
    else if c == 121 { NodeKind::LoopBreak }
    else if c == 122 { NodeKind::LoopContinue }
    else if c == 123 { NodeKind::FuncReturn }
    else if c == 124 { NodeKind::Destructuring }
    else if c == 125 { NodeKind::DestructAssignment }
    else if c == 126 { NodeKind::LineComment }
    else if c == 127 { NodeKind::BlockComment }
    else if c == 128 { NodeKind::Error }
    else { NodeKind::Eof }
}

/// Decode a `repr(u8)` kind discriminant.
pub fn kind_of_code(c: u8) -> (k: NodeKind)
    ensures
        k == kind_of_code_spec(c),
{
    match c {
        0 => NodeKind::Markup,
        1 => NodeKind::Text,
        2 => NodeKind::Space,
        3 => NodeKind::Linebreak,
        4 => NodeKind::Parbreak,
        5 => NodeKind::Escape,
        6 => NodeKind::Shorthand,
        7 => NodeKind::SmartQuote,
        8 => NodeKind::Strong,
        9 => NodeKind::Emph,
        10 => NodeKind::Raw,
        11 => NodeKind::RawLang,
        12 => NodeKind::RawDelim,
        13 => NodeKind::RawTrimmed,
        14 => NodeKind::Link,
        15 => NodeKind::Label,
        16 => NodeKind::Ref,
        17 => NodeKind::RefMarker,
        18 => NodeKind::Heading,
        19 => NodeKind::HeadingMarker,
        20 => NodeKind::ListItem,
        21 => NodeKind::ListMarker,
        22 => NodeKind::EnumItem,
        23 => NodeKind::EnumMarker,
        24 => NodeKind::TermItem,
        25 => NodeKind::TermMarker,
        26 => NodeKind::Equation,
        27 => NodeKind::Math,
        28 => NodeKind::MathIdent,
        29 => NodeKind::MathAlignPoint,
        30 => NodeKind::MathDelimited,
        31 => NodeKind::MathAttach,
        32 => NodeKind::MathPrimes,
        33 => NodeKind::MathFrac,
        34 => NodeKind::MathRoot,
        35 => NodeKind::Hash,
        36 => NodeKind::LeftBrace,
        37 => NodeKind::RightBrace,
        38 => NodeKind::LeftBracket,
        39 => NodeKind::RightBracket,
        40 => NodeKind::LeftParen,
        41 => NodeKind::RightParen,
        42 => NodeKind::Comma,
        43 => NodeKind::Semicolon,
        44 => NodeKind::Colon,
        45 => NodeKind::Star,
        46 => NodeKind::Underscore,
        47 => NodeKind::Dollar,
        48 => NodeKind::Plus,
        49 => NodeKind::Minus,
        50 => NodeKind::Slash,
        51 => NodeKind::Hat,
        52 => NodeKind::Prime,
        53 => NodeKind::Dot,
        54 => NodeKind::EqSign,
        55 => NodeKind::EqEq,
        56 => NodeKind::ExclEq,
        57 => NodeKind::Lt,
        58 => NodeKind::LtEq,
        59 => NodeKind::Gt,
        60 => NodeKind::GtEq,
        61 => NodeKind::PlusEq,
        62 => NodeKind::HyphEq,
        63 => NodeKind::StarEq,
        64 => NodeKind::SlashEq,
        65 => NodeKind::Dots,
        66 => NodeKind::Arrow,
        67 => NodeKind::Root,
        68 => NodeKind::NotKw,
        69 => NodeKind::AndKw,
        70 => NodeKind::OrKw,
        71 => NodeKind::NoneKw,
        72 => NodeKind::AutoKw,
        73 => NodeKind::LetKw,
        74 => NodeKind::SetKw,
        75 => NodeKind::ShowKw,
        76 => NodeKind::ContextKw,
        77 => NodeKind::IfKw,
        78 => NodeKind::ElseKw,
        79 => NodeKind::ForKw,
        80 => NodeKind::InKw,
        81 => NodeKind::WhileKw,
        82 => NodeKind::BreakKw,
        83 => NodeKind::ContinueKw,
        84 => NodeKind::ReturnKw,
        85 => NodeKind::ImportKw,
        86 => NodeKind::IncludeKw,
        87 => NodeKind::AsKw,
        88 => NodeKind::Code,
        89 => NodeKind::Ident,
        90 => NodeKind::Bool,
        91 => NodeKind::Int,
        92 => NodeKind::Float,
        93 => NodeKind::Numeric,
        94 => NodeKind::Str,
        95 => NodeKind::CodeBlock,
        96 => NodeKind::ContentBlock,
        97 => NodeKind::Parenthesized,
        98 => NodeKind::Array,
        99 => NodeKind::Dict,
        100 => NodeKind::Named,
        101 => NodeKind::Keyed,
        102 => NodeKind::Unary,
        103 => NodeKind::Binary,
        104 => NodeKind::FieldAccess,
        105 => NodeKind::FuncCall,
        106 => NodeKind::Args,
        107 => NodeKind::Spread,
        108 => NodeKind::Closure,
        109 => NodeKind::Params,
        110 => NodeKind::LetBinding,
        111 => NodeKind::SetRule,
        112 => NodeKind::ShowRule,
        113 => NodeKind::Contextual,
        114 => NodeKind::Conditional,
        115 => NodeKind::WhileLoop,
        116 => NodeKind::ForLoop,
        117 => NodeKind::ModuleImport,
        118 => NodeKind::ImportItems,
        119 => NodeKind::RenamedImportItem,
        120 => NodeKind::ModuleInclude,
        121 => NodeKind::LoopBreak,
        122 => NodeKind::LoopContinue,
        123 => NodeKind::FuncReturn,
        124 => NodeKind::Destructuring,
        125 => NodeKind::DestructAssignment,
        126 => NodeKind::LineComment,
        127 => NodeKind::BlockComment,
        128 => NodeKind::Error,
        _ => NodeKind::Eof,
    }
}

/// Whether the parser skips this kind of node in code and math mode:
/// whitespace and comments.
pub open spec fn is_trivia_spec(k: NodeKind) -> bool {
    k == NodeKind::Space || k == NodeKind::Parbreak || k == NodeKind::LineComment
        || k == NodeKind::BlockComment
}

/// Whether this kind of node is skipped between siblings and in leaf
/// navigation: whitespace and comments.
pub fn is_trivia(k: NodeKind) -> (r: bool)
    ensures
        r == is_trivia_spec(k),
{
    matches!(k, NodeKind::Space | NodeKind::Parbreak | NodeKind::LineComment | NodeKind::BlockComment)
}

/// Whether a node of this kind stands for an expression that is explicitly
/// escaped into code context, so that a preceding hash marker belongs to it.
/// This combines two checks of the grammar: the kind must be an expression
/// kind at all, and the expression must be of the hashed family (identifiers,
/// literals, blocks, calls, field accesses, statements); markup-only
/// expressions such as strong content or equations are not hashed.
pub open spec fn is_hashed_expr_spec(k: NodeKind) -> bool {
    k == NodeKind::Ident || k == NodeKind::NoneKw || k == NodeKind::AutoKw
        || k == NodeKind::Bool || k == NodeKind::Int || k == NodeKind::Float
        || k == NodeKind::Numeric || k == NodeKind::Str || k == NodeKind::CodeBlock
        || k == NodeKind::ContentBlock || k == NodeKind::Array || k == NodeKind::Dict
        || k == NodeKind::Parenthesized || k == NodeKind::FieldAccess
        || k == NodeKind::FuncCall || k == NodeKind::LetBinding || k == NodeKind::SetRule
        || k == NodeKind::ShowRule || k == NodeKind::Contextual
        || k == NodeKind::Conditional || k == NodeKind::WhileLoop
        || k == NodeKind::ForLoop || k == NodeKind::ModuleImport
        || k == NodeKind::ModuleInclude || k == NodeKind::LoopBreak
        || k == NodeKind::LoopContinue || k == NodeKind::FuncReturn
}

/// Whether a node of this kind is an expression escaped into code context.
pub fn is_hashed_expr(k: NodeKind) -> (r: bool)
    ensures
        r == is_hashed_expr_spec(k),
{
    matches!(
        k,
        NodeKind::Ident | NodeKind::NoneKw | NodeKind::AutoKw | NodeKind::Bool
            | NodeKind::Int | NodeKind::Float | NodeKind::Numeric | NodeKind::Str
            | NodeKind::CodeBlock | NodeKind::ContentBlock | NodeKind::Array
            | NodeKind::Dict | NodeKind::Parenthesized | NodeKind::FieldAccess
            | NodeKind::FuncCall | NodeKind::LetBinding | NodeKind::SetRule
            | NodeKind::ShowRule | NodeKind::Contextual | NodeKind::Conditional
            | NodeKind::WhileLoop | NodeKind::ForLoop | NodeKind::ModuleImport
            | NodeKind::ModuleInclude | NodeKind::LoopBreak | NodeKind::LoopContinue
            | NodeKind::FuncReturn
    )
}

/// Whether this kind is one of the two identifier kinds that need contextual
/// disambiguation.
pub open spec fn is_ident_kind_spec(k: NodeKind) -> bool {
    k == NodeKind::Ident || k == NodeKind::MathIdent
}

/// Whether the node is one of the two identifier kinds.
pub fn is_ident_kind(k: NodeKind) -> (r: bool)
    ensures
        r == is_ident_kind_spec(k),
{
    matches!(k, NodeKind::Ident | NodeKind::MathIdent)
}

} // verus!
