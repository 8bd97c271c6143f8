//! Classification of syntax nodes into highlighting categories.
//!
//! Most kinds map to a fixed category or to none; a minority consult the
//! node's neighborhood: hash markers propagate the category of the escaped
//! expression behind them, and identifiers are disambiguated by what
//! directly follows or precedes them. The rules are first-match-wins, in the
//! stated order.

use vstd::prelude::*;

use crate::category::Tag;
use crate::kind::NodeKind;
use crate::kind::is_hashed_expr;
use crate::kind::is_hashed_expr_spec;
use crate::kind::is_ident_kind;
use crate::kind::is_ident_kind_spec;
use crate::tree::Node;
use crate::tree::SyntaxTree;
use crate::tree::leftmost_leaf;
use crate::tree::lemma_leftmost_leaf_bounds;
use crate::tree::lemma_next_leaf_bounds;
use crate::tree::lemma_next_sibling_bounds;
use crate::tree::lemma_prev_leaf_bounds;
use crate::tree::lemma_prev_shallower_bounds;
use crate::tree::next_leaf;
use crate::tree::next_sibling;
use crate::tree::next_sibling_kind;
use crate::tree::parent_kind;
use crate::tree::parent_of;
use crate::tree::prev_leaf;

verus! {

/// The kind of the qualifying leaf nearest before node `i`, if any.
pub open spec fn prev_leaf_kind(t: Seq<Node>, i: int) -> Option<NodeKind> {
    match prev_leaf(t, i) {
        Option::Some(k) => Option::Some(t[k].kind),
        Option::None => Option::None,
    }
}

/// The kind of the qualifying leaf nearest after node `i`, if any.
pub open spec fn next_leaf_kind(t: Seq<Node>, i: int) -> Option<NodeKind> {
    match next_leaf(t, i) {
        Option::Some(k) => Option::Some(t[k].kind),
        Option::None => Option::None,
    }
}

/// Whether identifier node `i` stands directly (no gap) before an opening
/// parenthesis of an argument or parameter list, or an opening bracket of a
/// content block: the shape of a function or method head.
pub open spec fn ident_starts_call(t: Seq<Node>, i: int) -> bool {
    match next_leaf(t, i) {
        Option::Some(nx) => t[i].offset + t[i].length == t[nx].offset
            && ((t[nx].kind == NodeKind::LeftParen
                && (parent_kind(t, nx) == Option::Some(NodeKind::Args)
                    || parent_kind(t, nx) == Option::Some(NodeKind::Params)))
                || (t[nx].kind == NodeKind::LeftBracket
                    && parent_kind(t, nx) == Option::Some(NodeKind::ContentBlock))),
        Option::None => false,
    }
}

/// The outermost node of a chain of field accesses around node `i`: climbs
/// to the parent as long as the parent is a field access.
pub open spec fn outer_field_access(t: Seq<Node>, i: int) -> int
    decreases i,
        via outer_field_access_decreases
{
    if !(0 <= i < t.len()) {
        i
    } else {
        match parent_of(t, i) {
            Option::Some(p) => if t[p].kind == NodeKind::FieldAccess {
                outer_field_access(t, p)
            } else {
                i
            },
            Option::None => i,
        }
    }
}

#[via_fn]
proof fn outer_field_access_decreases(t: Seq<Node>, i: int) {
    if 0 <= i < t.len() {
        lemma_prev_shallower_bounds(t, t[i].depth as int, i - 1);
    }
}

/// The outermost field access around a node lies at or before it.
pub proof fn lemma_outer_field_access_bounds(t: Seq<Node>, i: int)
    requires
        0 <= i < t.len(),
    ensures
        0 <= outer_field_access(t, i) <= i,
        outer_field_access(t, i) < t.len(),
    decreases i,
{
    lemma_prev_shallower_bounds(t, t[i].depth as int, i - 1);
    match parent_of(t, i) {
        Option::Some(p) => {
            if t[p].kind == NodeKind::FieldAccess {
                lemma_outer_field_access_bounds(t, p);
            }
        },
        Option::None => {},
    }
}

/// The category of an identifier leaf, resolved from its neighborhood. The
/// rules apply first-match-wins:
/// a head directly before an argument or parameter list or a content block
/// is a function; a math identifier is interpolated; an identifier beside
/// the colon of a show rule (climbing out of field-access chains first) is
/// a function; one whose field-access chain directly follows a hash marker
/// is interpolated; one behind a dot behind another identifier inherits
/// that identifier's category; anything else has none.
pub open spec fn highlight_ident_spec(t: Seq<Node>, i: int) -> Option<Tag>
    decreases i,
        via highlight_ident_decreases
{
    if !(0 <= i < t.len()) {
        Option::None
    } else if ident_starts_call(t, i) {
        Option::Some(Tag::Function)
    } else if t[i].kind == NodeKind::MathIdent {
        Option::Some(Tag::Interpolated)
    } else {
        let a = outer_field_access(t, i);
        if parent_kind(t, a) == Option::Some(NodeKind::ShowRule)
            && (next_leaf_kind(t, i) == Option::Some(NodeKind::Colon)
                || prev_leaf_kind(t, i) == Option::Some(NodeKind::Colon)) {
            Option::Some(Tag::Function)
        } else if prev_leaf_kind(t, a) == Option::Some(NodeKind::Hash) {
            Option::Some(Tag::Interpolated)
        } else {
            match prev_leaf(t, i) {
                Option::None => Option::None,
                Option::Some(pv) => if t[pv].kind == NodeKind::Dot {
                    match prev_leaf(t, pv) {
                        Option::None => Option::None,
                        Option::Some(pp) => if is_ident_kind_spec(t[pp].kind) {
                            highlight_ident_spec(t, pp)
                        } else {
                            Option::None
                        },
                    }
                } else {
                    Option::None
                },
            }
        }
    }
}

#[via_fn]
proof fn highlight_ident_decreases(t: Seq<Node>, i: int) {
    if 0 <= i < t.len() {
        lemma_prev_leaf_bounds(t, i);
        match prev_leaf(t, i) {
            Option::Some(pv) => {
                lemma_prev_leaf_bounds(t, pv);
            },
            Option::None => {},
        }
    }
}

/// The category of a hash marker: if its next sibling is an expression
/// escaped into code context, the category of that expression's leftmost
/// leaf; otherwise none.
pub open spec fn highlight_hash_spec(t: Seq<Node>, i: int) -> Option<Tag>
    decreases t.len() - i, 0int,
        via highlight_hash_decreases
{
    if !(0 <= i < t.len()) {
        Option::None
    } else {
        match next_sibling(t, i) {
            Option::None => Option::None,
            Option::Some(s) => if !is_hashed_expr_spec(t[s].kind) {
                Option::None
            } else {
                match leftmost_leaf(t, s) {
                    Option::None => Option::None,
                    Option::Some(m) => highlight_spec(t, m),
                }
            },
        }
    }
}

#[via_fn]
proof fn highlight_hash_decreases(t: Seq<Node>, i: int) {
    if 0 <= i < t.len() {
        lemma_next_sibling_bounds(t, i);
        match next_sibling(t, i) {
            Option::Some(s) => {
                lemma_leftmost_leaf_bounds(t, s);
            },
            Option::None => {},
        }
    }
}

/// The category of node `i`, or none: fixed mappings for literal,
/// punctuation, operator, keyword, comment and error kinds; contextual
/// rules for markers whose symbol is reused structurally; the neighborhood
/// rules for hash markers and identifiers; and none for structural kinds,
/// whose children are tagged instead.
pub open spec fn highlight_spec(t: Seq<Node>, i: int) -> Option<Tag>
    decreases t.len() - i, 1int,
{
    if !(0 <= i < t.len()) {
        Option::None
    } else {
        match t[i].kind {
            NodeKind::Markup => if parent_kind(t, i) == Option::Some(NodeKind::TermItem)
                && next_sibling_kind(t, i) == Option::Some(NodeKind::Colon) {
                Option::Some(Tag::ListTerm)
            } else {
                Option::None
            },
            NodeKind::Linebreak => Option::Some(Tag::Escape),
            NodeKind::Escape => Option::Some(Tag::Escape),
            NodeKind::Shorthand => Option::Some(Tag::Escape),
            NodeKind::Strong => Option::Some(Tag::Strong),
            NodeKind::Emph => Option::Some(Tag::Emph),
            NodeKind::Raw => Option::Some(Tag::Raw),
            NodeKind::Link => Option::Some(Tag::Link),
            NodeKind::Label => Option::Some(Tag::Label),
            NodeKind::Ref => Option::Some(Tag::Ref),
            NodeKind::Heading => Option::Some(Tag::Heading),
            NodeKind::ListMarker => Option::Some(Tag::ListMarker),
            NodeKind::EnumMarker => Option::Some(Tag::ListMarker),
            NodeKind::TermMarker => Option::Some(Tag::ListMarker),
            NodeKind::MathIdent => highlight_ident_spec(t, i),
            NodeKind::MathAlignPoint => Option::Some(Tag::MathOperator),
            NodeKind::Hash => highlight_hash_spec(t, i),
            NodeKind::LeftBrace => Option::Some(Tag::Punctuation),
            NodeKind::RightBrace => Option::Some(Tag::Punctuation),
            NodeKind::LeftBracket => Option::Some(Tag::Punctuation),
            NodeKind::RightBracket => Option::Some(Tag::Punctuation),
            NodeKind::LeftParen => Option::Some(Tag::Punctuation),
            NodeKind::RightParen => Option::Some(Tag::Punctuation),
            NodeKind::Comma => Option::Some(Tag::Punctuation),
            NodeKind::Semicolon => Option::Some(Tag::Punctuation),
            NodeKind::Colon => Option::Some(Tag::Punctuation),
            NodeKind::Star => if parent_kind(t, i) == Option::Some(NodeKind::Strong) {
                Option::None
            } else {
                Option::Some(Tag::Operator)
            },
            NodeKind::Underscore => if parent_kind(t, i) == Option::Some(NodeKind::MathAttach) {
                Option::Some(Tag::MathOperator)
            } else {
                Option::None
            },
            NodeKind::Dollar => Option::Some(Tag::MathDelimiter),
            NodeKind::Plus => Option::Some(Tag::Operator),
            NodeKind::Minus => Option::Some(Tag::Operator),
            NodeKind::Slash => if parent_kind(t, i) == Option::Some(NodeKind::MathFrac) {
                Option::Some(Tag::MathOperator)
            } else {
                Option::Some(Tag::Operator)
            },
            NodeKind::Hat => Option::Some(Tag::MathOperator),
            NodeKind::Prime => Option::Some(Tag::MathOperator),
            NodeKind::Dot => Option::Some(Tag::Punctuation),
            NodeKind::EqSign => if parent_kind(t, i) == Option::Some(NodeKind::Heading) {
                Option::None
            } else {
                Option::Some(Tag::Operator)
            },
            NodeKind::EqEq => Option::Some(Tag::Operator),
            NodeKind::ExclEq => Option::Some(Tag::Operator),
            NodeKind::Lt => Option::Some(Tag::Operator),
            NodeKind::LtEq => Option::Some(Tag::Operator),
            NodeKind::Gt => Option::Some(Tag::Operator),
            NodeKind::GtEq => Option::Some(Tag::Operator),
            NodeKind::PlusEq => Option::Some(Tag::Operator),
            NodeKind::HyphEq => Option::Some(Tag::Operator),
            NodeKind::StarEq => Option::Some(Tag::Operator),
            NodeKind::SlashEq => Option::Some(Tag::Operator),
            NodeKind::Dots => Option::Some(Tag::Operator),
            NodeKind::Arrow => Option::Some(Tag::Operator),
            NodeKind::Root => Option::Some(Tag::MathOperator),
            NodeKind::NotKw => Option::Some(Tag::Keyword),
            NodeKind::AndKw => Option::Some(Tag::Keyword),
            NodeKind::OrKw => Option::Some(Tag::Keyword),
            NodeKind::NoneKw => Option::Some(Tag::Keyword),
            NodeKind::AutoKw => Option::Some(Tag::Keyword),
            NodeKind::LetKw => Option::Some(Tag::Keyword),
            NodeKind::SetKw => Option::Some(Tag::Keyword),
            NodeKind::ShowKw => Option::Some(Tag::Keyword),
            NodeKind::ContextKw => Option::Some(Tag::Keyword),
            NodeKind::IfKw => Option::Some(Tag::Keyword),
            NodeKind::ElseKw => Option::Some(Tag::Keyword),
            NodeKind::ForKw => Option::Some(Tag::Keyword),
            NodeKind::InKw => Option::Some(Tag::Keyword),
            NodeKind::WhileKw => Option::Some(Tag::Keyword),
            NodeKind::BreakKw => Option::Some(Tag::Keyword),
            NodeKind::ContinueKw => Option::Some(Tag::Keyword),
            NodeKind::ReturnKw => Option::Some(Tag::Keyword),
            NodeKind::ImportKw => Option::Some(Tag::Keyword),
            NodeKind::IncludeKw => Option::Some(Tag::Keyword),
            NodeKind::AsKw => Option::Some(Tag::Keyword),
            NodeKind::Ident => highlight_ident_spec(t, i),
            NodeKind::Bool => Option::Some(Tag::Keyword),
            NodeKind::Int => Option::Some(Tag::Number),
            NodeKind::Float => Option::Some(Tag::Number),
            NodeKind::Numeric => Option::Some(Tag::Number),
            NodeKind::Str => Option::Some(Tag::String),
            NodeKind::LineComment => Option::Some(Tag::Comment),
            NodeKind::BlockComment => Option::Some(Tag::Comment),
            NodeKind::Error => Option::Some(Tag::Error),
            _ => Option::None,
        }
    }
}

impl SyntaxTree {
    /// The category of identifier node `i`, resolved from its neighborhood.
    pub fn highlight_ident(&self, i: usize) -> (r: Option<Tag>)
        requires
            i < self@.len(),
        ensures
            r == highlight_ident_spec(self@, i as int),
        decreases i,
    {
        let node = self.nodes[i];
        let next_lf = self.next_leaf(i);
        let starts_call: bool = match next_lf {
            Option::Some(nx) => {
                proof {
                    lemma_next_leaf_bounds(self@, i as int);
                }
                let nxk = self.nodes[nx].kind;
                let nxoff = self.nodes[nx].offset;
                (nxoff >= node.offset && nxoff - node.offset == node.length)
                    && ((matches!(nxk, NodeKind::LeftParen)
                        && (self.parent_kind(nx) == Option::Some(NodeKind::Args)
                            || self.parent_kind(nx) == Option::Some(NodeKind::Params)))
                        || (matches!(nxk, NodeKind::LeftBracket)
                            && self.parent_kind(nx) == Option::Some(NodeKind::ContentBlock)))
            },
            Option::None => false,
        };
        if starts_call {
            return Option::Some(Tag::Function);
        }
        if matches!(node.kind, NodeKind::MathIdent) {
            return Option::Some(Tag::Interpolated);
        }
        let a = self.outer_field_access(i);
        proof {
            lemma_outer_field_access_bounds(self@, i as int);
        }
        if self.parent_kind(a) == Option::Some(NodeKind::ShowRule) {
            let next_is_colon: bool = match next_lf {
                Option::Some(nx) => matches!(self.nodes[nx].kind, NodeKind::Colon),
                Option::None => false,
            };
            let prev_is_colon: bool = match self.prev_leaf(i) {
                Option::Some(pv) => matches!(self.nodes[pv].kind, NodeKind::Colon),
                Option::None => false,
            };
            if next_is_colon || prev_is_colon {
                return Option::Some(Tag::Function);
            }
        }
        let hash_before: bool = match self.prev_leaf(a) {
            Option::Some(h) => matches!(self.nodes[h].kind, NodeKind::Hash),
            Option::None => false,
        };
        if hash_before {
            return Option::Some(Tag::Interpolated);
        }
        match self.prev_leaf(i) {
            Option::None => Option::None,
            Option::Some(pv) => {
                if matches!(self.nodes[pv].kind, NodeKind::Dot) {
                    proof {
                        lemma_prev_leaf_bounds(self@, i as int);
                    }
                    match self.prev_leaf(pv) {
                        Option::None => Option::None,
                        Option::Some(pp) => {
                            if is_ident_kind(self.nodes[pp].kind) {
                                proof {
                                    lemma_prev_leaf_bounds(self@, pv as int);
                                }
                                self.highlight_ident(pp)
                            } else {
                                Option::None
                            }
                        },
                    }
                } else {
                    Option::None
                }
            },
        }
    }

    /// The outermost node of the chain of field accesses around node `i`.
    pub fn outer_field_access(&self, i: usize) -> (r: usize)
        requires
            i < self@.len(),
        ensures
            r == outer_field_access(self@, i as int),
            r < self@.len(),
        decreases i,
    {
        proof {
            lemma_prev_shallower_bounds(self@, self@[i as int].depth as int, i as int - 1);
        }
        match self.parent_of(i) {
            Option::Some(p) => {
                if matches!(self.nodes[p].kind, NodeKind::FieldAccess) {
                    self.outer_field_access(p)
                } else {
                    i
                }
            },
            Option::None => i,
        }
    }

    /// The category of hash-marker node `i`, propagated from the escaped
    /// expression behind it.
    pub fn highlight_hash(&self, i: usize) -> (r: Option<Tag>)
        requires
            i < self@.len(),
        ensures
            r == highlight_hash_spec(self@, i as int),
        decreases self@.len() - i, 0int,
    {
        proof {
            lemma_next_sibling_bounds(self@, i as int);
        }
        match self.next_sibling(i) {
            Option::None => Option::None,
            Option::Some(s) => {
                if !is_hashed_expr(self.nodes[s].kind) {
                    Option::None
                } else {
                    proof {
                        lemma_leftmost_leaf_bounds(self@, s as int);
                    }
                    match self.leftmost_leaf(s) {
                        Option::None => Option::None,
                        Option::Some(m) => self.highlight(m),
                    }
                }
            },
        }
    }

    /// The category of node `i`, or none.
    pub fn highlight(&self, i: usize) -> (r: Option<Tag>)
        requires
            i < self@.len(),
        ensures
            r == highlight_spec(self@, i as int),
        decreases self@.len() - i, 1int,
    {
        match self.nodes[i].kind {
            NodeKind::Markup => if self.parent_kind(i) == Option::Some(NodeKind::TermItem)
                && self.next_sibling_kind(i) == Option::Some(NodeKind::Colon) {
                Option::Some(Tag::ListTerm)
            } else {
                Option::None
            },
            NodeKind::Linebreak => Option::Some(Tag::Escape),
            NodeKind::Escape => Option::Some(Tag::Escape),
            NodeKind::Shorthand => Option::Some(Tag::Escape),
            NodeKind::Strong => Option::Some(Tag::Strong),
            NodeKind::Emph => Option::Some(Tag::Emph),
            NodeKind::Raw => Option::Some(Tag::Raw),
            NodeKind::Link => Option::Some(Tag::Link),
            NodeKind::Label => Option::Some(Tag::Label),
            NodeKind::Ref => Option::Some(Tag::Ref),
            NodeKind::Heading => Option::Some(Tag::Heading),
            NodeKind::ListMarker => Option::Some(Tag::ListMarker),
            NodeKind::EnumMarker => Option::Some(Tag::ListMarker),
            NodeKind::TermMarker => Option::Some(Tag::ListMarker),
            NodeKind::MathIdent => self.highlight_ident(i),
            NodeKind::MathAlignPoint => Option::Some(Tag::MathOperator),
            NodeKind::Hash => self.highlight_hash(i),
            NodeKind::LeftBrace => Option::Some(Tag::Punctuation),
            NodeKind::RightBrace => Option::Some(Tag::Punctuation),
            NodeKind::LeftBracket => Option::Some(Tag::Punctuation),
            NodeKind::RightBracket => Option::Some(Tag::Punctuation),
            NodeKind::LeftParen => Option::Some(Tag::Punctuation),
            NodeKind::RightParen => Option::Some(Tag::Punctuation),
            NodeKind::Comma => Option::Some(Tag::Punctuation),
            NodeKind::Semicolon => Option::Some(Tag::Punctuation),
            NodeKind::Colon => Option::Some(Tag::Punctuation),
            NodeKind::Star => if self.parent_kind(i) == Option::Some(NodeKind::Strong) {
                Option::None
            } else {
                Option::Some(Tag::Operator)
            },
            NodeKind::Underscore => if self.parent_kind(i) == Option::Some(NodeKind::MathAttach) {
                Option::Some(Tag::MathOperator)
            } else {
                Option::None
            },
            NodeKind::Dollar => Option::Some(Tag::MathDelimiter),
            NodeKind::Plus => Option::Some(Tag::Operator),
            NodeKind::Minus => Option::Some(Tag::Operator),
            NodeKind::Slash => if self.parent_kind(i) == Option::Some(NodeKind::MathFrac) {
                Option::Some(Tag::MathOperator)
            } else {
                Option::Some(Tag::Operator)
            },
            NodeKind::Hat => Option::Some(Tag::MathOperator),
            NodeKind::Prime => Option::Some(Tag::MathOperator),
            NodeKind::Dot => Option::Some(Tag::Punctuation),
            NodeKind::EqSign => if self.parent_kind(i) == Option::Some(NodeKind::Heading) {
                Option::None
            } else {
                Option::Some(Tag::Operator)
            },
            NodeKind::EqEq => Option::Some(Tag::Operator),
            NodeKind::ExclEq => Option::Some(Tag::Operator),
            NodeKind::Lt => Option::Some(Tag::Operator),
            NodeKind::LtEq => Option::Some(Tag::Operator),
            NodeKind::Gt => Option::Some(Tag::Operator),
            NodeKind::GtEq => Option::Some(Tag::Operator),
            NodeKind::PlusEq => Option::Some(Tag::Operator),
            NodeKind::HyphEq => Option::Some(Tag::Operator),
            NodeKind::StarEq => Option::Some(Tag::Operator),
            NodeKind::SlashEq => Option::Some(Tag::Operator),
            NodeKind::Dots => Option::Some(Tag::Operator),
            NodeKind::Arrow => Option::Some(Tag::Operator),
            NodeKind::Root => Option::Some(Tag::MathOperator),
            NodeKind::NotKw => Option::Some(Tag::Keyword),
            NodeKind::AndKw => Option::Some(Tag::Keyword),
            NodeKind::OrKw => Option::Some(Tag::Keyword),
            NodeKind::NoneKw => Option::Some(Tag::Keyword),
            NodeKind::AutoKw => Option::Some(Tag::Keyword),
            NodeKind::LetKw => Option::Some(Tag::Keyword),
            NodeKind::SetKw => Option::Some(Tag::Keyword),
            NodeKind::ShowKw => Option::Some(Tag::Keyword),
            NodeKind::ContextKw => Option::Some(Tag::Keyword),
            NodeKind::IfKw => Option::Some(Tag::Keyword),
            NodeKind::ElseKw => Option::Some(Tag::Keyword),
            NodeKind::ForKw => Option::Some(Tag::Keyword),
            NodeKind::InKw => Option::Some(Tag::Keyword),
            NodeKind::WhileKw => Option::Some(Tag::Keyword),
            NodeKind::BreakKw => Option::Some(Tag::Keyword),
            NodeKind::ContinueKw => Option::Some(Tag::Keyword),
            NodeKind::ReturnKw => Option::Some(Tag::Keyword),
            NodeKind::ImportKw => Option::Some(Tag::Keyword),
            NodeKind::IncludeKw => Option::Some(Tag::Keyword),
            NodeKind::AsKw => Option::Some(Tag::Keyword),
            NodeKind::Ident => self.highlight_ident(i),
            NodeKind::Bool => Option::Some(Tag::Keyword),
            NodeKind::Int => Option::Some(Tag::Number),
            NodeKind::Float => Option::Some(Tag::Number),
            NodeKind::Numeric => Option::Some(Tag::Number),
            NodeKind::Str => Option::Some(Tag::String),
            NodeKind::LineComment => Option::Some(Tag::Comment),
            NodeKind::BlockComment => Option::Some(Tag::Comment),
            NodeKind::Error => Option::Some(Tag::Error),
            _ => Option::None,
        }
    }
}

// ---------------------------------------------------------------------------
// Tree walk: collecting tagged spans
// ---------------------------------------------------------------------------

/// A span of the source with its category: the output of the tree walk.
#[derive(Debug, Copy, Clone, PartialEq, Eq, Structural)]
pub struct TaggedSpan {
    /// The byte offset of the span in the source.
    pub offset: usize,
    /// The byte length of the span.
    pub length: usize,
    /// The span's category.
    pub tag: Tag,
}

/// The tagged spans of the first `n` nodes in pre-order.
pub open spec fn spans_upto(t: Seq<Node>, n: int) -> Seq<TaggedSpan>
    decreases n,
{
    if n <= 0 {
        Seq::empty()
    } else {
        let rest = spans_upto(t, n - 1);
        match highlight_spec(t, n - 1) {
            Option::Some(tag) => rest.push(
                TaggedSpan { offset: t[n - 1].offset, length: t[n - 1].length, tag },
            ),
            Option::None => rest,
        }
    }
}

/// The ordered tagged spans of a whole tree: every node visited in
/// pre-order, spans recorded for each tagged node.
pub open spec fn tagged_spans(t: Seq<Node>) -> Seq<TaggedSpan> {
    spans_upto(t, t.len() as int)
}

/// Spans collected from an in-range tree stay within the source.
pub proof fn lemma_spans_upto_in_range(t: Seq<Node>, n: int, len: int)
    requires
        crate::tree::spans_in_range(t, len),
        n <= t.len(),
    ensures
        forall|k: int|
            0 <= k < spans_upto(t, n).len()
                ==> (#[trigger] spans_upto(t, n)[k]).offset + spans_upto(t, n)[k].length <= len,
    decreases n,
{
    if n > 0 {
        lemma_spans_upto_in_range(t, n - 1, len);
    }
}

impl SyntaxTree {
    /// Walk the tree in pre-order and collect a tagged span for every node
    /// the tagger gives a category.
    pub fn collect_spans(&self) -> (r: Vec<TaggedSpan>)
        ensures
            r@ == tagged_spans(self@),
    {
        let mut out: Vec<TaggedSpan> = Vec::new();
        let n = self.nodes.len();
        let mut i: usize = 0;
        while i < n
            invariant
                i <= n,
                n == self@.len(),
                out@ == spans_upto(self@, i as int),
            decreases n - i,
        {
            match self.highlight(i) {
                Option::Some(tag) => {
                    let node = self.nodes[i];
                    out.push(TaggedSpan { offset: node.offset, length: node.length, tag });
                },
                Option::None => {},
            }
            i = i + 1;
        }
        out
    }
}

} // verus!
