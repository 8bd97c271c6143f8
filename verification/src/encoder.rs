//! Encoding tagged spans into the position-relative token stream.
//!
//! Four stages over the ordered span list: absolute positioning (line and
//! column of each span start, counting newline bytes), multi-line splitting
//! (one fragment per source line a span touches), a stable sort by
//! (line, column), and the delta transform that makes each token's position
//! relative to its predecessor. The result is flattened into five-field
//! records `(delta line, delta column, length, category index, modifiers)`.
//!
//! Offsets, lengths and columns are measured in bytes throughout.

use vstd::prelude::*;

use crate::category::Tag;
use crate::category::tag_index_spec;
use crate::tagger::TaggedSpan;
use crate::tagger::tagged_spans;
use crate::tagger::lemma_spans_upto_in_range;
use crate::tree::Node;
use crate::tree::SyntaxTree;
use crate::tree::spans_in_range;

verus! {

/// The newline byte on which lines are split.
pub const NEWLINE: u8 = 10;

/// A token of the encoded stream, with unbounded integer fields: the
/// mathematical model of [`EncodeToken`]. Before the delta transform the
/// position is absolute; afterwards it is relative to the previous token.
pub struct Tok {
    /// The line, or after the delta transform the line delta.
    pub line: int,
    /// The start column, or after the delta transform the column delta.
    pub col: int,
    /// The byte length.
    pub len: int,
    /// The category index.
    pub cat: int,
    /// The modifier set; always zero.
    pub modifiers: int,
}

/// One encoded token: a five-field record of the protocol.
#[derive(Debug, Copy, Clone, PartialEq, Eq, Structural)]
pub struct EncodeToken {
    /// The zero-based line, or the line delta.
    pub line: u32,
    /// The zero-based start column, or the column delta.
    pub start_char: u32,
    /// The byte length.
    pub length: u32,
    /// The category index.
    pub token_type: u32,
    /// The modifier set; always zero.
    pub token_modifiers: u32,
}

/// The mathematical token an [`EncodeToken`] holds.
pub open spec fn tok_of(e: EncodeToken) -> Tok {
    Tok {
        line: e.line as int,
        col: e.start_char as int,
        len: e.length as int,
        cat: e.token_type as int,
        modifiers: e.token_modifiers as int,
    }
}

/// The mathematical tokens a vector of encoded tokens holds.
pub open spec fn toks_of(v: Seq<EncodeToken>) -> Seq<Tok> {
    v.map_values(|e: EncodeToken| tok_of(e))
}

impl EncodeToken {
    /// A token for a tagged node, with position fields still unresolved:
    /// the line is a placeholder and the start column still holds the byte
    /// offset, both rewritten by absolute positioning.
    pub fn new(node: &Node, tag: Tag) -> (r: Self)
        requires
            node.offset <= u32::MAX,
            node.length <= u32::MAX,
        ensures
            r.line == u32::MAX,
            r.start_char == node.offset,
            r.length == node.length,
            r.token_type == tag_index_spec(tag),
            r.token_modifiers == 0,
    {
        EncodeToken {
            line: u32::MAX,
            start_char: node.offset as u32,
            length: node.length as u32,
            token_type: tag.index(),
            token_modifiers: 0,
        }
    }

    /// The token's five fields in protocol order.
    pub fn encode(&self) -> (r: Vec<u32>)
        ensures
            r@ == seq![self.line, self.start_char, self.length, self.token_type, self.token_modifiers],
    {
        let mut r: Vec<u32> = Vec::new();
        r.push(self.line);
        r.push(self.start_char);
        r.push(self.length);
        r.push(self.token_type);
        r.push(self.token_modifiers);
        proof {
            assert(r@ =~= seq![
                self.line,
                self.start_char,
                self.length,
                self.token_type,
                self.token_modifiers,
            ]);
        }
        r
    }
}

// ---------------------------------------------------------------------------
// Lines and columns
// ---------------------------------------------------------------------------

/// The number of newline bytes in `s`.
pub open spec fn count_newlines(s: Seq<u8>) -> int
    decreases s.len(),
{
    if s.len() <= 0 {
        0
    } else {
        count_newlines(s.drop_last()) + if s.last() == NEWLINE {
            1int
        } else {
            0int
        }
    }
}

/// The zero-based line on which byte offset `off` lies: the number of
/// newline bytes strictly before it.
pub open spec fn line_of(s: Seq<u8>, off: int) -> int {
    count_newlines(s.take(off))
}

/// The byte offset at which the line containing offset `off` starts: the
/// position directly after the last newline before `off`, or zero.
pub open spec fn line_start(s: Seq<u8>, off: int) -> int
    decreases off,
{
    if off <= 0 {
        0
    } else if s[off - 1] == NEWLINE {
        off
    } else {
        line_start(s, off - 1)
    }
}

/// The zero-based column of byte offset `off`: its distance from the start
/// of its line.
pub open spec fn col_of(s: Seq<u8>, off: int) -> int {
    off - line_start(s, off)
}

/// A line starts at or before every offset on it.
pub proof fn lemma_line_start_bounds(s: Seq<u8>, off: int)
    requires
        off >= 0,
    ensures
        0 <= line_start(s, off) <= off,
    decreases off,
{
    if off > 0 && s[off - 1] != NEWLINE {
        lemma_line_start_bounds(s, off - 1);
    }
}

/// Appending a region without newlines followed by one newline advances the
/// line count by exactly one.
pub proof fn lemma_line_of_next_segment(s: Seq<u8>, p: int, q: int)
    requires
        0 <= p <= q < s.len(),
        forall|m: int| p <= m < q ==> s[m] != NEWLINE,
        s[q] == NEWLINE,
    ensures
        line_of(s, q + 1) == line_of(s, p) + 1,
    decreases q - p,
{
    if q == p {
        assert(s.take(p + 1).drop_last() =~= s.take(p));
    } else {
        lemma_line_of_next_segment(s, p + 1, q);
        assert(s.take(p + 1).drop_last() =~= s.take(p));
    }
}

/// The count of newlines up to an offset.
fn count_newlines_upto(src: &[u8], off: usize) -> (r: usize)
    requires
        off <= src@.len(),
    ensures
        r == line_of(src@, off as int),
        r <= off,
{
    let mut cnt: usize = 0;
    let mut j: usize = 0;
    while j < off
        invariant
            j <= off <= src@.len(),
            cnt == count_newlines(src@.take(j as int)),
            cnt <= j,
        decreases off - j,
    {
        proof {
            assert(src@.take(j + 1).drop_last() =~= src@.take(j as int));
            assert(src@.take(j + 1).last() == src@[j as int]);
        }
        if src[j] == NEWLINE {
            cnt = cnt + 1;
        }
        j = j + 1;
    }
    cnt
}

/// The start offset of the line containing an offset.
fn line_start_at(src: &[u8], off: usize) -> (r: usize)
    requires
        off <= src@.len(),
    ensures
        r == line_start(src@, off as int),
        r <= off,
{
    proof {
        lemma_line_start_bounds(src@, off as int);
    }
    let mut j: usize = off;
    while j > 0
        invariant
            j <= off <= src@.len(),
            line_start(src@, off as int) == line_start(src@, j as int),
        decreases j,
    {
        if src[j - 1] == NEWLINE {
            return j;
        }
        j = j - 1;
    }
    0
}

// ---------------------------------------------------------------------------
// Multi-line splitting
// ---------------------------------------------------------------------------

/// The length of the line segment starting at `p` within the region ending
/// at `end`: the distance to the next newline, or to the region's end.
pub open spec fn seg_len(s: Seq<u8>, p: int, end: int) -> int
    decreases end - p,
{
    if p < 0 || p >= end || p >= s.len() {
        0
    } else if s[p] == NEWLINE {
        0
    } else {
        1 + seg_len(s, p + 1, end)
    }
}

/// A segment is never of negative length.
pub proof fn lemma_seg_len_nonneg(s: Seq<u8>, p: int, end: int)
    ensures
        seg_len(s, p, end) >= 0,
    decreases end - p,
{
    if !(p < 0 || p >= end || p >= s.len()) && s[p] != NEWLINE {
        lemma_seg_len_nonneg(s, p + 1, end);
    }
}

/// A segment fits its region and contains no newline; if it stops short of
/// the region, a newline follows it.
pub proof fn lemma_seg_len_props(s: Seq<u8>, p: int, end: int)
    requires
        0 <= p,
        end <= s.len(),
    ensures
        0 <= seg_len(s, p, end),
        p + seg_len(s, p, end) <= if p <= end { end } else { p },
        forall|m: int| p <= m < p + seg_len(s, p, end) ==> s[m] != NEWLINE,
        p + seg_len(s, p, end) < end ==> s[p + seg_len(s, p, end)] == NEWLINE,
    decreases end - p,
{
    if !(p < 0 || p >= end || p >= s.len()) && s[p] != NEWLINE {
        lemma_seg_len_props(s, p + 1, end);
    }
}

/// The line segment of an offset.
fn seg_len_at(src: &[u8], p: usize, end: usize) -> (r: usize)
    requires
        p <= end <= src@.len(),
    ensures
        r == seg_len(src@, p as int, end as int),
        p + r <= end,
{
    proof {
        lemma_seg_len_props(src@, p as int, end as int);
    }
    let mut j: usize = p;
    while j < end && src[j] != NEWLINE
        invariant
            p <= j <= end <= src@.len(),
            seg_len(src@, p as int, end as int) == j - p + seg_len(src@, j as int, end as int),
        decreases end - j,
    {
        j = j + 1;
    }
    j - p
}

/// The first fragment of a tagged span: the span's own line and column,
/// covering the text up to the first newline (or the whole span).
pub open spec fn first_frag(s: Seq<u8>, sp: TaggedSpan) -> Tok {
    Tok {
        line: line_of(s, sp.offset as int),
        col: col_of(s, sp.offset as int),
        len: seg_len(s, sp.offset as int, sp.offset + sp.length),
        cat: tag_index_spec(sp.tag),
        modifiers: 0,
    }
}

/// The fragments of a span after the segment starting at `p` on line
/// `line`: one per further line the span touches, each starting at column
/// zero and covering that line's text within the span.
pub open spec fn extra_frags(s: Seq<u8>, p: int, end: int, line: int, cat: int) -> Seq<Tok>
    decreases end - p,
        via extra_frags_decreases
{
    let l = seg_len(s, p, end);
    if p < 0 || p + l >= end {
        Seq::empty()
    } else {
        seq![
            Tok { line: line + 1, col: 0, len: seg_len(s, p + l + 1, end), cat, modifiers: 0 },
        ] + extra_frags(s, p + l + 1, end, line + 1, cat)
    }
}

#[via_fn]
proof fn extra_frags_decreases(s: Seq<u8>, p: int, end: int, line: int, cat: int) {
    lemma_seg_len_nonneg(s, p, end);
}

/// The fragments a span contributes beyond its first.
pub open spec fn span_extras(s: Seq<u8>, sp: TaggedSpan) -> Seq<Tok> {
    extra_frags(
        s,
        sp.offset as int,
        sp.offset + sp.length,
        line_of(s, sp.offset as int),
        tag_index_spec(sp.tag),
    )
}

/// The first fragments of all spans, in span order.
pub open spec fn main_toks(s: Seq<u8>, spans: Seq<TaggedSpan>) -> Seq<Tok>
    decreases spans.len(),
{
    if spans.len() == 0 {
        Seq::empty()
    } else {
        main_toks(s, spans.drop_last()).push(first_frag(s, spans.last()))
    }
}

/// The further fragments of all spans, appended in span order after all
/// first fragments.
pub open spec fn extra_toks(s: Seq<u8>, spans: Seq<TaggedSpan>) -> Seq<Tok>
    decreases spans.len(),
{
    if spans.len() == 0 {
        Seq::empty()
    } else {
        extra_toks(s, spans.drop_last()) + span_extras(s, spans.last())
    }
}

/// All absolute tokens of a span list: the first fragments in span order,
/// followed by the side list of further fragments.
pub open spec fn all_toks(s: Seq<u8>, spans: Seq<TaggedSpan>) -> Seq<Tok> {
    main_toks(s, spans) + extra_toks(s, spans)
}

/// Compute the absolutely positioned, line-split tokens of a span list:
/// stages one and two of the encoder.
fn absolute_tokens(src: &[u8], spans: &Vec<TaggedSpan>) -> (r: Vec<EncodeToken>)
    requires
        src@.len() <= u32::MAX,
        forall|k: int|
            0 <= k < spans@.len()
                ==> (#[trigger] spans@[k]).offset + spans@[k].length <= src@.len(),
    ensures
        toks_of(r@) == all_toks(src@, spans@),
{
    let mut main: Vec<EncodeToken> = Vec::new();
    let mut extras: Vec<EncodeToken> = Vec::new();
    let n = spans.len();
    let mut i: usize = 0;
    while i < n
        invariant
            i <= n,
            n == spans@.len(),
            src@.len() <= u32::MAX,
            forall|k: int|
                0 <= k < spans@.len()
                    ==> (#[trigger] spans@[k]).offset + spans@[k].length <= src@.len(),
            toks_of(main@) == main_toks(src@, spans@.take(i as int)),
            toks_of(extras@) == extra_toks(src@, spans@.take(i as int)),
        decreases n - i,
    {
        let sp = spans[i];
        let off = sp.offset;
        let end = off + sp.length;
        let line0 = count_newlines_upto(src, off);
        let start0 = line_start_at(src, off);
        let col0 = off - start0;
        let l0 = seg_len_at(src, off, end);
        main.push(EncodeToken {
            line: line0 as u32,
            start_char: col0 as u32,
            length: l0 as u32,
            token_type: sp.tag.index(),
            token_modifiers: 0,
        });
        proof {
            assert(spans@.take(i + 1).drop_last() =~= spans@.take(i as int));
            assert(spans@.take(i + 1).last() == spans@[i as int]);
            assert(toks_of(main@) =~= main_toks(src@, spans@.take(i + 1)));
        }
        // fragments of further lines the span touches
        let ghost extras_before = toks_of(extras@);
        let mut p: usize = off;
        let mut ln: usize = line0;
        let mut l: usize = l0;
        while p + l < end
            invariant
                off <= p,
                p + l <= end <= src@.len(),
                src@.len() <= u32::MAX,
                l == seg_len(src@, p as int, end as int),
                ln == line_of(src@, p as int),
                ln <= p,
                toks_of(extras@) + extra_frags(
                    src@,
                    p as int,
                    end as int,
                    ln as int,
                    tag_index_spec(sp.tag),
                ) == extras_before + span_extras(src@, spans@[i as int]),
            decreases end - p - l,
        {
            proof {
                lemma_seg_len_props(src@, p as int, end as int);
                lemma_line_of_next_segment(src@, p as int, p + l);
            }
            let p2 = p + l + 1;
            let l2 = seg_len_at(src, p2, end);
            extras.push(EncodeToken {
                line: (ln + 1) as u32,
                start_char: 0,
                length: l2 as u32,
                token_type: sp.tag.index(),
                token_modifiers: 0,
            });
            p = p2;
            ln = ln + 1;
            l = l2;
            proof {
                assert(toks_of(extras@) + extra_frags(
                    src@,
                    p as int,
                    end as int,
                    ln as int,
                    tag_index_spec(sp.tag),
                ) =~= extras_before + span_extras(src@, spans@[i as int]));
            }
        }
        proof {
            assert(extra_frags(
                src@,
                p as int,
                end as int,
                ln as int,
                tag_index_spec(sp.tag),
            ) =~= Seq::<Tok>::empty());
            assert(spans@.take(i + 1).drop_last() =~= spans@.take(i as int));
            assert(toks_of(extras@) =~= extra_toks(src@, spans@.take(i + 1)));
        }
        i = i + 1;
    }
    proof {
        assert(spans@.take(n as int) =~= spans@);
    }
    let mut r = main;
    let mut ex = extras;
    let ghost main_m = toks_of(r@);
    let ghost ex_m = toks_of(ex@);
    r.append(&mut ex);
    proof {
        assert(toks_of(r@) =~= main_m + ex_m);
    }
    r
}

// ---------------------------------------------------------------------------
// Stable sort by (line, column)
// ---------------------------------------------------------------------------

/// The sort order of absolute tokens: ascending by line, column as the
/// tie-breaker.
pub open spec fn pos_le(a: Tok, b: Tok) -> bool {
    a.line < b.line || (a.line == b.line && a.col <= b.col)
}

/// Adjacent tokens are in sort order.
pub open spec fn sorted_by_pos(s: Seq<Tok>) -> bool {
    forall|k: int| 0 <= k < s.len() - 1 ==> pos_le(#[trigger] s[k], s[k + 1])
}

/// Insert a token behind every token that does not come strictly after it:
/// the stable insertion position.
pub open spec fn insert_sorted(x: Tok, s: Seq<Tok>) -> Seq<Tok>
    decreases s.len(),
{
    if s.len() == 0 {
        seq![x]
    } else if !pos_le(s[0], x) {
        seq![x] + s
    } else {
        seq![s[0]] + insert_sorted(x, s.drop_first())
    }
}

/// The stable sort of the first `n` tokens: each inserted in turn, later
/// tokens landing behind equal earlier ones.
pub open spec fn sort_upto(s: Seq<Tok>, n: int) -> Seq<Tok>
    decreases n,
{
    if n <= 0 {
        Seq::empty()
    } else {
        insert_sorted(s[n - 1], sort_upto(s, n - 1))
    }
}

/// The stable sort of a token list by (line, column).
pub open spec fn sorted_toks(s: Seq<Tok>) -> Seq<Tok> {
    sort_upto(s, s.len() as int)
}

/// Insertion keeps every element and adds the new one.
pub proof fn lemma_insert_sorted_elems(x: Tok, s: Seq<Tok>)
    ensures
        insert_sorted(x, s).len() == s.len() + 1,
        forall|k: int|
            0 <= k < insert_sorted(x, s).len()
                ==> (#[trigger] insert_sorted(x, s)[k]) == x || s.contains(insert_sorted(x, s)[k]),
    decreases s.len(),
{
    if s.len() == 0 {
    } else if !pos_le(s[0], x) {
        assert forall|k: int| 0 <= k < insert_sorted(x, s).len() implies (#[trigger] insert_sorted(
            x,
            s,
        )[k]) == x || s.contains(insert_sorted(x, s)[k]) by {
            if k > 0 {
                assert(insert_sorted(x, s)[k] == s[k - 1]);
            }
        }
    } else {
        lemma_insert_sorted_elems(x, s.drop_first());
        let r2 = insert_sorted(x, s.drop_first());
        assert forall|k: int| 0 <= k < insert_sorted(x, s).len() implies (#[trigger] insert_sorted(
            x,
            s,
        )[k]) == x || s.contains(insert_sorted(x, s)[k]) by {
            if k == 0 {
                assert(s.contains(s[0]));
            } else {
                assert(insert_sorted(x, s)[k] == r2[k - 1]);
                if r2[k - 1] != x {
                    assert(s.drop_first().contains(r2[k - 1]));
                    let m = choose|m: int|
                        0 <= m < s.drop_first().len() && s.drop_first()[m] == r2[k - 1];
                    assert(s[m + 1] == r2[k - 1]);
                }
            }
        }
    }
}

/// Insertion preserves sortedness.
pub proof fn lemma_insert_sorted_sorted(x: Tok, s: Seq<Tok>)
    requires
        sorted_by_pos(s),
    ensures
        sorted_by_pos(insert_sorted(x, s)),
    decreases s.len(),
{
    if s.len() == 0 {
    } else if !pos_le(s[0], x) {
        let r = seq![x] + s;
        assert forall|k: int| 0 <= k < r.len() - 1 implies pos_le(#[trigger] r[k], r[k + 1]) by {
            if k == 0 {
                assert(pos_le(x, s[0]));
            } else {
                assert(r[k] == s[k - 1]);
                assert(r[k + 1] == s[k]);
            }
        }
    } else {
        let s2 = s.drop_first();
        assert forall|k: int| 0 <= k < s2.len() - 1 implies pos_le(#[trigger] s2[k], s2[k + 1]) by {
            assert(s2[k] == s[k + 1]);
            assert(s2[k + 1] == s[k + 2]);
        }
        lemma_insert_sorted_sorted(x, s2);
        let r2 = insert_sorted(x, s2);
        let r = seq![s[0]] + r2;
        assert forall|k: int| 0 <= k < r.len() - 1 implies pos_le(#[trigger] r[k], r[k + 1]) by {
            if k == 0 {
                // the head stays ahead of whatever now leads the tail
                if s2.len() == 0 {
                    assert(r2[0] == x);
                } else if !pos_le(s2[0], x) {
                    assert(r2[0] == x);
                } else {
                    assert(r2[0] == s2[0]);
                    assert(s2[0] == s[1]);
                }
            } else {
                assert(r[k] == r2[k - 1]);
                assert(r[k + 1] == r2[k]);
            }
        }
    }
}

/// The stable sort is sorted, keeps the length, and draws every element
/// from the input.
pub proof fn lemma_sort_upto_props(s: Seq<Tok>, n: int)
    requires
        0 <= n <= s.len(),
    ensures
        sorted_by_pos(sort_upto(s, n)),
        sort_upto(s, n).len() == n,
        forall|k: int|
            0 <= k < n ==> s.contains(#[trigger] sort_upto(s, n)[k]),
    decreases n,
{
    if n > 0 {
        lemma_sort_upto_props(s, n - 1);
        lemma_insert_sorted_sorted(s[n - 1], sort_upto(s, n - 1));
        lemma_insert_sorted_elems(s[n - 1], sort_upto(s, n - 1));
        assert forall|k: int| 0 <= k < n implies s.contains(#[trigger] sort_upto(s, n)[k]) by {
            let y = sort_upto(s, n)[k];
            if y == s[n - 1] {
                assert(s.contains(y));
            } else {
                assert(sort_upto(s, n - 1).contains(y));
                let m = choose|m: int|
                    0 <= m < sort_upto(s, n - 1).len() && (#[trigger] sort_upto(s, n - 1)[m]) == y;
            }
        }
    }
}

/// The stable sort of any token list is sorted by (line, column).
pub proof fn lemma_sorted_toks_sorted(s: Seq<Tok>)
    ensures
        sorted_by_pos(sorted_toks(s)),
        sorted_toks(s).len() == s.len(),
        forall|k: int|
            0 <= k < s.len() ==> s.contains(#[trigger] sorted_toks(s)[k]),
{
    lemma_sort_upto_props(s, s.len() as int);
}

/// Inserting at the first position whose element comes strictly after `x`
/// is what [`insert_sorted`] does.
proof fn lemma_insert_sorted_at(x: Tok, s: Seq<Tok>, k: int)
    requires
        0 <= k <= s.len(),
        forall|m: int| 0 <= m < k ==> pos_le(#[trigger] s[m], x),
        k < s.len() ==> !pos_le(s[k], x),
    ensures
        insert_sorted(x, s) =~= s.insert(k, x),
    decreases s.len(),
{
    if s.len() == 0 {
    } else if k == 0 {
        assert(insert_sorted(x, s) =~= s.insert(0, x));
    } else {
        let s2 = s.drop_first();
        lemma_insert_sorted_at(x, s2, k - 1);
        assert(seq![s[0]] + s2.insert(k - 1, x) =~= s.insert(k, x));
    }
}

/// Stage three: sort the tokens ascending by (line, column), tokens with
/// equal positions keeping their order.
fn sort_tokens(input: Vec<EncodeToken>) -> (r: Vec<EncodeToken>)
    ensures
        toks_of(r@) == sorted_toks(toks_of(input@)),
{
    let mut r: Vec<EncodeToken> = Vec::new();
    let n = input.len();
    let mut i: usize = 0;
    while i < n
        invariant
            i <= n,
            n == input@.len(),
            toks_of(r@) == sort_upto(toks_of(input@), i as int),
            r@.len() == i,
        decreases n - i,
    {
        proof {
            lemma_sort_upto_props(toks_of(input@), i as int);
        }
        let x = input[i];
        let mut k: usize = 0;
        while k < r.len() && (r[k].line < x.line
            || (r[k].line == x.line && r[k].start_char <= x.start_char))
            invariant
                k <= r@.len(),
                forall|m: int| 0 <= m < k ==> pos_le(#[trigger] toks_of(r@)[m], tok_of(x)),
            decreases r@.len() - k,
        {
            proof {
                assert(toks_of(r@)[k as int] == tok_of(r@[k as int]));
            }
            k = k + 1;
        }
        proof {
            if (k as int) < r@.len() {
                assert(toks_of(r@)[k as int] == tok_of(r@[k as int]));
            }
            lemma_insert_sorted_at(tok_of(x), toks_of(r@), k as int);
        }
        let ghost r_before = toks_of(r@);
        r.insert(k, x);
        proof {
            assert(toks_of(r@) =~= r_before.insert(k as int, tok_of(x)));
            assert(toks_of(input@)[i as int] == tok_of(input@[i as int]));
            assert(toks_of(r@) =~= sort_upto(toks_of(input@), i + 1));
        }
        i = i + 1;
    }
    r
}

// ---------------------------------------------------------------------------
// Delta transform
// ---------------------------------------------------------------------------

/// A token made relative to its predecessor: the line delta, and within the
/// same line the column delta, otherwise the absolute column.
pub open spec fn delta_tok(prev: Tok, cur: Tok) -> Tok {
    Tok {
        line: cur.line - prev.line,
        col: if cur.line == prev.line {
            cur.col - prev.col
        } else {
            cur.col
        },
        len: cur.len,
        cat: cur.cat,
        modifiers: cur.modifiers,
    }
}

/// Stage four: the first token keeps its absolute position; every later
/// token is made relative to its predecessor.
pub open spec fn delta_encode(s: Seq<Tok>) -> Seq<Tok> {
    Seq::new(
        s.len(),
        |k: int|
            if k == 0 {
                s[0]
            } else {
                delta_tok(s[k - 1], s[k])
            },
    )
}

/// A token made absolute again from its decoded predecessor.
pub open spec fn abs_tok(prev: Tok, cur: Tok) -> Tok {
    Tok {
        line: prev.line + cur.line,
        col: if cur.line == 0 {
            prev.col + cur.col
        } else {
            cur.col
        },
        len: cur.len,
        cat: cur.cat,
        modifiers: cur.modifiers,
    }
}

/// The decoded tokens from position `k` on, `prev` being the previous
/// decoded absolute token.
pub open spec fn decode_from(s: Seq<Tok>, k: int, prev: Tok) -> Seq<Tok>
    decreases s.len() - k,
{
    if k < 0 || k >= s.len() {
        Seq::empty()
    } else {
        let a = abs_tok(prev, s[k]);
        seq![a] + decode_from(s, k + 1, a)
    }
}

/// The inverse of the delta transform: each token's absolute position,
/// accumulated from the front.
pub open spec fn delta_decode(s: Seq<Tok>) -> Seq<Tok> {
    if s.len() == 0 {
        Seq::empty()
    } else {
        seq![s[0]] + decode_from(s, 1, s[0])
    }
}

proof fn lemma_decode_from(s: Seq<Tok>, k: int)
    requires
        1 <= k <= s.len(),
    ensures
        decode_from(delta_encode(s), k, s[k - 1]) =~= s.skip(k),
    decreases s.len() - k,
{
    if k < s.len() {
        assert(abs_tok(s[k - 1], delta_encode(s)[k]) == s[k]);
        lemma_decode_from(s, k + 1);
        assert(decode_from(delta_encode(s), k, s[k - 1]) =~= s.skip(k));
    } else {
        assert(decode_from(delta_encode(s), k, s[k - 1]) =~= s.skip(k));
    }
}

/// Round-trip reconstruction: decoding the delta stream reproduces exactly
/// the absolute token list that was encoded.
pub proof fn lemma_delta_round_trip(s: Seq<Tok>)
    ensures
        delta_decode(delta_encode(s)) == s,
{
    if s.len() == 0 {
        assert(delta_decode(delta_encode(s)) =~= s);
    } else {
        lemma_decode_from(s, 1);
        assert(delta_decode(delta_encode(s)) =~= seq![s[0]] + s.skip(1));
        assert(seq![s[0]] + s.skip(1) =~= s);
    }
}

/// Stage four, executed: make each token's position relative to its
/// predecessor.
fn delta_transform(input: Vec<EncodeToken>) -> (r: Vec<EncodeToken>)
    requires
        sorted_by_pos(toks_of(input@)),
    ensures
        toks_of(r@) == delta_encode(toks_of(input@)),
{
    let mut r: Vec<EncodeToken> = Vec::new();
    let n = input.len();
    let mut i: usize = 0;
    while i < n
        invariant
            i <= n,
            n == input@.len(),
            sorted_by_pos(toks_of(input@)),
            r@.len() == i,
            forall|k: int|
                0 <= k < i ==> (#[trigger] toks_of(r@)[k]) == delta_encode(toks_of(input@))[k],
        decreases n - i,
    {
        if i == 0 {
            let x = input[0];
            r.push(x);
            proof {
                assert(toks_of(r@)[0] == tok_of(input@[0]));
                assert(toks_of(input@)[0] == tok_of(input@[0]));
            }
        } else {
            let prev = input[i - 1];
            let cur = input[i];
            proof {
                assert(toks_of(input@)[i - 1] == tok_of(input@[i - 1 as int]));
                assert(toks_of(input@)[i as int] == tok_of(input@[i as int]));
                assert(pos_le(toks_of(input@)[i - 1], toks_of(input@)[i as int]));
            }
            let dl = cur.line - prev.line;
            let dc = if dl == 0 {
                cur.start_char - prev.start_char
            } else {
                cur.start_char
            };
            let ghost r_before = toks_of(r@);
            r.push(EncodeToken {
                line: dl,
                start_char: dc,
                length: cur.length,
                token_type: cur.token_type,
                token_modifiers: cur.token_modifiers,
            });
            proof {
                assert forall|k: int| 0 <= k < i + 1 implies (#[trigger] toks_of(r@)[k])
                    == delta_encode(toks_of(input@))[k] by {
                    if k < i {
                        assert(r_before[k] == toks_of(r@)[k]);
                    } else {
                        assert(toks_of(r@)[k] == tok_of(r@[k]));
                    }
                }
            }
        }
        i = i + 1;
    }
    proof {
        assert(toks_of(r@) =~= delta_encode(toks_of(input@)));
    }
    r
}

// ---------------------------------------------------------------------------
// Flattening
// ---------------------------------------------------------------------------

/// The flat integer sequence of a token list: five fields per token, in
/// protocol order.
pub open spec fn flatten_toks(s: Seq<Tok>) -> Seq<int>
    decreases s.len(),
{
    if s.len() == 0 {
        Seq::empty()
    } else {
        flatten_toks(s.drop_last()) + seq![
            s.last().line,
            s.last().col,
            s.last().len,
            s.last().cat,
            s.last().modifiers,
        ]
    }
}

/// Stage five, executed: flatten the records into one integer sequence.
fn flatten_tokens(toks: &Vec<EncodeToken>) -> (r: Vec<u32>)
    ensures
        r@.map_values(|v: u32| v as int) == flatten_toks(toks_of(toks@)),
{
    let mut r: Vec<u32> = Vec::new();
    let n = toks.len();
    let mut i: usize = 0;
    while i < n
        invariant
            i <= n,
            n == toks@.len(),
            r@.map_values(|v: u32| v as int) == flatten_toks(toks_of(toks@).take(i as int)),
        decreases n - i,
    {
        let mut five = toks[i].encode();
        let ghost r_before = r@;
        r.append(&mut five);
        proof {
            assert(toks_of(toks@).take(i + 1).drop_last() =~= toks_of(toks@).take(i as int));
            assert(toks_of(toks@).take(i + 1).last() == tok_of(toks@[i as int]));
            assert(r@.map_values(|v: u32| v as int) =~= flatten_toks(
                toks_of(toks@).take(i + 1),
            ));
        }
        i = i + 1;
    }
    proof {
        assert(toks_of(toks@).take(n as int) =~= toks_of(toks@));
    }
    r
}

// ---------------------------------------------------------------------------
// The whole encoder
// ---------------------------------------------------------------------------

/// The encoded token stream of a source and its syntax tree: the tagged
/// spans of the tree, absolutely positioned and split over lines, stably
/// sorted by (line, column), made relative, and flattened.
pub open spec fn token_stream(s: Seq<u8>, t: Seq<Node>) -> Seq<int> {
    flatten_toks(delta_encode(sorted_toks(all_toks(s, tagged_spans(t)))))
}

/// Encode the semantic tokens of a parsed source: every stage of the
/// encoder over the tree's tagged spans.
pub fn encode_token_stream(src: &[u8], tree: &SyntaxTree) -> (r: Vec<u32>)
    requires
        src@.len() <= u32::MAX,
        spans_in_range(tree@, src@.len() as int),
    ensures
        r@.map_values(|v: u32| v as int) == token_stream(src@, tree@),
{
    let spans = tree.collect_spans();
    proof {
        lemma_spans_upto_in_range(tree@, tree@.len() as int, src@.len() as int);
    }
    let abs = absolute_tokens(src, &spans);
    let sorted = sort_tokens(abs);
    proof {
        lemma_sorted_toks_sorted(toks_of(abs@));
    }
    let delta = delta_transform(sorted);
    flatten_tokens(&delta)
}

// ---------------------------------------------------------------------------
// Laws of the encoded stream
// ---------------------------------------------------------------------------

/// Whether an absolute token denotes a byte range of the source: some
/// offset within the source has the token's line and column, and the
/// token's length fits between it and the source's end.
pub open spec fn tok_in_range(s: Seq<u8>, tk: Tok) -> bool {
    exists|o: int|
        0 <= o && 0 <= tk.len && o + tk.len <= s.len() && tk.line == line_of(s, o)
            && tk.col == col_of(s, o)
}

proof fn lemma_extra_frags_in_range(s: Seq<u8>, p: int, end: int, line: int, cat: int)
    requires
        0 <= p,
        end <= s.len(),
        line == line_of(s, p),
    ensures
        forall|k: int|
            0 <= k < extra_frags(s, p, end, line, cat).len()
                ==> tok_in_range(s, #[trigger] extra_frags(s, p, end, line, cat)[k]),
    decreases end - p,
{
    lemma_seg_len_props(s, p, end);
    let l = seg_len(s, p, end);
    if !(p < 0 || p + l >= end) {
        lemma_line_of_next_segment(s, p, p + l);
        let p2 = p + l + 1;
        lemma_seg_len_props(s, p2, end);
        let first = Tok { line: line + 1, col: 0, len: seg_len(s, p2, end), cat, modifiers: 0 };
        assert(line_start(s, p2) == p2);
        assert(tok_in_range(s, first)) by {
            assert(0 <= p2 && 0 <= first.len && p2 + first.len <= s.len() && first.line
                == line_of(s, p2) && first.col == col_of(s, p2));
        }
        lemma_extra_frags_in_range(s, p2, end, line + 1, cat);
        assert forall|k: int| 0 <= k < extra_frags(s, p, end, line, cat).len() implies tok_in_range(
            s,
            #[trigger] extra_frags(s, p, end, line, cat)[k],
        ) by {
            if k > 0 {
                assert(extra_frags(s, p, end, line, cat)[k] == extra_frags(
                    s,
                    p2,
                    end,
                    line + 1,
                    cat,
                )[k - 1]);
            }
        }
    }
}

proof fn lemma_first_frag_in_range(s: Seq<u8>, sp: TaggedSpan)
    requires
        sp.offset + sp.length <= s.len(),
    ensures
        tok_in_range(s, first_frag(s, sp)),
{
    lemma_seg_len_props(s, sp.offset as int, sp.offset + sp.length);
    let o = sp.offset as int;
    assert(0 <= o && 0 <= first_frag(s, sp).len && o + first_frag(s, sp).len <= s.len()
        && first_frag(s, sp).line == line_of(s, o) && first_frag(s, sp).col == col_of(s, o));
}

/// Every absolute token produced for in-range spans denotes a byte range of
/// the source.
pub proof fn lemma_all_toks_in_range(s: Seq<u8>, spans: Seq<TaggedSpan>)
    requires
        forall|k: int|
            0 <= k < spans.len() ==> (#[trigger] spans[k]).offset + spans[k].length <= s.len(),
    ensures
        forall|k: int|
            0 <= k < all_toks(s, spans).len() ==> tok_in_range(s, #[trigger] all_toks(s, spans)[k]),
    decreases spans.len(),
{
    if spans.len() == 0 {
    } else {
        let head = spans.drop_last();
        let sp = spans.last();
        assert forall|k: int| 0 <= k < head.len() implies (#[trigger] head[k]).offset
            + head[k].length <= s.len() by {
            assert(head[k] == spans[k]);
        }
        lemma_all_toks_in_range(s, head);
        lemma_first_frag_in_range(s, sp);
        lemma_extra_frags_in_range(
            s,
            sp.offset as int,
            sp.offset + sp.length,
            line_of(s, sp.offset as int),
            crate::category::tag_index_spec(sp.tag),
        );
        assert forall|k: int| 0 <= k < all_toks(s, spans).len() implies tok_in_range(
            s,
            #[trigger] all_toks(s, spans)[k],
        ) by {
            let m = main_toks(s, spans);
            let e = extra_toks(s, spans);
            let mh = main_toks(s, head);
            let eh = extra_toks(s, head);
            let ex = span_extras(s, sp);
            if k < m.len() {
                assert(all_toks(s, spans)[k] == m[k]);
                if k < mh.len() {
                    assert(m[k] == mh[k]);
                    assert(all_toks(s, head)[k] == mh[k]);
                } else {
                    assert(m[k] == first_frag(s, sp));
                }
            } else {
                assert(all_toks(s, spans)[k] == e[k - m.len()]);
                if k - m.len() < eh.len() {
                    assert(e[k - m.len()] == eh[k - m.len()]);
                    assert(all_toks(s, head)[mh.len() + k - m.len()] == eh[k - m.len()]);
                } else {
                    assert(e[k - m.len()] == ex[k - m.len() - eh.len()]);
                }
            }
        }
    }
}

/// Coverage bound: for in-range spans, every token of the sorted absolute
/// list reconstructed from the delta stream denotes a byte range within
/// the source.
pub proof fn lemma_coverage_bound(s: Seq<u8>, spans: Seq<TaggedSpan>)
    requires
        forall|k: int|
            0 <= k < spans.len() ==> (#[trigger] spans[k]).offset + spans[k].length <= s.len(),
    ensures
        forall|k: int|
            0 <= k < delta_decode(delta_encode(sorted_toks(all_toks(s, spans)))).len()
                ==> tok_in_range(
                s,
                #[trigger] delta_decode(delta_encode(sorted_toks(all_toks(s, spans))))[k],
            ),
{
    let all = all_toks(s, spans);
    lemma_all_toks_in_range(s, spans);
    lemma_sorted_toks_sorted(all);
    lemma_delta_round_trip(sorted_toks(all));
    assert forall|k: int| 0 <= k < delta_decode(delta_encode(sorted_toks(all))).len()
        implies tok_in_range(
        s,
        #[trigger] delta_decode(delta_encode(sorted_toks(all)))[k],
    ) by {
        assert(delta_decode(delta_encode(sorted_toks(all)))[k] == sorted_toks(all)[k]);
        assert(all.contains(sorted_toks(all)[k]));
        let m = choose|m: int| 0 <= m < all.len() && all[m] == sorted_toks(all)[k];
    }
}

/// A flattened stream always holds five fields per token.
pub proof fn lemma_stream_multiple_of_five(s: Seq<Tok>)
    ensures
        flatten_toks(s).len() == 5 * s.len(),
    decreases s.len(),
{
    if s.len() > 0 {
        lemma_stream_multiple_of_five(s.drop_last());
    }
}

/// Whether a token's category field indexes the legend and its modifier
/// field is empty.
pub open spec fn tok_well_tagged(tk: Tok) -> bool {
    0 <= tk.cat < crate::category::TAG_COUNT as int && tk.modifiers == 0
}

proof fn lemma_extra_frags_tagged(s: Seq<u8>, p: int, end: int, line: int, cat: int)
    requires
        0 <= cat < crate::category::TAG_COUNT as int,
    ensures
        forall|k: int|
            0 <= k < extra_frags(s, p, end, line, cat).len()
                ==> tok_well_tagged(#[trigger] extra_frags(s, p, end, line, cat)[k]),
    decreases end - p,
{
    lemma_seg_len_nonneg(s, p, end);
    let l = seg_len(s, p, end);
    if !(p < 0 || p + l >= end) {
        let p2 = p + l + 1;
        lemma_extra_frags_tagged(s, p2, end, line + 1, cat);
        assert forall|k: int| 0 <= k < extra_frags(s, p, end, line, cat).len()
            implies tok_well_tagged(#[trigger] extra_frags(s, p, end, line, cat)[k]) by {
            if k > 0 {
                assert(extra_frags(s, p, end, line, cat)[k] == extra_frags(
                    s,
                    p2,
                    end,
                    line + 1,
                    cat,
                )[k - 1]);
            }
        }
    }
}

/// Every absolute token carries a category index into the legend and no
/// modifiers.
pub proof fn lemma_all_toks_tagged(s: Seq<u8>, spans: Seq<TaggedSpan>)
    ensures
        forall|k: int|
            0 <= k < all_toks(s, spans).len()
                ==> tok_well_tagged(#[trigger] all_toks(s, spans)[k]),
    decreases spans.len(),
{
    if spans.len() == 0 {
    } else {
        let head = spans.drop_last();
        let sp = spans.last();
        lemma_all_toks_tagged(s, head);
        crate::category::lemma_tag_index_bounds(sp.tag);
        lemma_extra_frags_tagged(
            s,
            sp.offset as int,
            sp.offset + sp.length,
            line_of(s, sp.offset as int),
            crate::category::tag_index_spec(sp.tag),
        );
        assert forall|k: int| 0 <= k < all_toks(s, spans).len() implies tok_well_tagged(
            #[trigger] all_toks(s, spans)[k],
        ) by {
            let m = main_toks(s, spans);
            let e = extra_toks(s, spans);
            let mh = main_toks(s, head);
            let eh = extra_toks(s, head);
            let ex = span_extras(s, sp);
            if k < m.len() {
                assert(all_toks(s, spans)[k] == m[k]);
                if k < mh.len() {
                    assert(m[k] == mh[k]);
                    assert(all_toks(s, head)[k] == mh[k]);
                } else {
                    assert(m[k] == first_frag(s, sp));
                }
            } else {
                assert(all_toks(s, spans)[k] == e[k - m.len()]);
                if k - m.len() < eh.len() {
                    assert(e[k - m.len()] == eh[k - m.len()]);
                    assert(all_toks(s, head)[mh.len() + k - m.len()] == eh[k - m.len()]);
                } else {
                    assert(e[k - m.len()] == ex[k - m.len() - eh.len()]);
                }
            }
        }
    }
}

/// Every emitted record's category indexes the legend and its modifier
/// field is empty: the two fields pass unchanged through the sort and the
/// delta transform.
pub proof fn lemma_stream_categories(s: Seq<u8>, spans: Seq<TaggedSpan>)
    ensures
        forall|k: int|
            0 <= k < delta_encode(sorted_toks(all_toks(s, spans))).len()
                ==> tok_well_tagged(#[trigger] delta_encode(sorted_toks(all_toks(s, spans)))[k]),
{
    let all = all_toks(s, spans);
    lemma_all_toks_tagged(s, spans);
    lemma_sorted_toks_sorted(all);
    assert forall|k: int| 0 <= k < delta_encode(sorted_toks(all)).len()
        implies tok_well_tagged(#[trigger] delta_encode(sorted_toks(all))[k]) by {
        assert(all.contains(sorted_toks(all)[k]));
        let m = choose|m: int| 0 <= m < all.len() && all[m] == sorted_toks(all)[k];
        if k > 0 {
            assert(all.contains(sorted_toks(all)[k - 1]));
            let m2 = choose|m2: int| 0 <= m2 < all.len() && all[m2] == sorted_toks(all)[k - 1];
            assert(delta_encode(sorted_toks(all))[k] == delta_tok(
                sorted_toks(all)[k - 1],
                sorted_toks(all)[k],
            ));
        }
    }
}

/// Sort order: the absolute positions reconstructed from the delta stream
/// are non-decreasing in (line, column).
pub proof fn lemma_reconstructed_sort_order(s: Seq<Tok>)
    ensures
        sorted_by_pos(delta_decode(delta_encode(sorted_toks(s)))),
{
    lemma_delta_round_trip(sorted_toks(s));
    lemma_sorted_toks_sorted(s);
}

} // verus!
