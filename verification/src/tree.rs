//! A plain arena mirror of a parsed syntax tree.
//!
//! The tree is stored as its pre-order traversal: a vector of nodes, each
//! carrying its kind, byte range and depth. Parent, sibling and leaf
//! relations are index computations over that sequence, so the contextual
//! tagging rules can be stated and verified over plain data.
//!
//! Following the grammar's navigation conventions, sibling steps skip trivia
//! (whitespace and comments), and leaf navigation visits only qualifying
//! leaves: childless nodes that are neither trivia nor error recovery nodes.

use vstd::prelude::*;

use crate::kind::NodeKind;
use crate::kind::is_trivia;
use crate::kind::is_trivia_spec;
use crate::kind::kind_of_code;
use crate::kind::kind_of_code_spec;

verus! {

/// One syntax node: its kind, byte range in the source, and depth below the
/// root in the tree (the root has depth 0).
#[derive(Debug, Copy, Clone, PartialEq, Eq, Structural)]
pub struct Node {
    /// The node's kind.
    pub kind: NodeKind,
    /// The byte offset of the node's span in the source.
    pub offset: usize,
    /// The byte length of the node's span.
    pub length: usize,
    /// The node's depth below the root.
    pub depth: usize,
}

/// A syntax tree in pre-order: node `0` is the root, and each node's
/// children follow it directly, one depth level further down.
#[derive(Debug)]
pub struct SyntaxTree {
    /// The nodes in pre-order.
    pub nodes: Vec<Node>,
}

impl View for SyntaxTree {
    type V = Seq<Node>;

    open spec fn view(&self) -> Seq<Node> {
        self.nodes@
    }
}

/// Every node's span lies within a source of `n` bytes.
pub open spec fn spans_in_range(t: Seq<Node>, n: int) -> bool {
    forall|i: int|
        0 <= i < t.len() ==> (#[trigger] t[i].offset) + t[i].length <= n
}

// ---------------------------------------------------------------------------
// Building the arena from raw parse records
// ---------------------------------------------------------------------------

/// The node described by one raw parse record
/// `(kind code, offset, length, depth)`.
pub open spec fn node_of_record(r: (u8, usize, usize, usize)) -> Node {
    Node { kind: kind_of_code_spec(r.0), offset: r.1, length: r.2, depth: r.3 }
}

/// The arena described by a raw parse record sequence.
pub open spec fn tree_of_records(rs: Seq<(u8, usize, usize, usize)>) -> Seq<Node> {
    rs.map_values(|r: (u8, usize, usize, usize)| node_of_record(r))
}

/// The span condition of [`spans_in_range`], stated on raw parse records.
pub open spec fn records_in_range(rs: Seq<(u8, usize, usize, usize)>, n: int) -> bool {
    forall|i: int|
        0 <= i < rs.len() ==> (#[trigger] rs[i].1) + rs[i].2 <= n
}

/// In-range records decode to an arena whose spans lie in range.
pub proof fn lemma_records_decode(rs: Seq<(u8, usize, usize, usize)>, n: int)
    ensures
        records_in_range(rs, n) ==> spans_in_range(tree_of_records(rs), n),
        tree_of_records(rs).len() == rs.len(),
{
    assert forall|i: int| 0 <= i < rs.len() implies #[trigger] tree_of_records(rs)[i]
        == node_of_record(rs[i]) by {}
}

/// Decode a raw parse record sequence into the arena it describes.
pub fn build_tree(records: &Vec<(u8, usize, usize, usize)>) -> (t: SyntaxTree)
    ensures
        t@ == tree_of_records(records@),
{
    let mut nodes: Vec<Node> = Vec::new();
    let n = records.len();
    let mut i: usize = 0;
    while i < n
        invariant
            n == records@.len(),
            i <= n,
            nodes@ == tree_of_records(records@.take(i as int)),
        decreases n - i,
    {
        let r = records[i];
        nodes.push(Node { kind: kind_of_code(r.0), offset: r.1, length: r.2, depth: r.3 });
        proof {
            assert(records@.take(i + 1 as int) =~= records@.take(i as int).push(records@[i as int]));
            assert(nodes@ =~= tree_of_records(records@.take(i + 1 as int)));
        }
        i = i + 1;
    }
    proof {
        assert(records@.take(n as int) =~= records@);
    }
    SyntaxTree { nodes }
}

// ---------------------------------------------------------------------------
// Navigation: spec functions
// ---------------------------------------------------------------------------

/// Whether node `i` has no children: the next node in pre-order, if any, is
/// not below it.
pub open spec fn is_childless(t: Seq<Node>, i: int) -> bool {
    i + 1 >= t.len() || t[i + 1].depth <= t[i].depth
}

/// Whether node `i` is a leaf that leaf navigation may yield: childless and
/// neither trivia nor an error recovery node.
pub open spec fn qualifying_leaf(t: Seq<Node>, i: int) -> bool {
    &&& 0 <= i < t.len()
    &&& is_childless(t, i)
    &&& !is_trivia_spec(t[i].kind)
    &&& t[i].kind != NodeKind::Error
}

/// The first position at or after `j` whose depth does not exceed `d`, or
/// the tree's length if there is none: the exclusive end of a subtree.
pub open spec fn subtree_end_from(t: Seq<Node>, d: int, j: int) -> int
    decreases t.len() - j,
{
    if j < 0 || j >= t.len() {
        t.len() as int
    } else if t[j].depth <= d {
        j
    } else {
        subtree_end_from(t, d, j + 1)
    }
}

/// The exclusive end of node `i`'s subtree in pre-order.
pub open spec fn subtree_end(t: Seq<Node>, i: int) -> int {
    subtree_end_from(t, t[i].depth as int, i + 1)
}

/// The last position at or before `j` whose depth is strictly below `d`:
/// the nearest enclosing node when scanning backwards.
pub open spec fn prev_shallower(t: Seq<Node>, d: int, j: int) -> Option<int>
    decreases j + 1,
{
    if j < 0 || j >= t.len() {
        Option::None
    } else if t[j].depth < d {
        Option::Some(j)
    } else {
        prev_shallower(t, d, j - 1)
    }
}

/// Node `i`'s parent: the nearest preceding node one level up.
pub open spec fn parent_of(t: Seq<Node>, i: int) -> Option<int> {
    prev_shallower(t, t[i].depth as int, i - 1)
}

/// The kind of node `i`'s parent, if `i` is not the root.
pub open spec fn parent_kind(t: Seq<Node>, i: int) -> Option<NodeKind> {
    match parent_of(t, i) {
        Option::Some(p) => Option::Some(t[p].kind),
        Option::None => Option::None,
    }
}

/// Scanning forwards from `j` at sibling depth `d`: the nearest following
/// non-trivia sibling, stopping at the end of the parent's subtree.
pub open spec fn next_sibling_from(t: Seq<Node>, d: int, j: int) -> Option<int>
    decreases t.len() - j,
{
    if j < 0 || j >= t.len() {
        Option::None
    } else if t[j].depth < d {
        Option::None
    } else if t[j].depth == d && !is_trivia_spec(t[j].kind) {
        Option::Some(j)
    } else {
        next_sibling_from(t, d, j + 1)
    }
}

/// Node `i`'s nearest following non-trivia sibling.
pub open spec fn next_sibling(t: Seq<Node>, i: int) -> Option<int> {
    next_sibling_from(t, t[i].depth as int, subtree_end(t, i))
}

/// The kind of node `i`'s nearest following non-trivia sibling.
pub open spec fn next_sibling_kind(t: Seq<Node>, i: int) -> Option<NodeKind> {
    match next_sibling(t, i) {
        Option::Some(s) => Option::Some(t[s].kind),
        Option::None => Option::None,
    }
}

/// The last qualifying leaf at or before `j`.
pub open spec fn prev_leaf_from(t: Seq<Node>, j: int) -> Option<int>
    decreases j + 1,
{
    if j < 0 || j >= t.len() {
        Option::None
    } else if qualifying_leaf(t, j) {
        Option::Some(j)
    } else {
        prev_leaf_from(t, j - 1)
    }
}

/// The qualifying leaf nearest before node `i` in document order. In
/// pre-order every leaf before `i`'s span has a smaller index, and no
/// ancestor of `i` is a leaf, so the backward index scan is exactly the
/// walk over preceding siblings and ancestors.
pub open spec fn prev_leaf(t: Seq<Node>, i: int) -> Option<int> {
    prev_leaf_from(t, i - 1)
}

/// The first qualifying leaf at or after `j`.
pub open spec fn next_leaf_from(t: Seq<Node>, j: int) -> Option<int>
    decreases t.len() - j,
{
    if j < 0 || j >= t.len() {
        Option::None
    } else if qualifying_leaf(t, j) {
        Option::Some(j)
    } else {
        next_leaf_from(t, j + 1)
    }
}

/// The qualifying leaf nearest after node `i`'s subtree in document order.
pub open spec fn next_leaf(t: Seq<Node>, i: int) -> Option<int> {
    next_leaf_from(t, subtree_end(t, i))
}

/// The first qualifying leaf of the half-open index range `[j, end)`.
pub open spec fn first_leaf_in(t: Seq<Node>, j: int, end: int) -> Option<int>
    decreases end - j,
{
    if j < 0 || j >= t.len() || j >= end {
        Option::None
    } else if qualifying_leaf(t, j) {
        Option::Some(j)
    } else {
        first_leaf_in(t, j + 1, end)
    }
}

/// The leftmost qualifying leaf contained in node `i`'s subtree (possibly
/// node `i` itself).
pub open spec fn leftmost_leaf(t: Seq<Node>, i: int) -> Option<int> {
    first_leaf_in(t, i, subtree_end(t, i))
}

// ---------------------------------------------------------------------------
// Bounds of the scans
// ---------------------------------------------------------------------------

/// The subtree scan never goes backwards and never beyond the tree.
pub proof fn lemma_subtree_end_from_bounds(t: Seq<Node>, d: int, j: int)
    requires
        0 <= j <= t.len(),
    ensures
        j <= subtree_end_from(t, d, j) <= t.len(),
    decreases t.len() - j,
{
    if j < t.len() && t[j].depth > d {
        lemma_subtree_end_from_bounds(t, d, j + 1);
    }
}

/// A node's subtree ends after the node and within the tree.
pub proof fn lemma_subtree_end_bounds(t: Seq<Node>, i: int)
    requires
        0 <= i < t.len(),
    ensures
        i < subtree_end(t, i) <= t.len(),
{
    lemma_subtree_end_from_bounds(t, t[i].depth as int, i + 1);
}

/// A backward shallower scan lands at or before its start.
pub proof fn lemma_prev_shallower_bounds(t: Seq<Node>, d: int, j: int)
    ensures
        match prev_shallower(t, d, j) {
            Option::Some(k) => 0 <= k <= j && k < t.len() && t[k].depth < d,
            Option::None => true,
        },
    decreases j + 1,
{
    if !(j < 0 || j >= t.len()) && !(t[j].depth < d) {
        lemma_prev_shallower_bounds(t, d, j - 1);
    }
}

/// A forward sibling scan lands at or after its start, on a non-trivia node
/// of the sibling depth.
pub proof fn lemma_next_sibling_from_bounds(t: Seq<Node>, d: int, j: int)
    ensures
        match next_sibling_from(t, d, j) {
            Option::Some(k) => j <= k < t.len() && t[k].depth == d
                && !is_trivia_spec(t[k].kind),
            Option::None => true,
        },
    decreases t.len() - j,
{
    if !(j < 0 || j >= t.len()) && !(t[j].depth < d)
        && !(t[j].depth == d && !is_trivia_spec(t[j].kind)) {
        lemma_next_sibling_from_bounds(t, d, j + 1);
    }
}

/// A following sibling comes strictly after the node itself.
pub proof fn lemma_next_sibling_bounds(t: Seq<Node>, i: int)
    requires
        0 <= i < t.len(),
    ensures
        match next_sibling(t, i) {
            Option::Some(k) => i < k < t.len() && t[k].depth == t[i].depth
                && !is_trivia_spec(t[k].kind),
            Option::None => true,
        },
{
    lemma_subtree_end_bounds(t, i);
    lemma_next_sibling_from_bounds(t, t[i].depth as int, subtree_end(t, i));
}

/// A backward leaf scan lands at or before its start, on a qualifying leaf.
pub proof fn lemma_prev_leaf_from_bounds(t: Seq<Node>, j: int)
    ensures
        match prev_leaf_from(t, j) {
            Option::Some(k) => 0 <= k <= j && qualifying_leaf(t, k),
            Option::None => true,
        },
    decreases j + 1,
{
    if !(j < 0 || j >= t.len()) && !qualifying_leaf(t, j) {
        lemma_prev_leaf_from_bounds(t, j - 1);
    }
}

/// The leaf before a node comes strictly before it.
pub proof fn lemma_prev_leaf_bounds(t: Seq<Node>, i: int)
    ensures
        match prev_leaf(t, i) {
            Option::Some(k) => 0 <= k < i && k < t.len() && qualifying_leaf(t, k),
            Option::None => true,
        },
{
    lemma_prev_leaf_from_bounds(t, i - 1);
}

/// A forward leaf scan lands at or after its start, on a qualifying leaf.
pub proof fn lemma_next_leaf_from_bounds(t: Seq<Node>, j: int)
    ensures
        match next_leaf_from(t, j) {
            Option::Some(k) => j <= k < t.len() && qualifying_leaf(t, k),
            Option::None => true,
        },
    decreases t.len() - j,
{
    if !(j < 0 || j >= t.len()) && !qualifying_leaf(t, j) {
        lemma_next_leaf_from_bounds(t, j + 1);
    }
}

/// The leaf after a node comes strictly after it.
pub proof fn lemma_next_leaf_bounds(t: Seq<Node>, i: int)
    requires
        0 <= i < t.len(),
    ensures
        match next_leaf(t, i) {
            Option::Some(k) => i < k < t.len() && qualifying_leaf(t, k),
            Option::None => true,
        },
{
    lemma_subtree_end_bounds(t, i);
    lemma_next_leaf_from_bounds(t, subtree_end(t, i));
}

/// A bounded forward leaf scan stays in its range.
pub proof fn lemma_first_leaf_in_bounds(t: Seq<Node>, j: int, end: int)
    ensures
        match first_leaf_in(t, j, end) {
            Option::Some(k) => j <= k < end && k < t.len() && qualifying_leaf(t, k),
            Option::None => true,
        },
    decreases end - j,
{
    if !(j < 0 || j >= t.len() || j >= end) && !qualifying_leaf(t, j) {
        lemma_first_leaf_in_bounds(t, j + 1, end);
    }
}

/// The leftmost leaf of a subtree lies at or after its root.
pub proof fn lemma_leftmost_leaf_bounds(t: Seq<Node>, i: int)
    requires
        0 <= i < t.len(),
    ensures
        match leftmost_leaf(t, i) {
            Option::Some(k) => i <= k < t.len() && qualifying_leaf(t, k),
            Option::None => true,
        },
{
    lemma_subtree_end_bounds(t, i);
    lemma_first_leaf_in_bounds(t, i, subtree_end(t, i));
}

// ---------------------------------------------------------------------------
// Navigation: executable scans
// ---------------------------------------------------------------------------

impl SyntaxTree {
    /// The number of nodes.
    pub fn len(&self) -> (n: usize)
        ensures
            n == self@.len(),
    {
        self.nodes.len()
    }

    /// Whether node `i` has no children.
    pub fn is_childless(&self, i: usize) -> (r: bool)
        requires
            i < self@.len(),
        ensures
            r == is_childless(self@, i as int),
    {
        let n = self.nodes.len();
        i + 1 >= n || self.nodes[i + 1].depth <= self.nodes[i].depth
    }

    /// Whether node `i` is a leaf that leaf navigation may yield.
    pub fn is_qualifying_leaf(&self, i: usize) -> (r: bool)
        requires
            i < self@.len(),
        ensures
            r == qualifying_leaf(self@, i as int),
    {
        self.is_childless(i) && !is_trivia(self.nodes[i].kind)
            && !matches!(self.nodes[i].kind, NodeKind::Error)
    }

    /// The exclusive end of node `i`'s subtree.
    pub fn subtree_end(&self, i: usize) -> (r: usize)
        requires
            i < self@.len(),
        ensures
            r == subtree_end(self@, i as int),
    {
        let n = self.nodes.len();
        let d = self.nodes[i].depth;
        let mut j: usize = i + 1;
        while j < n && self.nodes[j].depth > d
            invariant
                i < j <= n,
                n == self@.len(),
                i < self@.len(),
                d == self@[i as int].depth,
                subtree_end(self@, i as int) == subtree_end_from(self@, d as int, j as int),
            decreases n - j,
        {
            j = j + 1;
        }
        j
    }

    /// Node `i`'s parent index, if `i` is not the root.
    pub fn parent_of(&self, i: usize) -> (r: Option<usize>)
        requires
            i < self@.len(),
        ensures
            match r {
                Option::Some(p) => parent_of(self@, i as int) == Option::Some(p as int)
                    && p < self@.len(),
                Option::None => parent_of(self@, i as int) is None,
            },
    {
        let d = self.nodes[i].depth;
        let mut j: usize = i;
        while j > 0
            invariant
                j <= i < self@.len(),
                d == self@[i as int].depth,
                parent_of(self@, i as int) == prev_shallower(self@, d as int, j as int - 1),
            decreases j,
        {
            j = j - 1;
            if self.nodes[j].depth < d {
                return Option::Some(j);
            }
        }
        Option::None
    }

    /// The kind of node `i`'s parent, if any.
    pub fn parent_kind(&self, i: usize) -> (r: Option<NodeKind>)
        requires
            i < self@.len(),
        ensures
            r == parent_kind(self@, i as int),
    {
        match self.parent_of(i) {
            Option::Some(p) => Option::Some(self.nodes[p].kind),
            Option::None => Option::None,
        }
    }

    /// Node `i`'s nearest following non-trivia sibling.
    pub fn next_sibling(&self, i: usize) -> (r: Option<usize>)
        requires
            i < self@.len(),
        ensures
            match r {
                Option::Some(s) => next_sibling(self@, i as int) == Option::Some(s as int)
                    && s < self@.len(),
                Option::None => next_sibling(self@, i as int) is None,
            },
    {
        let n = self.nodes.len();
        let d = self.nodes[i].depth;
        let mut j: usize = self.subtree_end(i);
        proof {
            lemma_subtree_end_bounds(self@, i as int);
        }
        while j < n
            invariant
                j <= n,
                n == self@.len(),
                i < self@.len(),
                d == self@[i as int].depth,
                next_sibling(self@, i as int) == next_sibling_from(self@, d as int, j as int),
            decreases n - j,
        {
            if self.nodes[j].depth < d {
                return Option::None;
            }
            if self.nodes[j].depth == d && !is_trivia(self.nodes[j].kind) {
                return Option::Some(j);
            }
            j = j + 1;
        }
        Option::None
    }

    /// The kind of node `i`'s nearest following non-trivia sibling, if any.
    pub fn next_sibling_kind(&self, i: usize) -> (r: Option<NodeKind>)
        requires
            i < self@.len(),
        ensures
            r == next_sibling_kind(self@, i as int),
    {
        match self.next_sibling(i) {
            Option::Some(s) => Option::Some(self.nodes[s].kind),
            Option::None => Option::None,
        }
    }

    /// The qualifying leaf nearest before node `i` in document order.
    pub fn prev_leaf(&self, i: usize) -> (r: Option<usize>)
        requires
            i < self@.len(),
        ensures
            match r {
                Option::Some(k) => prev_leaf(self@, i as int) == Option::Some(k as int)
                    && k < self@.len(),
                Option::None => prev_leaf(self@, i as int) is None,
            },
    {
        let mut j: usize = i;
        while j > 0
            invariant
                j <= i < self@.len(),
                prev_leaf(self@, i as int) == prev_leaf_from(self@, j as int - 1),
            decreases j,
        {
            j = j - 1;
            if self.is_qualifying_leaf(j) {
                return Option::Some(j);
            }
        }
        Option::None
    }

    /// The qualifying leaf nearest after node `i`'s subtree in document
    /// order.
    pub fn next_leaf(&self, i: usize) -> (r: Option<usize>)
        requires
            i < self@.len(),
        ensures
            match r {
                Option::Some(k) => next_leaf(self@, i as int) == Option::Some(k as int)
                    && k < self@.len(),
                Option::None => next_leaf(self@, i as int) is None,
            },
    {
        let n = self.nodes.len();
        let mut j: usize = self.subtree_end(i);
        proof {
            lemma_subtree_end_bounds(self@, i as int);
        }
        while j < n
            invariant
                j <= n,
                n == self@.len(),
                i < self@.len(),
                next_leaf(self@, i as int) == next_leaf_from(self@, j as int),
            decreases n - j,
        {
            if self.is_qualifying_leaf(j) {
                return Option::Some(j);
            }
            j = j + 1;
        }
        Option::None
    }

    /// The leftmost qualifying leaf contained in node `i`'s subtree.
    pub fn leftmost_leaf(&self, i: usize) -> (r: Option<usize>)
        requires
            i < self@.len(),
        ensures
            match r {
                Option::Some(k) => leftmost_leaf(self@, i as int) == Option::Some(k as int)
                    && k < self@.len(),
                Option::None => leftmost_leaf(self@, i as int) is None,
            },
    {
        let end = self.subtree_end(i);
        proof {
            lemma_subtree_end_bounds(self@, i as int);
        }
        let mut j: usize = i;
        while j < end
            invariant
                i <= j <= end,
                end == subtree_end(self@, i as int),
                end <= self@.len(),
                i < self@.len(),
                leftmost_leaf(self@, i as int) == first_leaf_in(self@, j as int, end as int),
            decreases end - j,
        {
            if self.is_qualifying_leaf(j) {
                return Option::Some(j);
            }
            j = j + 1;
        }
        Option::None
    }
}

} // verus!
