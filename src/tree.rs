//! The concrete syntax tree as an arena: tokens and nodes addressed by index,
//! every child of a node stored before the node itself.

use vstd::prelude::*;
use crate::kind::SyntaxKind;

verus! {

/// A token of the source: its kind and its byte range.
#[derive(Clone, Copy, Debug, PartialEq, Eq, Structural)]
pub struct TokenData {
    pub kind: SyntaxKind,
    pub start: usize,
    pub end: usize,
}

/// A child of a node: another node or a token, by index into the arena.
#[derive(Clone, Copy, Debug, PartialEq, Eq, Structural)]
pub enum ChildRef {
    Node(usize),
    Token(usize),
}

/// A node of the arena.
#[derive(Debug)]
pub struct NodeData {
    pub kind: SyntaxKind,
    pub children: Vec<ChildRef>,
}

/// The whole tree of one parse: the source, its tokens and the nodes over them.
#[derive(Debug)]
pub struct SyntaxTree {
    pub source: Vec<u8>,
    pub tokens: Vec<TokenData>,
    pub nodes: Vec<NodeData>,
    pub root: usize,
}

/// A child that may stand in node `i` of an arena with `ntokens` tokens.
pub open spec fn child_ok(c: ChildRef, i: int, ntokens: int) -> bool {
    match c {
        ChildRef::Node(n) => n < i,
        ChildRef::Token(t) => t < ntokens,
    }
}

/// Token ranges that lie in a source of `len` bytes.
pub open spec fn ranges_ok(tokens: Seq<TokenData>, len: int) -> bool {
    forall|t: int| 0 <= t < tokens.len() ==> #[trigger] tokens[t].start <= tokens[t].end <= len
}

/// The token indices under node `i`, left to right.
pub open spec fn node_leaves(nodes: Seq<NodeData>, i: int) -> Seq<int>
    decreases i, if 0 <= i < nodes.len() { nodes[i].children@.len() + 1 } else { 0 },
{
    if 0 <= i < nodes.len() {
        children_leaves(nodes, i, nodes[i].children@)
    } else {
        seq![]
    }
}

/// The token indices under a run of children of a node `i` (node children
/// from `i` on are not followed).
pub open spec fn children_leaves(nodes: Seq<NodeData>, i: int, cs: Seq<ChildRef>) -> Seq<int>
    decreases i, cs.len(),
{
    if cs.len() == 0 {
        seq![]
    } else {
        children_leaves(nodes, i, cs.drop_last()) + match cs.last() {
            ChildRef::Node(n) => if 0 <= n < i { node_leaves(nodes, n as int) } else { seq![] },
            ChildRef::Token(t) => seq![t as int],
        }
    }
}

/// The tokens at the given indices, in their order.
pub open spec fn tokens_at(tokens: Seq<TokenData>, ids: Seq<int>) -> Seq<TokenData> {
    Seq::new(ids.len(), |k: int| tokens[ids[k]])
}

/// The first of the given tokens that is not trivia.
pub open spec fn first_significant(tokens: Seq<TokenData>, ids: Seq<int>) -> Option<int>
    decreases ids.len(),
{
    if ids.len() == 0 {
        None
    } else if !tokens[ids[0]].kind.spec_is_trivia() {
        Some(ids[0])
    } else {
        first_significant(tokens, ids.drop_first())
    }
}

/// The last of the given tokens that is not trivia.
pub open spec fn last_significant(tokens: Seq<TokenData>, ids: Seq<int>) -> Option<int>
    decreases ids.len(),
{
    if ids.len() == 0 {
        None
    } else if !tokens[ids.last()].kind.spec_is_trivia() {
        Some(ids.last())
    } else {
        last_significant(tokens, ids.drop_last())
    }
}

pub proof fn lemma_first_significant_concat(tokens: Seq<TokenData>, a: Seq<int>, b: Seq<int>)
    ensures
        first_significant(tokens, a + b) == (if first_significant(tokens, a) is Some {
            first_significant(tokens, a)
        } else {
            first_significant(tokens, b)
        }),
    decreases a.len(),
{
    if a.len() == 0 {
        assert(a + b =~= b);
    } else {
        assert((a + b)[0] == a[0]);
        assert((a + b).drop_first() =~= a.drop_first() + b);
        lemma_first_significant_concat(tokens, a.drop_first(), b);
    }
}

pub proof fn lemma_last_significant_concat(tokens: Seq<TokenData>, a: Seq<int>, b: Seq<int>)
    ensures
        last_significant(tokens, a + b) == (if last_significant(tokens, b) is Some {
            last_significant(tokens, b)
        } else {
            last_significant(tokens, a)
        }),
    decreases b.len(),
{
    if b.len() == 0 {
        assert(a + b =~= a);
    } else {
        assert((a + b).last() == b.last());
        assert((a + b).drop_last() =~= a + b.drop_last());
        lemma_last_significant_concat(tokens, a, b.drop_last());
    }
}

/// The indices `0 .. n`.
pub open spec fn index_run(n: int) -> Seq<int> {
    Seq::new(n as nat, |k: int| k)
}

/// The bytes of a run of tokens, one after another.
pub open spec fn tokens_text(source: Seq<u8>, tokens: Seq<TokenData>) -> Seq<u8>
    decreases tokens.len(),
{
    if tokens.len() == 0 {
        seq![]
    } else {
        tokens_text(source, tokens.drop_last()) + source.subrange(
            tokens.last().start as int,
            tokens.last().end as int,
        )
    }
}

/// The tokens cover the first `len` bytes of a source one after another, with no gap and no
/// overlap.
pub open spec fn tiles(tokens: Seq<TokenData>, len: int) -> bool {
    &&& forall|t: int| 0 <= t < tokens.len() ==> #[trigger] tokens[t].start <= tokens[t].end
    &&& forall|t: int| 0 < t < tokens.len() ==> #[trigger] tokens[t].start == tokens[t - 1].end
    &&& tokens.len() == 0 ==> len == 0
    &&& tokens.len() > 0 ==> tokens[0].start == 0 && tokens.last().end == len
}

impl SyntaxTree {
    pub open spec fn wf(&self) -> bool {
        &&& self.root < self.nodes@.len()
        &&& ranges_ok(self.tokens@, self.source@.len() as int)
        &&& forall|i: int, j: int|
            0 <= i < self.nodes@.len() && 0 <= j < self.nodes@[i].children@.len() ==> child_ok(
                #[trigger] self.nodes@[i].children@[j],
                i,
                self.tokens@.len() as int,
            )
    }

    /// The token indices under node `i`.
    pub open spec fn leaves(&self, i: int) -> Seq<int> {
        node_leaves(self.nodes@, i)
    }

    /// The tokens under node `i`, in order.
    pub open spec fn leaf_tokens(&self, i: int) -> Seq<TokenData> {
        tokens_at(self.tokens@, self.leaves(i))
    }

    /// The text under node `i`: its tokens' bytes one after another.
    pub open spec fn text_of(&self, i: int) -> Seq<u8> {
        tokens_text(self.source@, self.leaf_tokens(i))
    }
}

/// Leaves are fixed once the nodes they depend on are: adding nodes at the end
/// of the arena changes no existing node's leaves.
pub proof fn lemma_leaves_extend(nodes: Seq<NodeData>, more: Seq<NodeData>, i: int)
    requires
        nodes.len() <= more.len(),
        forall|k: int| 0 <= k < nodes.len() ==> #[trigger] more[k] == nodes[k],
    ensures
        0 <= i < nodes.len() ==> node_leaves(more, i) == node_leaves(nodes, i),
    decreases i, if 0 <= i < nodes.len() { nodes[i].children@.len() + 2 } else { 0 },
{
    if 0 <= i < nodes.len() {
        lemma_children_leaves_extend(nodes, more, i, nodes[i].children@);
    }
}

pub proof fn lemma_children_leaves_extend(
    nodes: Seq<NodeData>,
    more: Seq<NodeData>,
    i: int,
    cs: Seq<ChildRef>,
)
    requires
        nodes.len() <= more.len(),
        forall|k: int| 0 <= k < nodes.len() ==> #[trigger] more[k] == nodes[k],
        i <= nodes.len(),
    ensures
        children_leaves(more, i, cs) == children_leaves(nodes, i, cs),
    decreases i, cs.len() + 1,
{
    if cs.len() > 0 {
        lemma_children_leaves_extend(nodes, more, i, cs.drop_last());
        match cs.last() {
            ChildRef::Node(n) => {
                if 0 <= n < i {
                    lemma_leaves_extend(nodes, more, n as int);
                }
            },
            ChildRef::Token(_) => {},
        }
    }
}

/// Tokens that tile a source spell it out exactly.
pub proof fn lemma_tiles_text(source: Seq<u8>, tokens: Seq<TokenData>, len: int)
    requires
        tiles(tokens, len),
        len <= source.len(),
    ensures
        tokens_text(source, tokens) =~= source.subrange(0, len),
    decreases tokens.len(),
{
    if tokens.len() > 0 {
        let init = tokens.drop_last();
        let last = tokens.last();
        let mid = last.start as int;
        assert forall|t: int| 0 <= t < init.len() implies #[trigger] init[t].start <= init[t].end by {
            assert(init[t] == tokens[t]);
        }
        assert forall|t: int| 0 < t < init.len() implies #[trigger] init[t].start == init[t
            - 1].end by {
            assert(init[t] == tokens[t]);
            assert(init[t - 1] == tokens[t - 1]);
        }
        if init.len() > 0 {
            assert(init.last() == tokens[tokens.len() - 2]);
        }
        assert(tiles(init, mid));
        lemma_tiles_text(source, init, mid);
        assert(source.subrange(0, mid) + source.subrange(mid, len) =~= source.subrange(0, len));
    }
}

} // verus!
