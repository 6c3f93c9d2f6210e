//! Handles into a built tree: a node or a token of it, cheap to copy, and
//! always pointing at something that is there.

use vstd::prelude::*;
use crate::kind::SyntaxKind;
use crate::tree::{
    children_leaves, first_significant, last_significant, lemma_first_significant_concat,
    lemma_last_significant_concat, tokens_at, tokens_text, ChildRef, SyntaxTree, TokenData,
};

verus! {

/// A node of a tree.
#[derive(Clone, Copy, Debug)]
pub struct SyntaxNode<'a> {
    tree: &'a SyntaxTree,
    id: usize,
}

/// A token of a tree.
#[derive(Clone, Copy, Debug)]
pub struct SyntaxToken<'a> {
    tree: &'a SyntaxTree,
    id: usize,
}

/// A child of a node.
#[derive(Clone, Copy, Debug)]
pub enum SyntaxElement<'a> {
    Node(SyntaxNode<'a>),
    Token(SyntaxToken<'a>),
}

impl SyntaxTree {
    /// The root node of the tree.
    pub fn root_node<'a>(&'a self) -> (r: SyntaxNode<'a>)
        requires
            self.wf(),
        ensures
            r.tree_view() == *self,
            r.id_view() == self.root,
    {
        SyntaxNode { tree: self, id: self.root }
    }
}

impl<'a> SyntaxNode<'a> {
    #[verifier::type_invariant]
    spec fn inv(self) -> bool {
        self.tree.wf() && self.id < self.tree.nodes@.len()
    }

    /// The tree this node belongs to.
    pub closed spec fn tree_view(self) -> SyntaxTree {
        *self.tree
    }

    /// The index of this node in its tree's arena.
    pub closed spec fn id_view(self) -> usize {
        self.id
    }

    pub open spec fn kind_view(self) -> SyntaxKind {
        self.tree_view().nodes@[self.id_view() as int].kind
    }

    pub open spec fn children_view(self) -> Seq<ChildRef> {
        self.tree_view().nodes@[self.id_view() as int].children@
    }

    /// The bytes under this node.
    pub open spec fn text_view(self) -> Seq<u8> {
        self.tree_view().text_of(self.id_view() as int)
    }

    pub fn kind(&self) -> (r: SyntaxKind)
        ensures
            r == self.kind_view(),
            self.tree_view().wf(),
            self.id_view() < self.tree_view().nodes@.len(),
    {
        proof {
            use_type_invariant(self);
        }
        self.tree.nodes[self.id].kind
    }

    /// The number of children, nodes and tokens together.
    pub fn child_count(&self) -> (r: usize)
        ensures
            r == self.children_view().len(),
    {
        proof {
            use_type_invariant(self);
        }
        self.tree.nodes[self.id].children.len()
    }

    /// The child at position `i`.
    pub fn child(&self, i: usize) -> (r: SyntaxElement<'a>)
        requires
            i < self.children_view().len(),
        ensures
            r.tree_view() == self.tree_view(),
            r.child_ref() == self.children_view()[i as int],
    {
        proof {
            use_type_invariant(self);
        }
        let c = self.tree.nodes[self.id].children[i];
        proof {
            assert(crate::tree::child_ok(self.tree.nodes@[self.id as int].children@[i as int], self.id as int, self.tree.tokens@.len() as int));
        }
        match c {
            ChildRef::Node(n) => SyntaxElement::Node(SyntaxNode { tree: self.tree, id: n }),
            ChildRef::Token(t) => SyntaxElement::Token(SyntaxToken { tree: self.tree, id: t }),
        }
    }

    /// The byte range from the start of the first token under this node that
    /// is not trivia to the end of the last such token; `None` for a node
    /// with no such token.
    pub open spec fn range_view(self) -> Option<(usize, usize)> {
        let t = self.tree_view();
        let l = t.leaves(self.id_view() as int);
        match (first_significant(t.tokens@, l), last_significant(t.tokens@, l)) {
            (Some(a), Some(b)) => Some((t.tokens@[a].start, t.tokens@[b].end)),
            _ => None,
        }
    }

    pub fn text_range(&self) -> (r: Option<(usize, usize)>)
        ensures
            r == self.range_view(),
    {
        proof {
            use_type_invariant(self);
        }
        match first_leaf(self.tree, self.id) {
            None => None,
            Some(first) => match last_leaf(self.tree, self.id) {
                Some(last) => Some((self.tree.tokens[first].start, self.tree.tokens[last].end)),
                None => None,
            },
        }
    }

    /// The text under this node: every byte of its tokens, trivia included.
    pub fn text(&self) -> (r: Vec<u8>)
        ensures
            r@ == self.text_view(),
    {
        proof {
            use_type_invariant(self);
        }
        let mut out: Vec<u8> = Vec::new();
        collect_text(self.tree, self.id, &mut out);
        assert(out@ =~= self.text_view());
        out
    }
}

impl<'a> SyntaxToken<'a> {
    #[verifier::type_invariant]
    spec fn inv(self) -> bool {
        self.tree.wf() && self.id < self.tree.tokens@.len()
    }

    pub closed spec fn tree_view(self) -> SyntaxTree {
        *self.tree
    }

    pub closed spec fn id_view(self) -> usize {
        self.id
    }

    pub open spec fn data_view(self) -> TokenData {
        self.tree_view().tokens@[self.id_view() as int]
    }

    pub open spec fn kind_view(self) -> SyntaxKind {
        self.data_view().kind
    }

    pub fn kind(&self) -> (r: SyntaxKind)
        ensures
            r == self.kind_view(),
    {
        proof {
            use_type_invariant(self);
        }
        self.tree.tokens[self.id].kind
    }

    /// The byte range of the token, start and end.
    pub fn text_range(&self) -> (r: (usize, usize))
        ensures
            r.0 == self.data_view().start,
            r.1 == self.data_view().end,
    {
        proof {
            use_type_invariant(self);
        }
        (self.tree.tokens[self.id].start, self.tree.tokens[self.id].end)
    }

    /// The bytes of the token.
    pub fn text(&self) -> (r: Vec<u8>)
        ensures
            r@ == self.tree_view().source@.subrange(
                self.data_view().start as int,
                self.data_view().end as int,
            ),
    {
        proof {
            use_type_invariant(self);
        }
        let tok = self.tree.tokens[self.id];
        let mut out: Vec<u8> = Vec::new();
        push_range(&self.tree.source, tok.start, tok.end, &mut out);
        assert(out@ =~= self.tree.source@.subrange(tok.start as int, tok.end as int));
        out
    }
}

impl<'a> SyntaxElement<'a> {
    pub open spec fn tree_view(self) -> SyntaxTree {
        match self {
            SyntaxElement::Node(n) => n.tree_view(),
            SyntaxElement::Token(t) => t.tree_view(),
        }
    }

    /// The arena reference this element stands for.
    pub open spec fn child_ref(self) -> ChildRef {
        match self {
            SyntaxElement::Node(n) => ChildRef::Node(n.id_view()),
            SyntaxElement::Token(t) => ChildRef::Token(t.id_view()),
        }
    }
}

fn push_range(source: &Vec<u8>, start: usize, end: usize, out: &mut Vec<u8>)
    requires
        start <= end <= source@.len(),
    ensures
        final(out)@ == old(out)@ + source@.subrange(start as int, end as int),
{
    let mut b = start;
    while b < end
        invariant
            start <= b <= end <= source@.len(),
            out@ == old(out)@ + source@.subrange(start as int, b as int),
        decreases end - b,
    {
        out.push(source[b]);
        proof {
            assert(source@.subrange(start as int, b + 1) =~= source@.subrange(start as int, b as int).push(source@[b as int]));
        }
        b = b + 1;
    }
}

proof fn lemma_text_concat(source: Seq<u8>, a: Seq<TokenData>, b: Seq<TokenData>)
    ensures
        tokens_text(source, a + b) == tokens_text(source, a) + tokens_text(source, b),
    decreases b.len(),
{
    if b.len() == 0 {
        assert(a + b =~= a);
        assert(tokens_text(source, a) + tokens_text(source, b) =~= tokens_text(source, a));
    } else {
        lemma_text_concat(source, a, b.drop_last());
        assert((a + b).drop_last() =~= a + b.drop_last());
        assert((a + b).last() == b.last());
        assert(tokens_text(source, a + b) =~= tokens_text(source, a) + tokens_text(source, b));
    }
}

proof fn lemma_children_leaves_concat(nodes: Seq<crate::tree::NodeData>, i: int, a: Seq<ChildRef>, b: Seq<ChildRef>)
    ensures
        children_leaves(nodes, i, a + b) == children_leaves(nodes, i, a) + children_leaves(nodes, i, b),
    decreases b.len(),
{
    if b.len() == 0 {
        assert(a + b =~= a);
        assert(children_leaves(nodes, i, b) =~= Seq::<int>::empty());
        assert(children_leaves(nodes, i, a) + children_leaves(nodes, i, b) =~= children_leaves(nodes, i, a));
    } else {
        lemma_children_leaves_concat(nodes, i, a, b.drop_last());
        assert((a + b).drop_last() =~= a + b.drop_last());
        assert((a + b).last() == b.last());
        assert(children_leaves(nodes, i, a + b) =~= children_leaves(nodes, i, a) + children_leaves(nodes, i, b));
    }
}

/// The first token under node `i` that is not trivia.
fn first_leaf(tree: &SyntaxTree, i: usize) -> (r: Option<usize>)
    requires
        tree.wf(),
        i < tree.nodes@.len(),
    ensures
        r is None ==> first_significant(tree.tokens@, tree.leaves(i as int)) is None,
        r matches Some(t) ==> t < tree.tokens@.len() && first_significant(tree.tokens@, tree.leaves(i as int)) == Some(t as int),
    decreases i,
{
    let ghost nodes = tree.nodes@;
    let ghost toks = tree.tokens@;
    let children = &tree.nodes[i].children;
    let ghost cs = children@;
    let mut k: usize = 0;
    while k < children.len()
        invariant
            tree.wf(),
            i < tree.nodes@.len(),
            nodes == tree.nodes@,
            toks == tree.tokens@,
            children@ == cs,
            cs == tree.nodes@[i as int].children@,
            0 <= k <= cs.len(),
            first_significant(toks, children_leaves(nodes, i as int, cs.subrange(0, k as int))) is None,
        decreases cs.len() - k,
    {
        let c = children[k];
        let ghost before = children_leaves(nodes, i as int, cs.subrange(0, k as int));
        let ghost added: Seq<int> = match c {
            ChildRef::Node(n) => tree.leaves(n as int),
            ChildRef::Token(t) => seq![t as int],
        };
        proof {
            assert(crate::tree::child_ok(cs[k as int], i as int, toks.len() as int));
            assert(cs.subrange(0, k + 1).drop_last() =~= cs.subrange(0, k as int));
            assert(cs.subrange(0, k + 1).last() == c);
            assert(children_leaves(nodes, i as int, cs.subrange(0, k + 1)) == before + added);
            lemma_first_significant_concat(toks, before, added);
            lemma_children_leaves_concat(nodes, i as int, cs.subrange(0, k + 1), cs.subrange(k + 1, cs.len() as int));
            assert(cs.subrange(0, k + 1) + cs.subrange(k + 1, cs.len() as int) =~= cs);
            lemma_first_significant_concat(toks, before + added, children_leaves(nodes, i as int, cs.subrange(k + 1, cs.len() as int)));
        }
        match c {
            ChildRef::Token(t) => {
                proof {
                    assert(seq![t as int].drop_first() =~= Seq::<int>::empty());
                    assert(seq![t as int][0] == t as int);
                    assert(first_significant(toks, Seq::<int>::empty()) is None);
                }
                if !tree.tokens[t].kind.is_trivia() {
                    return Some(t);
                }
            },
            ChildRef::Node(n) => {
                match first_leaf(tree, n) {
                    Some(t) => {
                        return Some(t);
                    },
                    None => {},
                }
            },
        }
        k = k + 1;
    }
    proof {
        assert(cs.subrange(0, cs.len() as int) =~= cs);
    }
    None
}

/// The last token under node `i` that is not trivia.
fn last_leaf(tree: &SyntaxTree, i: usize) -> (r: Option<usize>)
    requires
        tree.wf(),
        i < tree.nodes@.len(),
    ensures
        r is None ==> last_significant(tree.tokens@, tree.leaves(i as int)) is None,
        r matches Some(t) ==> t < tree.tokens@.len() && last_significant(tree.tokens@, tree.leaves(i as int)) == Some(t as int),
    decreases i,
{
    let ghost nodes = tree.nodes@;
    let ghost toks = tree.tokens@;
    let children = &tree.nodes[i].children;
    let ghost cs = children@;
    let mut k: usize = children.len();
    while k > 0
        invariant
            tree.wf(),
            i < tree.nodes@.len(),
            nodes == tree.nodes@,
            toks == tree.tokens@,
            children@ == cs,
            cs == tree.nodes@[i as int].children@,
            0 <= k <= cs.len(),
            last_significant(toks, children_leaves(nodes, i as int, cs.subrange(k as int, cs.len() as int))) is None,
        decreases k,
    {
        let c = children[k - 1];
        let ghost after = children_leaves(nodes, i as int, cs.subrange(k as int, cs.len() as int));
        let ghost added: Seq<int> = match c {
            ChildRef::Node(n) => tree.leaves(n as int),
            ChildRef::Token(t) => seq![t as int],
        };
        proof {
            assert(crate::tree::child_ok(cs[k - 1], i as int, toks.len() as int));
            assert(seq![c].drop_last() =~= Seq::<ChildRef>::empty());
            assert(seq![c].last() == c);
            assert(children_leaves(nodes, i as int, Seq::<ChildRef>::empty()) =~= Seq::<int>::empty());
            assert(children_leaves(nodes, i as int, seq![c]) =~= added);
            lemma_children_leaves_concat(nodes, i as int, seq![c], cs.subrange(k as int, cs.len() as int));
            assert(seq![c] + cs.subrange(k as int, cs.len() as int) =~= cs.subrange(k - 1, cs.len() as int));
            lemma_last_significant_concat(toks, added, after);
            lemma_children_leaves_concat(nodes, i as int, cs.subrange(0, k - 1), cs.subrange(k - 1, cs.len() as int));
            assert(cs.subrange(0, k - 1) + cs.subrange(k - 1, cs.len() as int) =~= cs);
            lemma_last_significant_concat(toks, children_leaves(nodes, i as int, cs.subrange(0, k - 1)), added + after);
        }
        match c {
            ChildRef::Token(t) => {
                proof {
                    assert(seq![t as int].drop_last() =~= Seq::<int>::empty());
                    assert(seq![t as int].last() == t as int);
                    assert(last_significant(toks, Seq::<int>::empty()) is None);
                }
                if !tree.tokens[t].kind.is_trivia() {
                    return Some(t);
                }
            },
            ChildRef::Node(n) => {
                match last_leaf(tree, n) {
                    Some(t) => {
                        return Some(t);
                    },
                    None => {},
                }
            },
        }
        k = k - 1;
    }
    proof {
        assert(cs.subrange(0, cs.len() as int) =~= cs);
    }
    None
}

/// Appends the text under node `i` to `out`.
fn collect_text(tree: &SyntaxTree, i: usize, out: &mut Vec<u8>)
    requires
        tree.wf(),
        i < tree.nodes@.len(),
    ensures
        final(out)@ == old(out)@ + tree.text_of(i as int),
    decreases i,
{
    let ghost nodes = tree.nodes@;
    let ghost toks = tree.tokens@;
    let ghost src = tree.source@;
    let children = &tree.nodes[i].children;
    let ghost cs = children@;
    let mut k: usize = 0;
    while k < children.len()
        invariant
            tree.wf(),
            i < tree.nodes@.len(),
            children@ == cs,
            cs == tree.nodes@[i as int].children@,
            nodes == tree.nodes@,
            toks == tree.tokens@,
            src == tree.source@,
            0 <= k <= cs.len(),
            out@ == old(out)@ + tokens_text(
                src,
                tokens_at(toks, children_leaves(nodes, i as int, cs.subrange(0, k as int))),
            ),
        decreases cs.len() - k,
    {
        let c = children[k];
        let ghost before = children_leaves(nodes, i as int, cs.subrange(0, k as int));
        proof {
            assert(crate::tree::child_ok(cs[k as int], i as int, toks.len() as int));
            assert(cs.subrange(0, k + 1).drop_last() =~= cs.subrange(0, k as int));
            assert(cs.subrange(0, k + 1).last() == c);
        }
        let ghost added: Seq<int> = match c {
            ChildRef::Node(n) => crate::tree::node_leaves(nodes, n as int),
            ChildRef::Token(t) => seq![t as int],
        };
        let ghost mid = out@;
        match c {
            ChildRef::Node(n) => {
                collect_text(tree, n, out);
            },
            ChildRef::Token(t) => {
                let tok = tree.tokens[t];
                push_range(&tree.source, tok.start, tok.end, out);
                proof {
                    let one = tokens_at(toks, seq![t as int]);
                    assert(one.len() == 1);
                    assert(one[0] == toks[t as int]);
                    assert(one.drop_last() =~= Seq::<TokenData>::empty());
                    assert(tokens_text(src, one.drop_last()) =~= Seq::<u8>::empty());
                    assert(one.last() == tok);
                    assert(tokens_text(src, one) =~= src.subrange(tok.start as int, tok.end as int));
                }
            },
        }
        proof {
            assert(children_leaves(nodes, i as int, cs.subrange(0, k + 1)) == before + added);
            assert(tokens_at(toks, before + added) =~= tokens_at(toks, before) + tokens_at(toks, added));
            lemma_text_concat(src, tokens_at(toks, before), tokens_at(toks, added));
            match c {
                ChildRef::Node(n) => {
                    assert(tree.text_of(n as int) == tokens_text(src, tokens_at(toks, added)));
                },
                ChildRef::Token(t) => {},
            }
        }
        k = k + 1;
    }
    proof {
        assert(cs.subrange(0, cs.len() as int) =~= cs);
    }
}

} // verus!
