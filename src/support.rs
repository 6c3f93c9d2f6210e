//! The typed view over the tree: the capability every typed node has, and
//! the accessors its fields are read through.

use vstd::prelude::*;
use crate::kind::SyntaxKind;
use crate::syntax::{SyntaxElement, SyntaxNode, SyntaxToken};
use crate::tree::{ChildRef, SyntaxTree};

verus! {

/// A typed node: a node of the tree whose kind is one of a fixed set.
pub trait AstNode<'a>: Sized {
    /// The kinds a node of this type may have.
    spec fn kind_ok(kind: SyntaxKind) -> bool;

    /// The node this typed node stands for.
    spec fn syntax_view(&self) -> SyntaxNode<'a>;

    fn can_cast(kind: SyntaxKind) -> (r: bool)
        ensures
            r == Self::kind_ok(kind),
    ;

    fn cast(syntax: SyntaxNode<'a>) -> (r: Option<Self>)
        ensures
            r.is_some() == Self::kind_ok(syntax.kind_view()),
            r matches Some(n) ==> n.syntax_view() == syntax,
    ;

    fn syntax(&self) -> (r: &SyntaxNode<'a>)
        ensures
            *r == self.syntax_view(),
            Self::kind_ok(r.kind_view()),
    ;
}

/// A required child that is not there.
#[derive(Clone, Copy, Debug, PartialEq, Eq, Structural)]
pub enum SyntaxError {
    MissingRequiredChild,
}

pub type SyntaxResult<T> = Result<T, SyntaxError>;

/// How many of the first `j` children satisfy `p`.
pub open spec fn count_before(cs: Seq<ChildRef>, p: spec_fn(ChildRef) -> bool, j: int) -> nat
    decreases j,
{
    if j <= 0 {
        0
    } else {
        count_before(cs, p, j - 1) + if p(cs[j - 1]) { 1nat } else { 0nat }
    }
}

/// Position `j` holds the child numbered `slot` among those that satisfy `p`.
pub open spec fn is_nth(cs: Seq<ChildRef>, p: spec_fn(ChildRef) -> bool, slot: int, j: int) -> bool {
    0 <= j < cs.len() && p(cs[j]) && count_before(cs, p, j) == slot
}

/// The position of the child numbered `slot` among those that satisfy `p`.
pub open spec fn nth_child(cs: Seq<ChildRef>, p: spec_fn(ChildRef) -> bool, slot: int) -> Option<
    int,
> {
    if exists|j: int| is_nth(cs, p, slot, j) {
        Some(choose|j: int| is_nth(cs, p, slot, j))
    } else {
        None
    }
}

/// A token child whose kind is among `kinds`.
pub open spec fn token_in(tree: SyntaxTree, kinds: Seq<SyntaxKind>) -> spec_fn(ChildRef) -> bool {
    |c: ChildRef|
        match c {
            ChildRef::Token(t) => kinds.contains(tree.tokens@[t as int].kind),
            _ => false,
        }
}

/// A node child that a typed node `N` can stand for.
pub open spec fn node_as<'a, N: AstNode<'a>>(tree: SyntaxTree) -> spec_fn(ChildRef) -> bool {
    |c: ChildRef|
        match c {
            ChildRef::Node(n) => N::kind_ok(tree.nodes@[n as int].kind),
            _ => false,
        }
}

/// A node child of kind `LIST`.
pub open spec fn list_child(tree: SyntaxTree) -> spec_fn(ChildRef) -> bool {
    |c: ChildRef|
        match c {
            ChildRef::Node(n) => tree.nodes@[n as int].kind == SyntaxKind::LIST,
            _ => false,
        }
}

/// Any node child.
pub open spec fn any_node() -> spec_fn(ChildRef) -> bool {
    |c: ChildRef| c is Node
}

/// Any token child.
pub open spec fn any_token() -> spec_fn(ChildRef) -> bool {
    |c: ChildRef| c is Token
}

/// `n` is the child of `parent` at position `j`.
pub open spec fn node_child_at<'a>(parent: SyntaxNode<'a>, j: int, n: SyntaxNode<'a>) -> bool {
    n.tree_view() == parent.tree_view() && 0 <= j < parent.children_view().len()
        && parent.children_view()[j] == ChildRef::Node(n.id_view())
}

/// `t` is the child of `parent` at position `j`.
pub open spec fn token_child_at<'a>(parent: SyntaxNode<'a>, j: int, t: SyntaxToken<'a>) -> bool {
    t.tree_view() == parent.tree_view() && 0 <= j < parent.children_view().len()
        && parent.children_view()[j] == ChildRef::Token(t.id_view())
}

/// What an optional token field holds: the first token child whose kind is
/// among `kinds`.
pub open spec fn token_field<'a>(
    parent: SyntaxNode<'a>,
    kinds: Seq<SyntaxKind>,
    r: Option<SyntaxToken<'a>>,
) -> bool {
    match nth_child(parent.children_view(), token_in(parent.tree_view(), kinds), 0) {
        Some(j) => r matches Some(t) && token_child_at(parent, j, t),
        None => r is None,
    }
}

/// What a required token field holds: as an optional one, with a missing
/// token an error.
pub open spec fn required_token_field<'a>(
    parent: SyntaxNode<'a>,
    kinds: Seq<SyntaxKind>,
    r: SyntaxResult<SyntaxToken<'a>>,
) -> bool {
    match nth_child(parent.children_view(), token_in(parent.tree_view(), kinds), 0) {
        Some(j) => r matches Ok(t) && token_child_at(parent, j, t),
        None => r == Err::<SyntaxToken<'a>, SyntaxError>(SyntaxError::MissingRequiredChild),
    }
}

/// What an optional node field holds: the first node child that `N` can stand for.
pub open spec fn node_field<'a, N: AstNode<'a>>(parent: SyntaxNode<'a>, r: Option<N>) -> bool {
    match nth_child(parent.children_view(), node_as::<N>(parent.tree_view()), 0) {
        Some(j) => r matches Some(n) && node_child_at(parent, j, n.syntax_view()),
        None => r is None,
    }
}

/// What a required node field holds.
pub open spec fn required_node_field<'a, N: AstNode<'a>>(
    parent: SyntaxNode<'a>,
    r: SyntaxResult<N>,
) -> bool {
    match nth_child(parent.children_view(), node_as::<N>(parent.tree_view()), 0) {
        Some(j) => r matches Ok(n) && node_child_at(parent, j, n.syntax_view()),
        None => r == Err::<N, SyntaxError>(SyntaxError::MissingRequiredChild),
    }
}

/// What a list field at `slot` holds: the `LIST` child numbered `slot`.
pub open spec fn list_field<'a>(parent: SyntaxNode<'a>, slot: int, list: Option<SyntaxNode<'a>>) -> bool {
    match nth_child(parent.children_view(), list_child(parent.tree_view()), slot) {
        Some(j) => list matches Some(l) && node_child_at(parent, j, l),
        None => list is None,
    }
}

proof fn lemma_count_mono(cs: Seq<ChildRef>, p: spec_fn(ChildRef) -> bool, a: int, b: int)
    requires
        a <= b,
    ensures
        count_before(cs, p, a) <= count_before(cs, p, b),
    decreases b - a,
{
    if a < b {
        lemma_count_mono(cs, p, a, b - 1);
    }
}

/// Only one position holds a given slot.
pub proof fn lemma_nth_unique(cs: Seq<ChildRef>, p: spec_fn(ChildRef) -> bool, slot: int, j: int)
    requires
        is_nth(cs, p, slot, j),
    ensures
        nth_child(cs, p, slot) == Some(j),
{
    let k = choose|k: int| is_nth(cs, p, slot, k);
    if k < j {
        lemma_count_mono(cs, p, k + 1, j);
    } else if j < k {
        lemma_count_mono(cs, p, j + 1, k);
    }
}

/// Different slots of the same kind of child never share a position: two
/// list fields of one node are never the same list.
pub proof fn lemma_slots_distinct(cs: Seq<ChildRef>, p: spec_fn(ChildRef) -> bool, s1: int, s2: int)
    requires
        s1 != s2,
        nth_child(cs, p, s1) is Some,
        nth_child(cs, p, s2) is Some,
    ensures
        nth_child(cs, p, s1) != nth_child(cs, p, s2),
{
}

/// The position of the child numbered `slot` among the token children whose
/// kind is among `kinds`.
fn find_token_position(parent: &SyntaxNode, kinds: &[SyntaxKind]) -> (r: Option<usize>)
    ensures
        r matches Some(j) ==> nth_child(parent.children_view(), token_in(parent.tree_view(), kinds@), 0) == Some(j as int),
        r is None ==> nth_child(parent.children_view(), token_in(parent.tree_view(), kinds@), 0) is None,
{
    let ghost p = token_in(parent.tree_view(), kinds@);
    let ghost cs = parent.children_view();
    let n = parent.child_count();
    let mut j: usize = 0;
    while j < n
        invariant
            n == cs.len(),
            cs == parent.children_view(),
            p == token_in(parent.tree_view(), kinds@),
            0 <= j <= n,
            count_before(cs, p, j as int) == 0,
        decreases n - j,
    {
        match parent.child(j) {
            SyntaxElement::Token(t) => {
                let k = t.kind();
                let mut i: usize = 0;
                let mut found = false;
                while i < kinds.len()
                    invariant
                        0 <= i <= kinds@.len(),
                        found == (exists|x: int| 0 <= x < i && kinds@[x] == k),
                    decreases kinds@.len() - i,
                {
                    if kinds[i] == k {
                        found = true;
                    }
                    i = i + 1;
                }
                proof {
                    assert(found ==> kinds@.contains(k));
                    assert(kinds@.contains(k) ==> found) by {
                        if kinds@.contains(k) {
                            let x = choose|x: int| 0 <= x < kinds@.len() && kinds@[x] == k;
                            assert(0 <= x < i && kinds@[x] == k);
                        }
                    }
                    assert(p(cs[j as int]) == found);
                }
                if found {
                    proof {
                        lemma_nth_unique(cs, p, 0, j as int);
                    }
                    return Some(j);
                }
            },
            SyntaxElement::Node(_) => {},
        }
        j = j + 1;
    }
    proof {
        if exists|x: int| is_nth(cs, p, 0, x) {
            let x = choose|x: int| is_nth(cs, p, 0, x);
            lemma_count_mono(cs, p, x + 1, n as int);
        }
    }
    None
}

/// The optional token field of one of the given kinds.
pub fn find_token<'a>(parent: &SyntaxNode<'a>, kinds: &[SyntaxKind]) -> (r: Option<SyntaxToken<'a>>)
    ensures
        token_field(*parent, kinds@, r),
{
    match find_token_position(parent, kinds) {
        Some(j) => {
            proof {
                let cs = parent.children_view();
                let p = token_in(parent.tree_view(), kinds@);
                assert(is_nth(cs, p, 0, j as int));
            }
            match parent.child(j) {
                SyntaxElement::Token(t) => Some(t),
                SyntaxElement::Node(_) => None,
            }
        },
        None => None,
    }
}

/// The optional token field of the given kind.
pub fn token<'a>(parent: &SyntaxNode<'a>, kind: SyntaxKind) -> (r: Option<SyntaxToken<'a>>)
    ensures
        token_field(*parent, seq![kind], r),
{
    let kinds = [kind];
    assert(kinds@ =~= seq![kind]);
    find_token(parent, &kinds)
}

/// The required token field of one of the given kinds.
pub fn find_required_token<'a>(parent: &SyntaxNode<'a>, kinds: &[SyntaxKind]) -> (r: SyntaxResult<
    SyntaxToken<'a>,
>)
    ensures
        required_token_field(*parent, kinds@, r),
{
    match find_token(parent, kinds) {
        Some(t) => Ok(t),
        None => Err(SyntaxError::MissingRequiredChild),
    }
}

/// The required token field of the given kind.
pub fn required_token<'a>(parent: &SyntaxNode<'a>, kind: SyntaxKind) -> (r: SyntaxResult<
    SyntaxToken<'a>,
>)
    ensures
        required_token_field(*parent, seq![kind], r),
{
    let kinds = [kind];
    assert(kinds@ =~= seq![kind]);
    find_required_token(parent, &kinds)
}

/// The optional node field that a typed node `N` stands for.
pub fn node<'a, N: AstNode<'a>>(parent: &SyntaxNode<'a>) -> (r: Option<N>)
    ensures
        node_field(*parent, r),
{
    let ghost p = node_as::<N>(parent.tree_view());
    let ghost cs = parent.children_view();
    let n = parent.child_count();
    let mut j: usize = 0;
    while j < n
        invariant
            n == cs.len(),
            cs == parent.children_view(),
            p == node_as::<N>(parent.tree_view()),
            0 <= j <= n,
            count_before(cs, p, j as int) == 0,
        decreases n - j,
    {
        match parent.child(j) {
            SyntaxElement::Node(c) => {
                let k = c.kind();
                if N::can_cast(k) {
                    proof {
                        assert(p(cs[j as int]));
                        lemma_nth_unique(cs, p, 0, j as int);
                    }
                    return N::cast(c);
                }
            },
            SyntaxElement::Token(_) => {},
        }
        j = j + 1;
    }
    proof {
        if exists|x: int| is_nth(cs, p, 0, x) {
            let x = choose|x: int| is_nth(cs, p, 0, x);
            lemma_count_mono(cs, p, x + 1, n as int);
        }
    }
    None
}

/// The required node field that a typed node `N` stands for.
pub fn required_node<'a, N: AstNode<'a>>(parent: &SyntaxNode<'a>) -> (r: SyntaxResult<N>)
    ensures
        required_node_field(*parent, r),
{
    match node::<N>(parent) {
        Some(n) => Ok(n),
        None => Err(SyntaxError::MissingRequiredChild),
    }
}

/// The `LIST` child numbered `slot`.
pub fn list_node<'a>(parent: &SyntaxNode<'a>, slot: usize) -> (r: Option<SyntaxNode<'a>>)
    ensures
        list_field(*parent, slot as int, r),
{
    let ghost p = list_child(parent.tree_view());
    let ghost cs = parent.children_view();
    let n = parent.child_count();
    let mut j: usize = 0;
    let mut seen: usize = 0;
    while j < n
        invariant
            n == cs.len(),
            cs == parent.children_view(),
            p == list_child(parent.tree_view()),
            0 <= j <= n,
            seen == count_before(cs, p, j as int),
            seen <= slot,
        decreases n - j,
    {
        match parent.child(j) {
            SyntaxElement::Node(c) => {
                let k = c.kind();
                if k == SyntaxKind::LIST {
                    proof {
                        assert(p(cs[j as int]));
                    }
                    if seen == slot {
                        proof {
                            lemma_nth_unique(cs, p, slot as int, j as int);
                        }
                        return Some(c);
                    }
                    seen = seen + 1;
                }
            },
            SyntaxElement::Token(_) => {},
        }
        j = j + 1;
    }
    proof {
        if exists|x: int| is_nth(cs, p, slot as int, x) {
            let x = choose|x: int| is_nth(cs, p, slot as int, x);
            lemma_count_mono(cs, p, x + 1, n as int);
        }
    }
    None
}

/// Every child of a node, tokens and nodes, in order.
pub fn elements<'a>(parent: &SyntaxNode<'a>) -> (r: Vec<SyntaxElement<'a>>)
    ensures
        r@.len() == parent.children_view().len(),
        forall|j: int|
            0 <= j < r@.len() ==> (#[trigger] r@[j]).child_ref() == parent.children_view()[j]
                && r@[j].tree_view() == parent.tree_view(),
{
    let n = parent.child_count();
    let mut out: Vec<SyntaxElement<'a>> = Vec::new();
    let mut j: usize = 0;
    while j < n
        invariant
            n == parent.children_view().len(),
            0 <= j <= n,
            out@.len() == j,
            forall|i: int|
                0 <= i < j ==> (#[trigger] out@[i]).child_ref() == parent.children_view()[i]
                    && out@[i].tree_view() == parent.tree_view(),
        decreases n - j,
    {
        out.push(parent.child(j));
        j = j + 1;
    }
    out
}

/// The node child numbered `slot` among all node children.
fn nth_node_child<'a>(parent: &SyntaxNode<'a>, slot: usize) -> (r: Option<SyntaxNode<'a>>)
    ensures
        match nth_child(parent.children_view(), any_node(), slot as int) {
            Some(j) => r matches Some(n) && node_child_at(*parent, j, n),
            None => r is None,
        },
{
    let ghost p = any_node();
    let ghost cs = parent.children_view();
    let n = parent.child_count();
    let mut j: usize = 0;
    let mut seen: usize = 0;
    while j < n
        invariant
            n == cs.len(),
            cs == parent.children_view(),
            p == any_node(),
            0 <= j <= n,
            seen == count_before(cs, p, j as int),
            seen <= slot,
        decreases n - j,
    {
        match parent.child(j) {
            SyntaxElement::Node(c) => {
                if seen == slot {
                    proof {
                        lemma_nth_unique(cs, p, slot as int, j as int);
                    }
                    return Some(c);
                }
                seen = seen + 1;
            },
            SyntaxElement::Token(_) => {},
        }
        j = j + 1;
    }
    proof {
        if exists|x: int| is_nth(cs, p, slot as int, x) {
            let x = choose|x: int| is_nth(cs, p, slot as int, x);
            lemma_count_mono(cs, p, x + 1, n as int);
        }
    }
    None
}

/// The token child numbered `slot` among all token children.
fn nth_token_child<'a>(parent: &SyntaxNode<'a>, slot: usize) -> (r: Option<SyntaxToken<'a>>)
    ensures
        match nth_child(parent.children_view(), any_token(), slot as int) {
            Some(j) => r matches Some(t) && token_child_at(*parent, j, t),
            None => r is None,
        },
{
    let ghost p = any_token();
    let ghost cs = parent.children_view();
    let n = parent.child_count();
    let mut j: usize = 0;
    let mut seen: usize = 0;
    while j < n
        invariant
            n == cs.len(),
            cs == parent.children_view(),
            p == any_token(),
            0 <= j <= n,
            seen == count_before(cs, p, j as int),
            seen <= slot,
        decreases n - j,
    {
        match parent.child(j) {
            SyntaxElement::Token(c) => {
                if seen == slot {
                    proof {
                        lemma_nth_unique(cs, p, slot as int, j as int);
                    }
                    return Some(c);
                }
                seen = seen + 1;
            },
            SyntaxElement::Node(_) => {},
        }
        j = j + 1;
    }
    proof {
        if exists|x: int| is_nth(cs, p, slot as int, x) {
            let x = choose|x: int| is_nth(cs, p, slot as int, x);
            lemma_count_mono(cs, p, x + 1, n as int);
        }
    }
    None
}

/// How many children satisfy `p`.
fn count_children(parent: &SyntaxNode, nodes: bool) -> (r: usize)
    ensures
        r == count_before(
            parent.children_view(),
            if nodes { any_node() } else { any_token() },
            parent.children_view().len() as int,
        ),
{
    let ghost p = if nodes { any_node() } else { any_token() };
    let ghost cs = parent.children_view();
    let n = parent.child_count();
    let mut j: usize = 0;
    let mut seen: usize = 0;
    while j < n
        invariant
            n == cs.len(),
            cs == parent.children_view(),
            p == (if nodes { any_node() } else { any_token() }),
            0 <= j <= n,
            seen == count_before(cs, p, j as int),
            seen <= j,
        decreases n - j,
    {
        let is_node = match parent.child(j) {
            SyntaxElement::Node(_) => true,
            SyntaxElement::Token(_) => false,
        };
        if is_node == nodes {
            seen = seen + 1;
        }
        j = j + 1;
    }
    seen
}

/// The children of an optional list node; none where the list is missing.
pub open spec fn list_items<'a>(list: Option<SyntaxNode<'a>>) -> Seq<ChildRef> {
    match list {
        Some(l) => l.children_view(),
        None => seq![],
    }
}

/// What item `i` of a list holds: the node child numbered `i` of the list
/// node, as an `N` where it can be one.
pub open spec fn list_item<'a, N: AstNode<'a>>(list: Option<SyntaxNode<'a>>, i: int, r: Option<N>) -> bool {
    match list {
        Some(l) => match nth_child(l.children_view(), any_node(), i) {
            Some(j) => match r {
                Some(n) => node_child_at(l, j, n.syntax_view()),
                None => !N::kind_ok(l.tree_view().nodes@[l.children_view()[j]->Node_0 as int].kind),
            },
            None => r is None,
        },
        None => r is None,
    }
}

/// The items of a list field: nodes of one sub-grammar, read by index.
pub struct AstNodeList<'a, N> {
    list: Option<SyntaxNode<'a>>,
    items: std::marker::PhantomData<N>,
}

impl<'a, N: AstNode<'a>> AstNodeList<'a, N> {
    /// The list node, if the parent has one at this slot.
    pub closed spec fn list_view(&self) -> Option<SyntaxNode<'a>> {
        self.list
    }

    pub fn len(&self) -> (r: usize)
        ensures
            r == count_before(list_items(self.list_view()), any_node(), list_items(self.list_view()).len() as int),
    {
        match &self.list {
            Some(l) => count_children(l, true),
            None => 0,
        }
    }

    pub fn get(&self, i: usize) -> (r: Option<N>)
        ensures
            list_item(self.list_view(), i as int, r),
    {
        match &self.list {
            Some(l) => match nth_node_child(l, i) {
                Some(c) => {
                    proof {
                        let cs = l.children_view();
                        assert(is_nth(cs, any_node(), i as int, choose|j: int| is_nth(cs, any_node(), i as int, j)));
                    }
                    N::cast(c)
                },
                None => None,
            },
            None => None,
        }
    }
}

/// The items of a list field whose items are parted by separator tokens.
pub struct AstSeparatedList<'a, N> {
    list: Option<SyntaxNode<'a>>,
    items: std::marker::PhantomData<N>,
}

impl<'a, N: AstNode<'a>> AstSeparatedList<'a, N> {
    pub closed spec fn list_view(&self) -> Option<SyntaxNode<'a>> {
        self.list
    }

    /// The number of items, separators not counted.
    pub fn len(&self) -> (r: usize)
        ensures
            r == count_before(list_items(self.list_view()), any_node(), list_items(self.list_view()).len() as int),
    {
        match &self.list {
            Some(l) => count_children(l, true),
            None => 0,
        }
    }

    /// The item at `i`, separators skipped.
    pub fn get(&self, i: usize) -> (r: Option<N>)
        ensures
            list_item(self.list_view(), i as int, r),
    {
        match &self.list {
            Some(l) => match nth_node_child(l, i) {
                Some(c) => {
                    proof {
                        let cs = l.children_view();
                        assert(is_nth(cs, any_node(), i as int, choose|j: int| is_nth(cs, any_node(), i as int, j)));
                    }
                    N::cast(c)
                },
                None => None,
            },
            None => None,
        }
    }

    /// The number of separators.
    pub fn separator_count(&self) -> (r: usize)
        ensures
            r == count_before(list_items(self.list_view()), any_token(), list_items(self.list_view()).len() as int),
    {
        match &self.list {
            Some(l) => count_children(l, false),
            None => 0,
        }
    }

    /// The separator at `i`.
    pub fn separator(&self, i: usize) -> (r: Option<SyntaxToken<'a>>)
        ensures
            match self.list_view() {
                Some(l) => match nth_child(l.children_view(), any_token(), i as int) {
                    Some(j) => r matches Some(t) && token_child_at(l, j, t),
                    None => r is None,
                },
                None => r is None,
            },
    {
        match &self.list {
            Some(l) => nth_token_child(l, i),
            None => None,
        }
    }
}

/// The list field at `slot`.
pub fn node_list<'a, N: AstNode<'a>>(parent: &SyntaxNode<'a>, slot: usize) -> (r: AstNodeList<'a, N>)
    ensures
        list_field(*parent, slot as int, r.list_view()),
{
    AstNodeList { list: list_node(parent, slot), items: std::marker::PhantomData }
}

/// The separated list field at `slot`.
pub fn separated_list<'a, N: AstNode<'a>>(parent: &SyntaxNode<'a>, slot: usize) -> (r: AstSeparatedList<'a, N>)
    ensures
        list_field(*parent, slot as int, r.list_view()),
{
    AstSeparatedList { list: list_node(parent, slot), items: std::marker::PhantomData }
}

} // verus!
