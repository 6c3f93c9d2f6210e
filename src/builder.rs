//! Turns a finished, balanced event buffer and the tokens of the source into
//! the immutable tree.

use vstd::prelude::*;
use crate::event::{depth, lemma_depth_step, single_root, Diagnostic, Event};
use crate::kind::SyntaxKind;
use crate::tree::{
    children_leaves, index_run, lemma_children_leaves_extend, node_leaves, ranges_ok, ChildRef,
    NodeData, SyntaxTree, TokenData,
};

verus! {

/// A node that is open while the tree is built: its kind and its children so far.
struct Frame {
    kind: SyntaxKind,
    children: Vec<ChildRef>,
}

/// The diagnostics of a run of events, in order.
pub open spec fn errors_of(events: Seq<Event>) -> Seq<Diagnostic>
    decreases events.len(),
{
    if events.len() == 0 {
        seq![]
    } else {
        errors_of(events.drop_last()) + match events.last() {
            Event::Error { diagnostic } => seq![diagnostic],
            _ => seq![],
        }
    }
}

/// The kind of the node the first event opens.
pub open spec fn root_kind(events: Seq<Event>) -> SyntaxKind {
    match events[0] {
        Event::Start { kind } => kind,
        _ => SyntaxKind::TOMBSTONE,
    }
}

/// The token indices under the open frames, outermost first.
spec fn stack_leaves(nodes: Seq<NodeData>, frames: Seq<Frame>) -> Seq<int>
    decreases frames.len(),
{
    if frames.len() == 0 {
        seq![]
    } else {
        stack_leaves(nodes, frames.drop_last()) + children_leaves(
            nodes,
            nodes.len() as int,
            frames.last().children@,
        )
    }
}

spec fn refs_below(cs: Seq<ChildRef>, n: int, t: int) -> bool {
    forall|j: int|
        0 <= j < cs.len() ==> match #[trigger] cs[j] {
            ChildRef::Node(x) => x < n,
            ChildRef::Token(y) => y < t,
        }
}

proof fn lemma_children_bound(nodes: Seq<NodeData>, i: int, i2: int, cs: Seq<ChildRef>, t: int)
    requires
        refs_below(cs, i, t),
        i <= i2,
    ensures
        children_leaves(nodes, i, cs) == children_leaves(nodes, i2, cs),
    decreases cs.len(),
{
    if cs.len() > 0 {
        assert(refs_below(cs.drop_last(), i, t)) by {
            assert forall|j: int| 0 <= j < cs.drop_last().len() implies match #[trigger] cs.drop_last()[j] {
                ChildRef::Node(x) => x < i,
                ChildRef::Token(y) => y < t,
            } by {
                assert(cs.drop_last()[j] == cs[j]);
            }
        }
        lemma_children_bound(nodes, i, i2, cs.drop_last(), t);
        assert(refs_below(cs, i, t) ==> match cs[cs.len() - 1] {
            ChildRef::Node(x) => x < i,
            ChildRef::Token(y) => y < t,
        });
    }
}

proof fn lemma_stack_extend(nodes: Seq<NodeData>, more: Seq<NodeData>, frames: Seq<Frame>, t: int)
    requires
        nodes.len() <= more.len(),
        forall|k: int| 0 <= k < nodes.len() ==> #[trigger] more[k] == nodes[k],
        forall|f: int|
            0 <= f < frames.len() ==> refs_below(#[trigger] frames[f].children@, nodes.len() as int, t),
    ensures
        stack_leaves(more, frames) == stack_leaves(nodes, frames),
    decreases frames.len(),
{
    if frames.len() > 0 {
        let init = frames.drop_last();
        assert forall|f: int| 0 <= f < init.len() implies refs_below(
            #[trigger] init[f].children@,
            nodes.len() as int,
            t,
        ) by {
            assert(init[f] == frames[f]);
        }
        lemma_stack_extend(nodes, more, init, t);
        let cs = frames.last().children@;
        assert(refs_below(frames[frames.len() - 1].children@, nodes.len() as int, t));
        lemma_children_leaves_extend(nodes, more, nodes.len() as int, cs);
        lemma_children_bound(more, nodes.len() as int, more.len() as int, cs, t);
    }
}

/// Builds the tree. Every token of `raw` becomes a leaf, in order: a token
/// event takes the trivia before the next significant token and that token,
/// under the event's kind, and what is left at the end goes into the root.
pub fn build_tree(source: Vec<u8>, raw: &Vec<TokenData>, events: &Vec<Event>) -> (r: (
    SyntaxTree,
    Vec<Diagnostic>,
))
    requires
        single_root(events@),
        ranges_ok(raw@, source@.len() as int),
    ensures
        r.0.wf(),
        r.0.source@ == source@,
        r.0.tokens@.len() == raw@.len(),
        forall|t: int|
            0 <= t < raw@.len() ==> (#[trigger] r.0.tokens@[t]).start == raw@[t].start
                && r.0.tokens@[t].end == raw@[t].end,
        r.0.leaves(r.0.root as int) == index_run(raw@.len() as int),
        r.1@ == errors_of(events@),
        r.0.nodes@[r.0.root as int].kind == root_kind(events@),
{
    let mut tokens: Vec<TokenData> = raw.clone();
    let mut nodes: Vec<NodeData> = Vec::new();
    let mut stack: Vec<Frame> = Vec::new();
    let mut diagnostics: Vec<Diagnostic> = Vec::new();
    let mut cursor: usize = 0;
    let mut root: usize = 0;
    let mut done = false;
    let n = events.len();
    let ntok = raw.len();
    assert(tokens@ =~= raw@);
    assert(events@.subrange(0, 0) =~= Seq::<Event>::empty());
    assert(stack_leaves(nodes@, stack@) =~= index_run(0));
    let mut i: usize = 0;
    while i < n
        invariant
            n == events@.len(),
            ntok == raw@.len(),
            single_root(events@),
            ranges_ok(raw@, source@.len() as int),
            0 <= i <= n,
            cursor <= ntok,
            stack@.len() == depth(events@.subrange(0, i as int)),
            0 < i < n ==> stack@.len() > 0,
            !done ==> i < n,
            done ==> i == n && stack@.len() == 0,
            tokens@.len() == ntok,
            forall|t: int|
                0 <= t < ntok ==> (#[trigger] tokens@[t]).start == raw@[t].start && tokens@[t].end
                    == raw@[t].end,
            forall|k: int, j: int|
                0 <= k < nodes@.len() && 0 <= j < nodes@[k].children@.len() ==> match #[trigger] nodes@[k].children@[j] {
                    ChildRef::Node(x) => x < k,
                    ChildRef::Token(y) => y < ntok,
                },
            forall|f: int|
                0 <= f < stack@.len() ==> refs_below(
                    #[trigger] stack@[f].children@,
                    nodes@.len() as int,
                    cursor as int,
                ),
            !done ==> stack_leaves(nodes@, stack@) == index_run(cursor as int),
            done ==> root < nodes@.len() && node_leaves(nodes@, root as int) == index_run(
                ntok as int,
            ),
            diagnostics@ == crate::builder::errors_of(events@.subrange(0, i as int)),
            stack@.len() > 0 ==> stack@[0].kind == root_kind(events@),
            done ==> nodes@[root as int].kind == root_kind(events@),
        decreases n - i,
    {
        let ev = events[i];
        proof {
            lemma_depth_step(events@, i as int);
            assert(events@.subrange(0, i + 1).drop_last() =~= events@.subrange(0, i as int));
            if i + 1 < n {
                assert(depth(events@.subrange(0, i + 1)) > 0);
            }
            if i == 0 {
                assert(depth(events@.subrange(0, 1)) > 0);
            }
        }
        match ev {
            Event::Start { kind } => {
                if kind != SyntaxKind::TOMBSTONE {
                    let ghost old_stack = stack@;
                    stack.push(Frame { kind, children: Vec::new() });
                    proof {
                        if old_stack.len() > 0 {
                            assert(stack@[0] == old_stack[0]);
                        } else {
                            assert(i == 0);
                        }
                        assert(stack@.drop_last() =~= old_stack);
                        assert(stack_leaves(nodes@, stack@) =~= stack_leaves(nodes@, old_stack));
                    }
                }
            },
            Event::Finish => {
                let ghost old_stack = stack@;
                let ghost old_nodes = nodes@;
                let frame = stack.pop().unwrap();
                proof {
                    assert(stack@ =~= old_stack.drop_last());
                    assert(refs_below(old_stack[old_stack.len() - 1].children@, nodes@.len() as int, cursor as int));
                }
                if stack.len() == 0 {
                    let mut children = frame.children;
                    let ghost base = children@;
                    proof {
                        assert(frame == old_stack.last());
                        assert(old_stack.drop_last().len() == 0);
                        assert(stack_leaves(nodes@, old_stack.drop_last()) =~= Seq::<int>::empty());
                        assert(stack_leaves(nodes@, old_stack) =~= children_leaves(nodes@, nodes@.len() as int, base));
                    }
                    while cursor < ntok
                        invariant
                            cursor <= ntok,
                            ntok == raw@.len(),
                            refs_below(children@, nodes@.len() as int, cursor as int),
                            children_leaves(nodes@, nodes@.len() as int, children@) == index_run(cursor as int),
                        decreases ntok - cursor,
                    {
                        let ghost before = children@;
                        children.push(ChildRef::Token(cursor));
                        proof {
                            assert(children@.drop_last() =~= before);
                            assert(index_run(cursor as int).push(cursor as int) =~= index_run(cursor + 1));
                            assert forall|j: int| 0 <= j < children@.len() implies match #[trigger] children@[j] {
                                ChildRef::Node(x) => x < nodes@.len(),
                                ChildRef::Token(y) => y < cursor + 1,
                            } by {
                                if j < before.len() {
                                    assert(children@[j] == before[j]);
                                }
                            }
                        }
                        cursor = cursor + 1;
                    }
                    let id = nodes.len();
                    let ghost cs = children@;
                    nodes.push(NodeData { kind: frame.kind, children });
                    proof {
                        lemma_children_leaves_extend(old_nodes, nodes@, id as int, cs);
                        lemma_children_bound(old_nodes, id as int, id as int, cs, ntok as int);
                        assert(nodes@[id as int].children@ == cs);
                        assert forall|k: int, j: int|
                            0 <= k < nodes@.len() && 0 <= j < nodes@[k].children@.len() implies match #[trigger] nodes@[k].children@[j] {
                                ChildRef::Node(x) => x < k,
                                ChildRef::Token(y) => y < ntok,
                            } by {
                            if k < id {
                                assert(nodes@[k] == old_nodes[k]);
                            } else {
                                assert(refs_below(cs, id as int, ntok as int));
                            }
                        }
                    }
                    root = id;
                    done = true;
                } else {
                    let ghost mid_stack = stack@;
                    let mut top = stack.pop().unwrap();
                    let id = nodes.len();
                    let ghost cs = frame.children@;
                    let ghost tcs = top.children@;
                    let ghost tkind = top.kind;
                    proof {
                        assert(tcs == mid_stack.last().children@);
                        assert(tkind == mid_stack.last().kind);
                    }
                    nodes.push(NodeData { kind: frame.kind, children: frame.children });
                    top.children.push(ChildRef::Node(id));
                    stack.push(top);
                    proof {
                        let rest = mid_stack.drop_last();
                        if rest.len() > 0 {
                            assert(stack@[0] == rest[0]);
                            assert(rest[0] == old_stack[0]);
                        } else {
                            assert(stack@[0].kind == tkind);
                            assert(mid_stack[0] == old_stack[0]);
                        }
                        assert(stack@.drop_last() =~= rest);
                        assert(mid_stack =~= rest.push(mid_stack.last()));
                        assert(old_stack.drop_last() =~= mid_stack);
                        assert(refs_below(mid_stack[mid_stack.len() - 1].children@, id as int, cursor as int));
                        assert(refs_below(cs, id as int, cursor as int));
                        assert forall|f: int| 0 <= f < rest.len() implies refs_below(
                            #[trigger] rest[f].children@,
                            id as int,
                            cursor as int,
                        ) by {
                            assert(rest[f] == old_stack[f]);
                        }
                        lemma_stack_extend(old_nodes, nodes@, rest, cursor as int);
                        lemma_children_leaves_extend(old_nodes, nodes@, id as int, cs);
                        lemma_children_leaves_extend(old_nodes, nodes@, id as int, tcs);
                        lemma_children_bound(nodes@, id as int, id + 1, tcs, cursor as int);
                        let ntcs = stack@[stack@.len() - 1].children@;
                        assert(ntcs.drop_last() =~= tcs);
                        assert(node_leaves(nodes@, id as int) == children_leaves(nodes@, id as int, cs));
                        assert(frame == old_stack.last());
                        assert(stack@.last().children@ == ntcs);
                        let a = stack_leaves(old_nodes, rest);
                        let b = children_leaves(old_nodes, id as int, tcs);
                        let c = children_leaves(old_nodes, id as int, cs);
                        assert(children_leaves(nodes@, id + 1, ntcs) == children_leaves(nodes@, id + 1, tcs) + node_leaves(nodes@, id as int));
                        assert(children_leaves(nodes@, id + 1, ntcs) == b + c);
                        assert(stack_leaves(nodes@, stack@) == a + (b + c));
                        assert(stack_leaves(old_nodes, mid_stack) == a + b);
                        assert(stack_leaves(old_nodes, old_stack) == (a + b) + c);
                        assert(stack_leaves(nodes@, stack@) =~= stack_leaves(old_nodes, old_stack));
                        assert forall|k: int, j: int|
                            0 <= k < nodes@.len() && 0 <= j < nodes@[k].children@.len() implies match #[trigger] nodes@[k].children@[j] {
                                ChildRef::Node(x) => x < k,
                                ChildRef::Token(y) => y < ntok,
                            } by {
                            if k < id {
                                assert(nodes@[k] == old_nodes[k]);
                            } else {
                                assert(nodes@[k].children@ == cs);
                            }
                        }
                        assert forall|f: int| 0 <= f < stack@.len() implies refs_below(
                            #[trigger] stack@[f].children@,
                            nodes@.len() as int,
                            cursor as int,
                        ) by {
                            if f < rest.len() {
                                assert(stack@[f] == rest[f]);
                            } else {
                                assert forall|j: int| 0 <= j < ntcs.len() implies match #[trigger] ntcs[j] {
                                    ChildRef::Node(x) => x < nodes@.len(),
                                    ChildRef::Token(y) => y < cursor,
                                } by {
                                    if j < tcs.len() {
                                        assert(ntcs[j] == tcs[j]);
                                    }
                                }
                            }
                        }
                    }
                }
            },
            Event::Token { kind } => {
                if stack.len() > 0 {
                    let ghost old_stack = stack@;
                    let mut top = stack.pop().unwrap();
                    let ghost rest = stack@;
                    let ghost c0 = cursor;
                    let ghost tkind = top.kind;
                    proof {
                        assert(tkind == old_stack.last().kind);
                    }
                    proof {
                        assert(old_stack =~= rest.push(old_stack.last()));
                        assert(refs_below(old_stack[old_stack.len() - 1].children@, nodes@.len() as int, cursor as int));
                        assert(stack_leaves(nodes@, old_stack) == stack_leaves(nodes@, rest) + children_leaves(nodes@, nodes@.len() as int, top.children@));
                    }
                    let mut taken = false;
                    while cursor < ntok && !taken
                        invariant
                            cursor <= ntok,
                            c0 <= cursor,
                            top.kind == tkind,
                            ntok == raw@.len(),
                            tokens@.len() == ntok,
                            forall|t: int|
                                0 <= t < ntok ==> (#[trigger] tokens@[t]).start == raw@[t].start
                                    && tokens@[t].end == raw@[t].end,
                            refs_below(top.children@, nodes@.len() as int, cursor as int),
                            stack_leaves(nodes@, rest) + children_leaves(nodes@, nodes@.len() as int, top.children@) == index_run(cursor as int),
                        decreases ntok - cursor, if taken { 0int } else { 1int },
                    {
                        let ghost before = top.children@;
                        if !raw[cursor].kind.is_trivia() {
                            tokens.set(cursor, TokenData { kind, start: raw[cursor].start, end: raw[cursor].end });
                            taken = true;
                        }
                        top.children.push(ChildRef::Token(cursor));
                        proof {
                            assert(top.children@.drop_last() =~= before);
                            assert(index_run(cursor as int).push(cursor as int) =~= index_run(cursor + 1));
                            assert forall|j: int| 0 <= j < top.children@.len() implies match #[trigger] top.children@[j] {
                                ChildRef::Node(x) => x < nodes@.len(),
                                ChildRef::Token(y) => y < cursor + 1,
                            } by {
                                if j < before.len() {
                                    assert(top.children@[j] == before[j]);
                                }
                            }
                        }
                        cursor = cursor + 1;
                    }
                    stack.push(top);
                    proof {
                        if rest.len() > 0 {
                            assert(stack@[0] == old_stack[0]);
                        } else {
                            assert(stack@[0].kind == tkind);
                        }
                        assert(stack@.drop_last() =~= rest);
                        assert forall|f: int| 0 <= f < stack@.len() implies refs_below(
                            #[trigger] stack@[f].children@,
                            nodes@.len() as int,
                            cursor as int,
                        ) by {
                            if f < rest.len() {
                                assert(stack@[f] == old_stack[f]);
                                let cs = stack@[f].children@;
                                assert(refs_below(old_stack[f].children@, nodes@.len() as int, c0 as int));
                                assert forall|j: int| 0 <= j < cs.len() implies match #[trigger] cs[j] {
                                    ChildRef::Node(x) => x < nodes@.len(),
                                    ChildRef::Token(y) => y < cursor,
                                } by {
                                    assert(match cs[j] {
                                        ChildRef::Node(x) => x < nodes@.len(),
                                        ChildRef::Token(y) => y < c0,
                                    });
                                }
                            }
                        }
                    }
                }
            },
            Event::Error { diagnostic } => {
                diagnostics.push(diagnostic);
            },
        }
        proof {
            let pre = events@.subrange(0, i + 1);
            assert(pre.drop_last() =~= events@.subrange(0, i as int));
            assert(pre.last() == ev);
        }
        i = i + 1;
    }
    proof {
        assert(events@.subrange(0, n as int) =~= events@);
    }
    let tree = SyntaxTree { source, tokens, nodes, root };
    proof {
        assert(ranges_ok(tree.tokens@, tree.source@.len() as int)) by {
            assert forall|t: int| 0 <= t < tree.tokens@.len() implies #[trigger] tree.tokens@[t].start <= tree.tokens@[t].end <= tree.source@.len() by {
                assert(raw@[t].start <= raw@[t].end <= source@.len());
            }
        }
        assert forall|k: int, j: int|
            0 <= k < tree.nodes@.len() && 0 <= j < tree.nodes@[k].children@.len() implies crate::tree::child_ok(
                #[trigger] tree.nodes@[k].children@[j],
                k,
                tree.tokens@.len() as int,
            ) by {
            assert(match tree.nodes@[k].children@[j] {
                ChildRef::Node(x) => x < k,
                ChildRef::Token(y) => y < ntok,
            });
        }
    }
    (tree, diagnostics)
}

} // verus!
