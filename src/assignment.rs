//! Assignment targets. An expression that turns out to stand before `=` is
//! reinterpreted as an assignment target by rewriting its events; where it
//! cannot be one, the parser goes back and reads a pattern, or wraps what the
//! expression spanned in an unknown assignment.

use vstd::prelude::*;
use crate::event::{Diagnostic, DiagnosticKind, Event};
use crate::expr::{parse_conditional_expression, parse_unary_expression, starts_expression};
use crate::kind::SyntaxKind;
use crate::tree::TokenData;
use crate::parser::{
    agree, lemma_push_drop_last, parsed, span_in, Checkpoint, CompletedMarker, Marker, Parser,
    ParserState,
};
use crate::rewrite::{
    lemma_replayed_contains, replay_base, replayed, rewrite_events, window, ReplayBase,
    RewriteParseEvents,
};

verus! {

broadcast use lemma_push_drop_last;

/// Which expression a target is read as before it is reinterpreted.
pub enum AssignmentExprPrecedence {
    Unary,
    Conditional,
}

/// The expression kinds that can be reinterpreted as an assignment target.
pub open spec fn is_assignment_root(kind: SyntaxKind) -> bool {
    kind == SyntaxKind::JS_PARENTHESIZED_EXPRESSION || kind == SyntaxKind::JS_STATIC_MEMBER_EXPRESSION
        || kind == SyntaxKind::JS_COMPUTED_MEMBER_EXPRESSION || kind
        == SyntaxKind::JS_IDENTIFIER_EXPRESSION
}

/// What a rule that may go back to `cp` leaves: the events before `cp` are
/// untouched, the markers open are those it found, and `r` is a complete
/// node after `cp`.
pub open spec fn reparsed(new: &Parser, old: &Parser, cp: &Checkpoint, r: &CompletedMarker) -> bool {
    &&& new.wf()
    &&& new.same_input(old)
    &&& agree(new.events@, cp.prefix_view(), cp.event_pos_view() as int)
    &&& new.open == old.open
    &&& new.state == old.state
    &&& new.pos > cp.token_pos_view()
    &&& new.completed(r)
    &&& r.start_view() >= cp.event_pos_view()
    &&& r.start_tok_view() >= cp.token_pos_view()
}

/// The state of a rewrite to assignment targets, after some replayed events.
pub struct Rewritten {
    /// The open nodes, innermost last: the kind each will get, and, unless it
    /// is dropped, the position of its start among `out` and its first token.
    pub parents: Seq<(SyntaxKind, Option<(int, int)>)>,
    /// Whether the nodes met now are still part of the target.
    pub inside: bool,
    /// The last node completed: its start among `out`, its kind and the
    /// tokens it spans.
    pub result: Option<(int, SyntaxKind, int, int)>,
    /// The events written so far.
    pub out: Seq<Event>,
    /// The token cursor.
    pub pos: int,
}

/// The rewrite before any event.
pub open spec fn rewrite_start(base: ReplayBase) -> Rewritten {
    Rewritten { parents: seq![], inside: true, result: None, out: seq![], pos: base.pos as int }
}

/// The rewrite after one more event. A start opens the node under its
/// assignment kind while the target goes on (a reference identifier is
/// dropped), and under its own kind below a member; a finish gives the node
/// its final kind, with a diagnostic after an unknown one; a token may make a
/// member assignment unknown; a diagnostic is kept.
pub open spec fn rewrite_step(base: ReplayBase, s: Rewritten, ev: Event) -> Rewritten {
    let tomb = Event::Start { kind: SyntaxKind::TOMBSTONE };
    let opened = Some((s.out.len() as int, s.pos));
    match ev {
        Event::Start { kind } => if !s.inside {
            Rewritten {
                parents: s.parents.push((kind, opened)),
                inside: s.inside,
                result: s.result,
                out: s.out.push(tomb),
                pos: s.pos,
            }
        } else {
            match assignment_kind(kind).0 {
                None => Rewritten {
                    parents: s.parents.push((kind, None)),
                    inside: s.inside,
                    result: s.result,
                    out: s.out,
                    pos: s.pos,
                },
                Some(mapped) => Rewritten {
                    parents: s.parents.push((mapped, opened)),
                    inside: assignment_kind(kind).1,
                    result: s.result,
                    out: s.out.push(tomb),
                    pos: s.pos,
                },
            }
        },
        Event::Finish => if s.parents.len() == 0 {
            s
        } else {
            let kind = s.parents.last().0;
            match s.parents.last().1 {
                None => Rewritten {
                    parents: s.parents.drop_last(),
                    inside: s.inside,
                    result: s.result,
                    out: s.out,
                    pos: s.pos,
                },
                Some((i, st)) => {
                    let closed = s.out.update(i, Event::Start { kind }).push(Event::Finish);
                    let range = span_in(base.tokens, base.source.len() as int, st, s.pos);
                    Rewritten {
                        parents: s.parents.drop_last(),
                        inside: s.inside,
                        result: Some((i, kind, st, s.pos)),
                        out: if kind == SyntaxKind::JS_UNKNOWN_ASSIGNMENT {
                            closed.push(
                                Event::Error {
                                    diagnostic: Diagnostic {
                                        kind: DiagnosticKind::InvalidAssignment,
                                        start: range.0,
                                        end: range.1,
                                    },
                                },
                            )
                        } else {
                            closed
                        },
                        pos: s.pos,
                    }
                },
            }
        },
        Event::Token { kind } => Rewritten {
            parents: if s.parents.len() == 0 {
                s.parents
            } else {
                s.parents.update(
                    s.parents.len() - 1,
                    (after_token(s.parents.last().0, kind), s.parents.last().1),
                )
            },
            inside: s.inside,
            result: s.result,
            out: s.out.push(ev),
            pos: s.pos + 1,
        },
        Event::Error { .. } => Rewritten {
            parents: s.parents,
            inside: s.inside,
            result: s.result,
            out: s.out.push(ev),
            pos: s.pos,
        },
    }
}

/// The rewrite after a run of replayed events.
pub open spec fn rewrite_run(base: ReplayBase, events: Seq<Event>) -> Rewritten
    decreases events.len(),
{
    if events.len() == 0 {
        rewrite_start(base)
    } else {
        rewrite_step(base, rewrite_run(base, events.drop_last()), events.last())
    }
}

/// The rewrite with every node still open closed.
pub open spec fn rewrite_close(base: ReplayBase, s: Rewritten) -> Rewritten
    decreases s.parents.len(),
{
    if s.parents.len() == 0 {
        s
    } else {
        rewrite_close(base, rewrite_step(base, s, Event::Finish))
    }
}

/// The whole rewrite of the events since `cp` as an assignment target.
pub open spec fn rewritten(p: &Parser, cp: &Checkpoint) -> Rewritten {
    let base = replay_base(p, cp);
    rewrite_close(base, rewrite_run(base, replayed(window(p, cp))))
}

/// The kinds of the token events of a run, in order.
pub open spec fn token_kinds(events: Seq<Event>) -> Seq<SyntaxKind>
    decreases events.len(),
{
    if events.len() == 0 {
        seq![]
    } else {
        token_kinds(events.drop_last()) + match events.last() {
            Event::Token { kind } => seq![kind],
            _ => seq![],
        }
    }
}

proof fn lemma_token_kinds_push(a: Seq<Event>, x: Event)
    ensures
        token_kinds(a.push(x)) == token_kinds(a) + match x {
            Event::Token { kind } => seq![kind],
            _ => seq![],
        },
{
    assert(a.push(x).drop_last() =~= a);
}

proof fn lemma_token_kinds_update(a: Seq<Event>, i: int, kind: SyntaxKind)
    requires
        0 <= i < a.len(),
        a[i] is Start,
    ensures
        token_kinds(a.update(i, Event::Start { kind })) == token_kinds(a),
    decreases a.len(),
{
    let u = a.update(i, Event::Start { kind });
    if i == a.len() - 1 {
        assert(u.drop_last() =~= a.drop_last());
    } else {
        lemma_token_kinds_update(a.drop_last(), i, kind);
        assert(u.drop_last() =~= a.drop_last().update(i, Event::Start { kind }));
    }
}

/// Every open node that is not dropped points at a start among the events
/// written.
pub open spec fn opened_ok(s: Rewritten) -> bool {
    forall|k: int| 0 <= k < s.parents.len() ==> opened_at(s.out, (#[trigger] s.parents[k]).1)
}

/// An open node that is not dropped points at a start among `out`.
pub open spec fn opened_at(out: Seq<Event>, c: Option<(int, int)>) -> bool {
    match c {
        Some((i, _)) => 0 <= i < out.len() && out[i] is Start,
        None => true,
    }
}

proof fn lemma_step_tokens(base: ReplayBase, s: Rewritten, ev: Event)
    requires
        opened_ok(s),
    ensures
        opened_ok(rewrite_step(base, s, ev)),
        token_kinds(rewrite_step(base, s, ev).out) == token_kinds(s.out) + match ev {
            Event::Token { kind } => seq![kind],
            _ => seq![],
        },
{
    let t = rewrite_step(base, s, ev);
    let tomb = Event::Start { kind: SyntaxKind::TOMBSTONE };
    match ev {
        Event::Start { kind } => {
            lemma_token_kinds_push(s.out, tomb);
            assert(token_kinds(s.out) + seq![] =~= token_kinds(s.out));
            assert forall|k: int| 0 <= k < t.parents.len() implies opened_at(t.out, (#[trigger] t.parents[k]).1) by {
                if k < s.parents.len() {
                    assert(t.parents[k] == s.parents[k]);
                    assert(opened_at(s.out, s.parents[k].1));
                }
            }
        },
        Event::Finish => {
            if s.parents.len() > 0 {
                let kind = s.parents.last().0;
                match s.parents.last().1 {
                    None => {
                        assert(token_kinds(s.out) + seq![] =~= token_kinds(s.out));
                    },
                    Some((i, st)) => {
                        assert(s.parents[s.parents.len() - 1] == s.parents.last());
                        let u = s.out.update(i, Event::Start { kind });
                        lemma_token_kinds_update(s.out, i, kind);
                        lemma_token_kinds_push(u, Event::Finish);
                        let range = span_in(base.tokens, base.source.len() as int, st, s.pos);
                        let e = Event::Error {
                            diagnostic: Diagnostic {
                                kind: DiagnosticKind::InvalidAssignment,
                                start: range.0,
                                end: range.1,
                            },
                        };
                        lemma_token_kinds_push(u.push(Event::Finish), e);
                        assert(token_kinds(s.out) + seq![] =~= token_kinds(s.out));
                        assert(token_kinds(s.out) + seq![] + seq![] =~= token_kinds(s.out));
                        assert forall|k: int| 0 <= k < t.parents.len() implies opened_at(t.out, (#[trigger] t.parents[k]).1) by {
                assert(opened_at(s.out, s.parents[k].1));
                            assert(t.parents[k] == s.parents[k]);
                        }
                    },
                }
            } else {
                assert(token_kinds(s.out) + seq![] =~= token_kinds(s.out));
            }
        },
        Event::Token { kind } => {
            lemma_token_kinds_push(s.out, ev);
            assert forall|k: int| 0 <= k < t.parents.len() implies opened_at(t.out, (#[trigger] t.parents[k]).1) by {
                assert(opened_at(s.out, s.parents[k].1));
                assert(t.parents[k].1 == s.parents[k].1);
            }
        },
        Event::Error { .. } => {
            lemma_token_kinds_push(s.out, ev);
            assert(token_kinds(s.out) + seq![] =~= token_kinds(s.out));
        },
    }
}

/// A rewrite keeps every replayed token, in order and under its kind.
pub proof fn lemma_run_keeps_tokens(base: ReplayBase, events: Seq<Event>)
    ensures
        opened_ok(rewrite_run(base, events)),
        token_kinds(rewrite_run(base, events).out) == token_kinds(events),
    decreases events.len(),
{
    if events.len() > 0 {
        lemma_run_keeps_tokens(base, events.drop_last());
        lemma_step_tokens(base, rewrite_run(base, events.drop_last()), events.last());
    }
}

/// Closing the open nodes adds no token.
pub proof fn lemma_close_keeps_tokens(base: ReplayBase, s: Rewritten)
    requires
        opened_ok(s),
    ensures
        token_kinds(rewrite_close(base, s).out) == token_kinds(s.out),
    decreases s.parents.len(),
{
    if s.parents.len() > 0 {
        lemma_step_tokens(base, s, Event::Finish);
        assert(token_kinds(s.out) + seq![] =~= token_kinds(s.out));
        lemma_close_keeps_tokens(base, rewrite_step(base, s, Event::Finish));
    }
}

/// Leaving out tombstones leaves every token.
pub proof fn lemma_replayed_tokens(events: Seq<Event>)
    ensures
        token_kinds(replayed(events)) == token_kinds(events),
    decreases events.len(),
{
    if events.len() > 0 {
        lemma_replayed_tokens(events.drop_last());
        let r0 = replayed(events.drop_last());
        let x = events.last();
        if x == (Event::Start { kind: SyntaxKind::TOMBSTONE }) {
            assert(r0 + seq![] =~= r0);
            assert(token_kinds(events.drop_last()) + seq![] =~= token_kinds(events.drop_last()));
        } else {
            assert(r0 + seq![x] =~= r0.push(x));
            lemma_token_kinds_push(r0, x);
        }
    }
}

/// Reinterpreting a target keeps its tokens: the token events of the
/// rewritten window are those of the window, in order and under the same
/// kinds, so the target spans the same text.
pub proof fn lemma_rewrite_keeps_tokens(p: &Parser, cp: &Checkpoint)
    ensures
        token_kinds(rewritten(p, cp).out) == token_kinds(window(p, cp)),
{
    let base = replay_base(p, cp);
    let w = replayed(window(p, cp));
    lemma_run_keeps_tokens(base, w);
    lemma_close_keeps_tokens(base, rewrite_run(base, w));
    lemma_replayed_tokens(window(p, cp));
}

/// The events of `a?.b` (or `a.b`, with `.` for `?.`) as the expression
/// rules record them.
pub open spec fn member_window(dot: SyntaxKind) -> Seq<Event> {
    seq![
        Event::Start { kind: SyntaxKind::JS_STATIC_MEMBER_EXPRESSION },
        Event::Start { kind: SyntaxKind::JS_IDENTIFIER_EXPRESSION },
        Event::Start { kind: SyntaxKind::JS_REFERENCE_IDENTIFIER },
        Event::Token { kind: SyntaxKind::IDENT },
        Event::Finish,
        Event::Finish,
        Event::Token { kind: dot },
        Event::Start { kind: SyntaxKind::JS_NAME },
        Event::Token { kind: SyntaxKind::IDENT },
        Event::Finish,
        Event::Finish,
    ]
}

proof fn lemma_run_prefix(base: ReplayBase, w: Seq<Event>, n: int)
    requires
        0 < n <= w.len(),
    ensures
        rewrite_run(base, w.subrange(0, n)) == rewrite_step(
            base,
            rewrite_run(base, w.subrange(0, n - 1)),
            w[n - 1],
        ),
{
    assert(w.subrange(0, n).drop_last() =~= w.subrange(0, n - 1));
}

/// The rewrite of the events of a member expression `a` `dot` `b`.
proof fn lemma_member_run(base: ReplayBase, dot: SyntaxKind) -> (s: Rewritten)
    ensures
        s == rewrite_run(base, member_window(dot)),
        s.parents.len() == 0,
        s.result == Some(
            (
                0int,
                if dot == SyntaxKind::QUESTIONDOT {
                    SyntaxKind::JS_UNKNOWN_ASSIGNMENT
                } else {
                    SyntaxKind::JS_STATIC_MEMBER_ASSIGNMENT
                },
                base.pos as int,
                base.pos + 3,
            ),
        ),
        s.out[1] == (Event::Start { kind: SyntaxKind::JS_IDENTIFIER_EXPRESSION }),
        s.out[2] == (Event::Start { kind: SyntaxKind::JS_REFERENCE_IDENTIFIER }),
        dot == SyntaxKind::QUESTIONDOT ==> s.out.last() == (Event::Error {
            diagnostic: Diagnostic {
                kind: DiagnosticKind::InvalidAssignment,
                start: span_in(base.tokens, base.source.len() as int, base.pos as int, base.pos + 3).0,
                end: span_in(base.tokens, base.source.len() as int, base.pos as int, base.pos + 3).1,
            },
        }),
{
    let w = member_window(dot);
    assert(w.subrange(0, 0) =~= Seq::<Event>::empty());
    lemma_run_prefix(base, w, 1);
    let s1 = rewrite_run(base, w.subrange(0, 1));
    assert(s1.parents.len() == 1 && !s1.inside && s1.out.len() == 1);
    lemma_run_prefix(base, w, 2);
    let s2 = rewrite_run(base, w.subrange(0, 2));
    assert(s2.parents.len() == 2 && s2.out.len() == 2);
    lemma_run_prefix(base, w, 3);
    let s3 = rewrite_run(base, w.subrange(0, 3));
    assert(s3.parents.len() == 3 && s3.out.len() == 3);
    lemma_run_prefix(base, w, 4);
    let s4 = rewrite_run(base, w.subrange(0, 4));
    assert(s4.parents.len() == 3 && s4.out.len() == 4 && s4.pos == base.pos + 1);
    lemma_run_prefix(base, w, 5);
    let s5 = rewrite_run(base, w.subrange(0, 5));
    assert(s5.parents.len() == 2 && s5.out.len() == 5);
    lemma_run_prefix(base, w, 6);
    let s6 = rewrite_run(base, w.subrange(0, 6));
    assert(s6.parents.len() == 1 && s6.out.len() == 6);
    assert(s6.parents[0] == (SyntaxKind::JS_STATIC_MEMBER_ASSIGNMENT, Some((0int, base.pos as int))));
    lemma_run_prefix(base, w, 7);
    let s7 = rewrite_run(base, w.subrange(0, 7));
    assert(s7.parents.len() == 1 && s7.out.len() == 7 && s7.pos == base.pos + 2);
    lemma_run_prefix(base, w, 8);
    let s8 = rewrite_run(base, w.subrange(0, 8));
    assert(s8.parents.len() == 2 && s8.out.len() == 8);
    lemma_run_prefix(base, w, 9);
    let s9 = rewrite_run(base, w.subrange(0, 9));
    assert(s9.parents.len() == 2 && s9.out.len() == 9 && s9.pos == base.pos + 3);
    lemma_run_prefix(base, w, 10);
    let s10 = rewrite_run(base, w.subrange(0, 10));
    assert(s10.parents.len() == 1 && s10.out.len() == 10);
    assert(s10.parents[0] == s7.parents[0]);
    lemma_run_prefix(base, w, 11);
    let s11 = rewrite_run(base, w.subrange(0, 11));
    assert(w.subrange(0, 11) =~= w);
    assert(s11.out[1] == s10.out[1]);
    assert(s11.out[2] == s10.out[2]);
    s11
}

/// `a?.b` before `=` becomes an unknown assignment over its three tokens,
/// with one invalid-assignment diagnostic at its range as the last event;
/// `a.b` becomes a static member assignment, its object `a` left an
/// identifier expression around its reference identifier.
pub proof fn lemma_member_targets(base: ReplayBase)
    ensures
        rewrite_run(base, member_window(SyntaxKind::QUESTIONDOT)).result == Some(
            (0int, SyntaxKind::JS_UNKNOWN_ASSIGNMENT, base.pos as int, base.pos + 3),
        ),
        rewrite_run(base, member_window(SyntaxKind::QUESTIONDOT)).out.last() == (Event::Error {
            diagnostic: Diagnostic {
                kind: DiagnosticKind::InvalidAssignment,
                start: span_in(base.tokens, base.source.len() as int, base.pos as int, base.pos + 3).0,
                end: span_in(base.tokens, base.source.len() as int, base.pos as int, base.pos + 3).1,
            },
        }),
        rewrite_run(base, member_window(SyntaxKind::DOT)).result == Some(
            (0int, SyntaxKind::JS_STATIC_MEMBER_ASSIGNMENT, base.pos as int, base.pos + 3),
        ),
        rewrite_run(base, member_window(SyntaxKind::DOT)).out[1] == (Event::Start {
            kind: SyntaxKind::JS_IDENTIFIER_EXPRESSION,
        }),
        rewrite_run(base, member_window(SyntaxKind::DOT)).out[2] == (Event::Start {
            kind: SyntaxKind::JS_REFERENCE_IDENTIFIER,
        }),
{
    let _ = lemma_member_run(base, SyntaxKind::QUESTIONDOT);
    let _ = lemma_member_run(base, SyntaxKind::DOT);
}

/// `a` before `=` becomes an identifier assignment whose only child is the
/// identifier: the reference identifier around it is dropped.
pub proof fn lemma_identifier_target(base: ReplayBase)
    ensures
        ({
            let w = seq![
                Event::Start { kind: SyntaxKind::JS_IDENTIFIER_EXPRESSION },
                Event::Start { kind: SyntaxKind::JS_REFERENCE_IDENTIFIER },
                Event::Token { kind: SyntaxKind::IDENT },
                Event::Finish,
                Event::Finish,
            ];
            &&& rewrite_run(base, w).result == Some(
                (0int, SyntaxKind::JS_IDENTIFIER_ASSIGNMENT, base.pos as int, base.pos + 1),
            )
            &&& rewrite_run(base, w).out == seq![
                Event::Start { kind: SyntaxKind::JS_IDENTIFIER_ASSIGNMENT },
                Event::Token { kind: SyntaxKind::IDENT },
                Event::Finish,
            ]
        }),
{
    let w = seq![
        Event::Start { kind: SyntaxKind::JS_IDENTIFIER_EXPRESSION },
        Event::Start { kind: SyntaxKind::JS_REFERENCE_IDENTIFIER },
        Event::Token { kind: SyntaxKind::IDENT },
        Event::Finish,
        Event::Finish,
    ];
    assert(w.subrange(0, 0) =~= Seq::<Event>::empty());
    lemma_run_prefix(base, w, 1);
    let s1 = rewrite_run(base, w.subrange(0, 1));
    assert(s1.parents.len() == 1 && s1.inside && s1.out.len() == 1);
    lemma_run_prefix(base, w, 2);
    let s2 = rewrite_run(base, w.subrange(0, 2));
    assert(s2.parents.len() == 2 && s2.out.len() == 1);
    lemma_run_prefix(base, w, 3);
    let s3 = rewrite_run(base, w.subrange(0, 3));
    assert(s3.parents.len() == 2 && s3.out.len() == 2);
    lemma_run_prefix(base, w, 4);
    let s4 = rewrite_run(base, w.subrange(0, 4));
    assert(s4.parents.len() == 1 && s4.out.len() == 2);
    lemma_run_prefix(base, w, 5);
    assert(w.subrange(0, 5) =~= w);
    let s5 = rewrite_run(base, w);
    assert(s5.out =~= seq![
        Event::Start { kind: SyntaxKind::JS_IDENTIFIER_ASSIGNMENT },
        Event::Token { kind: SyntaxKind::IDENT },
        Event::Finish,
    ]);
}

/// What a reinterpreted target leaves: the events before `cp`, then the
/// rewritten window, and its outermost node.
pub open spec fn reinterpreted(new: &Parser, old: &Parser, cp: &Checkpoint, r: &CompletedMarker) -> bool {
    let s = rewritten(old, cp);
    &&& new.events@ == cp.prefix_view() + s.out
    &&& new.pos == old.pos
    &&& s.result matches Some((i, kind, st, et)) && r.start_view() == cp.event_pos_view() + i
        && r.kind_view() == kind && r.start_tok_view() == st && r.end_tok_view() == et
}

/// The events an unknown assignment around the tokens `a .. b` adds: its
/// start, the tokens under their own kinds, its finish and the diagnostic.
pub open spec fn wrapped(p: &Parser, a: int, b: int) -> Seq<Event> {
    let range = p.span(a, b);
    seq![Event::Start { kind: SyntaxKind::JS_UNKNOWN_ASSIGNMENT }] + token_events(p.tokens@, a, b)
        + seq![
        Event::Finish,
        Event::Error {
            diagnostic: Diagnostic {
                kind: DiagnosticKind::InvalidAssignment,
                start: range.0,
                end: range.1,
            },
        },
    ]
}

/// One token event for each of the tokens `a .. b`, under its own kind.
pub open spec fn token_events(tokens: Seq<TokenData>, a: int, b: int) -> Seq<Event> {
    Seq::new((b - a) as nat, |k: int| Event::Token { kind: tokens[a + k].kind })
}

/// The kinds of the assignment targets.
pub open spec fn is_assignment_kind(kind: SyntaxKind) -> bool {
    kind == SyntaxKind::JS_PARENTHESIZED_ASSIGNMENT || kind == SyntaxKind::JS_STATIC_MEMBER_ASSIGNMENT
        || kind == SyntaxKind::JS_COMPUTED_MEMBER_ASSIGNMENT || kind
        == SyntaxKind::JS_IDENTIFIER_ASSIGNMENT || kind == SyntaxKind::JS_UNKNOWN_ASSIGNMENT
}

/// An array or object pattern starts at the current token.
pub open spec fn starts_pattern(p: &Parser) -> bool {
    p.nth_kind(0) == SyntaxKind::L_BRACK || (p.nth_kind(0) == SyntaxKind::L_CURLY
        && p.state.allow_object_expr)
}

/// What a rule that reinterprets `target` may assume.
pub open spec fn reparse_ready(p: &Parser, target: &CompletedMarker, cp: &Checkpoint) -> bool {
    &&& p.wf()
    &&& p.can_rewind(cp)
    &&& p.completed(target)
    &&& target.start_view() >= cp.event_pos_view()
    &&& target.start_tok_view() >= cp.token_pos_view()
    &&& p.pos > cp.token_pos_view()
}

/// Converts the passed in lhs expression to an assignment pattern.
/// The passed checkpoint allows to restore the parser to the state before it
/// started parsing the expression.
pub fn expression_to_assignment_pattern(
    p: &mut Parser,
    target: CompletedMarker,
    checkpoint: &Checkpoint,
    expr_kind: AssignmentExprPrecedence,
) -> (r: CompletedMarker)
    requires
        reparse_ready(old(p), &target, checkpoint),
    ensures
        reparsed(final(p), old(p), checkpoint, &r),
        is_assignment_root(target.kind_view()) ==> reinterpreted(final(p), old(p), checkpoint, &r),
        !is_assignment_root(target.kind_view()) ==> {
            let first = old(p).tokens@[checkpoint.token_pos_view() as int].kind;
            &&& first == SyntaxKind::L_BRACK ==> r.kind_view() == SyntaxKind::JS_ARRAY_ASSIGNMENT_PATTERN
            &&& first == SyntaxKind::L_CURLY && old(p).state.allow_object_expr ==> r.kind_view()
                == SyntaxKind::JS_OBJECT_ASSIGNMENT_PATTERN
            &&& first != SyntaxKind::L_BRACK && !(first == SyntaxKind::L_CURLY
                && old(p).state.allow_object_expr) && !starts_expression(first) ==> final(p).events@
                == checkpoint.prefix_view() + wrapped(
                old(p),
                checkpoint.token_pos_view() as int,
                old(p).pos as int,
            ) && r.kind_view() == SyntaxKind::JS_UNKNOWN_ASSIGNMENT && final(p).pos == old(p).pos
        },
    decreases old(p).tokens@.len() - checkpoint.token_pos_view(), 28nat,
{
    match try_expression_to_assignment(p, target, checkpoint) {
        Ok(assignment_target) => assignment_target,
        Err(()) => {
            let expression_end = p.token_pos();
            p.rewind(checkpoint);
            match parse_assignment_pattern(p, expr_kind) {
                Some(target) => target,
                None => wrap_expression_in_invalid_assignment(p, expression_end),
            }
        },
    }
}

/// An assignment pattern: an array or object pattern, or an expression reinterpreted
/// as an assignment target.
pub fn parse_assignment_pattern(p: &mut Parser, expression_kind: AssignmentExprPrecedence) -> (r:
    Option<CompletedMarker>)
    requires
        old(p).wf(),
    ensures
        parsed(final(p), old(p), r),
        r is None ==> *final(p) == *old(p),
        old(p).nth_kind(0) == SyntaxKind::L_BRACK ==> (r matches Some(m) && m.kind_view()
            == SyntaxKind::JS_ARRAY_ASSIGNMENT_PATTERN),
        old(p).nth_kind(0) == SyntaxKind::L_CURLY && old(p).state.allow_object_expr ==> (r matches Some(
            m,
        ) && m.kind_view() == SyntaxKind::JS_OBJECT_ASSIGNMENT_PATTERN),
        r is Some == (starts_pattern(old(p)) || starts_expression(old(p).nth_kind(0))),
    decreases old(p).tokens@.len() - old(p).pos, 27nat,
{
    if p.at(SyntaxKind::L_BRACK) {
        Some(parse_array_assignment_pattern(p))
    } else if p.at(SyntaxKind::L_CURLY) && p.state.allow_object_expr {
        Some(parse_object_assignment_pattern(p))
    } else {
        parse_assignment(p, expression_kind)
    }
}

/// Re-parses an expression as an assignment; where it cannot be one, what it
/// spanned becomes an unknown assignment.
pub fn expression_to_assignment(p: &mut Parser, target: CompletedMarker, checkpoint: &Checkpoint) -> (r:
    CompletedMarker)
    requires
        reparse_ready(old(p), &target, checkpoint),
    ensures
        reparsed(final(p), old(p), checkpoint, &r),
        final(p).pos == old(p).pos,
        is_assignment_root(target.kind_view()) ==> reinterpreted(final(p), old(p), checkpoint, &r),
        !is_assignment_root(target.kind_view()) ==> final(p).events@ == checkpoint.prefix_view()
            + wrapped(old(p), checkpoint.token_pos_view() as int, old(p).pos as int)
            && r.kind_view() == SyntaxKind::JS_UNKNOWN_ASSIGNMENT && r.start_view()
            == checkpoint.event_pos_view() && r.start_tok_view() == checkpoint.token_pos_view()
            && r.end_tok_view() == old(p).pos,
{
    match try_expression_to_assignment(p, target, checkpoint) {
        Ok(assignment) => assignment,
        Err(()) => {
            let expression_end = p.token_pos();
            p.rewind(checkpoint);
            wrap_expression_in_invalid_assignment(p, expression_end)
        },
    }
}

/// An expression read as an assignment target: `None`, with nothing
/// consumed, where no expression starts here.
pub fn parse_assignment(p: &mut Parser, expr_kind: AssignmentExprPrecedence) -> (r: Option<
    CompletedMarker,
>)
    requires
        old(p).wf(),
    ensures
        parsed(final(p), old(p), r),
        r is None ==> *final(p) == *old(p),
        r is Some == starts_expression(old(p).nth_kind(0)),
    decreases old(p).tokens@.len() - old(p).pos, 26nat,
{
    let checkpoint = p.checkpoint();
    let assignment_expression = match expr_kind {
        AssignmentExprPrecedence::Unary => parse_unary_expression(p),
        AssignmentExprPrecedence::Conditional => parse_conditional_expression(p),
    };
    match assignment_expression {
        Some(expr) => Some(expression_to_assignment(p, expr, &checkpoint)),
        None => None,
    }
}

/// An assignment target with an optional default: `target = value`.
fn parse_assignment_with_default(p: &mut Parser) -> (r: Option<CompletedMarker>)
    requires
        old(p).wf(),
    ensures
        parsed(final(p), old(p), r),
    decreases old(p).tokens@.len() - old(p).pos, 28nat,
{
    let target = match parse_assignment_pattern(p, AssignmentExprPrecedence::Conditional) {
        Some(target) => target,
        None => return None,
    };
    if p.at(SyntaxKind::EQ) {
        let m = target.precede(p);
        p.bump(SyntaxKind::EQ);
        if crate::expr::parse_assignment_expression(p).is_none() {
            p.error_here(DiagnosticKind::ExpectedExpression);
        }
        Some(m.complete(p, SyntaxKind::JS_ASSIGNMENT_WITH_DEFAULT))
    } else {
        Some(target)
    }
}

/// A rest element `...target` of an array pattern. A default value or an
/// element after it is reported, and the element becomes unknown.
#[verifier::rlimit(50)]
fn parse_array_rest_element(p: &mut Parser) -> (r: CompletedMarker)
    requires
        old(p).wf(),
        old(p).nth_kind(0) == SyntaxKind::DOT3,
    ensures
        parsed(final(p), old(p), Some(r)),
    decreases old(p).tokens@.len() - old(p).pos, 24nat,
{
    let m = p.start();
    p.bump(SyntaxKind::DOT3);
    if parse_assignment_pattern(p, AssignmentExprPrecedence::Conditional).is_none() {
        p.error_here(DiagnosticKind::ExpectedAssignmentTarget);
    }
    let mut rest = m.complete(p, SyntaxKind::JS_ARRAY_ASSIGNMENT_PATTERN_REST_ELEMENT);
    if p.at(SyntaxKind::EQ) {
        let range = rest.range(p);
        let d = p.start();
        p.bump(SyntaxKind::EQ);
        let ghost mid = *p;
        if crate::expr::parse_assignment_expression(p).is_none() {
            p.error_here(DiagnosticKind::ExpectedExpression);
        }
        proof {
            assert(mid.completed(&rest));
            assert(p.events@[rest.start_view() as int] == mid.events@[rest.start_view() as int]);
        }
        let _ = d.complete(p, SyntaxKind::JS_EQUAL_VALUE_CLAUSE);
        rest.change_kind(p, SyntaxKind::JS_UNKNOWN_ASSIGNMENT);
        p.error(Diagnostic { kind: DiagnosticKind::RestElementWithDefault, start: range.0, end: range.1 });
    }
    if p.at(SyntaxKind::COMMA) && p.nth(1) != SyntaxKind::R_BRACK {
        let range = rest.range(p);
        rest.change_kind(p, SyntaxKind::JS_UNKNOWN_ASSIGNMENT);
        p.error(Diagnostic { kind: DiagnosticKind::RestElementNotLast, start: range.0, end: range.1 });
    }
    rest
}

/// An array assignment pattern: `[`, targets, holes and a rest element, `]`.
fn parse_array_assignment_pattern(p: &mut Parser) -> (r: CompletedMarker)
    requires
        old(p).wf(),
        old(p).nth_kind(0) == SyntaxKind::L_BRACK,
    ensures
        parsed(final(p), old(p), Some(r)),
        r.kind_view() == SyntaxKind::JS_ARRAY_ASSIGNMENT_PATTERN,
    decreases old(p).tokens@.len() - old(p).pos, 25nat,
{
    let m = p.start();
    p.bump(SyntaxKind::L_BRACK);
    let elements = p.start();
    while !p.at(SyntaxKind::R_BRACK) && !p.at(SyntaxKind::EOF)
        invariant
            p.wf(),
            p.same_input(old(p)),
            p.open@ == old(p).open@.push(m.pos_view()).push(elements.pos_view()),
            p.pos > old(p).pos,
            p.state == old(p).state,
            agree(p.events@, old(p).events@, old(p).events@.len() as int),
            m.pos_view() == old(p).events@.len(),
            elements.pos_view() == old(p).events@.len() + 2,
            m.start_tok_view() == old(p).pos,
            elements.start_tok_view() <= p.pos,
        decreases p.tokens@.len() - p.pos,
    {
        if p.at(SyntaxKind::COMMA) {
            let hole = p.start();
            let _ = hole.complete(p, SyntaxKind::JS_ARRAY_HOLE);
            p.bump(SyntaxKind::COMMA);
            continue;
        }
        if p.at(SyntaxKind::DOT3) {
            let _ = parse_array_rest_element(p);
        } else if parse_assignment_with_default(p).is_none() {
            p.error_here(DiagnosticKind::ExpectedAssignmentTarget);
            break;
        }
        if !p.at(SyntaxKind::R_BRACK) {
            if !p.eat(SyntaxKind::COMMA) {
                p.error_here(DiagnosticKind::ExpectedToken(SyntaxKind::COMMA));
                break;
            }
        }
    }
    let _ = elements.complete(p, SyntaxKind::LIST);
    p.expect(SyntaxKind::R_BRACK);
    m.complete(p, SyntaxKind::JS_ARRAY_ASSIGNMENT_PATTERN)
}

/// An optional default value: `= value`.
fn parse_equal_value_clause(p: &mut Parser) -> (r: Option<CompletedMarker>)
    requires
        old(p).wf(),
    ensures
        parsed(final(p), old(p), r),
        r is None ==> *final(p) == *old(p),
        r is Some == (old(p).nth_kind(0) == SyntaxKind::EQ),
    decreases old(p).tokens@.len() - old(p).pos, 24nat,
{
    if !p.at(SyntaxKind::EQ) {
        return None;
    }
    let m = p.start();
    p.bump(SyntaxKind::EQ);
    if crate::expr::parse_assignment_expression(p).is_none() {
        p.error_here(DiagnosticKind::ExpectedExpression);
    }
    Some(m.complete(p, SyntaxKind::JS_EQUAL_VALUE_CLAUSE))
}

/// A token that names a property: an identifier, or `await` or `yield`
/// where they are no operator.
pub open spec fn spec_is_name(k: SyntaxKind) -> bool {
    k == SyntaxKind::IDENT || k == SyntaxKind::AWAIT_KW || k == SyntaxKind::YIELD_KW
}

#[verifier::when_used_as_spec(spec_is_name)]
fn is_name(k: SyntaxKind) -> (r: bool)
    ensures
        r == spec_is_name(k),
{
    k == SyntaxKind::IDENT || k == SyntaxKind::AWAIT_KW || k == SyntaxKind::YIELD_KW
}

/// A token a property of an object pattern starts with.
pub open spec fn spec_is_property_start(k: SyntaxKind) -> bool {
    spec_is_name(k) || k == SyntaxKind::COLON || k == SyntaxKind::EQ
}

#[verifier::when_used_as_spec(spec_is_property_start)]
fn is_property_start(k: SyntaxKind) -> (r: bool)
    ensures
        r == spec_is_property_start(k),
{
    is_name(k) || k == SyntaxKind::COLON || k == SyntaxKind::EQ
}

/// A property of an object pattern: `name: target` or a shorthand target,
/// each with an optional default. `None`, with nothing consumed, where none
/// starts here.
fn parse_property_pattern(p: &mut Parser) -> (r: Option<CompletedMarker>)
    requires
        old(p).wf(),
    ensures
        parsed(final(p), old(p), r),
        r is None ==> *final(p) == *old(p),
        r is Some == is_property_start(old(p).nth_kind(0)),
        r matches Some(m) ==> m.kind_view() == SyntaxKind::JS_OBJECT_ASSIGNMENT_PATTERN_PROPERTY
            || m.kind_view() == SyntaxKind::JS_OBJECT_ASSIGNMENT_PATTERN_SHORTHAND_PROPERTY,
    decreases old(p).tokens@.len() - old(p).pos, 28nat,
{
    let k = p.cur();
    if !is_property_start(k) {
        return None;
    }
    let m = p.start();
    let kind = if p.at(SyntaxKind::COLON) || p.nth(1) == SyntaxKind::COLON {
        if is_name(p.cur()) {
            let name = p.start();
            p.bump_remap(SyntaxKind::IDENT);
            let _ = name.complete(p, SyntaxKind::JS_NAME);
        } else {
            p.error_here(DiagnosticKind::ExpectedIdentifier);
        }
        p.expect(SyntaxKind::COLON);
        if parse_assignment_pattern(p, AssignmentExprPrecedence::Conditional).is_none() {
            p.error_here(DiagnosticKind::ExpectedAssignmentTarget);
        }
        SyntaxKind::JS_OBJECT_ASSIGNMENT_PATTERN_PROPERTY
    } else {
        if parse_assignment(p, AssignmentExprPrecedence::Conditional).is_none() {
            p.error_here(DiagnosticKind::ExpectedIdentifier);
        }
        SyntaxKind::JS_OBJECT_ASSIGNMENT_PATTERN_SHORTHAND_PROPERTY
    };
    let _ = parse_equal_value_clause(p);
    if p.token_pos() == m.start_tok() {
        // A property always holds a token, so that the list around it moves on.
        p.bump_any();
    }
    Some(m.complete(p, kind))
}

/// A rest property `...target` of an object pattern. A target that is itself
/// an object or array pattern is reported, and becomes unknown.
fn parse_rest_property_pattern(p: &mut Parser) -> (r: CompletedMarker)
    requires
        old(p).wf(),
        old(p).nth_kind(0) == SyntaxKind::DOT3,
    ensures
        parsed(final(p), old(p), Some(r)),
        r.kind_view() == SyntaxKind::JS_OBJECT_ASSIGNMENT_PATTERN_REST,
    decreases old(p).tokens@.len() - old(p).pos, 24nat,
{
    let m = p.start();
    p.bump(SyntaxKind::DOT3);
    match parse_assignment_pattern(p, AssignmentExprPrecedence::Conditional) {
        Some(mut target) => {
            let kind = target.kind();
            if kind == SyntaxKind::JS_OBJECT_ASSIGNMENT_PATTERN || kind
                == SyntaxKind::JS_ARRAY_ASSIGNMENT_PATTERN {
                let range = target.range(p);
                target.change_kind(p, SyntaxKind::JS_UNKNOWN_ASSIGNMENT);
                p.error(Diagnostic { kind: DiagnosticKind::PatternInRestProperty, start: range.0, end: range.1 });
            }
        },
        None => {
            p.error_here(DiagnosticKind::ExpectedAssignmentTarget);
        },
    }
    m.complete(p, SyntaxKind::JS_OBJECT_ASSIGNMENT_PATTERN_REST)
}

/// An object assignment pattern: `{`, properties and a rest property, `}`.
/// A property after the rest property is reported where it stands.
fn parse_object_assignment_pattern(p: &mut Parser) -> (r: CompletedMarker)
    requires
        old(p).wf(),
        old(p).nth_kind(0) == SyntaxKind::L_CURLY,
    ensures
        parsed(final(p), old(p), Some(r)),
        r.kind_view() == SyntaxKind::JS_OBJECT_ASSIGNMENT_PATTERN,
    decreases old(p).tokens@.len() - old(p).pos, 25nat,
{
    let m = p.start();
    p.bump(SyntaxKind::L_CURLY);
    let properties = p.start();
    while !p.at(SyntaxKind::R_CURLY) && !p.at(SyntaxKind::EOF)
        invariant
            p.wf(),
            p.same_input(old(p)),
            p.open@ == old(p).open@.push(m.pos_view()).push(properties.pos_view()),
            p.pos > old(p).pos,
            p.state == old(p).state,
            agree(p.events@, old(p).events@, old(p).events@.len() as int),
            m.pos_view() == old(p).events@.len(),
            properties.pos_view() == old(p).events@.len() + 2,
            m.start_tok_view() == old(p).pos,
            properties.start_tok_view() <= p.pos,
        decreases p.tokens@.len() - p.pos,
    {
        if p.at(SyntaxKind::DOT3) {
            let rest = parse_rest_property_pattern(p);
            if p.at(SyntaxKind::COMMA) && p.nth(1) != SyntaxKind::R_CURLY {
                let range = rest.range(p);
                p.error(Diagnostic { kind: DiagnosticKind::RestElementNotLast, start: range.0, end: range.1 });
            }
        } else if parse_property_pattern(p).is_none() {
            p.error_here(DiagnosticKind::ExpectedAssignmentTarget);
            break;
        }
        if !p.at(SyntaxKind::R_CURLY) {
            if !p.eat(SyntaxKind::COMMA) {
                p.error_here(DiagnosticKind::ExpectedToken(SyntaxKind::COMMA));
                break;
            }
        }
    }
    let _ = properties.complete(p, SyntaxKind::LIST);
    p.expect(SyntaxKind::R_CURLY);
    m.complete(p, SyntaxKind::JS_OBJECT_ASSIGNMENT_PATTERN)
}

/// Rewrites the expression since `checkpoint` into an assignment target.
/// An expression whose kind can be no target is refused before anything is
/// touched.
pub fn try_expression_to_assignment(
    p: &mut Parser,
    target: CompletedMarker,
    checkpoint: &Checkpoint,
) -> (r: Result<CompletedMarker, ()>)
    requires
        reparse_ready(old(p), &target, checkpoint),
    ensures
        !is_assignment_root(target.kind_view()) ==> r is Err && *final(p) == *old(p),
        is_assignment_root(target.kind_view()) ==> r is Ok,
        r matches Ok(a) ==> reparsed(final(p), old(p), checkpoint, &a) && final(p).pos == old(p).pos
            && reinterpreted(final(p), old(p), checkpoint, &a),
        r is Err ==> final(p).wf() && final(p).same_input(old(p)) && final(p).can_rewind(checkpoint)
            && final(p).pos == old(p).pos && final(p).open == old(p).open && final(p).state
            == old(p).state,
{
    let kind = target.kind();
    if !(kind == SyntaxKind::JS_PARENTHESIZED_EXPRESSION || kind == SyntaxKind::JS_STATIC_MEMBER_EXPRESSION
        || kind == SyntaxKind::JS_COMPUTED_MEMBER_EXPRESSION || kind
        == SyntaxKind::JS_IDENTIFIER_EXPRESSION) {
        return Err(());
    }
    // At this point it's guaranteed that the root node can be mapped to an
    // assignment, but not yet whether it is a valid one (a static member
    // expression is, except where it uses optional chaining).

    let mut reparse_assignment = ReparseAssignment::new();
    reparse_assignment.start = Ghost(
        ReplayBase {
            prefix: checkpoint.prefix_view(),
            open: checkpoint.open_view(),
            pos: checkpoint.token_pos_view(),
            state: old(p).state,
            source: old(p).source@,
            raw: old(p).raw@,
            tokens: old(p).tokens@,
        },
    );
    proof {
        assert(reparse_assignment.parents@.len() == 0);
        assert forall|q: Parser|
            q.wf() && q.same_input(old(p)) && q.events@ == checkpoint.prefix_view() && q.open@
                == checkpoint.open_view() && q.pos == checkpoint.token_pos_view() && q.state == old(p).state implies #[trigger] reparse_assignment.holds(&q) by {
            assert(open_of(reparse_assignment.parents@) =~= Seq::<usize>::empty());
            assert(q.open@ =~= reparse_assignment.start@.open + open_of(reparse_assignment.parents@));
        }
    }
    let ghost before = p.events@;
    rewrite_events(&mut reparse_assignment, checkpoint, p);
    proof {
        let tail = before.subrange(checkpoint.event_pos_view() as int, before.len() as int);
        let j = target.start_view() - checkpoint.event_pos_view();
        assert(tail[j] == (Event::Start { kind }));
        lemma_replayed_contains(tail, j);
        assert(reparse_assignment.seen@ =~= replayed(tail));
        let k = choose|k: int| 0 <= k < replayed(tail).len() && replayed(tail)[k] == tail[j];
        assert(reparse_assignment.seen@[k] == (Event::Start { kind }));
        assert(reparse_assignment.started@);
        assert(Seq::<Event>::empty() + replayed(tail) =~= replayed(tail));
        assert(reparse_assignment.start@ == replay_base(old(p), checkpoint));
        assert(tail == window(old(p), checkpoint));
    }
    reparse_assignment.close_remaining(p);
    match reparse_assignment.result {
        Some(result) => Ok(result),
        None => Err(()),
    }
}

/// The positions of the markers among `parents`, in order.
pub open spec fn open_of(parents: Seq<(SyntaxKind, Option<Marker>)>) -> Seq<usize>
    decreases parents.len(),
{
    if parents.len() == 0 {
        seq![]
    } else {
        open_of(parents.drop_last()) + match parents.last().1 {
            Some(m) => seq![m.pos_view()],
            None => seq![],
        }
    }
}

/// Rewrites expressions to assignments:
/// * converts parenthesized expression to parenthesized assignment;
/// * converts computed/static member expressions to computed/static member
///   assignment, and validates that the operator isn't `?.`;
/// * converts identifier expressions to identifier assignment, dropping the
///   inner reference identifier.
pub struct ReparseAssignment {
    /// The unfinished parents: the re-mapped kind of each, and its started
    /// marker; a node without marker is dropped from the rewritten tree.
    parents: Vec<(SyntaxKind, Option<Marker>)>,
    /// The completed assignment node (valid or invalid).
    result: Option<CompletedMarker>,
    /// Whether the visitor is still inside of the assignment target.
    inside_assignment: bool,
    /// Where the replay started.
    start: Ghost<ReplayBase>,
    /// The events replayed so far.
    seen: Ghost<Seq<Event>>,
    /// Whether a node that is not a reference identifier has started.
    started: Ghost<bool>,
}

/// The kind an expression node takes inside an assignment target, and
/// whether the nodes below it are still part of the target. `None`: the node
/// is dropped and its children go to its parent.
pub open spec fn assignment_kind(kind: SyntaxKind) -> (Option<SyntaxKind>, bool) {
    match kind {
        SyntaxKind::JS_PARENTHESIZED_EXPRESSION => (Some(SyntaxKind::JS_PARENTHESIZED_ASSIGNMENT), true),
        SyntaxKind::JS_STATIC_MEMBER_EXPRESSION => (Some(SyntaxKind::JS_STATIC_MEMBER_ASSIGNMENT), false),
        SyntaxKind::JS_COMPUTED_MEMBER_EXPRESSION => (Some(SyntaxKind::JS_COMPUTED_MEMBER_ASSIGNMENT), false),
        SyntaxKind::JS_IDENTIFIER_EXPRESSION => (Some(SyntaxKind::JS_IDENTIFIER_ASSIGNMENT), true),
        SyntaxKind::JS_REFERENCE_IDENTIFIER => (None, true),
        _ => (Some(SyntaxKind::JS_UNKNOWN_ASSIGNMENT), false),
    }
}

fn map_assignment_kind(kind: SyntaxKind) -> (r: (Option<SyntaxKind>, bool))
    ensures
        r == assignment_kind(kind),
{
    match kind {
        SyntaxKind::JS_PARENTHESIZED_EXPRESSION => (Some(SyntaxKind::JS_PARENTHESIZED_ASSIGNMENT), true),
        SyntaxKind::JS_STATIC_MEMBER_EXPRESSION => (Some(SyntaxKind::JS_STATIC_MEMBER_ASSIGNMENT), false),
        SyntaxKind::JS_COMPUTED_MEMBER_EXPRESSION => (Some(SyntaxKind::JS_COMPUTED_MEMBER_ASSIGNMENT), false),
        SyntaxKind::JS_IDENTIFIER_EXPRESSION => (Some(SyntaxKind::JS_IDENTIFIER_ASSIGNMENT), true),
        SyntaxKind::JS_REFERENCE_IDENTIFIER => (None, true),
        _ => (Some(SyntaxKind::JS_UNKNOWN_ASSIGNMENT), false),
    }
}

/// The kind a member assignment takes after a token of `token` inside it:
/// `?.` makes it unknown.
pub open spec fn after_token(parent: SyntaxKind, token: SyntaxKind) -> SyntaxKind {
    if (parent == SyntaxKind::JS_COMPUTED_MEMBER_ASSIGNMENT || parent
        == SyntaxKind::JS_STATIC_MEMBER_ASSIGNMENT) && token == SyntaxKind::QUESTIONDOT {
        SyntaxKind::JS_UNKNOWN_ASSIGNMENT
    } else {
        parent
    }
}

/// An open node of the visitor stands for an open node of the rewrite.
pub open spec fn parent_matches(
    base: ReplayBase,
    e: (SyntaxKind, Option<Marker>),
    s: (SyntaxKind, Option<(int, int)>),
) -> bool {
    &&& e.0 == s.0
    &&& match (e.1, s.1) {
        (Some(m), Some((i, st))) => m.pos_view() == base.prefix.len() + i && m.start_tok_view() == st,
        (None, None) => true,
        _ => false,
    }
}

/// The visitor's last completed node stands for the rewrite's.
pub open spec fn result_matches(
    base: ReplayBase,
    r: Option<CompletedMarker>,
    s: Option<(int, SyntaxKind, int, int)>,
) -> bool {
    match (r, s) {
        (Some(m), Some((i, kind, st, et))) => m.start_view() == base.prefix.len() + i
            && m.kind_view() == kind && m.start_tok_view() == st && m.end_tok_view() == et,
        (None, None) => true,
        _ => false,
    }
}

proof fn lemma_concat_push(a: Seq<Event>, b: Seq<Event>, x: Event)
    ensures
        (a + b).push(x) == a + b.push(x),
{
    assert((a + b).push(x) =~= a + b.push(x));
}

proof fn lemma_concat_update(a: Seq<Event>, b: Seq<Event>, i: int, x: Event)
    requires
        0 <= i < b.len(),
    ensures
        (a + b).update(a.len() + i, x) == a + b.update(i, x),
{
    assert((a + b).update(a.len() + i, x) =~= a + b.update(i, x));
}

fn kind_after_token(parent: SyntaxKind, token: SyntaxKind) -> (r: SyntaxKind)
    ensures
        r == after_token(parent, token),
{
    if (parent == SyntaxKind::JS_COMPUTED_MEMBER_ASSIGNMENT || parent
        == SyntaxKind::JS_STATIC_MEMBER_ASSIGNMENT) && token == SyntaxKind::QUESTIONDOT {
        SyntaxKind::JS_UNKNOWN_ASSIGNMENT
    } else {
        parent
    }
}

impl ReparseAssignment {
    /// How many nodes are open in the replay.
    pub closed spec fn parents_len(&self) -> nat {
        self.parents@.len()
    }

    /// Whether a node that is not a reference identifier has started.
    pub closed spec fn has_started(&self) -> bool {
        self.started@
    }

    /// Whether nothing has been replayed yet.
    pub closed spec fn is_fresh(&self) -> bool {
        self.parents@.len() == 0 && self.result is None && self.inside_assignment
            && self.seen@.len() == 0 && !self.started@
    }

    pub fn new() -> (r: Self)
        ensures
            r.is_fresh(),
    {
        Self {
            parents: Vec::new(),
            result: None,
            inside_assignment: true,
            start: Ghost(
                ReplayBase {
                    prefix: Seq::empty(),
                    open: Seq::empty(),
                    pos: 0,
                    state: ParserState { allow_object_expr: true },
                    source: Seq::empty(),
                    raw: Seq::empty(),
                    tokens: Seq::empty(),
                },
            ),
            seen: Ghost(Seq::empty()),
            started: Ghost(false),
        }
    }

    /// Closes the nodes a replay left open; a balanced replay leaves none.
    fn close_remaining(&mut self, p: &mut Parser)
        requires
            old(self).holds(old(p)),
        ensures
            final(self).holds(final(p)),
            final(self).parents@.len() == 0,
            final(p).same_input(old(p)),
            final(p).pos == old(p).pos,
            final(p).open@ == old(self).start@.open,
            final(self).start == old(self).start,
            final(self).started == old(self).started,
            final(self).started@ ==> final(self).result is Some,
            rewrite_run(final(self).start@, final(self).seen@) == rewrite_close(
                old(self).start@,
                rewrite_run(old(self).start@, old(self).seen@),
            ),
    {
        let ghost target = rewrite_close(self.start@, rewrite_run(self.start@, self.seen@));
        while self.parents.len() > 0
            invariant
                self.holds(p),
                p.same_input(old(p)),
                p.pos == old(p).pos,
                self.start == old(self).start,
                self.has_started() == old(self).has_started(),
                rewrite_close(self.start@, rewrite_run(self.start@, self.seen@)) == target,
            decreases self.parents@.len(),
        {
            let ghost before = self.seen@;
            self.finish_node(p);
            proof {
                assert(self.seen@.drop_last() == before);
            }
        }
        proof {
            assert(p.open@ =~= self.start@.open + open_of(self.parents@));
            assert(p.open@ =~= self.start@.open);
        }
    }
}

impl RewriteParseEvents for ReparseAssignment {
    closed spec fn base(&self) -> ReplayBase {
        self.start@
    }

    closed spec fn visited(&self) -> Seq<Event> {
        self.seen@
    }

    closed spec fn holds(&self, p: &Parser) -> bool {
        &&& forall|k: int|
            0 <= k < self.seen@.len() ==> (#[trigger] self.seen@[k] matches Event::Start { kind }
                && kind != SyntaxKind::JS_REFERENCE_IDENTIFIER) ==> self.started@
        &&& self.started@ ==> (self.result is Some || open_of(self.parents@).len() > 0)
        &&& p.wf()
        &&& p.source@ == self.start@.source
        &&& p.raw@ == self.start@.raw
        &&& p.tokens@ == self.start@.tokens
        &&& p.open@ == self.start@.open + open_of(self.parents@)
        &&& forall|k: int| 0 <= k < self.start@.open.len() ==> #[trigger] self.start@.open[k] < self.start@.prefix.len() as int
        &&& forall|k: int|
            0 <= k < self.parents@.len() ==> (#[trigger] self.parents@[k]).0 != SyntaxKind::TOMBSTONE
                && (self.parents@[k].1 matches Some(m) ==> m.start_tok_view() <= p.pos
                && m.start_tok_view() >= self.start@.pos && m.pos_view() >= self.start@.prefix.len() as int)
        &&& agree(p.events@, self.start@.prefix, self.start@.prefix.len() as int)
        &&& p.pos >= self.start@.pos
        &&& p.state == self.start@.state
        &&& (self.result matches Some(r) ==> p.completed(&r) && r.start_view() >= self.start@.prefix.len() as int
            && r.start_tok_view() >= self.start@.pos)
        &&& p.events@ == self.start@.prefix + rewrite_run(self.start@, self.seen@).out
        &&& p.pos as int == rewrite_run(self.start@, self.seen@).pos
        &&& self.inside_assignment == rewrite_run(self.start@, self.seen@).inside
        &&& self.parents@.len() == rewrite_run(self.start@, self.seen@).parents.len()
        &&& forall|k: int|
            0 <= k < self.parents@.len() ==> parent_matches(
                self.start@,
                #[trigger] self.parents@[k],
                rewrite_run(self.start@, self.seen@).parents[k],
            )
        &&& result_matches(self.start@, self.result, rewrite_run(self.start@, self.seen@).result)
    }

    fn start_node(&mut self, kind: SyntaxKind, p: &mut Parser) {
        let ghost old_seen = self.seen@;
        self.seen = Ghost(self.seen@.push(Event::Start { kind }));
        if kind != SyntaxKind::JS_REFERENCE_IDENTIFIER || !self.inside_assignment {
            self.started = Ghost(true);
        }
        proof {
            assert forall|k: int| 0 <= k < old_seen.len() implies self.seen@[k] == old_seen[k] by {}
        }
        if !self.inside_assignment {
            let ghost old_parents = self.parents@;
            let m = p.start();
            self.parents.push((kind, Some(m)));
            proof {
                assert(self.parents@.drop_last() =~= old_parents);
                assert(p.open@ =~= self.start@.open + open_of(self.parents@));
            }
            return;
        }
        let (mapped, inside) = map_assignment_kind(kind);
        match mapped {
            None => {
                // Omit reference identifiers.
                let ghost old_parents = self.parents@;
                self.parents.push((kind, None));
                proof {
                    assert(self.parents@.drop_last() =~= old_parents);
                    assert(open_of(self.parents@) =~= open_of(old_parents));
                }
            },
            Some(mapped_kind) => {
                self.inside_assignment = inside;
                let ghost old_parents = self.parents@;
                let m = p.start();
                self.parents.push((mapped_kind, Some(m)));
                proof {
                    assert(self.parents@.drop_last() =~= old_parents);
                    assert(p.open@ =~= self.start@.open + open_of(self.parents@));
                }
            },
        }
    }

    fn finish_node(&mut self, p: &mut Parser)
        ensures
            old(self).parents_len() > 0 ==> final(self).parents_len() == old(self).parents_len() - 1,
            final(self).base() == old(self).base(),
            final(self).has_started() == old(self).has_started(),
    {
        let ghost base = self.start@;
        let ghost before = rewrite_run(base, self.seen@);
        self.seen = Ghost(self.seen@.push(Event::Finish));
        let ghost after = rewrite_step(base, before, Event::Finish);
        proof {
            assert(rewrite_run(base, self.seen@) == after);
        }
        let ghost old_parents = self.parents@;
        match self.parents.pop() {
            Some((kind, Some(m))) => {
                let ghost n = old_parents.len() - 1;
                proof {
                    assert(old_parents.drop_last() =~= self.parents@);
                    assert(p.open@ =~= (self.start@.open + open_of(self.parents@)).push(m.pos_view()));
                    assert(parent_matches(base, old_parents[n], before.parents[n]));
                    assert(old_parents[n] == (kind, Some(m)));
                }
                let ghost i = before.parents[n].1->Some_0.0;
                let ghost st = before.parents[n].1->Some_0.1;
                proof {
                    assert(0 <= i < before.out.len()) by {
                        assert(p.open@[p.open@.len() - 1] == m.pos_view());
                        assert(p.events@[m.pos_view() as int] == (Event::Start { kind: SyntaxKind::TOMBSTONE }));
                        assert(m.pos_view() < p.events@.len());
                    }
                    lemma_concat_update(base.prefix, before.out, i, Event::Start { kind });
                    lemma_concat_push(base.prefix, before.out.update(i, Event::Start { kind }), Event::Finish);
                }
                let completed = m.complete(p, kind);
                proof {
                    assert(p.open@ =~= self.start@.open + open_of(self.parents@));
                }
                if kind == SyntaxKind::JS_UNKNOWN_ASSIGNMENT {
                    let range = completed.range(p);
                    let diagnostic = invalid_assignment_error(p, range);
                    proof {
                        lemma_concat_push(
                            base.prefix,
                            before.out.update(i, Event::Start { kind }).push(Event::Finish),
                            Event::Error { diagnostic },
                        );
                    }
                    p.error(diagnostic);
                }
                self.result = Some(completed);
                proof {
                    assert forall|k: int| 0 <= k < self.parents@.len() implies parent_matches(
                        base,
                        #[trigger] self.parents@[k],
                        after.parents[k],
                    ) by {
                        assert(self.parents@[k] == old_parents[k]);
                        assert(parent_matches(base, old_parents[k], before.parents[k]));
                    }
                }
            },
            Some((_, None)) => {
                proof {
                    let n = old_parents.len() - 1;
                    assert(old_parents.drop_last() =~= self.parents@);
                    assert(parent_matches(base, old_parents[n], before.parents[n]));
                    assert forall|k: int| 0 <= k < self.parents@.len() implies parent_matches(
                        base,
                        #[trigger] self.parents@[k],
                        after.parents[k],
                    ) by {
                        assert(self.parents@[k] == old_parents[k]);
                        assert(parent_matches(base, old_parents[k], before.parents[k]));
                    }
                }
            },
            None => {},
        }
    }

    fn token(&mut self, kind: SyntaxKind, p: &mut Parser) {
        self.seen = Ghost(self.seen@.push(Event::Token { kind }));
        let ghost old_parents = self.parents@;
        if let Some((parent_kind, m)) = self.parents.pop() {
            let next = kind_after_token(parent_kind, kind);
            self.parents.push((next, m));
            proof {
                assert(old_parents.drop_last() =~= self.parents@.drop_last());
                assert(open_of(self.parents@) =~= open_of(old_parents));
            }
        }
        p.bump_remap(kind);
    }

    fn error(&mut self, diagnostic: Diagnostic, p: &mut Parser) {
        self.seen = Ghost(self.seen@.push(Event::Error { diagnostic }));
        p.error(diagnostic);
    }
}

/// Where a wrap that starts at token `from` stops: at `expression_end`, or
/// at the end of the tokens, or where it started if that is further.
pub open spec fn wrap_end(from: int, expression_end: int, ntokens: int) -> int {
    if from >= expression_end || from >= ntokens {
        from
    } else if expression_end <= ntokens {
        expression_end
    } else {
        ntokens
    }
}

/// Wraps the tokens up to `expression_end` in an unknown assignment. Better
/// than any other recovery: where the expression ends is already known.
pub fn wrap_expression_in_invalid_assignment(p: &mut Parser, expression_end: usize) -> (r:
    CompletedMarker)
    requires
        old(p).wf(),
    ensures
        final(p).extends(old(p), old(p).events@.len() as int),
        final(p).completed(&r),
        final(p).pos == wrap_end(old(p).pos as int, expression_end as int, old(p).tokens@.len() as int),
        final(p).events@ == old(p).events@ + wrapped(old(p), old(p).pos as int, final(p).pos as int),
        r.kind_view() == SyntaxKind::JS_UNKNOWN_ASSIGNMENT,
        r.start_view() == old(p).events@.len(),
        r.start_tok_view() == old(p).pos,
        r.end_tok_view() == final(p).pos,
{
    let unknown = p.start();
    let ghost tomb = Event::Start { kind: SyntaxKind::TOMBSTONE };
    proof {
        assert(p.events@ =~= old(p).events@.push(tomb) + token_events(old(p).tokens@, old(p).pos as int, p.pos as int));
    }
    while p.token_pos() < expression_end && p.token_pos() < p.tokens.len()
        invariant
            p.wf(),
            p.same_input(old(p)),
            p.open@ == old(p).open@.push(unknown.pos_view()),
            p.pos >= old(p).pos,
            p.pos == old(p).pos || p.pos <= expression_end,
            p.state == old(p).state,
            agree(p.events@, old(p).events@, old(p).events@.len() as int),
            unknown.pos_view() == old(p).events@.len(),
            unknown.start_tok_view() == old(p).pos,
            p.events@ == old(p).events@.push(tomb) + token_events(old(p).tokens@, old(p).pos as int, p.pos as int),
        decreases p.tokens@.len() - p.pos,
    {
        let ghost before = p.events@;
        let ghost at = p.pos;
        p.bump_any();
        proof {
            assert(token_events(old(p).tokens@, old(p).pos as int, p.pos as int) =~= token_events(old(p).tokens@, old(p).pos as int, at as int).push(Event::Token { kind: old(p).tokens@[at as int].kind }));
            lemma_concat_push(old(p).events@.push(tomb), token_events(old(p).tokens@, old(p).pos as int, at as int), Event::Token { kind: old(p).tokens@[at as int].kind });
        }
    }
    let ghost middle = p.events@;
    let completed = unknown.complete(p, SyntaxKind::JS_UNKNOWN_ASSIGNMENT);
    let range = completed.range(p);
    let diagnostic = invalid_assignment_error(p, range);
    p.error(diagnostic);
    proof {
        let te = token_events(old(p).tokens@, old(p).pos as int, p.pos as int);
        assert(p.events@ =~= old(p).events@ + wrapped(old(p), old(p).pos as int, p.pos as int)) by {
            assert(middle.update(old(p).events@.len() as int, Event::Start { kind: SyntaxKind::JS_UNKNOWN_ASSIGNMENT })
                =~= old(p).events@ + (seq![Event::Start { kind: SyntaxKind::JS_UNKNOWN_ASSIGNMENT }] + te));
        }
    }
    completed
}

/// The diagnostic for an expression that cannot be assigned to, at its range.
pub fn invalid_assignment_error(p: &Parser, range: (usize, usize)) -> (r: Diagnostic)
    ensures
        r == (Diagnostic { kind: DiagnosticKind::InvalidAssignment, start: range.0, end: range.1 }),
{
    Diagnostic { kind: DiagnosticKind::InvalidAssignment, start: range.0, end: range.1 }
}

} // verus!
