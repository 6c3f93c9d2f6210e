//! Replays the events recorded since a checkpoint through a visitor, which
//! may rename or drop the nodes it sees; the replayed events replace the old.

use vstd::prelude::*;
use crate::event::{token_count, Diagnostic, Event};
use crate::kind::SyntaxKind;
use crate::parser::{Checkpoint, Parser, ParserState};
use crate::tree::TokenData;

verus! {

/// What a replay starts from: the events kept before it, the markers open
/// then, the token cursor, the flags and the input.
pub struct ReplayBase {
    pub prefix: Seq<Event>,
    pub open: Seq<usize>,
    pub pos: usize,
    pub state: ParserState,
    pub source: Seq<u8>,
    pub raw: Seq<TokenData>,
    pub tokens: Seq<TokenData>,
}

/// The start of a replay of the events since `cp`.
pub open spec fn replay_base(p: &Parser, cp: &Checkpoint) -> ReplayBase {
    ReplayBase {
        prefix: cp.prefix_view(),
        open: cp.open_view(),
        pos: cp.token_pos_view(),
        state: p.state,
        source: p.source@,
        raw: p.raw@,
        tokens: p.tokens@,
    }
}

/// The events since `cp`, which a replay hands out again.
pub open spec fn window(p: &Parser, cp: &Checkpoint) -> Seq<Event> {
    p.events@.subrange(cp.event_pos_view() as int, p.events@.len() as int)
}

/// A visitor of replayed events.
pub trait RewriteParseEvents {
    /// What the visitor keeps true of the parser while it replays.
    spec fn holds(&self, p: &Parser) -> bool;

    /// Where the visitor's replay started; no callback changes it.
    spec fn base(&self) -> ReplayBase;

    /// The events handed to the visitor so far, in order.
    spec fn visited(&self) -> Seq<Event>;

    /// A node of `kind` starts.
    fn start_node(&mut self, kind: SyntaxKind, p: &mut Parser)
        requires
            old(self).holds(old(p)),
            old(p).wf(),
            kind != SyntaxKind::TOMBSTONE,
        ensures
            final(self).holds(final(p)),
            final(self).base() == old(self).base(),
            final(self).visited() == old(self).visited().push(Event::Start { kind }),
            final(p).wf(),
            final(p).same_input(old(p)),
            final(p).pos == old(p).pos,
    ;

    /// The innermost node finishes.
    fn finish_node(&mut self, p: &mut Parser)
        requires
            old(self).holds(old(p)),
            old(p).wf(),
        ensures
            final(self).holds(final(p)),
            final(self).base() == old(self).base(),
            final(self).visited() == old(self).visited().push(Event::Finish),
            final(p).wf(),
            final(p).same_input(old(p)),
            final(p).pos == old(p).pos,
    ;

    /// A token of `kind` comes; the visitor consumes it.
    fn token(&mut self, kind: SyntaxKind, p: &mut Parser)
        requires
            old(self).holds(old(p)),
            old(p).wf(),
            old(p).pos < old(p).tokens@.len(),
        ensures
            final(self).holds(final(p)),
            final(self).base() == old(self).base(),
            final(self).visited() == old(self).visited().push(Event::Token { kind }),
            final(p).wf(),
            final(p).same_input(old(p)),
            final(p).pos == old(p).pos + 1,
    ;

    /// A diagnostic comes; the visitor records it.
    fn error(&mut self, diagnostic: Diagnostic, p: &mut Parser)
        requires
            old(self).holds(old(p)),
            old(p).wf(),
        ensures
            final(self).holds(final(p)),
            final(self).base() == old(self).base(),
            final(self).visited() == old(self).visited().push(Event::Error { diagnostic }),
            final(p).wf(),
            final(p).same_input(old(p)),
            final(p).pos == old(p).pos,
    ;
}

/// The events a replay hands to its visitor: all but the tombstones, in order.
pub open spec fn replayed(events: Seq<Event>) -> Seq<Event>
    decreases events.len(),
{
    if events.len() == 0 {
        seq![]
    } else {
        replayed(events.drop_last()) + if events.last() == (Event::Start {
            kind: SyntaxKind::TOMBSTONE,
        }) {
            seq![]
        } else {
            seq![events.last()]
        }
    }
}

/// Every event but a tombstone is handed to the visitor.
pub proof fn lemma_replayed_contains(events: Seq<Event>, j: int)
    requires
        0 <= j < events.len(),
        events[j] != (Event::Start { kind: SyntaxKind::TOMBSTONE }),
    ensures
        replayed(events).contains(events[j]),
    decreases events.len(),
{
    let last = events.len() - 1;
    if j == last {
        let r = replayed(events);
        assert(r[r.len() - 1] == events[j]);
    } else {
        lemma_replayed_contains(events.drop_last(), j);
        let r0 = replayed(events.drop_last());
        let k = choose|k: int| 0 <= k < r0.len() && r0[k] == events[j];
        assert(replayed(events)[k] == events[j]);
    }
}

pub proof fn lemma_token_count_concat(a: Seq<Event>, b: Seq<Event>)
    ensures
        token_count(a + b) == token_count(a) + token_count(b),
    decreases b.len(),
{
    if b.len() == 0 {
        assert(a + b =~= a);
    } else {
        lemma_token_count_concat(a, b.drop_last());
        assert((a + b).drop_last() =~= a + b.drop_last());
    }
}

/// Replays every event since `cp` through `visitor`. The events since `cp`
/// are taken out and the token cursor goes back to `cp`; each start, finish,
/// token and diagnostic is then handed to the visitor, which appends what it
/// makes of them. Tombstones are skipped.
pub fn rewrite_events<T: RewriteParseEvents>(visitor: &mut T, cp: &Checkpoint, p: &mut Parser)
    requires
        old(p).wf(),
        old(p).can_rewind(cp),
        forall|q: Parser|
            q.wf() && q.same_input(old(p)) && q.events@ == cp.prefix_view() && q.open@
                == cp.open_view() && q.pos == cp.token_pos_view() && q.state == old(p).state
                ==> #[trigger] old(visitor).holds(&q),
    ensures
        final(visitor).holds(final(p)),
        final(visitor).base() == old(visitor).base(),
        final(visitor).visited() == old(visitor).visited() + replayed(
            old(p).events@.subrange(cp.event_pos_view() as int, old(p).events@.len() as int),
        ),
        final(p).wf(),
        final(p).same_input(old(p)),
        final(p).pos == old(p).pos,
{
    let ghost all = p.events@;
    let at = cp.event_pos();
    let tail = p.events.split_off(at);
    p.pos = cp.token_pos();
    proof {
        assert(all =~= p.events@ + tail@);
        lemma_token_count_concat(p.events@, tail@);
        assert(p.events@ =~= cp.prefix_view());
        assert forall|k: int| 0 <= k < p.open@.len() implies #[trigger] p.open@[k] < p.events@.len()
            && p.events@[p.open@[k] as int] == (Event::Start { kind: SyntaxKind::TOMBSTONE }) by {
            assert(all[p.open@[k] as int] == (Event::Start { kind: SyntaxKind::TOMBSTONE }));
            assert(p.events@[p.open@[k] as int] == all[p.open@[k] as int]);
        }
        assert(visitor.holds(p));
        assert(tail@.subrange(0, tail@.len() as int) =~= tail@);
        assert(tail@.subrange(0, 0) =~= Seq::<Event>::empty());
        assert(old(visitor).visited() + replayed(tail@.subrange(0, 0)) =~= old(visitor).visited());
    }
    let n = tail.len();
    let mut i: usize = 0;
    while i < n
        invariant
            n == tail@.len(),
            0 <= i <= n,
            visitor.holds(p),
            visitor.base() == old(visitor).base(),
            visitor.visited() == old(visitor).visited() + replayed(tail@.subrange(0, i as int)),
            p.wf(),
            p.same_input(old(p)),
            p.pos + token_count(tail@.subrange(i as int, n as int)) == old(p).pos,
            old(p).pos <= p.tokens@.len(),
        decreases n - i,
    {
        let ev = tail[i];
        proof {
            assert(tail@.subrange(i as int, n as int) =~= seq![ev] + tail@.subrange(i + 1, n as int));
            lemma_token_count_concat(seq![ev], tail@.subrange(i + 1, n as int));
            assert(seq![ev].drop_last() =~= Seq::<Event>::empty());
            assert(token_count(Seq::<Event>::empty()) == 0);
            assert(token_count(seq![ev]) == if ev.is_token() { 1nat } else { 0nat });
            assert(tail@.subrange(0, i + 1).drop_last() =~= tail@.subrange(0, i as int));
            assert(tail@.subrange(0, i + 1).last() == ev);
        }
        let ghost before = visitor.visited();
        match ev {
            Event::Start { kind } => {
                if kind != SyntaxKind::TOMBSTONE {
                    visitor.start_node(kind, p);
                }
            },
            Event::Finish => {
                visitor.finish_node(p);
            },
            Event::Token { kind } => {
                visitor.token(kind, p);
            },
            Event::Error { diagnostic } => {
                visitor.error(diagnostic, p);
            },
        }
        proof {
            assert(visitor.visited() =~= old(visitor).visited() + replayed(tail@.subrange(0, i + 1)));
        }
        i = i + 1;
    }
    proof {
        assert(tail@.subrange(n as int, n as int) =~= Seq::<Event>::empty());
        assert(tail@.subrange(0, n as int) =~= tail@);
    }
}

} // verus!
