//! The parser's own state: the token cursor, the event buffer, and the
//! markers and checkpoints that grammar rules open, close and rewind.

use vstd::prelude::*;
use crate::event::{
    balanced, depth, lemma_depth_step, single_root, token_count, Diagnostic, DiagnosticKind, Event,
};
use crate::kind::SyntaxKind;
use crate::tree::{ranges_ok, TokenData};

verus! {

/// Flags that change how the coming tokens are read, saved and restored with
/// a checkpoint.
#[derive(Clone, Copy, Debug, PartialEq, Eq, Structural)]
pub struct ParserState {
    /// Whether `{` may start an object here.
    pub allow_object_expr: bool,
}

/// The parser of one source.
pub struct Parser {
    pub source: Vec<u8>,
    /// Every token of the source, trivia included.
    pub raw: Vec<TokenData>,
    /// The significant tokens, in order: those the grammar sees.
    pub tokens: Vec<TokenData>,
    /// The position of the current significant token.
    pub pos: usize,
    pub events: Vec<Event>,
    pub state: ParserState,
    /// The names of the statement labels in scope, as byte ranges of the source.
    pub labels: Vec<(usize, usize)>,
    /// The event positions of the markers that are open, innermost last.
    pub open: Ghost<Seq<usize>>,
}

/// A node that is open and whose kind is not yet known. It is completed or
/// abandoned exactly once: both take it by value.
pub struct Marker {
    pos: usize,
    start_tok: usize,
}

/// A node that is complete: where it starts in the buffer, its kind and the
/// tokens it spans.
pub struct CompletedMarker {
    start: usize,
    kind: SyntaxKind,
    start_tok: usize,
    end_tok: usize,
}

/// A snapshot of the parser to come back to.
pub struct Checkpoint {
    event_pos: usize,
    token_pos: usize,
    state: ParserState,
    prefix: Ghost<Seq<Event>>,
    open: Ghost<Seq<usize>>,
}

/// Events where position `q` has become a start of `kind`.
pub open spec fn with_start(events: Seq<Event>, q: int, kind: SyntaxKind) -> Seq<Event> {
    events.update(q, Event::Start { kind })
}

/// Opening a marker and then closing it leaves the open markers as they were.
pub broadcast proof fn lemma_push_drop_last<A>(s: Seq<A>, x: A)
    ensures
        #[trigger] s.push(x).drop_last() == s,
{
    assert(s.push(x).drop_last() =~= s);
}

/// The byte range of the significant tokens `a .. b` of a source of `len`
/// bytes; empty, at the start of token `a` or at the end of the source,
/// where `a == b`.
pub open spec fn span_in(tokens: Seq<TokenData>, len: int, a: int, b: int) -> (usize, usize) {
    if a < b {
        (tokens[a].start, tokens[b - 1].end)
    } else if a < tokens.len() {
        (tokens[a].start, tokens[a].start)
    } else {
        (len as usize, len as usize)
    }
}

/// Two runs of events that agree on their first `n` events.
pub open spec fn agree(a: Seq<Event>, b: Seq<Event>, n: int) -> bool {
    &&& 0 <= n <= a.len()
    &&& n <= b.len()
    &&& forall|i: int| 0 <= i < n ==> #[trigger] a[i] == b[i]
}

/// What a grammar rule promises: it leaves the parser as `extends` says, and
/// a node it returns is complete, starts in what the rule added, and covers
/// at least one token.
pub open spec fn parsed(new: &Parser, old: &Parser, r: Option<CompletedMarker>) -> bool {
    &&& new.extends(old, old.events@.len() as int)
    &&& forall|k: int| 0 <= k < new.open@.len() ==> #[trigger] new.open@[k] < old.events@.len()
    &&& (r matches Some(m) ==> new.completed(&m) && m.start_view() >= old.events@.len()
        && new.pos > old.pos && m.start_tok_view() >= old.pos)
}

/// Every significant token, in order: the raw tokens without trivia.
pub open spec fn significant(raw: Seq<TokenData>) -> Seq<TokenData> {
    raw.filter(significant_token())
}

/// A token that is not trivia.
pub open spec fn significant_token() -> spec_fn(TokenData) -> bool {
    |t: TokenData| !t.kind.spec_is_trivia()
}

impl Marker {
    pub closed spec fn pos_view(&self) -> usize {
        self.pos
    }
}

impl CompletedMarker {
    pub closed spec fn start_view(&self) -> usize {
        self.start
    }

    pub closed spec fn kind_view(&self) -> SyntaxKind {
        self.kind
    }

    pub closed spec fn start_tok_view(&self) -> usize {
        self.start_tok
    }

    pub closed spec fn end_tok_view(&self) -> usize {
        self.end_tok
    }

    pub fn kind(&self) -> (r: SyntaxKind)
        ensures
            r == self.kind_view(),
    {
        self.kind
    }

    /// The byte range the node spans: from its first token to its last, or an
    /// empty range where the node holds no token.
    pub fn range(&self, p: &Parser) -> (r: (usize, usize))
        requires
            p.wf(),
            self.start_tok_view() <= self.end_tok_view() <= p.tokens@.len(),
        ensures
            r == p.span(self.start_tok_view() as int, self.end_tok_view() as int),
    {
        p.token_span(self.start_tok, self.end_tok)
    }

    /// Gives the node another kind.
    pub fn change_kind(&mut self, p: &mut Parser, kind: SyntaxKind)
        requires
            old(p).wf(),
            old(p).completed(&*old(self)),
            kind != SyntaxKind::TOMBSTONE,
        ensures
            final(p).wf(),
            final(p).completed(&*final(self)),
            final(self).kind_view() == kind,
            final(self).start_view() == old(self).start_view(),
            final(self).start_tok_view() == old(self).start_tok_view(),
            final(self).end_tok_view() == old(self).end_tok_view(),
            final(p).events@ == with_start(old(p).events@, old(self).start_view() as int, kind),
            final(p).same_input(old(p)),
            final(p).pos == old(p).pos,
            final(p).open == old(p).open,
            final(p).state == old(p).state,
            agree(final(p).events@, old(p).events@, old(self).start_view() as int),
    {
        proof {
            lemma_balanced_replace(p.events@, self.start as int, Event::Start { kind });
            lemma_tokens_replace(p.events@, self.start as int, Event::Start { kind }, p.events@.len() as int);
        }
        p.events.set(self.start, Event::Start { kind });
        self.kind = kind;
        proof {
            assert forall|k: int| 0 <= k < p.open@.len() implies p.events@[#[trigger] p.open@[k] as int] == (Event::Start { kind: SyntaxKind::TOMBSTONE }) by {
                assert(old(p).events@[p.open@[k] as int] == (Event::Start { kind: SyntaxKind::TOMBSTONE }));
            }
        }
    }

    /// Opens a new node before this one, so that this one becomes its first child.
    pub fn precede(self, p: &mut Parser) -> (m: Marker)
        requires
            old(p).wf(),
            old(p).completed(&self),
            forall|k: int| 0 <= k < old(p).open@.len() ==> #[trigger] old(p).open@[k] < self.start_view(),
        ensures
            final(p).wf(),
            final(p).same_input(old(p)),
            final(p).pos == old(p).pos,
            final(p).state == old(p).state,
            final(p).open@ == old(p).open@.push(m.pos_view()),
            m.pos_view() == self.start_view(),
            final(p).events@ == old(p).events@.insert(self.start_view() as int, Event::Start { kind: SyntaxKind::TOMBSTONE }),
            m.start_tok_view() == self.start_tok_view(),
            agree(final(p).events@, old(p).events@, self.start_view() as int),
    {
        let tomb = Event::Start { kind: SyntaxKind::TOMBSTONE };
        proof {
            lemma_balanced_insert(p.events@, self.start as int, tomb);
            lemma_tokens_insert(p.events@, self.start as int, tomb, p.events@.len() as int + 1);
        }
        p.events.insert(self.start, tomb);
        proof {
            p.open@ = p.open@.push(self.start);
            assert forall|k: int| 0 <= k < p.open@.len() implies p.events@[#[trigger] p.open@[k] as int] == (Event::Start { kind: SyntaxKind::TOMBSTONE }) by {
                if k < old(p).open@.len() {
                    assert(p.open@[k] == old(p).open@[k]);
                    assert(old(p).open@[k] < self.start);
                    assert(old(p).events@[p.open@[k] as int] == (Event::Start { kind: SyntaxKind::TOMBSTONE }));
                }
            }
        }
        Marker { pos: self.start, start_tok: self.start_tok }
    }
}

impl Marker {
    pub closed spec fn start_tok_view(&self) -> usize {
        self.start_tok
    }

    /// The token position at which the node starts.
    pub fn start_tok(&self) -> (r: usize)
        ensures
            r == self.start_tok_view(),
    {
        self.start_tok
    }

    /// Closes the node under `kind`.
    pub fn complete(self, p: &mut Parser, kind: SyntaxKind) -> (r: CompletedMarker)
        requires
            old(p).wf(),
            old(p).open@.len() > 0,
            old(p).open@.last() == self.pos_view(),
            self.start_tok_view() <= old(p).pos,
            kind != SyntaxKind::TOMBSTONE,
        ensures
            final(p).wf(),
            final(p).same_input(old(p)),
            final(p).pos == old(p).pos,
            final(p).state == old(p).state,
            final(p).open@ == old(p).open@.drop_last(),
            final(p).events@ == with_start(old(p).events@, self.pos_view() as int, kind).push(Event::Finish),
            final(p).completed(&r),
            r.start_view() == self.pos_view(),
            r.kind_view() == kind,
            r.start_tok_view() == self.start_tok_view(),
            r.end_tok_view() == old(p).pos,
            agree(final(p).events@, old(p).events@, self.pos_view() as int),
            final(p).labels == old(p).labels,
    {
        proof {
            assert(p.open@[p.open@.len() - 1] < p.events@.len());
            lemma_balanced_complete(p.events@, self.pos as int, kind);
            lemma_tokens_replace(p.events@, self.pos as int, Event::Start { kind }, p.events@.len() as int);
            lemma_depth_push(p.events@.update(self.pos as int, Event::Start { kind }), Event::Finish);
        }
        p.events.set(self.pos, Event::Start { kind });
        p.events.push(Event::Finish);
        proof {
            let o = old(p).open@;
            p.open@ = o.drop_last();
            assert forall|k: int| 0 <= k < p.open@.len() implies p.events@[#[trigger] p.open@[k] as int] == (Event::Start { kind: SyntaxKind::TOMBSTONE }) by {
                assert(p.open@[k] == o[k]);
                assert(o[k] < o[o.len() - 1]);
                assert(old(p).events@[o[k] as int] == (Event::Start { kind: SyntaxKind::TOMBSTONE }));
            }
        }
        CompletedMarker { start: self.pos, kind, start_tok: self.start_tok, end_tok: p.pos }
    }

    /// Drops the node: where nothing came after its start, its start goes
    /// too; otherwise the start stays as a tombstone and what came after
    /// belongs to the parent.
    pub fn abandon(self, p: &mut Parser)
        requires
            old(p).wf(),
            old(p).open@.len() > 0,
            old(p).open@.last() == self.pos_view(),
        ensures
            final(p).wf(),
            final(p).same_input(old(p)),
            final(p).pos == old(p).pos,
            final(p).state == old(p).state,
            final(p).open@ == old(p).open@.drop_last(),
            self.pos_view() + 1 == old(p).events@.len() ==> final(p).events@ == old(p).events@.drop_last(),
            self.pos_view() + 1 != old(p).events@.len() ==> final(p).events@ == old(p).events@,
    {
        proof {
            assert(p.open@[p.open@.len() - 1] < p.events@.len());
        }
        let len = p.events.len();
        if self.pos == len - 1 {
            let ghost before = p.events@;
            p.events.pop();
            proof {
                assert(p.events@ =~= before.drop_last());
                assert forall|n: int| 0 <= n <= p.events@.len() implies depth(#[trigger] p.events@.subrange(0, n)) >= 0 by {
                    assert(p.events@.subrange(0, n) =~= before.subrange(0, n));
                }
                lemma_depth_step(before, self.pos as int);
                assert(before[self.pos as int] == (Event::Start { kind: SyntaxKind::TOMBSTONE }));
                assert(before.subrange(0, before.len() as int) =~= before);
                assert(before.subrange(0, self.pos as int) =~= p.events@);
            }
        }
        proof {
            let o = old(p).open@;
            p.open@ = o.drop_last();
            assert forall|k: int| 0 <= k < p.open@.len() implies p.events@[#[trigger] p.open@[k] as int] == (Event::Start { kind: SyntaxKind::TOMBSTONE }) && p.open@[k] < p.events@.len() by {
                assert(p.open@[k] == o[k]);
                assert(o[k] < o[o.len() - 1]);
                assert(old(p).events@[o[k] as int] == (Event::Start { kind: SyntaxKind::TOMBSTONE }));
            }
        }
    }
}

impl Checkpoint {
    pub closed spec fn event_pos_view(&self) -> usize {
        self.event_pos
    }

    pub closed spec fn token_pos_view(&self) -> usize {
        self.token_pos
    }

    pub closed spec fn state_view(&self) -> ParserState {
        self.state
    }

    pub closed spec fn prefix_view(&self) -> Seq<Event> {
        self.prefix@
    }

    pub closed spec fn open_view(&self) -> Seq<usize> {
        self.open@
    }

    pub fn event_pos(&self) -> (r: usize)
        ensures
            r == self.event_pos_view(),
    {
        self.event_pos
    }

    pub fn token_pos(&self) -> (r: usize)
        ensures
            r == self.token_pos_view(),
    {
        self.token_pos
    }
}

impl Parser {
    /// The parser's invariant: the cursor is in the input, the buffer is
    /// balanced, and every open marker points at a placeholder start, in the
    /// order they were opened.
    pub open spec fn wf(&self) -> bool {
        &&& self.pos <= self.tokens@.len()
        &&& self.tokens@.len() < usize::MAX
        &&& balanced(self.events@)
        &&& token_count(self.events@) == self.pos
        &&& forall|k: int|
            0 <= k < self.open@.len() ==> #[trigger] self.open@[k] < self.events@.len()
                && self.events@[self.open@[k] as int] == (Event::Start {
                kind: SyntaxKind::TOMBSTONE,
            })
        &&& forall|a: int, b: int|
            0 <= a < b < self.open@.len() ==> #[trigger] self.open@[a] < #[trigger] self.open@[b]
        &&& forall|t: int|
            0 <= t < self.tokens@.len() ==> #[trigger] self.tokens@[t].start
                <= self.tokens@[t].end <= self.source@.len()
        &&& ranges_ok(self.raw@, self.source@.len() as int)
    }

    /// The input is what it was.
    pub open spec fn same_input(&self, other: &Parser) -> bool {
        &&& self.source@ == other.source@
        &&& self.raw@ == other.raw@
        &&& self.tokens@ == other.tokens@
    }

    /// `m` is a completed node of this buffer, after every open marker.
    pub open spec fn completed(&self, m: &CompletedMarker) -> bool {
        &&& m.start_view() < self.events@.len()
        &&& self.events@[m.start_view() as int] == (Event::Start { kind: m.kind_view() })
        &&& m.kind_view() != SyntaxKind::TOMBSTONE
        &&& m.start_tok_view() <= m.end_tok_view() <= self.pos
    }

    /// What a grammar rule leaves behind: the events before its start are
    /// untouched, the open markers are those it found, the cursor has not moved back.
    pub open spec fn extends(&self, old: &Parser, from: int) -> bool {
        &&& self.wf()
        &&& self.same_input(old)
        &&& from <= old.events@.len()
        &&& from <= self.events@.len()
        &&& agree(self.events@, old.events@, from)
        &&& self.open == old.open
        &&& self.pos >= old.pos
        &&& self.state == old.state
    }

    /// The byte range of the significant tokens `a .. b`; empty, at the start
    /// of token `a` or at the end of the source, where `a == b`.
    pub open spec fn span(&self, a: int, b: int) -> (usize, usize) {
        span_in(self.tokens@, self.source@.len() as int, a, b)
    }

    fn token_span(&self, a: usize, b: usize) -> (r: (usize, usize))
        requires
            self.wf(),
            a <= b <= self.tokens@.len(),
        ensures
            r == self.span(a as int, b as int),
    {
        if a < b {
            (self.tokens[a].start, self.tokens[b - 1].end)
        } else if a < self.tokens.len() {
            (self.tokens[a].start, self.tokens[a].start)
        } else {
            (self.source.len(), self.source.len())
        }
    }

    /// The kind of the significant token `n` places ahead, `EOF` past the end.
    pub open spec fn nth_kind(&self, n: int) -> SyntaxKind {
        if 0 <= self.pos + n < self.tokens@.len() {
            self.tokens@[self.pos + n].kind
        } else {
            SyntaxKind::EOF
        }
    }

    /// A parser over a source and all of its tokens.
    pub fn new(source: Vec<u8>, raw: Vec<TokenData>) -> (p: Parser)
        requires
            ranges_ok(raw@, source@.len() as int),
            raw@.len() < usize::MAX,
        ensures
            p.wf(),
            p.pos == 0,
            p.events@.len() == 0,
            p.open@.len() == 0,
            p.source@ == source@,
            p.raw@ == raw@,
            p.tokens@ == significant(raw@),
    {
        let mut tokens: Vec<TokenData> = Vec::new();
        let mut i: usize = 0;
        while i < raw.len()
            invariant
                0 <= i <= raw@.len(),
                raw@.len() < usize::MAX,
                tokens@ == significant(raw@.subrange(0, i as int)),
                tokens@.len() <= i,
                ranges_ok(raw@, source@.len() as int),
                forall|t: int| 0 <= t < tokens@.len() ==> #[trigger] tokens@[t].start <= tokens@[t].end <= source@.len(),
            decreases raw@.len() - i,
        {
            let t = raw[i];
            proof {
                let pre = raw@.subrange(0, i as int);
                assert(raw@.subrange(0, i + 1) =~= pre.push(t));
                pre.lemma_filter_push(t, significant_token());
            }
            if !t.kind.is_trivia() {
                proof {
                    assert(ranges_ok(raw@, source@.len() as int));
                    assert(0 <= i < raw@.len());
                    let ti = raw@[i as int];
                    assert(ti.start <= ti.end);
                    assert(ti == t);
                }
                let ghost before = tokens@;
                tokens.push(t);
                proof {
                    assert forall|k: int| 0 <= k < tokens@.len() implies #[trigger] tokens@[k].start <= tokens@[k].end <= source@.len() by {
                        if k < before.len() {
                            assert(tokens@[k] == before[k]);
                        }
                    }
                }
            }
            i = i + 1;
        }
        proof {
            assert(raw@.subrange(0, raw@.len() as int) =~= raw@);
            assert(balanced(Seq::<Event>::empty())) by {
                assert forall|n: int| 0 <= n <= 0 implies depth(#[trigger] Seq::<Event>::empty().subrange(0, n)) >= 0 by {
                    assert(Seq::<Event>::empty().subrange(0, n) =~= Seq::<Event>::empty());
                }
            }
        }
        Parser {
            source,
            raw,
            tokens,
            pos: 0,
            events: Vec::new(),
            state: ParserState { allow_object_expr: true },
            labels: Vec::new(),
            open: Ghost(Seq::empty()),
        }
    }

    /// The current token cursor.
    pub fn token_pos(&self) -> (r: usize)
        ensures
            r == self.pos,
    {
        self.pos
    }

    /// The kind of the token `n` places ahead.
    pub fn nth(&self, n: usize) -> (r: SyntaxKind)
        requires
            self.wf(),
        ensures
            r == self.nth_kind(n as int),
    {
        if n < self.tokens.len() - self.pos {
            self.tokens[self.pos + n].kind
        } else {
            SyntaxKind::EOF
        }
    }

    /// The kind of the current token.
    pub fn cur(&self) -> (r: SyntaxKind)
        requires
            self.wf(),
        ensures
            r == self.nth_kind(0),
    {
        self.nth(0)
    }

    pub fn at(&self, kind: SyntaxKind) -> (r: bool)
        requires
            self.wf(),
        ensures
            r == (self.nth_kind(0) == kind),
    {
        self.cur() == kind
    }

    /// The byte range of the current token; empty at the end of the source
    /// once every token is consumed.
    pub open spec fn cur_span(&self) -> (usize, usize) {
        if self.pos < self.tokens@.len() {
            (self.tokens@[self.pos as int].start, self.tokens@[self.pos as int].end)
        } else {
            (self.source@.len() as usize, self.source@.len() as usize)
        }
    }

    /// The byte range of the current token; empty at the end of the source
    /// once every token is consumed.
    pub fn cur_range(&self) -> (r: (usize, usize))
        requires
            self.wf(),
        ensures
            r == self.cur_span(),
    {
        if self.pos < self.tokens.len() {
            (self.tokens[self.pos].start, self.tokens[self.pos].end)
        } else {
            (self.source.len(), self.source.len())
        }
    }

    /// Opens a node.
    pub fn start(&mut self) -> (m: Marker)
        requires
            old(self).wf(),
        ensures
            final(self).wf(),
            final(self).same_input(old(self)),
            final(self).pos == old(self).pos,
            final(self).state == old(self).state,
            final(self).events@ == old(self).events@.push(Event::Start { kind: SyntaxKind::TOMBSTONE }),
            final(self).open@ == old(self).open@.push(m.pos_view()),
            m.pos_view() == old(self).events@.len(),
            m.start_tok_view() == old(self).pos,
            agree(final(self).events@, old(self).events@, old(self).events@.len() as int),
    {
        let pos = self.events.len();
        let ev = Event::Start { kind: SyntaxKind::TOMBSTONE };
        proof {
            lemma_depth_push(self.events@, ev);
        }
        self.events.push(ev);
        proof {
            self.open@ = self.open@.push(pos);
            assert forall|k: int| 0 <= k < self.open@.len() implies #[trigger] self.open@[k] < self.events@.len() && self.events@[self.open@[k] as int] == (Event::Start { kind: SyntaxKind::TOMBSTONE }) by {
                if k < old(self).open@.len() {
                    assert(old(self).events@[old(self).open@[k] as int] == (Event::Start { kind: SyntaxKind::TOMBSTONE }));
                }
            }
        }
        Marker { pos, start_tok: self.pos }
    }

    /// Appends an event that opens and closes nothing and consumes no token.
    fn push_flat(&mut self, ev: Event)
        requires
            old(self).wf(),
            ev.delta() == 0,
            !(ev is Start),
            !(ev is Token),
        ensures
            final(self).wf(),
            final(self).same_input(old(self)),
            final(self).pos == old(self).pos,
            final(self).state == old(self).state,
            final(self).open == old(self).open,
            final(self).labels == old(self).labels,
            agree(final(self).events@, old(self).events@, old(self).events@.len() as int),
            final(self).events@ == old(self).events@.push(ev),
    {
        proof {
            lemma_depth_push(self.events@, ev);
        }
        self.events.push(ev);
        proof {
            assert forall|k: int| 0 <= k < self.open@.len() implies #[trigger] self.open@[k] < self.events@.len() && self.events@[self.open@[k] as int] == (Event::Start { kind: SyntaxKind::TOMBSTONE }) by {
                assert(old(self).events@[self.open@[k] as int] == (Event::Start { kind: SyntaxKind::TOMBSTONE }));
            }
        }
    }

    /// Consumes the current token under `kind`.
    pub fn bump_remap(&mut self, kind: SyntaxKind)
        requires
            old(self).wf(),
            old(self).pos < old(self).tokens@.len(),
        ensures
            final(self).wf(),
            final(self).same_input(old(self)),
            final(self).pos == old(self).pos + 1,
            final(self).state == old(self).state,
            final(self).open == old(self).open,
            agree(final(self).events@, old(self).events@, old(self).events@.len() as int),
            final(self).events@ == old(self).events@.push(Event::Token { kind }),
            final(self).labels == old(self).labels,
    {
        let ev = Event::Token { kind };
        proof {
            lemma_depth_push(self.events@, ev);
        }
        self.events.push(ev);
        self.pos = self.pos + 1;
        proof {
            assert forall|k: int| 0 <= k < self.open@.len() implies #[trigger] self.open@[k] < self.events@.len() && self.events@[self.open@[k] as int] == (Event::Start { kind: SyntaxKind::TOMBSTONE }) by {
                assert(old(self).events@[self.open@[k] as int] == (Event::Start { kind: SyntaxKind::TOMBSTONE }));
            }
        }
    }

    /// Consumes the current token, which is of `kind`.
    pub fn bump(&mut self, kind: SyntaxKind)
        requires
            old(self).wf(),
            old(self).nth_kind(0) == kind,
            kind != SyntaxKind::EOF,
        ensures
            final(self).wf(),
            final(self).same_input(old(self)),
            final(self).pos == old(self).pos + 1,
            final(self).state == old(self).state,
            final(self).open == old(self).open,
            agree(final(self).events@, old(self).events@, old(self).events@.len() as int),
            final(self).events@ == old(self).events@.push(Event::Token { kind }),
    {
        self.bump_remap(kind);
    }

    /// Consumes the current token, whatever it is, unless the input is over.
    pub fn bump_any(&mut self)
        requires
            old(self).wf(),
        ensures
            final(self).wf(),
            final(self).same_input(old(self)),
            final(self).state == old(self).state,
            final(self).open == old(self).open,
            old(self).pos < old(self).tokens@.len() ==> final(self).pos == old(self).pos + 1
                && final(self).events@ == old(self).events@.push(Event::Token { kind: old(self).nth_kind(0) }),
            old(self).pos == old(self).tokens@.len() ==> *final(self) == *old(self),
            agree(final(self).events@, old(self).events@, old(self).events@.len() as int),
    {
        if self.pos < self.tokens.len() {
            let k = self.tokens[self.pos].kind;
            self.bump_remap(k);
        }
    }

    /// Consumes the current token if it is of `kind`.
    pub fn eat(&mut self, kind: SyntaxKind) -> (r: bool)
        requires
            old(self).wf(),
            kind != SyntaxKind::EOF,
        ensures
            r == (old(self).nth_kind(0) == kind),
            final(self).wf(),
            final(self).same_input(old(self)),
            final(self).state == old(self).state,
            final(self).open == old(self).open,
            r ==> final(self).pos == old(self).pos + 1 && final(self).events@ == old(self).events@.push(Event::Token { kind }),
            !r ==> *final(self) == *old(self),
            agree(final(self).events@, old(self).events@, old(self).events@.len() as int),
    {
        if self.at(kind) {
            self.bump(kind);
            true
        } else {
            false
        }
    }

    /// Records a diagnostic.
    pub fn error(&mut self, diagnostic: Diagnostic)
        requires
            old(self).wf(),
        ensures
            final(self).wf(),
            final(self).same_input(old(self)),
            final(self).pos == old(self).pos,
            final(self).state == old(self).state,
            final(self).open == old(self).open,
            final(self).labels == old(self).labels,
            agree(final(self).events@, old(self).events@, old(self).events@.len() as int),
            final(self).events@ == old(self).events@.push(Event::Error { diagnostic }),
    {
        self.push_flat(Event::Error { diagnostic });
    }

    /// Records a diagnostic of `kind` at the current token.
    pub fn error_here(&mut self, kind: DiagnosticKind)
        requires
            old(self).wf(),
        ensures
            final(self).wf(),
            final(self).same_input(old(self)),
            final(self).pos == old(self).pos,
            final(self).state == old(self).state,
            final(self).open == old(self).open,
            final(self).events@.len() == old(self).events@.len() + 1,
            final(self).events@.drop_last() == old(self).events@,
            final(self).events@.last() matches Event::Error { diagnostic } && diagnostic.kind == kind,
            final(self).events@ == old(self).events@.push(Event::Error {
                diagnostic: Diagnostic { kind, start: old(self).cur_span().0, end: old(self).cur_span().1 },
            }),
            final(self).labels == old(self).labels,
            agree(final(self).events@, old(self).events@, old(self).events@.len() as int),
    {
        let (start, end) = self.cur_range();
        self.error(Diagnostic { kind, start, end });
        assert(self.events@.drop_last() =~= old(self).events@);
    }

    /// Consumes a token of `kind`, or records that it was expected.
    pub fn expect(&mut self, kind: SyntaxKind) -> (r: bool)
        requires
            old(self).wf(),
            kind != SyntaxKind::EOF,
        ensures
            r == (old(self).nth_kind(0) == kind),
            final(self).extends(old(self), old(self).events@.len() as int),
            r ==> final(self).pos == old(self).pos + 1,
            !r ==> final(self).pos == old(self).pos,
    {
        if self.eat(kind) {
            proof {
                assert(self.events@.subrange(0, old(self).events@.len() as int) =~= old(self).events@.subrange(0, old(self).events@.len() as int));
            }
            true
        } else {
            self.error_here(DiagnosticKind::ExpectedToken(kind));
            proof {
                assert(self.events@.subrange(0, old(self).events@.len() as int) =~= old(self).events@.subrange(0, old(self).events@.len() as int));
            }
            false
        }
    }

    /// A snapshot of the parser.
    pub fn checkpoint(&self) -> (cp: Checkpoint)
        requires
            self.wf(),
        ensures
            cp.event_pos_view() == self.events@.len(),
            cp.token_pos_view() == self.pos,
            cp.state_view() == self.state,
            cp.prefix_view() == self.events@,
            cp.open_view() == self.open@,
            forall|k: int| 0 <= k < cp.open_view().len() ==> #[trigger] cp.open_view()[k] < cp.event_pos_view(),
            balanced(cp.prefix_view()),
            token_count(cp.prefix_view()) == cp.token_pos_view(),
    {
        Checkpoint {
            event_pos: self.events.len(),
            token_pos: self.pos,
            state: self.state,
            prefix: Ghost(self.events@),
            open: Ghost(self.open@),
        }
    }

    /// Whether the parser can go back to `cp`: the events before it are
    /// untouched and no marker open then has been closed since.
    pub open spec fn can_rewind(&self, cp: &Checkpoint) -> bool {
        &&& cp.event_pos_view() <= self.events@.len()
        &&& cp.prefix_view().len() == cp.event_pos_view()
        &&& agree(self.events@, cp.prefix_view(), cp.event_pos_view() as int)
        &&& cp.token_pos_view() <= self.pos
        &&& self.open == cp.open_view()
        &&& self.state == cp.state_view()
        &&& forall|k: int| 0 <= k < cp.open_view().len() ==> #[trigger] cp.open_view()[k] < cp.event_pos_view()
        &&& balanced(cp.prefix_view())
        &&& token_count(cp.prefix_view()) == cp.token_pos_view()
    }

    /// Goes back to `cp`: the events since are dropped, the cursor and the
    /// flags are restored. Markers opened since are no longer open.
    pub fn rewind(&mut self, cp: &Checkpoint)
        requires
            old(self).wf(),
            old(self).can_rewind(cp),
        ensures
            final(self).wf(),
            final(self).same_input(old(self)),
            final(self).events@ == cp.prefix_view(),
            final(self).pos == cp.token_pos_view(),
            final(self).state == cp.state_view(),
            final(self).open@ == cp.open_view(),
            forall|k: int| 0 <= k < final(self).open@.len() ==> #[trigger] final(self).open@[k] < cp.event_pos_view(),
    {
        let ghost before = self.events@;
        self.events.truncate(cp.event_pos);
        self.pos = cp.token_pos;
        self.state = cp.state;
        proof {
            assert(self.events@ =~= before.subrange(0, cp.event_pos_view() as int));
            assert(self.events@ =~= cp.prefix_view());
            lemma_balanced_prefix(before, cp.event_pos_view() as int);
            assert forall|k: int| 0 <= k < self.open@.len() implies #[trigger] self.open@[k] < self.events@.len() && self.events@[self.open@[k] as int] == (Event::Start { kind: SyntaxKind::TOMBSTONE }) by {
                assert(before[self.open@[k] as int] == (Event::Start { kind: SyntaxKind::TOMBSTONE }));
                assert(cp.prefix_view()[self.open@[k] as int] == before[self.open@[k] as int]);
            }
        }
    }
}

proof fn lemma_balanced_replace(events: Seq<Event>, q: int, ev: Event)
    requires
        balanced(events),
        0 <= q < events.len(),
        ev.delta() == events[q].delta(),
    ensures
        balanced(events.update(q, ev)),
{
    let u = events.update(q, ev);
    lemma_depth_replace(events, q, ev);
    assert forall|n: int| 0 <= n <= u.len() implies depth(#[trigger] u.subrange(0, n)) >= 0 by {
        assert(depth(events.subrange(0, n)) >= 0);
    }
    assert(u.subrange(0, u.len() as int) =~= u);
    assert(events.subrange(0, events.len() as int) =~= events);
}

proof fn lemma_balanced_complete(events: Seq<Event>, q: int, kind: SyntaxKind)
    requires
        balanced(events),
        0 <= q < events.len(),
        events[q].delta() == 0,
        kind != SyntaxKind::TOMBSTONE,
    ensures
        balanced(events.update(q, Event::Start { kind }).push(Event::Finish)),
{
    let u = events.update(q, Event::Start { kind });
    let w = u.push(Event::Finish);
    lemma_depth_replace(events, q, Event::Start { kind });
    lemma_depth_push(u, Event::Finish);
    assert forall|n: int| 0 <= n <= w.len() implies depth(#[trigger] w.subrange(0, n)) >= 0 by {
        if n <= u.len() {
            assert(w.subrange(0, n) == u.subrange(0, n));
            assert(depth(events.subrange(0, n)) >= 0);
        } else {
            assert(u.subrange(0, u.len() as int) =~= u);
            assert(events.subrange(0, events.len() as int) =~= events);
        }
    }
    assert(w.subrange(0, w.len() as int) =~= w);
    assert(u.subrange(0, u.len() as int) =~= u);
    assert(events.subrange(0, events.len() as int) =~= events);
}

proof fn lemma_balanced_insert(events: Seq<Event>, q: int, ev: Event)
    requires
        balanced(events),
        0 <= q <= events.len(),
        ev.delta() == 0,
    ensures
        balanced(events.insert(q, ev)),
{
    let u = events.insert(q, ev);
    lemma_depth_insert(events, q, ev);
    assert forall|n: int| 0 <= n <= u.len() implies depth(#[trigger] u.subrange(0, n)) >= 0 by {
        let m = if n <= q { n } else { n - 1 };
        assert(depth(events.subrange(0, m)) >= 0);
    }
    assert(u.subrange(0, u.len() as int) =~= u);
    assert(events.subrange(0, events.len() as int) =~= events);
}

/// Replacing an event by one that is no token, where none was, keeps the
/// token count of every prefix.
proof fn lemma_tokens_replace(events: Seq<Event>, q: int, ev: Event, n: int)
    requires
        0 <= q < events.len(),
        0 <= n <= events.len(),
        !ev.is_token(),
        !events[q].is_token(),
    ensures
        token_count(events.update(q, ev).subrange(0, n)) == token_count(events.subrange(0, n)),
        n == events.len() ==> token_count(events.update(q, ev)) == token_count(events),
    decreases n,
{
    let u = events.update(q, ev);
    if n > 0 {
        lemma_tokens_replace(events, q, ev, n - 1);
        lemma_depth_step(u, n - 1);
        lemma_depth_step(events, n - 1);
    } else {
        assert(u.subrange(0, 0) =~= events.subrange(0, 0));
    }
    assert(u.subrange(0, u.len() as int) =~= u);
    assert(events.subrange(0, events.len() as int) =~= events);
}

/// Inserting an event that is no token keeps the token count.
proof fn lemma_tokens_insert(events: Seq<Event>, q: int, ev: Event, n: int)
    requires
        0 <= q <= events.len(),
        0 <= n <= events.len() + 1,
        !ev.is_token(),
    ensures
        token_count(events.insert(q, ev).subrange(0, n)) == token_count(events.subrange(0, if n <= q { n } else { n - 1 })),
        n == events.len() + 1 ==> token_count(events.insert(q, ev)) == token_count(events),
    decreases n,
{
    let u = events.insert(q, ev);
    if n > 0 {
        lemma_tokens_insert(events, q, ev, n - 1);
        lemma_depth_step(u, n - 1);
        if n - 1 > q {
            lemma_depth_step(events, n - 2);
            assert(u[n - 1] == events[n - 2]);
        } else if n - 1 < q {
            lemma_depth_step(events, n - 1);
            assert(u[n - 1] == events[n - 1]);
        }
    } else {
        assert(u.subrange(0, 0) =~= events.subrange(0, 0));
    }
    assert(u.subrange(0, u.len() as int) =~= u);
    assert(events.subrange(0, events.len() as int) =~= events);
}

/// A marker opened after a checkpoint is no longer open once the parser has
/// gone back to it: completing or abandoning it is refused, as both ask that
/// it be the innermost open marker.
pub proof fn lemma_rewound_marker_closed(p: &Parser, cp: &Checkpoint, m: &Marker)
    requires
        forall|k: int| 0 <= k < p.open@.len() ==> #[trigger] p.open@[k] < cp.event_pos_view(),
        m.pos_view() >= cp.event_pos_view(),
    ensures
        !p.open@.contains(m.pos_view()),
        p.open@.len() == 0 || p.open@.last() != m.pos_view(),
{
}

/// Completing the marker of the first event closes the whole buffer into one
/// node.
pub proof fn lemma_single_root(events: Seq<Event>, kind: SyntaxKind)
    requires
        balanced(events),
        events.len() >= 1,
        events[0] == (Event::Start { kind: SyntaxKind::TOMBSTONE }),
        kind != SyntaxKind::TOMBSTONE,
    ensures
        single_root(events.update(0, Event::Start { kind }).push(Event::Finish)),
{
    let u = events.update(0, Event::Start { kind });
    let w = u.push(Event::Finish);
    lemma_balanced_complete(events, 0, kind);
    lemma_depth_replace(events, 0, Event::Start { kind });
    lemma_depth_push(u, Event::Finish);
    assert forall|n: int| 0 < n < w.len() implies depth(#[trigger] w.subrange(0, n)) > 0 by {
        assert(w.subrange(0, n) == u.subrange(0, n));
        assert(depth(events.subrange(0, n)) >= 0);
    }
}

/// A prefix of events whose depth is zero is itself balanced.
proof fn lemma_balanced_prefix(events: Seq<Event>, n: int)
    requires
        balanced(events),
        0 <= n <= events.len(),
    ensures
        forall|k: int| 0 <= k <= n ==> depth(#[trigger] events.subrange(0, n).subrange(0, k)) >= 0,
{
    assert forall|k: int| 0 <= k <= n implies depth(#[trigger] events.subrange(0, n).subrange(0, k)) >= 0 by {
        assert(events.subrange(0, n).subrange(0, k) =~= events.subrange(0, k));
    }
}

/// Adding an event changes the depth of the whole by its own delta.
proof fn lemma_depth_push(events: Seq<Event>, ev: Event)
    ensures
        depth(events.push(ev)) == depth(events) + ev.delta(),
        token_count(events.push(ev)) == token_count(events) + if ev.is_token() { 1nat } else { 0nat },
        forall|n: int| 0 <= n <= events.len() ==> #[trigger] events.push(ev).subrange(0, n) == events.subrange(0, n),
        events.push(ev).subrange(0, events.len() as int + 1) == events.push(ev),
{
    assert(events.push(ev).drop_last() =~= events);
    assert forall|n: int| 0 <= n <= events.len() implies #[trigger] events.push(ev).subrange(0, n) == events.subrange(0, n) by {
        assert(events.push(ev).subrange(0, n) =~= events.subrange(0, n));
    }
    assert(events.push(ev).subrange(0, events.len() as int + 1) =~= events.push(ev));
}

/// Replacing the event at `q` changes every prefix that holds it by the
/// difference of the deltas.
proof fn lemma_depth_replace(events: Seq<Event>, q: int, ev: Event)
    requires
        0 <= q < events.len(),
    ensures
        forall|n: int| 0 <= n <= events.len() ==> #[trigger] depth(events.update(q, ev).subrange(0, n))
            == depth(events.subrange(0, n)) + if n > q { ev.delta() - events[q].delta() } else { 0 },
{
    assert forall|n: int| 0 <= n <= events.len() implies #[trigger] depth(events.update(q, ev).subrange(0, n))
        == depth(events.subrange(0, n)) + if n > q { ev.delta() - events[q].delta() } else { 0 } by {
        lemma_depth_replace_at(events, q, ev, n);
    }
}

proof fn lemma_depth_replace_at(events: Seq<Event>, q: int, ev: Event, n: int)
    requires
        0 <= q < events.len(),
        0 <= n <= events.len(),
    ensures
        depth(events.update(q, ev).subrange(0, n)) == depth(events.subrange(0, n)) + if n > q { ev.delta() - events[q].delta() } else { 0 },
    decreases n,
{
    let u = events.update(q, ev);
    if n > 0 {
        lemma_depth_replace_at(events, q, ev, n - 1);
        lemma_depth_step(u, n - 1);
        lemma_depth_step(events, n - 1);
    } else {
        assert(u.subrange(0, 0) =~= events.subrange(0, 0));
    }
}

/// Inserting a tombstone start changes no depth: the prefixes past it are the
/// old ones, one event longer.
proof fn lemma_depth_insert(events: Seq<Event>, q: int, ev: Event)
    requires
        0 <= q <= events.len(),
        ev.delta() == 0,
    ensures
        forall|n: int| 0 <= n <= events.len() + 1 ==> #[trigger] depth(events.insert(q, ev).subrange(0, n))
            == depth(events.subrange(0, if n <= q { n } else { n - 1 })),
{
    assert forall|n: int| 0 <= n <= events.len() + 1 implies #[trigger] depth(events.insert(q, ev).subrange(0, n))
        == depth(events.subrange(0, if n <= q { n } else { n - 1 })) by {
        lemma_depth_insert_at(events, q, ev, n);
    }
}

proof fn lemma_depth_insert_at(events: Seq<Event>, q: int, ev: Event, n: int)
    requires
        0 <= q <= events.len(),
        ev.delta() == 0,
        0 <= n <= events.len() + 1,
    ensures
        depth(events.insert(q, ev).subrange(0, n)) == depth(events.subrange(0, if n <= q { n } else { n - 1 })),
    decreases n,
{
    let u = events.insert(q, ev);
    if n > 0 {
        lemma_depth_insert_at(events, q, ev, n - 1);
        lemma_depth_step(u, n - 1);
        if n - 1 > q {
            lemma_depth_step(events, n - 2);
            assert(u[n - 1] == events[n - 2]);
        } else if n - 1 < q {
            lemma_depth_step(events, n - 1);
            assert(u[n - 1] == events[n - 1]);
        }
    } else {
        assert(u.subrange(0, 0) =~= events.subrange(0, 0));
    }
}

} // verus!
