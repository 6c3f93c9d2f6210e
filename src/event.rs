//! The flat record of structure that parsing appends to, and what it means
//! for that record to be balanced.

use vstd::prelude::*;
use crate::kind::SyntaxKind;

verus! {

/// What went wrong at a place of the source.
#[derive(Clone, Copy, Debug, PartialEq, Eq, Structural)]
pub enum DiagnosticKind {
    /// An expression was expected and something else came.
    ExpectedExpression,
    /// An assignment target was expected and something else came.
    ExpectedAssignmentTarget,
    /// An identifier was expected and something else came.
    ExpectedIdentifier,
    /// This token was expected and something else came.
    ExpectedToken(SyntaxKind),
    /// The expression stands where a value is assigned, and cannot be assigned to.
    InvalidAssignment,
    /// A rest element is followed by another element.
    RestElementNotLast,
    /// A rest element has a default value.
    RestElementWithDefault,
    /// An object or array pattern stands as the target of a rest property.
    PatternInRestProperty,
    /// A statement label is used that is never defined.
    UndefinedLabel,
    /// A `for` statement declares more than one variable.
    ForDeclarationNotSingle,
}

/// A diagnostic with its primary byte range.
#[derive(Clone, Copy, Debug, PartialEq, Eq, Structural)]
pub struct Diagnostic {
    pub kind: DiagnosticKind,
    pub start: usize,
    pub end: usize,
}

/// One entry of the event buffer.
#[derive(Clone, Copy, Debug, PartialEq, Eq, Structural)]
pub enum Event {
    /// Opens a node; a `TOMBSTONE` start opens nothing.
    Start { kind: SyntaxKind },
    /// Closes the innermost open node.
    Finish,
    /// Consumes the next significant token, under this kind.
    Token { kind: SyntaxKind },
    /// Records a diagnostic; it takes no place in the tree.
    Error { diagnostic: Diagnostic },
}

impl Event {
    /// How much this event changes the nesting depth.
    pub open spec fn delta(self) -> int {
        match self {
            Event::Start { kind } => if kind == SyntaxKind::TOMBSTONE { 0 } else { 1 },
            Event::Finish => -1,
            _ => 0,
        }
    }

    pub open spec fn is_token(self) -> bool {
        self is Token
    }
}

/// Opened minus closed nodes over a run of events.
pub open spec fn depth(events: Seq<Event>) -> int
    decreases events.len(),
{
    if events.len() == 0 {
        0
    } else {
        depth(events.drop_last()) + events.last().delta()
    }
}

/// Every prefix closes no more nodes than it opened, and the whole run closes
/// all that it opened.
pub open spec fn balanced(events: Seq<Event>) -> bool {
    &&& forall|n: int| 0 <= n <= events.len() ==> depth(#[trigger] events.subrange(0, n)) >= 0
    &&& depth(events) == 0
}

/// Balanced, with one outermost node that is open from the first event to the
/// last.
pub open spec fn single_root(events: Seq<Event>) -> bool {
    &&& balanced(events)
    &&& events.len() >= 2
    &&& forall|n: int| 0 < n < events.len() ==> depth(#[trigger] events.subrange(0, n)) > 0
}

/// The number of token events in a run of events.
pub open spec fn token_count(events: Seq<Event>) -> nat
    decreases events.len(),
{
    if events.len() == 0 {
        0
    } else {
        token_count(events.drop_last()) + if events.last().is_token() { 1nat } else { 0nat }
    }
}

pub proof fn lemma_depth_step(events: Seq<Event>, i: int)
    requires
        0 <= i < events.len(),
    ensures
        depth(events.subrange(0, i + 1)) == depth(events.subrange(0, i)) + events[i].delta(),
        token_count(events.subrange(0, i + 1)) == token_count(events.subrange(0, i)) + if events[i].is_token() { 1nat } else { 0nat },
{
    assert(events.subrange(0, i + 1).drop_last() =~= events.subrange(0, i));
}

} // verus!
