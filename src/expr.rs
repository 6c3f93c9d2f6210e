//! Expressions: enough of the grammar to produce the expressions that the
//! assignment rules reinterpret, with recovery where a piece is missing.

use vstd::prelude::*;
use crate::assignment::{
    expression_to_assignment, expression_to_assignment_pattern, AssignmentExprPrecedence,
};
use crate::event::DiagnosticKind;
use crate::kind::SyntaxKind;
use crate::parser::{lemma_push_drop_last, parsed, CompletedMarker, Parser};
use crate::util::get_precedence;

verus! {

broadcast use lemma_push_drop_last;

/// The expression kind of a literal token.
pub open spec fn literal_expression_kind(k: SyntaxKind) -> Option<SyntaxKind> {
    match k {
        SyntaxKind::JS_NUMBER_LITERAL => Some(SyntaxKind::JS_NUMBER_LITERAL_EXPRESSION),
        SyntaxKind::JS_STRING_LITERAL => Some(SyntaxKind::JS_STRING_LITERAL_EXPRESSION),
        SyntaxKind::JS_BIG_INT_LITERAL => Some(SyntaxKind::JS_BIG_INT_LITERAL_EXPRESSION),
        SyntaxKind::JS_REGEX_LITERAL => Some(SyntaxKind::JS_REGEX_LITERAL_EXPRESSION),
        SyntaxKind::TRUE_KW | SyntaxKind::FALSE_KW => Some(SyntaxKind::JS_BOOLEAN_LITERAL_EXPRESSION),
        SyntaxKind::NULL_KW => Some(SyntaxKind::JS_NULL_LITERAL_EXPRESSION),
        _ => None,
    }
}

fn literal_kind(k: SyntaxKind) -> (r: Option<SyntaxKind>)
    ensures
        r == literal_expression_kind(k),
{
    match k {
        SyntaxKind::JS_NUMBER_LITERAL => Some(SyntaxKind::JS_NUMBER_LITERAL_EXPRESSION),
        SyntaxKind::JS_STRING_LITERAL => Some(SyntaxKind::JS_STRING_LITERAL_EXPRESSION),
        SyntaxKind::JS_BIG_INT_LITERAL => Some(SyntaxKind::JS_BIG_INT_LITERAL_EXPRESSION),
        SyntaxKind::JS_REGEX_LITERAL => Some(SyntaxKind::JS_REGEX_LITERAL_EXPRESSION),
        SyntaxKind::TRUE_KW | SyntaxKind::FALSE_KW => Some(SyntaxKind::JS_BOOLEAN_LITERAL_EXPRESSION),
        SyntaxKind::NULL_KW => Some(SyntaxKind::JS_NULL_LITERAL_EXPRESSION),
        _ => None,
    }
}

/// The tokens a primary expression starts with.
pub open spec fn starts_primary(k: SyntaxKind) -> bool {
    k == SyntaxKind::IDENT || k == SyntaxKind::AWAIT_KW || k == SyntaxKind::YIELD_KW || k
        == SyntaxKind::THIS_KW || k == SyntaxKind::L_PAREN || k == SyntaxKind::L_BRACK || k
        == SyntaxKind::L_CURLY || literal_expression_kind(k) is Some
}

/// The prefix operators of a unary expression.
pub open spec fn is_prefix_op(k: SyntaxKind) -> bool {
    k == SyntaxKind::PLUS2 || k == SyntaxKind::MINUS2 || k == SyntaxKind::BANG || k
        == SyntaxKind::TILDE || k == SyntaxKind::PLUS || k == SyntaxKind::MINUS || k
        == SyntaxKind::TYPEOF_KW || k == SyntaxKind::VOID_KW || k == SyntaxKind::DELETE_KW
}

/// The tokens an expression starts with.
pub open spec fn starts_expression(k: SyntaxKind) -> bool {
    starts_primary(k) || is_prefix_op(k)
}

/// The assignment operators.
pub open spec fn is_assign_op(k: SyntaxKind) -> bool {
    matches!(
        k,
        SyntaxKind::EQ | SyntaxKind::PLUSEQ | SyntaxKind::MINUSEQ | SyntaxKind::STAREQ
            | SyntaxKind::SLASHEQ | SyntaxKind::PERCENTEQ | SyntaxKind::STAR2EQ | SyntaxKind::SHREQ
            | SyntaxKind::SHLEQ | SyntaxKind::USHREQ | SyntaxKind::AMPEQ | SyntaxKind::PIPEEQ
            | SyntaxKind::CARETEQ | SyntaxKind::AMP2EQ | SyntaxKind::PIPE2EQ
            | SyntaxKind::QUESTION2EQ
    )
}

fn assign_op(k: SyntaxKind) -> (r: bool)
    ensures
        r == is_assign_op(k),
{
    matches!(
        k,
        SyntaxKind::EQ | SyntaxKind::PLUSEQ | SyntaxKind::MINUSEQ | SyntaxKind::STAREQ
            | SyntaxKind::SLASHEQ | SyntaxKind::PERCENTEQ | SyntaxKind::STAR2EQ | SyntaxKind::SHREQ
            | SyntaxKind::SHLEQ | SyntaxKind::USHREQ | SyntaxKind::AMPEQ | SyntaxKind::PIPEEQ
            | SyntaxKind::CARETEQ | SyntaxKind::AMP2EQ | SyntaxKind::PIPE2EQ
            | SyntaxKind::QUESTION2EQ
    )
}

/// An identifier as a name: `JS_NAME` around the token, or a diagnostic where
/// no identifier comes.
fn parse_name(p: &mut Parser) -> (r: Option<CompletedMarker>)
    requires
        old(p).wf(),
    ensures
        parsed(final(p), old(p), r),
        r is None ==> final(p).pos == old(p).pos,
{
    if p.at(SyntaxKind::IDENT) {
        let m = p.start();
        p.bump(SyntaxKind::IDENT);
        Some(m.complete(p, SyntaxKind::JS_NAME))
    } else {
        p.error_here(DiagnosticKind::ExpectedIdentifier);
        None
    }
}

/// A primary expression: an identifier, a literal, `this`, a parenthesized
/// expression or an array. `None`, with nothing consumed or recorded, where
/// none starts here.
pub fn parse_primary(p: &mut Parser) -> (r: Option<CompletedMarker>)
    requires
        old(p).wf(),
    ensures
        parsed(final(p), old(p), r),
        r is None ==> *final(p) == *old(p),
        r is Some == starts_primary(old(p).nth_kind(0)),
    decreases old(p).tokens@.len() - old(p).pos, 10nat,
{
    let k = p.cur();
    if k == SyntaxKind::IDENT || k == SyntaxKind::AWAIT_KW || k == SyntaxKind::YIELD_KW {
        // `await` and `yield` name a binding where they are no operator.
        let m = p.start();
        let n = p.start();
        p.bump_remap(SyntaxKind::IDENT);
        let _ = n.complete(p, SyntaxKind::JS_REFERENCE_IDENTIFIER);
        Some(m.complete(p, SyntaxKind::JS_IDENTIFIER_EXPRESSION))
    } else if k == SyntaxKind::THIS_KW {
        let m = p.start();
        p.bump(SyntaxKind::THIS_KW);
        Some(m.complete(p, SyntaxKind::JS_THIS_EXPRESSION))
    } else if k == SyntaxKind::L_PAREN {
        let m = p.start();
        p.bump(SyntaxKind::L_PAREN);
        let inner = parse_expression(p);
        if inner.is_none() {
            p.error_here(DiagnosticKind::ExpectedExpression);
        }
        p.expect(SyntaxKind::R_PAREN);
        Some(m.complete(p, SyntaxKind::JS_PARENTHESIZED_EXPRESSION))
    } else if k == SyntaxKind::L_BRACK {
        parse_array_expression(p)
    } else if k == SyntaxKind::L_CURLY {
        parse_object_expression(p)
    } else {
        match literal_kind(k) {
            Some(kind) => {
                let m = p.start();
                p.bump(k);
                Some(m.complete(p, kind))
            },
            None => None,
        }
    }
}

/// An array literal: `[`, elements, holes and spreads, `]`.
fn parse_array_expression(p: &mut Parser) -> (r: Option<CompletedMarker>)
    requires
        old(p).wf(),
        old(p).nth_kind(0) == SyntaxKind::L_BRACK,
    ensures
        parsed(final(p), old(p), r),
        r is Some,
    decreases old(p).tokens@.len() - old(p).pos, 9nat,
{
    let m = p.start();
    p.bump(SyntaxKind::L_BRACK);
    let list = p.start();
    while !p.at(SyntaxKind::R_BRACK) && !p.at(SyntaxKind::EOF)
        invariant
            p.wf(),
            p.same_input(old(p)),
            p.open@ == old(p).open@.push(m.pos_view()).push(list.pos_view()),
            p.pos > old(p).pos,
            p.state == old(p).state,
            crate::parser::agree(p.events@, old(p).events@, old(p).events@.len() as int),
            m.pos_view() == old(p).events@.len(),
            list.pos_view() == old(p).events@.len() + 2,
            m.start_tok_view() == old(p).pos,
            list.start_tok_view() <= p.pos,
        decreases p.tokens@.len() - p.pos,
    {
        if p.at(SyntaxKind::COMMA) {
            let hole = p.start();
            let _ = hole.complete(p, SyntaxKind::JS_ARRAY_HOLE);
            p.bump(SyntaxKind::COMMA);
            continue;
        }
        if p.at(SyntaxKind::DOT3) {
            let spread = p.start();
            p.bump(SyntaxKind::DOT3);
            if parse_assignment_expression(p).is_none() {
                p.error_here(DiagnosticKind::ExpectedExpression);
            }
            let _ = spread.complete(p, SyntaxKind::JS_SPREAD);
        } else if parse_assignment_expression(p).is_none() {
            p.error_here(DiagnosticKind::ExpectedExpression);
            break;
        }
        if !p.at(SyntaxKind::R_BRACK) {
            if !p.eat(SyntaxKind::COMMA) {
                p.error_here(DiagnosticKind::ExpectedToken(SyntaxKind::COMMA));
                break;
            }
        }
    }
    let _ = list.complete(p, SyntaxKind::LIST);
    p.expect(SyntaxKind::R_BRACK);
    Some(m.complete(p, SyntaxKind::JS_ARRAY_EXPRESSION))
}

/// A member of an object literal: `name: value`, a shorthand `name`, or
/// `...spread`. `None`, with nothing consumed, where none starts here.
fn parse_object_member(p: &mut Parser) -> (r: Option<CompletedMarker>)
    requires
        old(p).wf(),
    ensures
        parsed(final(p), old(p), r),
        r is None ==> *final(p) == *old(p),
        r is Some == (old(p).nth_kind(0) == SyntaxKind::DOT3 || old(p).nth_kind(0) == SyntaxKind::IDENT
            || old(p).nth_kind(0) == SyntaxKind::AWAIT_KW || old(p).nth_kind(0) == SyntaxKind::YIELD_KW),
    decreases old(p).tokens@.len() - old(p).pos, 9nat,
{
    if p.at(SyntaxKind::DOT3) {
        let m = p.start();
        p.bump(SyntaxKind::DOT3);
        if parse_assignment_expression(p).is_none() {
            p.error_here(DiagnosticKind::ExpectedExpression);
        }
        return Some(m.complete(p, SyntaxKind::JS_SPREAD));
    }
    let first = p.cur();
    if !(first == SyntaxKind::IDENT || first == SyntaxKind::AWAIT_KW || first == SyntaxKind::YIELD_KW) {
        return None;
    }
    let m = p.start();
    if p.nth(1) == SyntaxKind::COLON {
        let name = p.start();
        p.bump_remap(SyntaxKind::IDENT);
        let _ = name.complete(p, SyntaxKind::JS_LITERAL_MEMBER_NAME);
        p.bump(SyntaxKind::COLON);
        if parse_assignment_expression(p).is_none() {
            p.error_here(DiagnosticKind::ExpectedExpression);
        }
        Some(m.complete(p, SyntaxKind::JS_PROPERTY_OBJECT_MEMBER))
    } else {
        let name = p.start();
        p.bump_remap(SyntaxKind::IDENT);
        let _ = name.complete(p, SyntaxKind::JS_REFERENCE_IDENTIFIER);
        Some(m.complete(p, SyntaxKind::JS_SHORTHAND_PROPERTY_OBJECT_MEMBER))
    }
}

/// An object literal: `{`, members parted by commas, `}`.
fn parse_object_expression(p: &mut Parser) -> (r: Option<CompletedMarker>)
    requires
        old(p).wf(),
        old(p).nth_kind(0) == SyntaxKind::L_CURLY,
    ensures
        parsed(final(p), old(p), r),
        r is Some,
    decreases old(p).tokens@.len() - old(p).pos, 9nat,
{
    let m = p.start();
    p.bump(SyntaxKind::L_CURLY);
    let list = p.start();
    while !p.at(SyntaxKind::R_CURLY) && !p.at(SyntaxKind::EOF)
        invariant
            p.wf(),
            p.same_input(old(p)),
            p.open@ == old(p).open@.push(m.pos_view()).push(list.pos_view()),
            p.pos > old(p).pos,
            p.state == old(p).state,
            crate::parser::agree(p.events@, old(p).events@, old(p).events@.len() as int),
            m.pos_view() == old(p).events@.len(),
            list.pos_view() == old(p).events@.len() + 2,
            m.start_tok_view() == old(p).pos,
            list.start_tok_view() <= p.pos,
        decreases p.tokens@.len() - p.pos,
    {
        if parse_object_member(p).is_none() {
            p.error_here(DiagnosticKind::ExpectedExpression);
            break;
        }
        if !p.at(SyntaxKind::R_CURLY) {
            if !p.eat(SyntaxKind::COMMA) {
                p.error_here(DiagnosticKind::ExpectedToken(SyntaxKind::COMMA));
                break;
            }
        }
    }
    let _ = list.complete(p, SyntaxKind::LIST);
    p.expect(SyntaxKind::R_CURLY);
    Some(m.complete(p, SyntaxKind::JS_OBJECT_EXPRESSION))
}

/// A primary expression followed by member accesses and calls.
pub fn parse_member_expression(p: &mut Parser) -> (r: Option<CompletedMarker>)
    requires
        old(p).wf(),
    ensures
        parsed(final(p), old(p), r),
        r is None ==> *final(p) == *old(p),
        r is Some == starts_primary(old(p).nth_kind(0)),
    decreases old(p).tokens@.len() - old(p).pos, 11nat,
{
    let mut lhs = match parse_primary(p) {
        Some(lhs) => lhs,
        None => return None,
    };
    loop
        invariant
            parsed(p, old(p), Some(lhs)),
        decreases p.tokens@.len() - p.pos,
    {
        let k = p.cur();
        if k == SyntaxKind::DOT {
            let m = lhs.precede(p);
            p.bump(SyntaxKind::DOT);
            let _ = parse_name(p);
            lhs = m.complete(p, SyntaxKind::JS_STATIC_MEMBER_EXPRESSION);
        } else if k == SyntaxKind::QUESTIONDOT {
            let m = lhs.precede(p);
            p.bump(SyntaxKind::QUESTIONDOT);
            if p.at(SyntaxKind::L_BRACK) {
                p.bump(SyntaxKind::L_BRACK);
                if parse_expression(p).is_none() {
                    p.error_here(DiagnosticKind::ExpectedExpression);
                }
                p.expect(SyntaxKind::R_BRACK);
                lhs = m.complete(p, SyntaxKind::JS_COMPUTED_MEMBER_EXPRESSION);
            } else {
                let _ = parse_name(p);
                lhs = m.complete(p, SyntaxKind::JS_STATIC_MEMBER_EXPRESSION);
            }
        } else if k == SyntaxKind::L_BRACK {
            let m = lhs.precede(p);
            p.bump(SyntaxKind::L_BRACK);
            if parse_expression(p).is_none() {
                p.error_here(DiagnosticKind::ExpectedExpression);
            }
            p.expect(SyntaxKind::R_BRACK);
            lhs = m.complete(p, SyntaxKind::JS_COMPUTED_MEMBER_EXPRESSION);
        } else if k == SyntaxKind::L_PAREN {
            let m = lhs.precede(p);
            parse_arguments(p);
            lhs = m.complete(p, SyntaxKind::CALL_EXPR);
        } else {
            break;
        }
    }
    Some(lhs)
}

/// The arguments of a call: `(`, expressions parted by commas, `)`.
fn parse_arguments(p: &mut Parser)
    requires
        old(p).wf(),
        old(p).nth_kind(0) == SyntaxKind::L_PAREN,
    ensures
        final(p).extends(old(p), old(p).events@.len() as int),
        final(p).pos > old(p).pos,
    decreases old(p).tokens@.len() - old(p).pos, 9nat,
{
    let m = p.start();
    p.bump(SyntaxKind::L_PAREN);
    while !p.at(SyntaxKind::R_PAREN) && !p.at(SyntaxKind::EOF)
        invariant
            p.wf(),
            p.same_input(old(p)),
            p.open@ == old(p).open@.push(m.pos_view()),
            p.pos > old(p).pos,
            p.state == old(p).state,
            crate::parser::agree(p.events@, old(p).events@, old(p).events@.len() as int),
            m.pos_view() == old(p).events@.len(),
            m.start_tok_view() == old(p).pos,
        decreases p.tokens@.len() - p.pos,
    {
        if parse_assignment_expression(p).is_none() {
            p.error_here(DiagnosticKind::ExpectedExpression);
            break;
        }
        if !p.at(SyntaxKind::R_PAREN) {
            if !p.eat(SyntaxKind::COMMA) {
                p.error_here(DiagnosticKind::ExpectedToken(SyntaxKind::COMMA));
                break;
            }
        }
    }
    p.expect(SyntaxKind::R_PAREN);
    let _ = m.complete(p, SyntaxKind::ARG_LIST);
}

/// A member expression, with a postfix `++` or `--` turning it into an
/// assignment target.
pub fn parse_postfix_expression(p: &mut Parser) -> (r: Option<CompletedMarker>)
    requires
        old(p).wf(),
    ensures
        parsed(final(p), old(p), r),
        r is None ==> *final(p) == *old(p),
        r is Some == starts_primary(old(p).nth_kind(0)),
    decreases old(p).tokens@.len() - old(p).pos, 12nat,
{
    let checkpoint = p.checkpoint();
    let lhs = match parse_member_expression(p) {
        Some(lhs) => lhs,
        None => return None,
    };
    let k = p.cur();
    if k == SyntaxKind::PLUS2 || k == SyntaxKind::MINUS2 {
        let target = expression_to_assignment(p, lhs, &checkpoint);
        let m = target.precede(p);
        if !p.eat(k) {
            p.error_here(DiagnosticKind::ExpectedToken(k));
        }
        Some(m.complete(p, SyntaxKind::JS_POST_UPDATE_EXPRESSION))
    } else {
        Some(lhs)
    }
}

/// A unary expression: prefix operators, `++`/`--` on an assignment target,
/// or a postfix expression.
pub fn parse_unary_expression(p: &mut Parser) -> (r: Option<CompletedMarker>)
    requires
        old(p).wf(),
    ensures
        parsed(final(p), old(p), r),
        r is None ==> *final(p) == *old(p),
        r is Some == starts_expression(old(p).nth_kind(0)),
    decreases old(p).tokens@.len() - old(p).pos, 13nat,
{
    let k = p.cur();
    if k == SyntaxKind::PLUS2 || k == SyntaxKind::MINUS2 {
        let m = p.start();
        p.bump(k);
        let checkpoint = p.checkpoint();
        match parse_unary_expression(p) {
            Some(operand) => {
                let _ = expression_to_assignment(p, operand, &checkpoint);
            },
            None => {
                p.error_here(DiagnosticKind::ExpectedExpression);
            },
        }
        Some(m.complete(p, SyntaxKind::JS_PRE_UPDATE_EXPRESSION))
    } else if k == SyntaxKind::BANG || k == SyntaxKind::TILDE || k == SyntaxKind::PLUS || k
        == SyntaxKind::MINUS || k == SyntaxKind::TYPEOF_KW || k == SyntaxKind::VOID_KW || k
        == SyntaxKind::DELETE_KW {
        let m = p.start();
        p.bump(k);
        if parse_unary_expression(p).is_none() {
            p.error_here(DiagnosticKind::ExpectedExpression);
        }
        Some(m.complete(p, SyntaxKind::JS_UNARY_EXPRESSION))
    } else {
        parse_postfix_expression(p)
    }
}

/// Binary operators of a precedence above `min`, left to right.
pub fn parse_binary_expression(p: &mut Parser, min: u8) -> (r: Option<CompletedMarker>)
    requires
        old(p).wf(),
    ensures
        parsed(final(p), old(p), r),
        r is None ==> *final(p) == *old(p),
        r is Some == starts_expression(old(p).nth_kind(0)),
    decreases old(p).tokens@.len() - old(p).pos, 14nat,
{
    let mut lhs = match parse_unary_expression(p) {
        Some(lhs) => lhs,
        None => return None,
    };
    loop
        invariant
            parsed(p, old(p), Some(lhs)),
        decreases p.tokens@.len() - p.pos,
    {
        let op = p.cur();
        let prec = match get_precedence(op) {
            Some(prec) => prec,
            None => break,
        };
        if prec <= min {
            break;
        }
        let m = lhs.precede(p);
        p.bump(op);
        if parse_binary_expression(p, prec).is_none() {
            p.error_here(DiagnosticKind::ExpectedExpression);
        }
        let kind = if op == SyntaxKind::PIPE2 || op == SyntaxKind::AMP2 || op == SyntaxKind::QUESTION2 {
            SyntaxKind::JS_LOGICAL_EXPRESSION
        } else {
            SyntaxKind::JS_BINARY_EXPRESSION
        };
        lhs = m.complete(p, kind);
    }
    Some(lhs)
}

/// A conditional expression `test ? consequent : alternate`, or a binary one.
pub fn parse_conditional_expression(p: &mut Parser) -> (r: Option<CompletedMarker>)
    requires
        old(p).wf(),
    ensures
        parsed(final(p), old(p), r),
        r is None ==> *final(p) == *old(p),
        r is Some == starts_expression(old(p).nth_kind(0)),
    decreases old(p).tokens@.len() - old(p).pos, 15nat,
{
    let test = match parse_binary_expression(p, 0) {
        Some(test) => test,
        None => return None,
    };
    if p.at(SyntaxKind::QUESTION) {
        let m = test.precede(p);
        p.bump(SyntaxKind::QUESTION);
        if parse_assignment_expression(p).is_none() {
            p.error_here(DiagnosticKind::ExpectedExpression);
        }
        p.expect(SyntaxKind::COLON);
        if parse_assignment_expression(p).is_none() {
            p.error_here(DiagnosticKind::ExpectedExpression);
        }
        Some(m.complete(p, SyntaxKind::JS_CONDITIONAL_EXPRESSION))
    } else {
        Some(test)
    }
}

/// An assignment expression: a conditional expression, or a target, an
/// assignment operator and a value. The target is the expression before the
/// operator, reparsed as an assignment target.
pub fn parse_assignment_expression(p: &mut Parser) -> (r: Option<CompletedMarker>)
    requires
        old(p).wf(),
    ensures
        parsed(final(p), old(p), r),
        r is None ==> *final(p) == *old(p),
        r is Some == starts_expression(old(p).nth_kind(0)),
    decreases old(p).tokens@.len() - old(p).pos, 29nat,
{
    let checkpoint = p.checkpoint();
    let lhs = match parse_conditional_expression(p) {
        Some(lhs) => lhs,
        None => return None,
    };
    let op = p.cur();
    if !assign_op(op) {
        return Some(lhs);
    }
    let target = if op == SyntaxKind::EQ {
        expression_to_assignment_pattern(p, lhs, &checkpoint, AssignmentExprPrecedence::Conditional)
    } else {
        expression_to_assignment(p, lhs, &checkpoint)
    };
    let m = target.precede(p);
    if p.at(op) {
        p.bump(op);
        if parse_assignment_expression(p).is_none() {
            p.error_here(DiagnosticKind::ExpectedExpression);
        }
    } else {
        p.error_here(DiagnosticKind::ExpectedToken(op));
    }
    Some(m.complete(p, SyntaxKind::JS_ASSIGNMENT_EXPRESSION))
}

/// An expression: assignment expressions parted by commas.
pub fn parse_expression(p: &mut Parser) -> (r: Option<CompletedMarker>)
    requires
        old(p).wf(),
    ensures
        parsed(final(p), old(p), r),
        r is None ==> *final(p) == *old(p),
        r is Some == starts_expression(old(p).nth_kind(0)),
    decreases old(p).tokens@.len() - old(p).pos, 30nat,
{
    let mut lhs = match parse_assignment_expression(p) {
        Some(lhs) => lhs,
        None => return None,
    };
    while p.at(SyntaxKind::COMMA)
        invariant
            parsed(p, old(p), Some(lhs)),
        decreases p.tokens@.len() - p.pos,
    {
        let m = lhs.precede(p);
        p.bump(SyntaxKind::COMMA);
        if parse_assignment_expression(p).is_none() {
            p.error_here(DiagnosticKind::ExpectedExpression);
        }
        lhs = m.complete(p, SyntaxKind::JS_SEQUENCE_EXPRESSION);
    }
    Some(lhs)
}

} // verus!
