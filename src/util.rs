//! Small rules shared by the grammar: operator precedence and the checks
//! that report misuse without changing the tree.

use vstd::prelude::*;
use crate::event::{Diagnostic, DiagnosticKind, Event};
use crate::kind::SyntaxKind;
use crate::parser::Parser;
use crate::ast::{JsVariableDeclaration, JsVariableDeclarator};
use crate::support::{any_node, count_before, list_field, list_item, list_items, AstNode};
use crate::syntax::SyntaxNode;
use crate::tree::TokenData;

verus! {

/// How tightly a binary operator binds; `None` for a token that is no binary operator.
pub open spec fn precedence(tok: SyntaxKind) -> Option<u8> {
    match tok {
        SyntaxKind::PIPE2 | SyntaxKind::QUESTION2 => Some(1u8),
        SyntaxKind::AMP2 => Some(2u8),
        SyntaxKind::PIPE => Some(3u8),
        SyntaxKind::CARET => Some(4u8),
        SyntaxKind::AMP => Some(5u8),
        SyntaxKind::EQ2 | SyntaxKind::NEQ | SyntaxKind::EQ3 | SyntaxKind::NEQ2 => Some(6u8),
        SyntaxKind::R_ANGLE | SyntaxKind::GTEQ | SyntaxKind::L_ANGLE | SyntaxKind::LTEQ => Some(7u8),
        SyntaxKind::SHL | SyntaxKind::SHR | SyntaxKind::USHR => Some(8u8),
        SyntaxKind::PLUS | SyntaxKind::MINUS => Some(9u8),
        SyntaxKind::STAR | SyntaxKind::SLASH => Some(10u8),
        SyntaxKind::PERCENT | SyntaxKind::STAR2 => Some(11u8),
        _ => None,
    }
}

/// Get the precedence of a token.
pub fn get_precedence(tok: SyntaxKind) -> (r: Option<u8>)
    ensures
        r == precedence(tok),
{
    match tok {
        SyntaxKind::PIPE2 | SyntaxKind::QUESTION2 => Some(1),
        SyntaxKind::AMP2 => Some(2),
        SyntaxKind::PIPE => Some(3),
        SyntaxKind::CARET => Some(4),
        SyntaxKind::AMP => Some(5),
        SyntaxKind::EQ2 | SyntaxKind::NEQ | SyntaxKind::EQ3 | SyntaxKind::NEQ2 => Some(6),
        SyntaxKind::R_ANGLE | SyntaxKind::GTEQ | SyntaxKind::L_ANGLE | SyntaxKind::LTEQ => Some(7),
        SyntaxKind::SHL | SyntaxKind::SHR | SyntaxKind::USHR => Some(8),
        SyntaxKind::PLUS | SyntaxKind::MINUS => Some(9),
        SyntaxKind::STAR | SyntaxKind::SLASH => Some(10),
        SyntaxKind::PERCENT | SyntaxKind::STAR2 => Some(11),
        _ => None,
    }
}

/// The bytes of a source range.
pub open spec fn text_at(source: Seq<u8>, range: (usize, usize)) -> Seq<u8> {
    source.subrange(range.0 as int, range.1 as int)
}

/// Whether two ranges of the source hold the same bytes.
fn same_text(source: &Vec<u8>, a: (usize, usize), b: (usize, usize)) -> (r: bool)
    requires
        a.0 <= a.1 <= source@.len(),
        b.0 <= b.1 <= source@.len(),
    ensures
        r == (text_at(source@, a) == text_at(source@, b)),
{
    if a.1 - a.0 != b.1 - b.0 {
        proof {
            assert(text_at(source@, a).len() != text_at(source@, b).len());
        }
        return false;
    }
    let n = a.1 - a.0;
    let mut i: usize = 0;
    while i < n
        invariant
            n == a.1 - a.0,
            n == b.1 - b.0,
            a.0 <= a.1 <= source@.len(),
            b.0 <= b.1 <= source@.len(),
            0 <= i <= n,
            forall|k: int| 0 <= k < i ==> #[trigger] text_at(source@, a)[k] == text_at(source@, b)[k],
        decreases n - i,
    {
        if source[a.0 + i] != source[b.0 + i] {
            proof {
                assert(text_at(source@, a)[i as int] != text_at(source@, b)[i as int]);
            }
            return false;
        }
        i = i + 1;
    }
    proof {
        assert(text_at(source@, a) =~= text_at(source@, b));
    }
    true
}

/// The range reported for the declarators from `second` to `last`: from
/// the start of the second to the end of the last, each taken without
/// trivia. A declarator without tokens gives the other's range, and two such
/// an empty range at the start of the source.
pub open spec fn excess_range(second: SyntaxNode, last: SyntaxNode) -> (usize, usize) {
    match (second.range_view(), last.range_view()) {
        (Some(a), Some(b)) => (a.0, b.1),
        (Some(a), None) => a,
        (None, Some(b)) => b,
        (None, None) => (0, 0),
    }
}

/// The diagnostic for the declarators from `second` to `last`.
pub open spec fn excess_declarators(second: SyntaxNode, last: SyntaxNode) -> Diagnostic {
    let range = excess_range(second, last);
    Diagnostic { kind: DiagnosticKind::ForDeclarationNotSingle, start: range.0, end: range.1 }
}

/// Check if the var declaration in a for statement has multiple
/// declarators, which is invalid. Whenever there are two or more, one
/// diagnostic reports the declarators after the first.
pub fn check_for_stmt_declaration<'a>(declaration: &JsVariableDeclaration<'a>) -> (r: Option<
    Diagnostic,
>)
    ensures
        forall|list: Option<SyntaxNode<'a>>|
            #[trigger] list_field(declaration.syntax_view(), 0, list) ==> {
                let n = count_before(list_items(list), any_node(), list_items(list).len() as int);
                &&& n <= 1 <==> r is None
                &&& forall|second: JsVariableDeclarator<'a>, last: JsVariableDeclarator<'a>|
                    #![trigger list_item(list, 1, Some(second)), list_item(list, n - 1, Some(last))]
                    n > 1 && list_item(list, 1, Some(second)) && list_item(list, n - 1, Some(last))
                        && second.syntax_view().kind_view() == SyntaxKind::JS_VARIABLE_DECLARATOR
                        && last.syntax_view().kind_view() == SyntaxKind::JS_VARIABLE_DECLARATOR
                        ==> r == Some(excess_declarators(second.syntax_view(), last.syntax_view()))
            },
        r matches Some(d) ==> d.kind == DiagnosticKind::ForDeclarationNotSingle,
{
    let declarators = declaration.declarators();
    let n = declarators.len();
    if n <= 1 {
        return None;
    }
    let second = match declarators.get(1) {
        Some(second) => second.syntax().text_range(),
        None => None,
    };
    let last = match declarators.get(n - 1) {
        Some(last) => last.syntax().text_range(),
        None => None,
    };
    let range = match (second, last) {
        (Some(a), Some(b)) => (a.0, b.1),
        (Some(a), None) => a,
        (None, Some(b)) => b,
        (None, None) => (0, 0),
    };
    Some(Diagnostic { kind: DiagnosticKind::ForDeclarationNotSingle, start: range.0, end: range.1 })
}

/// Whether a range of the source holds exactly the bytes of `word`.
fn text_is(source: &Vec<u8>, range: (usize, usize), word: &[u8]) -> (r: bool)
    requires
        range.0 <= range.1 <= source@.len(),
    ensures
        r == (text_at(source@, range) == word@),
{
    if range.1 - range.0 != word.len() {
        proof {
            assert(text_at(source@, range).len() != word@.len());
        }
        return false;
    }
    let n = word.len();
    let mut i: usize = 0;
    while i < n
        invariant
            n == word@.len(),
            n == range.1 - range.0,
            range.0 <= range.1 <= source@.len(),
            0 <= i <= n,
            forall|k: int| 0 <= k < i ==> #[trigger] text_at(source@, range)[k] == word@[k],
        decreases n - i,
    {
        if source[range.0 + i] != word[i] {
            proof {
                assert(text_at(source@, range)[i as int] != word@[i as int]);
            }
            return false;
        }
        i = i + 1;
    }
    proof {
        assert(text_at(source@, range) =~= word@);
    }
    true
}

/// Consumes an identifier whose text is `keyword_name` as a token of `kind`;
/// anything else is reported at the current token and left in place.
pub fn expect_keyword(p: &mut Parser, keyword_name: &[u8], kind: SyntaxKind)
    requires
        old(p).wf(),
    ensures
        final(p).extends(old(p), old(p).events@.len() as int),
        final(p).labels == old(p).labels,
        ({
            let at_keyword = old(p).nth_kind(0) == SyntaxKind::IDENT && text_at(
                old(p).source@,
                (old(p).tokens@[old(p).pos as int].start, old(p).tokens@[old(p).pos as int].end),
            ) == keyword_name@;
            &&& at_keyword ==> final(p).pos == old(p).pos + 1 && final(p).events@
                == old(p).events@.push(Event::Token { kind })
            &&& !at_keyword ==> final(p).pos == old(p).pos && final(p).events@ == old(p).events@.push(
                Event::Error {
                    diagnostic: Diagnostic {
                        kind: DiagnosticKind::ExpectedToken(kind),
                        start: old(p).cur_span().0,
                        end: old(p).cur_span().1,
                    },
                },
            )
        }),
{
    if p.at(SyntaxKind::IDENT) && text_is(&p.source, p.cur_range(), keyword_name) {
        p.bump_remap(kind);
    } else {
        p.error_here(DiagnosticKind::ExpectedToken(kind));
    }
}

/// Whether a label with the text of `label` is in scope.
fn label_defined(p: &Parser, label: &TokenData) -> (r: bool)
    requires
        label.start <= label.end <= p.source@.len(),
        forall|k: int| 0 <= k < p.labels@.len() ==> #[trigger] p.labels@[k].0 <= p.labels@[k].1 <= p.source@.len(),
    ensures
        r == (exists|k: int| 0 <= k < p.labels@.len() && text_at(p.source@, #[trigger] p.labels@[k]) == text_at(p.source@, (label.start, label.end))),
{
    let name = (label.start, label.end);
    let mut k: usize = 0;
    let n = p.labels.len();
    while k < n
        invariant
            n == p.labels@.len(),
            0 <= k <= n,
            name == (label.start, label.end),
            name.0 <= name.1 <= p.source@.len(),
            forall|j: int| 0 <= j < p.labels@.len() ==> #[trigger] p.labels@[j].0 <= p.labels@[j].1 <= p.source@.len(),
            forall|j: int| 0 <= j < k ==> text_at(p.source@, #[trigger] p.labels@[j]) != text_at(p.source@, name),
        decreases n - k,
    {
        if same_text(&p.source, p.labels[k], name) {
            return true;
        }
        k = k + 1;
    }
    false
}

/// Check if the use of a statement label is valid and the label is defined:
/// a label whose text is that of no label in scope is reported at its range.
pub fn check_label_use(p: &mut Parser, label: &TokenData)
    requires
        old(p).wf(),
        label.start <= label.end <= old(p).source@.len(),
        forall|k: int| 0 <= k < old(p).labels@.len() ==> #[trigger] old(p).labels@[k].0 <= old(p).labels@[k].1 <= old(p).source@.len(),
    ensures
        final(p).wf(),
        final(p).same_input(old(p)),
        final(p).pos == old(p).pos,
        final(p).open == old(p).open,
        final(p).labels == old(p).labels,
        (exists|k: int| 0 <= k < old(p).labels@.len() && text_at(old(p).source@, #[trigger] old(p).labels@[k]) == text_at(old(p).source@, (label.start, label.end)))
            ==> final(p).events@ == old(p).events@,
        !(exists|k: int| 0 <= k < old(p).labels@.len() && text_at(old(p).source@, #[trigger] old(p).labels@[k]) == text_at(old(p).source@, (label.start, label.end)))
            ==> final(p).events@ == old(p).events@.push(Event::Error {
                diagnostic: Diagnostic { kind: DiagnosticKind::UndefinedLabel, start: label.start, end: label.end },
            }),
{
    if !label_defined(p, label) {
        p.error(Diagnostic { kind: DiagnosticKind::UndefinedLabel, start: label.start, end: label.end });
    }
}

} // verus!
