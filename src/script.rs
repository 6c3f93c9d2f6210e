//! Scripts and statements, and the whole parse: from the tokens of a source
//! to its tree and diagnostics.

use vstd::prelude::*;
use crate::builder::{build_tree, errors_of};
use crate::event::{single_root, Diagnostic, DiagnosticKind, Event};
use crate::expr::parse_expression;
use crate::kind::SyntaxKind;
use crate::ast::{JsAnyStatement, JsDirective, JsScript};
use crate::parser::{lemma_push_drop_last, lemma_single_root, parsed, CompletedMarker, Parser};
use crate::support::{lemma_slots_distinct, list_child, list_field, AstNode};
use crate::syntax::SyntaxNode;
use crate::tree::{index_run, ranges_ok, tiles, SyntaxTree, TokenData};

verus! {

broadcast use lemma_push_drop_last;

/// The result of a parse: the tree, the diagnostics in the order they were
/// recorded, and the event buffer both come from.
pub struct Parse {
    pub tree: SyntaxTree,
    pub diagnostics: Vec<Diagnostic>,
    /// The event buffer the tree was built from.
    pub events: Vec<Event>,
}

/// A statement: `;`, or an expression with an optional `;`. Where neither
/// starts, the current token is reported and wrapped in an unknown statement,
/// so that every statement consumes a token.
pub fn parse_statement(p: &mut Parser) -> (r: CompletedMarker)
    requires
        old(p).wf(),
        old(p).pos < old(p).tokens@.len(),
    ensures
        parsed(final(p), old(p), Some(r)),
{
    if p.at(SyntaxKind::SEMICOLON) {
        let m = p.start();
        p.bump(SyntaxKind::SEMICOLON);
        return m.complete(p, SyntaxKind::JS_EMPTY_STATEMENT);
    }
    match parse_expression(p) {
        Some(expression) => {
            let m = expression.precede(p);
            p.eat(SyntaxKind::SEMICOLON);
            m.complete(p, SyntaxKind::JS_EXPRESSION_STATEMENT)
        },
        None => {
            let m = p.start();
            p.error_here(DiagnosticKind::ExpectedExpression);
            p.bump_any();
            m.complete(p, SyntaxKind::JS_UNKNOWN_STATEMENT)
        },
    }
}

/// Whether a directive starts here: a string literal that ends its statement.
fn at_directive(p: &Parser) -> (r: bool)
    requires
        p.wf(),
    ensures
        r ==> p.nth_kind(0) == SyntaxKind::JS_STRING_LITERAL,
{
    p.at(SyntaxKind::JS_STRING_LITERAL) && (p.nth(1) == SyntaxKind::SEMICOLON || p.nth(1)
        == SyntaxKind::EOF)
}

/// A script: its directives, then its statements, each list a node of its own.
/// The buffer it leaves is balanced, with the script node around all of it.
pub fn parse_script(p: &mut Parser) -> (r: CompletedMarker)
    requires
        old(p).wf(),
        old(p).events@.len() == 0,
        old(p).open@.len() == 0,
    ensures
        final(p).wf(),
        final(p).same_input(old(p)),
        final(p).open@.len() == 0,
        single_root(final(p).events@),
        final(p).events@[0] == (Event::Start { kind: SyntaxKind::JS_SCRIPT }),
{
    let m = p.start();
    let directives = p.start();
    assert(p.open@ =~= seq![m.pos_view(), directives.pos_view()]);
    while at_directive(p)
        invariant
            p.wf(),
            p.same_input(old(p)),
            p.open@ == seq![m.pos_view(), directives.pos_view()],
            m.pos_view() == 0,
            directives.pos_view() == 1,
            m.start_tok_view() == 0,
            directives.start_tok_view() <= p.pos,
            p.events@[0] == (Event::Start { kind: SyntaxKind::TOMBSTONE }),
        decreases p.tokens@.len() - p.pos,
    {
        let d = p.start();
        p.bump(SyntaxKind::JS_STRING_LITERAL);
        p.eat(SyntaxKind::SEMICOLON);
        let _ = d.complete(p, SyntaxKind::JS_DIRECTIVE);
    }
    let _ = directives.complete(p, SyntaxKind::LIST);
    let statements = p.start();
    assert(p.open@ =~= seq![m.pos_view(), statements.pos_view()]);
    while !p.at(SyntaxKind::EOF)
        invariant
            p.wf(),
            p.same_input(old(p)),
            p.open@ == seq![m.pos_view(), statements.pos_view()],
            m.pos_view() == 0,
            statements.pos_view() > 0,
            m.start_tok_view() == 0,
            statements.start_tok_view() <= p.pos,
            p.events@[0] == (Event::Start { kind: SyntaxKind::TOMBSTONE }),
        decreases p.tokens@.len() - p.pos,
    {
        let _ = parse_statement(p);
    }
    let _ = statements.complete(p, SyntaxKind::LIST);
    proof {
        lemma_single_root(p.events@, SyntaxKind::JS_SCRIPT);
    }
    m.complete(p, SyntaxKind::JS_SCRIPT)
}

/// Parses a script. Every token becomes a leaf of the tree, in order, so
/// where the tokens cover the source one after another the text of the root
/// is the source exactly.
pub fn parse(source: Vec<u8>, raw: Vec<TokenData>) -> (r: Parse)
    requires
        ranges_ok(raw@, source@.len() as int),
        raw@.len() < usize::MAX,
    ensures
        r.tree.wf(),
        r.tree.source@ == source@,
        r.tree.nodes@[r.tree.root as int].kind == SyntaxKind::JS_SCRIPT,
        single_root(r.events@),
        r.diagnostics@ == errors_of(r.events@),
        r.tree.tokens@.len() == raw@.len(),
        forall|t: int|
            0 <= t < raw@.len() ==> (#[trigger] r.tree.tokens@[t]).start == raw@[t].start
                && r.tree.tokens@[t].end == raw@[t].end,
        r.tree.leaves(r.tree.root as int) == index_run(raw@.len() as int),
        tiles(raw@, source@.len() as int) ==> r.tree.text_of(r.tree.root as int) == source@,
{
    let raw_copy = raw.clone();
    let mut p = Parser::new(source, raw);
    let _ = parse_script(&mut p);
    let (tree, diagnostics) = build_tree(p.source, &raw_copy, &p.events);
    proof {
        lemma_lossless(&tree, raw_copy@);
    }
    Parse { tree, diagnostics, events: p.events }
}

/// The directives and the statements of a script are never mixed: the two
/// lists are the `LIST` children at two different positions, found by slot,
/// and no kind is both a directive's and a statement's.
pub proof fn lemma_script_lists_apart<'a>(
    script: JsScript<'a>,
    directives: Option<SyntaxNode<'a>>,
    statements: Option<SyntaxNode<'a>>,
    kind: SyntaxKind,
)
    requires
        list_field(script.syntax_view(), 0, directives),
        list_field(script.syntax_view(), 1, statements),
    ensures
        <JsDirective<'a> as AstNode<'a>>::kind_ok(kind) ==> !<JsAnyStatement<'a> as AstNode<'a>>::kind_ok(kind),
        directives is Some && statements is Some ==> crate::support::nth_child(
            script.syntax_view().children_view(),
            list_child(script.syntax_view().tree_view()),
            0,
        ) != crate::support::nth_child(
            script.syntax_view().children_view(),
            list_child(script.syntax_view().tree_view()),
            1,
        ),
{
    let node = script.syntax_view();
    let cs = node.children_view();
    let p = list_child(node.tree_view());
    if directives is Some && statements is Some {
        lemma_slots_distinct(cs, p, 0, 1);
    }
}

/// Losslessness: where the tokens tile the source and every token is a leaf
/// of the root, in order, the text of the root is the source.
pub proof fn lemma_lossless(tree: &SyntaxTree, raw: Seq<TokenData>)
    requires
        tree.wf(),
        tree.tokens@.len() == raw.len(),
        forall|t: int|
            0 <= t < raw.len() ==> (#[trigger] tree.tokens@[t]).start == raw[t].start
                && tree.tokens@[t].end == raw[t].end,
        tree.leaves(tree.root as int) == index_run(raw.len() as int),
    ensures
        tiles(raw, tree.source@.len() as int) ==> tree.text_of(tree.root as int) == tree.source@,
{
    if tiles(raw, tree.source@.len() as int) {
        let toks = tree.leaf_tokens(tree.root as int);
        assert(toks =~= tree.tokens@);
        assert(tiles(tree.tokens@, tree.source@.len() as int)) by {
            assert forall|t: int| 0 < t < tree.tokens@.len() implies #[trigger] tree.tokens@[t].start == tree.tokens@[t - 1].end by {
                assert(raw[t].start == raw[t - 1].end);
            }
            assert forall|t: int| 0 <= t < tree.tokens@.len() implies #[trigger] tree.tokens@[t].start <= tree.tokens@[t].end by {
                assert(raw[t].start <= raw[t].end);
            }
        }
        crate::tree::lemma_tiles_text(tree.source@, tree.tokens@, tree.source@.len() as int);
        assert(tree.source@.subrange(0, tree.source@.len() as int) =~= tree.source@);
    }
}

} // verus!
