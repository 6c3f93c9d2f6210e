use rslint_parser::ast::{
    JsAnyArrayAssignmentPatternElement, JsAnyAssignmentPattern, JsAnyExpression,
    JsAnyLiteralExpression, JsAnyStatement, JsArrayAssignmentPattern,
    JsArrayAssignmentPatternRestElement, JsAssignmentExpression, JsDirective,
    JsExpressionStatement, JsIdentifierAssignment, JsParenthesizedExpression, JsScript,
    JsStaticMemberAssignment, JsThisExpression,
};
use rslint_parser::event::{DiagnosticKind, Event};
use rslint_parser::kind::SyntaxKind;
use rslint_parser::parser::Parser;
use rslint_parser::script::{parse, parse_script, Parse};
use rslint_parser::support::AstNode;
use rslint_parser::syntax::{SyntaxElement, SyntaxNode};
use rslint_parser::tree::TokenData;
use rslint_parser::util::{check_label_use, get_precedence};

const PUNCT: &[(&str, SyntaxKind)] = &[
    ("...", SyntaxKind::DOT3),
    ("?.", SyntaxKind::QUESTIONDOT),
    ("??", SyntaxKind::QUESTION2),
    ("===", SyntaxKind::EQ3),
    ("==", SyntaxKind::EQ2),
    ("+=", SyntaxKind::PLUSEQ),
    ("-=", SyntaxKind::MINUSEQ),
    ("++", SyntaxKind::PLUS2),
    ("--", SyntaxKind::MINUS2),
    ("&&", SyntaxKind::AMP2),
    ("||", SyntaxKind::PIPE2),
    ("**", SyntaxKind::STAR2),
    ("(", SyntaxKind::L_PAREN),
    (")", SyntaxKind::R_PAREN),
    ("[", SyntaxKind::L_BRACK),
    ("]", SyntaxKind::R_BRACK),
    ("{", SyntaxKind::L_CURLY),
    ("}", SyntaxKind::R_CURLY),
    (".", SyntaxKind::DOT),
    (",", SyntaxKind::COMMA),
    (";", SyntaxKind::SEMICOLON),
    (":", SyntaxKind::COLON),
    ("?", SyntaxKind::QUESTION),
    ("=", SyntaxKind::EQ),
    ("+", SyntaxKind::PLUS),
    ("-", SyntaxKind::MINUS),
    ("*", SyntaxKind::STAR),
    ("/", SyntaxKind::SLASH),
    ("!", SyntaxKind::BANG),
    ("<", SyntaxKind::L_ANGLE),
    (">", SyntaxKind::R_ANGLE),
];

fn lex(src: &str) -> Vec<TokenData> {
    let b = src.as_bytes();
    let mut out = Vec::new();
    let mut i = 0;
    while i < b.len() {
        let start = i;
        let c = b[i];
        let kind = if c == b' ' || c == b'\n' || c == b'\t' {
            while i < b.len() && (b[i] == b' ' || b[i] == b'\n' || b[i] == b'\t') {
                i += 1;
            }
            SyntaxKind::WHITESPACE
        } else if c == b'/' && i + 1 < b.len() && b[i + 1] == b'/' {
            while i < b.len() && b[i] != b'\n' {
                i += 1;
            }
            SyntaxKind::COMMENT
        } else if c.is_ascii_alphabetic() || c == b'_' || c == b'$' {
            while i < b.len() && (b[i].is_ascii_alphanumeric() || b[i] == b'_' || b[i] == b'$') {
                i += 1;
            }
            match &src[start..i] {
                "this" => SyntaxKind::THIS_KW,
                "true" => SyntaxKind::TRUE_KW,
                "false" => SyntaxKind::FALSE_KW,
                "null" => SyntaxKind::NULL_KW,
                "typeof" => SyntaxKind::TYPEOF_KW,
                "await" => SyntaxKind::AWAIT_KW,
                "yield" => SyntaxKind::YIELD_KW,
                _ => SyntaxKind::IDENT,
            }
        } else if c.is_ascii_digit() {
            while i < b.len() && b[i].is_ascii_digit() {
                i += 1;
            }
            SyntaxKind::JS_NUMBER_LITERAL
        } else if c == b'"' || c == b'\'' {
            i += 1;
            while i < b.len() && b[i] != c {
                i += 1;
            }
            i += 1;
            SyntaxKind::JS_STRING_LITERAL
        } else {
            let mut found = SyntaxKind::ERROR_TOKEN;
            let mut len = 1;
            for (text, kind) in PUNCT {
                if src[i..].starts_with(text) {
                    found = *kind;
                    len = text.len();
                    break;
                }
            }
            i += len;
            found
        };
        out.push(TokenData { kind, start, end: i });
    }
    out
}

fn parse_str(src: &str) -> Parse {
    parse(src.as_bytes().to_vec(), lex(src))
}

fn all_nodes<'a>(node: SyntaxNode<'a>, out: &mut Vec<SyntaxNode<'a>>) {
    out.push(node);
    for i in 0..node.child_count() {
        if let SyntaxElement::Node(n) = node.child(i) {
            all_nodes(n, out);
        }
    }
}

fn nodes_of(parse: &Parse) -> Vec<SyntaxNode<'_>> {
    let mut out = Vec::new();
    all_nodes(parse.tree.root_node(), &mut out);
    out
}

fn count_kind(parse: &Parse, kind: SyntaxKind) -> usize {
    nodes_of(parse).iter().filter(|n| n.kind() == kind).count()
}

fn first_statement_expression<'a>(parse: &'a Parse) -> JsAnyExpression<'a> {
    let script = JsScript::cast(parse.tree.root_node()).unwrap();
    let statement = script.statements().get(0).unwrap();
    let statement = match statement {
        JsAnyStatement::JsExpressionStatement(s) => s,
        _ => panic!("not an expression statement"),
    };
    statement.expression().ok().unwrap()
}

fn text_of(src: &str, range: (usize, usize)) -> &str {
    &src[range.0..range.1]
}

#[test]
fn lossless_text_of_root() {
    let src = "a.b = c; // trailing\n  (x) += 1 ;\n";
    let parse = parse_str(src);
    assert_eq!(parse.tree.root_node().text(), src.as_bytes().to_vec());
    assert_eq!(parse.tree.root_node().kind(), SyntaxKind::JS_SCRIPT);
}

#[test]
fn lossless_on_broken_input() {
    let src = "(a +) = b;;; ] ) [ ...";
    let parse = parse_str(src);
    assert_eq!(parse.tree.root_node().text(), src.as_bytes().to_vec());
}

#[test]
fn lossless_empty_source() {
    let parse = parse_str("");
    assert_eq!(parse.tree.root_node().text(), Vec::<u8>::new());
    assert_eq!(parse.diagnostics.len(), 0);
}

#[test]
fn events_are_balanced() {
    let src = "a?.b = c; [x, ...y] = z; f(1, 2)";
    let mut p = Parser::new(src.as_bytes().to_vec(), lex(src));
    let _ = parse_script(&mut p);
    let mut depth: i64 = 0;
    let mut starts = 0;
    let mut finishes = 0;
    for ev in p.events.iter() {
        match ev {
            Event::Start { kind } if *kind != SyntaxKind::TOMBSTONE => {
                depth += 1;
                starts += 1;
            }
            Event::Finish => {
                depth -= 1;
                finishes += 1;
            }
            _ => {}
        }
        assert!(depth >= 0);
    }
    assert_eq!(depth, 0);
    assert_eq!(starts, finishes);
}

#[test]
fn checkpoint_rewind_restores_state() {
    let src = "a + b";
    let mut p = Parser::new(src.as_bytes().to_vec(), lex(src));
    let outer = p.start();
    let checkpoint = p.checkpoint();
    let m = p.start();
    p.bump(SyntaxKind::IDENT);
    let _ = m.complete(&mut p, SyntaxKind::JS_NAME);
    assert_eq!(p.token_pos(), 1);
    p.rewind(&checkpoint);
    assert_eq!(p.token_pos(), checkpoint.token_pos());
    assert_eq!(p.events.len(), checkpoint.event_pos());
    outer.abandon(&mut p);
    assert_eq!(p.events.len(), 0);
}

#[test]
fn static_member_assignment_target() {
    let src = "a.b = c";
    let parse = parse_str(src);
    assert_eq!(parse.diagnostics.len(), 0);
    let expr = first_statement_expression(&parse);
    let assignment = match expr {
        JsAnyExpression::JsAssignmentExpression(a) => a,
        _ => panic!("not an assignment"),
    };
    let left = assignment.left().ok().unwrap();
    assert_eq!(left.syntax().kind(), SyntaxKind::JS_STATIC_MEMBER_ASSIGNMENT);
    assert!(JsStaticMemberAssignment::cast(*left.syntax()).is_some());
    assert_eq!(count_kind(&parse, SyntaxKind::JS_STATIC_MEMBER_EXPRESSION), 0);
    let member = JsStaticMemberAssignment::cast(*left.syntax()).unwrap();
    let object = member.object().ok().unwrap();
    assert_eq!(object.syntax().kind(), SyntaxKind::JS_IDENTIFIER_EXPRESSION);
    assert_eq!(assignment.operator_token().ok().unwrap().kind(), SyntaxKind::EQ);
}

#[test]
fn identifier_assignment_drops_reference_identifier() {
    let src = "a = c";
    let parse = parse_str(src);
    assert_eq!(parse.diagnostics.len(), 0);
    let expr = first_statement_expression(&parse);
    let assignment = JsAssignmentExpression::cast(*expr.syntax()).unwrap();
    let left = assignment.left().ok().unwrap();
    let ident = match left {
        JsAnyAssignmentPattern::JsAnyAssignment(a) => {
            JsIdentifierAssignment::cast(*a.syntax()).unwrap()
        }
        _ => panic!("not an identifier assignment"),
    };
    let token = ident.name_token().ok().unwrap();
    assert_eq!(token.text(), b"a".to_vec());
    assert_eq!(ident.syntax().child_count(), 1);
    assert_eq!(count_kind(&parse, SyntaxKind::JS_REFERENCE_IDENTIFIER), 1);
}

#[test]
fn optional_chain_assignment_is_unknown() {
    let src = "a?.b = c";
    let parse = parse_str(src);
    let expr = first_statement_expression(&parse);
    let assignment = JsAssignmentExpression::cast(*expr.syntax()).unwrap();
    let left = assignment.left().ok().unwrap();
    assert_eq!(left.syntax().kind(), SyntaxKind::JS_UNKNOWN_ASSIGNMENT);
    assert_eq!(parse.diagnostics.len(), 1);
    let d = parse.diagnostics[0];
    assert_eq!(d.kind, DiagnosticKind::InvalidAssignment);
    assert_eq!(text_of(src, (d.start, d.end)), "a?.b");
}

#[test]
fn optional_computed_assignment_is_unknown() {
    let src = "a?.[\"b\"] = b;";
    let parse = parse_str(src);
    assert_eq!(parse.diagnostics.len(), 1);
    assert_eq!(text_of(src, (parse.diagnostics[0].start, parse.diagnostics[0].end)), "a?.[\"b\"]");
    assert_eq!(count_kind(&parse, SyntaxKind::JS_UNKNOWN_ASSIGNMENT), 1);
}

#[test]
fn malformed_target_makes_progress() {
    let src = "(a +) = b;";
    let parse = parse_str(src);
    assert_eq!(count_kind(&parse, SyntaxKind::JS_UNKNOWN_ASSIGNMENT), 1);
    let script = JsScript::cast(parse.tree.root_node()).unwrap();
    assert_eq!(script.statements().len(), 1);
    assert_eq!(parse.tree.root_node().text(), src.as_bytes().to_vec());
    let invalid: Vec<_> = parse
        .diagnostics
        .iter()
        .filter(|d| d.kind == DiagnosticKind::InvalidAssignment)
        .collect();
    assert_eq!(invalid.len(), 1);
    assert_eq!(text_of(src, (invalid[0].start, invalid[0].end)), "a +");
}

#[test]
fn update_expression_target_is_wrapped() {
    let src = "++a = b;";
    let parse = parse_str(src);
    assert_eq!(parse.diagnostics.len(), 1);
    assert_eq!(parse.diagnostics[0].kind, DiagnosticKind::InvalidAssignment);
    assert_eq!(text_of(src, (parse.diagnostics[0].start, parse.diagnostics[0].end)), "++a");
    assert_eq!(count_kind(&parse, SyntaxKind::JS_UNKNOWN_ASSIGNMENT), 1);
}

#[test]
fn parenthesized_target() {
    let src = "(((foo))) = bar;";
    let parse = parse_str(src);
    assert_eq!(parse.diagnostics.len(), 0);
    assert_eq!(count_kind(&parse, SyntaxKind::JS_PARENTHESIZED_ASSIGNMENT), 3);
    assert_eq!(count_kind(&parse, SyntaxKind::JS_IDENTIFIER_ASSIGNMENT), 1);
    assert_eq!(count_kind(&parse, SyntaxKind::JS_PARENTHESIZED_EXPRESSION), 0);
}

#[test]
fn rest_element_wraps_identifier_assignment() {
    let src = "([...abcd] = a)";
    let parse = parse_str(src);
    assert_eq!(parse.diagnostics.len(), 0);
    let nodes = nodes_of(&parse);
    let pattern = nodes
        .iter()
        .find_map(|n| JsArrayAssignmentPattern::cast(*n))
        .unwrap();
    let elements = pattern.elements();
    assert_eq!(elements.len(), 1);
    let rest = match elements.get(0).unwrap() {
        JsAnyArrayAssignmentPatternElement::JsArrayAssignmentPatternRestElement(r) => r,
        _ => panic!("not a rest element"),
    };
    let target = rest.pattern().ok().unwrap();
    assert_eq!(target.syntax().kind(), SyntaxKind::JS_IDENTIFIER_ASSIGNMENT);
    assert!(JsArrayAssignmentPatternRestElement::cast(*rest.syntax()).is_some());
}

#[test]
fn empty_rest_target_is_one_diagnostic() {
    let src = "([...] = a)";
    let parse = parse_str(src);
    assert_eq!(parse.diagnostics.len(), 1);
    assert_eq!(parse.diagnostics[0].kind, DiagnosticKind::ExpectedAssignmentTarget);
    assert_eq!(parse.tree.root_node().text(), src.as_bytes().to_vec());
    assert_eq!(count_kind(&parse, SyntaxKind::JS_ARRAY_ASSIGNMENT_PATTERN), 1);
}

#[test]
fn element_after_rest_is_one_diagnostic() {
    let src = "([...rest, other] = a)";
    let parse = parse_str(src);
    assert_eq!(parse.diagnostics.len(), 1);
    assert_eq!(parse.diagnostics[0].kind, DiagnosticKind::RestElementNotLast);
    assert_eq!(text_of(src, (parse.diagnostics[0].start, parse.diagnostics[0].end)), "...rest");
    assert_eq!(count_kind(&parse, SyntaxKind::JS_UNKNOWN_ASSIGNMENT), 1);
    assert_eq!(count_kind(&parse, SyntaxKind::JS_IDENTIFIER_ASSIGNMENT), 2);
}

#[test]
fn rest_with_default_is_reported() {
    let src = "([...c = \"default\"] = a);";
    let parse = parse_str(src);
    assert_eq!(parse.diagnostics.len(), 1);
    assert_eq!(parse.diagnostics[0].kind, DiagnosticKind::RestElementWithDefault);
}

#[test]
fn array_pattern_with_default_and_hole() {
    let src = "[a = 1, , b] = c;";
    let parse = parse_str(src);
    assert_eq!(parse.diagnostics.len(), 0);
    assert_eq!(count_kind(&parse, SyntaxKind::JS_ASSIGNMENT_WITH_DEFAULT), 1);
    assert_eq!(count_kind(&parse, SyntaxKind::JS_ARRAY_HOLE), 1);
    assert_eq!(count_kind(&parse, SyntaxKind::JS_ARRAY_EXPRESSION), 0);
}

#[test]
fn list_slots_keep_directives_and_statements_apart() {
    for src in ["\"use strict\"; a; b;", "'x'; 'y'; c = 1;", "d;"] {
        let parse = parse_str(src);
        let script = JsScript::cast(parse.tree.root_node()).unwrap();
        let directives = script.directives();
        for i in 0..directives.len() {
            let d = directives.get(i).unwrap();
            assert_eq!(d.syntax().kind(), SyntaxKind::JS_DIRECTIVE);
            assert!(JsAnyStatement::cast(*d.syntax()).is_none());
        }
        let statements = script.statements();
        for i in 0..statements.len() {
            let s = statements.get(i).unwrap();
            assert!(JsDirective::cast(*s.syntax()).is_none());
        }
        assert_eq!(directives.len() + statements.len(), src.matches(';').count());
    }
    let parse = parse_str("\"use strict\"; a; b;");
    let script = JsScript::cast(parse.tree.root_node()).unwrap();
    assert_eq!(script.directives().len(), 1);
    assert_eq!(script.statements().len(), 2);
}

#[test]
fn cast_matches_can_cast_on_every_node() {
    let parse = parse_str("a.b = c; [x, ...y] = [1, 2]; f(this, \"s\", true) ? 1 : null;");
    for node in nodes_of(&parse) {
        let kind = node.kind();
        assert_eq!(JsAnyExpression::cast(node).is_some(), JsAnyExpression::can_cast(kind));
        assert_eq!(JsAnyStatement::cast(node).is_some(), JsAnyStatement::can_cast(kind));
        if let Some(e) = JsAnyExpression::cast(node) {
            assert_eq!(e.syntax().kind(), kind);
            assert!(JsAnyExpression::can_cast(e.syntax().kind()));
        }
        if JsAnyLiteralExpression::can_cast(kind) {
            assert!(JsAnyExpression::can_cast(kind));
            assert!(matches!(
                JsAnyExpression::cast(node),
                Some(JsAnyExpression::JsAnyLiteralExpression(_))
            ));
        }
    }
}

#[test]
fn union_can_cast_is_disjunction_of_variants() {
    let kinds = [
        SyntaxKind::JS_NUMBER_LITERAL_EXPRESSION,
        SyntaxKind::JS_STRING_LITERAL_EXPRESSION,
        SyntaxKind::JS_THIS_EXPRESSION,
        SyntaxKind::JS_IDENTIFIER_ASSIGNMENT,
        SyntaxKind::JS_SCRIPT,
        SyntaxKind::IDENT,
    ];
    for k in kinds {
        let direct = k == SyntaxKind::JS_THIS_EXPRESSION;
        assert_eq!(
            JsAnyExpression::can_cast(k),
            direct || JsAnyLiteralExpression::can_cast(k)
        );
    }
    assert!(!JsAnyExpression::can_cast(SyntaxKind::JS_IDENTIFIER_ASSIGNMENT));
    assert!(JsAnyLiteralExpression::can_cast(SyntaxKind::JS_NUMBER_LITERAL_EXPRESSION));
}

#[test]
fn union_from_variant() {
    let parse = parse_str("this;");
    let node = nodes_of(&parse)
        .into_iter()
        .find(|n| n.kind() == SyntaxKind::JS_THIS_EXPRESSION)
        .unwrap();
    let this = JsThisExpression::cast(node).unwrap();
    let any: JsAnyExpression = this.into();
    assert!(matches!(any, JsAnyExpression::JsThisExpression(_)));
    assert_eq!(any.syntax().kind(), SyntaxKind::JS_THIS_EXPRESSION);
}

#[test]
fn typed_accessors_read_fields() {
    let parse = parse_str("(x);");
    let script = JsScript::cast(parse.tree.root_node()).unwrap();
    let statement = script.statements().get(0).unwrap();
    let statement = JsExpressionStatement::cast(*statement.syntax()).unwrap();
    assert!(statement.semicolon_token().is_some());
    let paren = JsParenthesizedExpression::cast(*statement.expression().ok().unwrap().syntax()).unwrap();
    assert_eq!(paren.l_paren_token().ok().unwrap().kind(), SyntaxKind::L_PAREN);
    assert_eq!(paren.r_paren_token().ok().unwrap().kind(), SyntaxKind::R_PAREN);
    assert!(script.interpreter_token().is_none());
    let parse = parse_str("(x)");
    let script = JsScript::cast(parse.tree.root_node()).unwrap();
    let statement = script.statements().get(0).unwrap();
    let statement = JsExpressionStatement::cast(*statement.syntax()).unwrap();
    assert!(statement.semicolon_token().is_none());
}

#[test]
fn missing_required_child_is_an_error() {
    let parse = parse_str("(x");
    assert_eq!(parse.diagnostics.len(), 1);
    assert_eq!(parse.diagnostics[0].kind, DiagnosticKind::ExpectedToken(SyntaxKind::R_PAREN));
    let node = nodes_of(&parse)
        .into_iter()
        .find(|n| n.kind() == SyntaxKind::JS_PARENTHESIZED_EXPRESSION)
        .unwrap();
    let paren = JsParenthesizedExpression::cast(node).unwrap();
    assert!(paren.r_paren_token().is_err());
    assert!(paren.expression().is_ok());
}

#[test]
fn binary_precedence_shapes_tree() {
    let parse = parse_str("a + b * c || d");
    assert_eq!(parse.diagnostics.len(), 0);
    assert_eq!(count_kind(&parse, SyntaxKind::JS_BINARY_EXPRESSION), 2);
    assert_eq!(count_kind(&parse, SyntaxKind::JS_LOGICAL_EXPRESSION), 1);
    let expr = first_statement_expression(&parse);
    assert_eq!(expr.syntax().kind(), SyntaxKind::JS_LOGICAL_EXPRESSION);
}

#[test]
fn precedence_values() {
    assert_eq!(get_precedence(SyntaxKind::PIPE2), Some(1));
    assert_eq!(get_precedence(SyntaxKind::QUESTION2), Some(1));
    assert_eq!(get_precedence(SyntaxKind::AMP2), Some(2));
    assert_eq!(get_precedence(SyntaxKind::PIPE), Some(3));
    assert_eq!(get_precedence(SyntaxKind::CARET), Some(4));
    assert_eq!(get_precedence(SyntaxKind::AMP), Some(5));
    assert_eq!(get_precedence(SyntaxKind::EQ3), Some(6));
    assert_eq!(get_precedence(SyntaxKind::LTEQ), Some(7));
    assert_eq!(get_precedence(SyntaxKind::USHR), Some(8));
    assert_eq!(get_precedence(SyntaxKind::MINUS), Some(9));
    assert_eq!(get_precedence(SyntaxKind::SLASH), Some(10));
    assert_eq!(get_precedence(SyntaxKind::STAR2), Some(11));
    assert_eq!(get_precedence(SyntaxKind::EQ), None);
    assert_eq!(get_precedence(SyntaxKind::IDENT), None);
}

#[test]
fn undefined_label_is_reported() {
    let src = "foo bar";
    let tokens = lex(src);
    let mut p = Parser::new(src.as_bytes().to_vec(), tokens.clone());
    p.labels.push((0, 3));
    check_label_use(&mut p, &tokens[0]);
    assert_eq!(p.events.len(), 0);
    check_label_use(&mut p, &tokens[2]);
    assert_eq!(p.events.len(), 1);
    match p.events[0] {
        Event::Error { diagnostic } => {
            assert_eq!(diagnostic.kind, DiagnosticKind::UndefinedLabel);
            assert_eq!((diagnostic.start, diagnostic.end), (4, 7));
        }
        _ => panic!("no diagnostic"),
    }
}

#[test]
fn compound_assignment_and_update() {
    let src = "a.foo -= bar; count++; --x;";
    let parse = parse_str(src);
    assert_eq!(parse.diagnostics.len(), 0);
    assert_eq!(count_kind(&parse, SyntaxKind::JS_STATIC_MEMBER_ASSIGNMENT), 1);
    assert_eq!(count_kind(&parse, SyntaxKind::JS_POST_UPDATE_EXPRESSION), 1);
    assert_eq!(count_kind(&parse, SyntaxKind::JS_PRE_UPDATE_EXPRESSION), 1);
    assert_eq!(count_kind(&parse, SyntaxKind::JS_IDENTIFIER_ASSIGNMENT), 2);
}

#[test]
fn object_assignment_targets() {
    for src in [
        "({} = {});",
        "({ bar, baz } = {});",
        "({ bar: [baz = \"baz\"], foo = \"foo\", ...rest } = {});",
        "({x: y.test().z}= {});",
    ] {
        let parse = parse_str(src);
        assert_eq!(parse.diagnostics.len(), 0, "{}", src);
        assert_eq!(count_kind(&parse, SyntaxKind::JS_OBJECT_ASSIGNMENT_PATTERN), 1);
        assert_eq!(parse.tree.root_node().text(), src.as_bytes().to_vec());
    }
    let parse = parse_str("({ bar: [baz = \"baz\"], foo = \"foo\", ...rest } = {});");
    assert_eq!(count_kind(&parse, SyntaxKind::JS_OBJECT_ASSIGNMENT_PATTERN_PROPERTY), 1);
    assert_eq!(count_kind(&parse, SyntaxKind::JS_OBJECT_ASSIGNMENT_PATTERN_SHORTHAND_PROPERTY), 1);
    assert_eq!(count_kind(&parse, SyntaxKind::JS_OBJECT_ASSIGNMENT_PATTERN_REST), 1);
    assert_eq!(count_kind(&parse, SyntaxKind::JS_EQUAL_VALUE_CLAUSE), 1);
    assert_eq!(count_kind(&parse, SyntaxKind::JS_ASSIGNMENT_WITH_DEFAULT), 1);
}

#[test]
fn pattern_in_rest_property_is_reported() {
    let src = "({ ...{a} } = b);";
    let parse = parse_str(src);
    assert_eq!(parse.diagnostics.len(), 1);
    assert_eq!(parse.diagnostics[0].kind, DiagnosticKind::PatternInRestProperty);
    assert_eq!(text_of(src, (parse.diagnostics[0].start, parse.diagnostics[0].end)), "{a}");
    assert_eq!(count_kind(&parse, SyntaxKind::JS_UNKNOWN_ASSIGNMENT), 1);
}

#[test]
fn property_after_rest_is_reported_in_place() {
    let src = "({ ...rest, other_assignment } = a);";
    let parse = parse_str(src);
    assert_eq!(parse.diagnostics.len(), 1);
    assert_eq!(parse.diagnostics[0].kind, DiagnosticKind::RestElementNotLast);
    assert_eq!(text_of(src, (parse.diagnostics[0].start, parse.diagnostics[0].end)), "...rest");
    assert_eq!(count_kind(&parse, SyntaxKind::JS_OBJECT_ASSIGNMENT_PATTERN_SHORTHAND_PROPERTY), 1);
}

#[test]
fn object_literal_members() {
    let parse = parse_str("x = { a: 1, b, ...c };");
    assert_eq!(parse.diagnostics.len(), 0);
    assert_eq!(count_kind(&parse, SyntaxKind::JS_OBJECT_EXPRESSION), 1);
    assert_eq!(count_kind(&parse, SyntaxKind::JS_PROPERTY_OBJECT_MEMBER), 1);
    assert_eq!(count_kind(&parse, SyntaxKind::JS_SHORTHAND_PROPERTY_OBJECT_MEMBER), 1);
    assert_eq!(count_kind(&parse, SyntaxKind::JS_SPREAD), 1);
}

#[test]
fn keyword_is_remapped_or_reported() {
    let src = "of x";
    let tokens = lex(src);
    let mut p = Parser::new(src.as_bytes().to_vec(), tokens);
    rslint_parser::util::expect_keyword(&mut p, b"of", SyntaxKind::OF_KW);
    assert_eq!(p.token_pos(), 1);
    assert_eq!(p.events[0], Event::Token { kind: SyntaxKind::OF_KW });
    rslint_parser::util::expect_keyword(&mut p, b"of", SyntaxKind::OF_KW);
    assert_eq!(p.token_pos(), 1);
    match p.events[1] {
        Event::Error { diagnostic } => {
            assert_eq!(diagnostic.kind, DiagnosticKind::ExpectedToken(SyntaxKind::OF_KW));
            assert_eq!((diagnostic.start, diagnostic.end), (3, 4));
        }
        _ => panic!("no diagnostic"),
    }
}

fn declaration_tree(src: &str) -> rslint_parser::tree::SyntaxTree {
    let tokens = lex(src);
    let mut p = Parser::new(src.as_bytes().to_vec(), tokens.clone());
    let root = p.start();
    let list = p.start();
    loop {
        let d = p.start();
        p.bump(SyntaxKind::IDENT);
        let _ = d.complete(&mut p, SyntaxKind::JS_VARIABLE_DECLARATOR);
        if !p.eat(SyntaxKind::COMMA) {
            break;
        }
    }
    let _ = list.complete(&mut p, SyntaxKind::LIST);
    let _ = root.complete(&mut p, SyntaxKind::JS_VARIABLE_DECLARATION);
    let (tree, diagnostics) =
        rslint_parser::builder::build_tree(src.as_bytes().to_vec(), &tokens, &p.events);
    assert!(diagnostics.is_empty());
    tree
}

#[test]
fn for_declaration_with_several_declarators() {
    let tree = declaration_tree("a,b,c");
    let declaration =
        rslint_parser::ast::JsVariableDeclaration::cast(tree.root_node()).unwrap();
    assert_eq!(declaration.declarators().len(), 3);
    assert_eq!(declaration.declarators().separator_count(), 2);
    let d = rslint_parser::util::check_for_stmt_declaration(&declaration).unwrap();
    assert_eq!(d.kind, DiagnosticKind::ForDeclarationNotSingle);
    assert_eq!((d.start, d.end), (2, 5));
    let tree = declaration_tree("a, b,  c ");
    let declaration =
        rslint_parser::ast::JsVariableDeclaration::cast(tree.root_node()).unwrap();
    let d = rslint_parser::util::check_for_stmt_declaration(&declaration).unwrap();
    assert_eq!((d.start, d.end), (3, 8));
}

#[test]
fn for_declaration_with_one_declarator() {
    let tree = declaration_tree("a");
    let declaration =
        rslint_parser::ast::JsVariableDeclaration::cast(tree.root_node()).unwrap();
    assert_eq!(declaration.declarators().len(), 1);
    assert!(rslint_parser::util::check_for_stmt_declaration(&declaration).is_none());
}

#[test]
fn node_text_range() {
    let src = "foo.bar";
    let parse = parse_str(src);
    assert_eq!(parse.tree.root_node().text_range(), Some((0, 7)));
    let name = nodes_of(&parse)
        .into_iter()
        .find(|n| n.kind() == SyntaxKind::JS_NAME)
        .unwrap();
    assert_eq!(name.text_range(), Some((4, 7)));
    let empty = parse_str("");
    assert_eq!(empty.tree.root_node().text_range(), None);
    let padded = parse_str("  foo.bar // x\n");
    assert_eq!(padded.tree.root_node().text_range(), Some((2, 9)));
}

#[test]
fn await_and_yield_name_properties() {
    let src = "({ await, yield: y } = x);";
    let parse = parse_str(src);
    assert_eq!(parse.diagnostics.len(), 0);
    assert_eq!(count_kind(&parse, SyntaxKind::JS_OBJECT_ASSIGNMENT_PATTERN_SHORTHAND_PROPERTY), 1);
    assert_eq!(count_kind(&parse, SyntaxKind::JS_OBJECT_ASSIGNMENT_PATTERN_PROPERTY), 1);
    assert_eq!(count_kind(&parse, SyntaxKind::JS_IDENTIFIER_ASSIGNMENT), 2);
    assert_eq!(parse.tree.root_node().text(), src.as_bytes().to_vec());
}

#[test]
fn parse_keeps_its_event_buffer() {
    let parse = parse_str("a?.b = c;");
    let errors = parse
        .events
        .iter()
        .filter(|e| matches!(e, Event::Error { .. }))
        .count();
    assert_eq!(errors, parse.diagnostics.len());
    assert_eq!(parse.events[0], Event::Start { kind: SyntaxKind::JS_SCRIPT });
    assert_eq!(*parse.events.last().unwrap(), Event::Finish);
}
