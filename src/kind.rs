//! The closed set of token and node kinds.

use vstd::prelude::*;

verus! {

/// The tag of every token and node of the tree, compared constantly and
/// copied freely.
#[allow(non_camel_case_types)]
#[derive(Clone, Copy, Debug, PartialEq, Eq, Hash, Structural)]
pub enum SyntaxKind {
    /// An abandoned node start: it opens nothing and is skipped when the tree
    /// is built.
    TOMBSTONE,
    /// The end of the input.
    EOF,
    WHITESPACE,
    COMMENT,
    ERROR_TOKEN,
    L_PAREN,
    R_PAREN,
    L_CURLY,
    R_CURLY,
    L_BRACK,
    R_BRACK,
    BACKTICK,
    BANG,
    NEQ,
    NEQ2,
    HASH,
    PERCENT,
    PERCENTEQ,
    AMP,
    AMP2,
    AMP2EQ,
    AMPEQ,
    STAR,
    STAR2,
    STAR2EQ,
    STAREQ,
    PLUS,
    PLUS2,
    PLUSEQ,
    COMMA,
    MINUS,
    MINUS2,
    MINUSEQ,
    DOT,
    DOT3,
    SLASH,
    SLASHEQ,
    COLON,
    SEMICOLON,
    L_ANGLE,
    SHL,
    SHLEQ,
    LTEQ,
    EQ,
    EQ2,
    EQ3,
    FAT_ARROW,
    R_ANGLE,
    GTEQ,
    SHR,
    SHREQ,
    USHR,
    USHREQ,
    QUESTION,
    QUESTIONDOT,
    QUESTION2,
    QUESTION2EQ,
    CARET,
    CARETEQ,
    PIPE,
    PIPEEQ,
    PIPE2,
    PIPE2EQ,
    TILDE,
    ABSTRACT_KW,
    ANY_KW,
    ASSERT_KW,
    ASYNC_KW,
    AS_KW,
    AWAIT_KW,
    BREAK_KW,
    CASE_KW,
    CATCH_KW,
    CLASS_KW,
    CONST_KW,
    CONTINUE_KW,
    DEBUGGER_KW,
    DECLARE_KW,
    DEFAULT_KW,
    DELETE_KW,
    DO_KW,
    ELSE_KW,
    ENUM_KW,
    EXPORT_KW,
    EXTENDS_KW,
    FALSE_KW,
    FINALLY_KW,
    FOR_KW,
    FROM_KW,
    FUNCTION_KW,
    GET_KW,
    GLOBAL_KW,
    IF_KW,
    IMPLEMENTS_KW,
    IMPORT_KW,
    INFER_KW,
    INSTANCEOF_KW,
    INTERFACE_KW,
    IN_KW,
    LET_KW,
    MODULE_KW,
    NAMESPACE_KW,
    NEVER_KW,
    NEW_KW,
    NULL_KW,
    OF_KW,
    PRIVATE_KW,
    READONLY_KW,
    REQUIRE_KW,
    RETURN_KW,
    SET_KW,
    STATIC_KW,
    SUPER_KW,
    SWITCH_KW,
    TARGET_KW,
    THIS_KW,
    THROW_KW,
    TRUE_KW,
    TRY_KW,
    TYPEOF_KW,
    TYPE_KW,
    UNDEFINED_KW,
    UNKNOWN_KW,
    VAR_KW,
    VOID_KW,
    WHILE_KW,
    WITH_KW,
    YIELD_KW,
    IDENT,
    JS_STRING_LITERAL,
    JS_NUMBER_LITERAL,
    JS_BIG_INT_LITERAL,
    JS_REGEX_LITERAL,
    JS_SHEBANG,
    /// A node that holds the items of a list field of its parent.
    LIST,
    JS_UNKNOWN_STATEMENT,
    JS_UNKNOWN_EXPRESSION,
    JS_UNKNOWN_MEMBER,
    JS_UNKNOWN_BINDING,
    JS_UNKNOWN_ASSIGNMENT,
    JS_UNKNOWN_MODIFIER,
    JS_UNKNOWN_IMPORT_ASSERTION_ENTRY,
    JS_UNKNOWN_NAMED_IMPORT_SPECIFIER,
    JS_SCRIPT,
    JS_MODULE,
    JS_DIRECTIVE,
    JS_BLOCK_STATEMENT,
    JS_EMPTY_STATEMENT,
    JS_EXPRESSION_STATEMENT,
    JS_IF_STATEMENT,
    JS_DO_WHILE_STATEMENT,
    JS_WHILE_STATEMENT,
    FOR_STMT,
    FOR_IN_STMT,
    FOR_OF_STMT,
    JS_CONTINUE_STATEMENT,
    JS_BREAK_STATEMENT,
    JS_RETURN_STATEMENT,
    JS_WITH_STATEMENT,
    JS_LABELED_STATEMENT,
    JS_SWITCH_STATEMENT,
    JS_THROW_STATEMENT,
    JS_TRY_STATEMENT,
    JS_TRY_FINALLY_STATEMENT,
    JS_DEBUGGER_STATEMENT,
    JS_FUNCTION_DECLARATION,
    JS_CLASS_DECLARATION,
    JS_VARIABLE_DECLARATION_STATEMENT,
    TS_ENUM,
    TS_TYPE_ALIAS_DECL,
    TS_NAMESPACE_DECL,
    TS_MODULE_DECL,
    TS_INTERFACE_DECL,
    JS_ELSE_CLAUSE,
    FOR_STMT_INIT,
    FOR_STMT_TEST,
    FOR_STMT_UPDATE,
    JS_VARIABLE_DECLARATION,
    JS_CASE_CLAUSE,
    JS_DEFAULT_CLAUSE,
    JS_CATCH_CLAUSE,
    JS_FINALLY_CLAUSE,
    JS_CATCH_DECLARATION,
    JS_ARRAY_EXPRESSION,
    JS_ARROW_FUNCTION_EXPRESSION,
    JS_ASSIGNMENT_EXPRESSION,
    JS_AWAIT_EXPRESSION,
    JS_BINARY_EXPRESSION,
    JS_CLASS_EXPRESSION,
    JS_CONDITIONAL_EXPRESSION,
    JS_COMPUTED_MEMBER_EXPRESSION,
    JS_FUNCTION_EXPRESSION,
    JS_IMPORT_CALL_EXPRESSION,
    JS_LOGICAL_EXPRESSION,
    JS_OBJECT_EXPRESSION,
    JS_PARENTHESIZED_EXPRESSION,
    JS_IDENTIFIER_EXPRESSION,
    JS_SEQUENCE_EXPRESSION,
    JS_STATIC_MEMBER_EXPRESSION,
    JS_SUPER_EXPRESSION,
    JS_THIS_EXPRESSION,
    JS_UNARY_EXPRESSION,
    JS_PRE_UPDATE_EXPRESSION,
    JS_POST_UPDATE_EXPRESSION,
    JS_YIELD_EXPRESSION,
    TEMPLATE,
    NEW_EXPR,
    CALL_EXPR,
    NEW_TARGET,
    IMPORT_META,
    TS_NON_NULL,
    TS_ASSERTION,
    TS_CONST_ASSERTION,
    TS_TYPE_ARGS,
    ARG_LIST,
    TS_TYPE_PARAMS,
    JS_PARAMETER_LIST,
    TS_TYPE_ANNOTATION,
    JS_FUNCTION_BODY,
    JS_SPREAD,
    JS_ARRAY_HOLE,
    JS_REFERENCE_IDENTIFIER,
    JS_LITERAL_MEMBER_NAME,
    JS_COMPUTED_MEMBER_NAME,
    JS_PROPERTY_OBJECT_MEMBER,
    JS_METHOD_OBJECT_MEMBER,
    JS_GETTER_OBJECT_MEMBER,
    JS_SETTER_OBJECT_MEMBER,
    JS_SHORTHAND_PROPERTY_OBJECT_MEMBER,
    TS_IMPLEMENTS_CLAUSE,
    JS_EXTENDS_CLAUSE,
    TS_EXPR_WITH_TYPE_ARGS,
    JS_PRIVATE_CLASS_MEMBER_NAME,
    JS_CONSTRUCTOR_CLASS_MEMBER,
    JS_PROPERTY_CLASS_MEMBER,
    JS_METHOD_CLASS_MEMBER,
    JS_GETTER_CLASS_MEMBER,
    JS_SETTER_CLASS_MEMBER,
    JS_EMPTY_CLASS_MEMBER,
    TS_INDEX_SIGNATURE,
    TS_ACCESSIBILITY,
    JS_CONSTRUCTOR_PARAMETER_LIST,
    TS_CONSTRUCTOR_PARAM,
    JS_BINDING_PATTERN_WITH_DEFAULT,
    JS_EQUAL_VALUE_CLAUSE,
    JS_MODIFIER,
    JS_IDENTIFIER_ASSIGNMENT,
    JS_STATIC_MEMBER_ASSIGNMENT,
    JS_COMPUTED_MEMBER_ASSIGNMENT,
    JS_PARENTHESIZED_ASSIGNMENT,
    JS_ASSIGNMENT_WITH_DEFAULT,
    JS_ARRAY_ASSIGNMENT_PATTERN,
    JS_OBJECT_ASSIGNMENT_PATTERN,
    JS_ARRAY_ASSIGNMENT_PATTERN_REST_ELEMENT,
    JS_OBJECT_ASSIGNMENT_PATTERN_SHORTHAND_PROPERTY,
    JS_OBJECT_ASSIGNMENT_PATTERN_PROPERTY,
    JS_OBJECT_ASSIGNMENT_PATTERN_REST,
    JS_NAME,
    JS_IDENTIFIER_BINDING,
    JS_ARRAY_BINDING_PATTERN,
    JS_OBJECT_BINDING_PATTERN,
    JS_ARRAY_BINDING_PATTERN_REST_ELEMENT,
    JS_OBJECT_BINDING_PATTERN_PROPERTY,
    JS_OBJECT_BINDING_PATTERN_REST,
    JS_OBJECT_BINDING_PATTERN_SHORTHAND_PROPERTY,
    JS_STRING_LITERAL_EXPRESSION,
    JS_NUMBER_LITERAL_EXPRESSION,
    JS_BIG_INT_LITERAL_EXPRESSION,
    JS_BOOLEAN_LITERAL_EXPRESSION,
    JS_NULL_LITERAL_EXPRESSION,
    JS_REGEX_LITERAL_EXPRESSION,
    JS_VARIABLE_DECLARATOR,
    JS_IMPORT,
    EXPORT_NAMED,
    EXPORT_DEFAULT_DECL,
    EXPORT_DEFAULT_EXPR,
    EXPORT_WILDCARD,
    EXPORT_DECL,
    TS_IMPORT_EQUALS_DECL,
    TS_EXPORT_ASSIGNMENT,
    TS_NAMESPACE_EXPORT_DECL,
    JS_IMPORT_BARE_CLAUSE,
    JS_IMPORT_NAMED_CLAUSE,
    JS_IMPORT_DEFAULT_CLAUSE,
    JS_IMPORT_NAMESPACE_CLAUSE,
    JS_MODULE_SOURCE,
    JS_IMPORT_ASSERTION,
    JS_DEFAULT_IMPORT_SPECIFIER,
    JS_NAMED_IMPORT_SPECIFIER_LIST,
    JS_NAMESPACE_IMPORT_SPECIFIER,
    JS_SHORTHAND_NAMED_IMPORT_SPECIFIER,
    JS_NAMED_IMPORT_SPECIFIER,
    JS_LITERAL_EXPORT_NAME,
    JS_IMPORT_ASSERTION_ENTRY,
    SPECIFIER,
    JS_PRIVATE_NAME,
    JS_REST_PARAMETER,
    TS_EXTERNAL_MODULE_REF,
    TS_ANY,
    TS_UNKNOWN,
    TS_NUMBER,
    TS_OBJECT,
    TS_BOOLEAN,
    TS_BIGINT,
    TS_STRING,
    TS_SYMBOL,
    TS_VOID,
    TS_UNDEFINED,
    TS_NULL,
    TS_NEVER,
    TS_THIS,
    TS_LITERAL,
    TS_PREDICATE,
    TS_TUPLE,
    TS_PAREN,
    TS_TYPE_REF,
    TS_TEMPLATE,
    TS_MAPPED_TYPE,
    TS_IMPORT,
    TS_ARRAY,
    TS_INDEXED_ARRAY,
    TS_TYPE_OPERATOR,
    TS_INTERSECTION,
    TS_UNION,
    TS_FN_TYPE,
    TS_CONSTRUCTOR_TYPE,
    TS_CONDITIONAL_TYPE,
    TS_OBJECT_TYPE,
    TS_INFER,
    TS_TUPLE_ELEMENT,
    TS_ENUM_MEMBER,
    TS_TEMPLATE_ELEMENT,
    TS_MAPPED_TYPE_READONLY,
    TS_MAPPED_TYPE_PARAM,
    TS_TYPE_NAME,
    TS_EXTENDS,
    TS_MODULE_BLOCK,
    TS_TYPE_PARAM,
    TS_CONSTRAINT,
    TS_DEFAULT,
    TS_CALL_SIGNATURE_DECL,
    TS_CONSTRUCT_SIGNATURE_DECL,
    TS_PROPERTY_SIGNATURE,
    TS_METHOD_SIGNATURE,
    TS_QUALIFIED_PATH,
}

impl SyntaxKind {
    /// Whitespace and comments: kept in the tree, never seen by the grammar.
    pub open spec fn spec_is_trivia(self) -> bool {
        self == SyntaxKind::WHITESPACE || self == SyntaxKind::COMMENT
    }

    #[verifier::when_used_as_spec(spec_is_trivia)]
    pub fn is_trivia(self) -> (r: bool)
        ensures
            r == self.spec_is_trivia(),
    {
        self == SyntaxKind::WHITESPACE || self == SyntaxKind::COMMENT
    }
}

} // verus!
