//! The typed nodes: one type for each node of the grammar, and one union type
//! for each choice between them. Each reads its fields through `support`.

use vstd::prelude::*;
use crate::kind::SyntaxKind;
use crate::support::{
    self, list_field, node_field, required_node_field, required_token_field, token_field, AstNode,
    AstNodeList, AstSeparatedList, SyntaxResult,
};
use crate::syntax::{SyntaxElement, SyntaxNode, SyntaxToken};

verus! {

/// A node of kind `JS_UNKNOWN_STATEMENT`.
#[derive(Clone, Copy, Debug)]
pub struct JsUnknownStatement<'a> {
    syntax: SyntaxNode<'a>,
}

impl<'a> JsUnknownStatement<'a> {
    #[verifier::type_invariant]
    spec fn inv(self) -> bool {
        self.syntax.kind_view() == SyntaxKind::JS_UNKNOWN_STATEMENT
    }

    pub fn items(&self) -> (r: Vec<SyntaxElement<'a>>)
        ensures
            r@.len() == self.syntax_view().children_view().len(),
            forall|j: int|
                0 <= j < r@.len() ==> (#[trigger] r@[j]).child_ref() == self.syntax_view().children_view()[j]
                    && r@[j].tree_view() == self.syntax_view().tree_view(),
    {
        support::elements(&self.syntax)
    }
}

impl<'a> AstNode<'a> for JsUnknownStatement<'a> {
    open spec fn kind_ok(kind: SyntaxKind) -> bool {
        kind == SyntaxKind::JS_UNKNOWN_STATEMENT
    }

    closed spec fn syntax_view(&self) -> SyntaxNode<'a> {
        self.syntax
    }

    fn can_cast(kind: SyntaxKind) -> (r: bool) {
        kind == SyntaxKind::JS_UNKNOWN_STATEMENT
    }

    fn cast(syntax: SyntaxNode<'a>) -> (r: Option<Self>) {
        if syntax.kind() == SyntaxKind::JS_UNKNOWN_STATEMENT {
            Some(JsUnknownStatement { syntax })
        } else {
            None
        }
    }

    fn syntax(&self) -> (r: &SyntaxNode<'a>) {
        proof {
            use_type_invariant(self);
        }
        &self.syntax
    }
}

/// A node of kind `JS_UNKNOWN_EXPRESSION`.
#[derive(Clone, Copy, Debug)]
pub struct JsUnknownExpression<'a> {
    syntax: SyntaxNode<'a>,
}

impl<'a> JsUnknownExpression<'a> {
    #[verifier::type_invariant]
    spec fn inv(self) -> bool {
        self.syntax.kind_view() == SyntaxKind::JS_UNKNOWN_EXPRESSION
    }

    pub fn items(&self) -> (r: Vec<SyntaxElement<'a>>)
        ensures
            r@.len() == self.syntax_view().children_view().len(),
            forall|j: int|
                0 <= j < r@.len() ==> (#[trigger] r@[j]).child_ref() == self.syntax_view().children_view()[j]
                    && r@[j].tree_view() == self.syntax_view().tree_view(),
    {
        support::elements(&self.syntax)
    }
}

impl<'a> AstNode<'a> for JsUnknownExpression<'a> {
    open spec fn kind_ok(kind: SyntaxKind) -> bool {
        kind == SyntaxKind::JS_UNKNOWN_EXPRESSION
    }

    closed spec fn syntax_view(&self) -> SyntaxNode<'a> {
        self.syntax
    }

    fn can_cast(kind: SyntaxKind) -> (r: bool) {
        kind == SyntaxKind::JS_UNKNOWN_EXPRESSION
    }

    fn cast(syntax: SyntaxNode<'a>) -> (r: Option<Self>) {
        if syntax.kind() == SyntaxKind::JS_UNKNOWN_EXPRESSION {
            Some(JsUnknownExpression { syntax })
        } else {
            None
        }
    }

    fn syntax(&self) -> (r: &SyntaxNode<'a>) {
        proof {
            use_type_invariant(self);
        }
        &self.syntax
    }
}

/// A node of kind `JS_UNKNOWN_MEMBER`.
#[derive(Clone, Copy, Debug)]
pub struct JsUnknownMember<'a> {
    syntax: SyntaxNode<'a>,
}

impl<'a> JsUnknownMember<'a> {
    #[verifier::type_invariant]
    spec fn inv(self) -> bool {
        self.syntax.kind_view() == SyntaxKind::JS_UNKNOWN_MEMBER
    }

    pub fn items(&self) -> (r: Vec<SyntaxElement<'a>>)
        ensures
            r@.len() == self.syntax_view().children_view().len(),
            forall|j: int|
                0 <= j < r@.len() ==> (#[trigger] r@[j]).child_ref() == self.syntax_view().children_view()[j]
                    && r@[j].tree_view() == self.syntax_view().tree_view(),
    {
        support::elements(&self.syntax)
    }
}

impl<'a> AstNode<'a> for JsUnknownMember<'a> {
    open spec fn kind_ok(kind: SyntaxKind) -> bool {
        kind == SyntaxKind::JS_UNKNOWN_MEMBER
    }

    closed spec fn syntax_view(&self) -> SyntaxNode<'a> {
        self.syntax
    }

    fn can_cast(kind: SyntaxKind) -> (r: bool) {
        kind == SyntaxKind::JS_UNKNOWN_MEMBER
    }

    fn cast(syntax: SyntaxNode<'a>) -> (r: Option<Self>) {
        if syntax.kind() == SyntaxKind::JS_UNKNOWN_MEMBER {
            Some(JsUnknownMember { syntax })
        } else {
            None
        }
    }

    fn syntax(&self) -> (r: &SyntaxNode<'a>) {
        proof {
            use_type_invariant(self);
        }
        &self.syntax
    }
}

/// A node of kind `JS_UNKNOWN_BINDING`.
#[derive(Clone, Copy, Debug)]
pub struct JsUnknownBinding<'a> {
    syntax: SyntaxNode<'a>,
}

impl<'a> JsUnknownBinding<'a> {
    #[verifier::type_invariant]
    spec fn inv(self) -> bool {
        self.syntax.kind_view() == SyntaxKind::JS_UNKNOWN_BINDING
    }

    pub fn items(&self) -> (r: Vec<SyntaxElement<'a>>)
        ensures
            r@.len() == self.syntax_view().children_view().len(),
            forall|j: int|
                0 <= j < r@.len() ==> (#[trigger] r@[j]).child_ref() == self.syntax_view().children_view()[j]
                    && r@[j].tree_view() == self.syntax_view().tree_view(),
    {
        support::elements(&self.syntax)
    }
}

impl<'a> AstNode<'a> for JsUnknownBinding<'a> {
    open spec fn kind_ok(kind: SyntaxKind) -> bool {
        kind == SyntaxKind::JS_UNKNOWN_BINDING
    }

    closed spec fn syntax_view(&self) -> SyntaxNode<'a> {
        self.syntax
    }

    fn can_cast(kind: SyntaxKind) -> (r: bool) {
        kind == SyntaxKind::JS_UNKNOWN_BINDING
    }

    fn cast(syntax: SyntaxNode<'a>) -> (r: Option<Self>) {
        if syntax.kind() == SyntaxKind::JS_UNKNOWN_BINDING {
            Some(JsUnknownBinding { syntax })
        } else {
            None
        }
    }

    fn syntax(&self) -> (r: &SyntaxNode<'a>) {
        proof {
            use_type_invariant(self);
        }
        &self.syntax
    }
}

/// A node of kind `JS_UNKNOWN_ASSIGNMENT`.
#[derive(Clone, Copy, Debug)]
pub struct JsUnknownAssignment<'a> {
    syntax: SyntaxNode<'a>,
}

impl<'a> JsUnknownAssignment<'a> {
    #[verifier::type_invariant]
    spec fn inv(self) -> bool {
        self.syntax.kind_view() == SyntaxKind::JS_UNKNOWN_ASSIGNMENT
    }

    pub fn items(&self) -> (r: Vec<SyntaxElement<'a>>)
        ensures
            r@.len() == self.syntax_view().children_view().len(),
            forall|j: int|
                0 <= j < r@.len() ==> (#[trigger] r@[j]).child_ref() == self.syntax_view().children_view()[j]
                    && r@[j].tree_view() == self.syntax_view().tree_view(),
    {
        support::elements(&self.syntax)
    }
}

impl<'a> AstNode<'a> for JsUnknownAssignment<'a> {
    open spec fn kind_ok(kind: SyntaxKind) -> bool {
        kind == SyntaxKind::JS_UNKNOWN_ASSIGNMENT
    }

    closed spec fn syntax_view(&self) -> SyntaxNode<'a> {
        self.syntax
    }

    fn can_cast(kind: SyntaxKind) -> (r: bool) {
        kind == SyntaxKind::JS_UNKNOWN_ASSIGNMENT
    }

    fn cast(syntax: SyntaxNode<'a>) -> (r: Option<Self>) {
        if syntax.kind() == SyntaxKind::JS_UNKNOWN_ASSIGNMENT {
            Some(JsUnknownAssignment { syntax })
        } else {
            None
        }
    }

    fn syntax(&self) -> (r: &SyntaxNode<'a>) {
        proof {
            use_type_invariant(self);
        }
        &self.syntax
    }
}

/// A node of kind `JS_UNKNOWN_MODIFIER`.
#[derive(Clone, Copy, Debug)]
pub struct JsUnknownModifier<'a> {
    syntax: SyntaxNode<'a>,
}

impl<'a> JsUnknownModifier<'a> {
    #[verifier::type_invariant]
    spec fn inv(self) -> bool {
        self.syntax.kind_view() == SyntaxKind::JS_UNKNOWN_MODIFIER
    }

    pub fn items(&self) -> (r: Vec<SyntaxElement<'a>>)
        ensures
            r@.len() == self.syntax_view().children_view().len(),
            forall|j: int|
                0 <= j < r@.len() ==> (#[trigger] r@[j]).child_ref() == self.syntax_view().children_view()[j]
                    && r@[j].tree_view() == self.syntax_view().tree_view(),
    {
        support::elements(&self.syntax)
    }
}

impl<'a> AstNode<'a> for JsUnknownModifier<'a> {
    open spec fn kind_ok(kind: SyntaxKind) -> bool {
        kind == SyntaxKind::JS_UNKNOWN_MODIFIER
    }

    closed spec fn syntax_view(&self) -> SyntaxNode<'a> {
        self.syntax
    }

    fn can_cast(kind: SyntaxKind) -> (r: bool) {
        kind == SyntaxKind::JS_UNKNOWN_MODIFIER
    }

    fn cast(syntax: SyntaxNode<'a>) -> (r: Option<Self>) {
        if syntax.kind() == SyntaxKind::JS_UNKNOWN_MODIFIER {
            Some(JsUnknownModifier { syntax })
        } else {
            None
        }
    }

    fn syntax(&self) -> (r: &SyntaxNode<'a>) {
        proof {
            use_type_invariant(self);
        }
        &self.syntax
    }
}

/// A node of kind `JS_UNKNOWN_IMPORT_ASSERTION_ENTRY`.
#[derive(Clone, Copy, Debug)]
pub struct JsUnknownImportAssertionEntry<'a> {
    syntax: SyntaxNode<'a>,
}

impl<'a> JsUnknownImportAssertionEntry<'a> {
    #[verifier::type_invariant]
    spec fn inv(self) -> bool {
        self.syntax.kind_view() == SyntaxKind::JS_UNKNOWN_IMPORT_ASSERTION_ENTRY
    }

    pub fn items(&self) -> (r: Vec<SyntaxElement<'a>>)
        ensures
            r@.len() == self.syntax_view().children_view().len(),
            forall|j: int|
                0 <= j < r@.len() ==> (#[trigger] r@[j]).child_ref() == self.syntax_view().children_view()[j]
                    && r@[j].tree_view() == self.syntax_view().tree_view(),
    {
        support::elements(&self.syntax)
    }
}

impl<'a> AstNode<'a> for JsUnknownImportAssertionEntry<'a> {
    open spec fn kind_ok(kind: SyntaxKind) -> bool {
        kind == SyntaxKind::JS_UNKNOWN_IMPORT_ASSERTION_ENTRY
    }

    closed spec fn syntax_view(&self) -> SyntaxNode<'a> {
        self.syntax
    }

    fn can_cast(kind: SyntaxKind) -> (r: bool) {
        kind == SyntaxKind::JS_UNKNOWN_IMPORT_ASSERTION_ENTRY
    }

    fn cast(syntax: SyntaxNode<'a>) -> (r: Option<Self>) {
        if syntax.kind() == SyntaxKind::JS_UNKNOWN_IMPORT_ASSERTION_ENTRY {
            Some(JsUnknownImportAssertionEntry { syntax })
        } else {
            None
        }
    }

    fn syntax(&self) -> (r: &SyntaxNode<'a>) {
        proof {
            use_type_invariant(self);
        }
        &self.syntax
    }
}

/// A node of kind `JS_UNKNOWN_NAMED_IMPORT_SPECIFIER`.
#[derive(Clone, Copy, Debug)]
pub struct JsUnknownNamedImportSpecifier<'a> {
    syntax: SyntaxNode<'a>,
}

impl<'a> JsUnknownNamedImportSpecifier<'a> {
    #[verifier::type_invariant]
    spec fn inv(self) -> bool {
        self.syntax.kind_view() == SyntaxKind::JS_UNKNOWN_NAMED_IMPORT_SPECIFIER
    }

    pub fn items(&self) -> (r: Vec<SyntaxElement<'a>>)
        ensures
            r@.len() == self.syntax_view().children_view().len(),
            forall|j: int|
                0 <= j < r@.len() ==> (#[trigger] r@[j]).child_ref() == self.syntax_view().children_view()[j]
                    && r@[j].tree_view() == self.syntax_view().tree_view(),
    {
        support::elements(&self.syntax)
    }
}

impl<'a> AstNode<'a> for JsUnknownNamedImportSpecifier<'a> {
    open spec fn kind_ok(kind: SyntaxKind) -> bool {
        kind == SyntaxKind::JS_UNKNOWN_NAMED_IMPORT_SPECIFIER
    }

    closed spec fn syntax_view(&self) -> SyntaxNode<'a> {
        self.syntax
    }

    fn can_cast(kind: SyntaxKind) -> (r: bool) {
        kind == SyntaxKind::JS_UNKNOWN_NAMED_IMPORT_SPECIFIER
    }

    fn cast(syntax: SyntaxNode<'a>) -> (r: Option<Self>) {
        if syntax.kind() == SyntaxKind::JS_UNKNOWN_NAMED_IMPORT_SPECIFIER {
            Some(JsUnknownNamedImportSpecifier { syntax })
        } else {
            None
        }
    }

    fn syntax(&self) -> (r: &SyntaxNode<'a>) {
        proof {
            use_type_invariant(self);
        }
        &self.syntax
    }
}

/// A node of kind `LIST`.
#[derive(Clone, Copy, Debug)]
pub struct List<'a> {
    syntax: SyntaxNode<'a>,
}

impl<'a> List<'a> {
    #[verifier::type_invariant]
    spec fn inv(self) -> bool {
        self.syntax.kind_view() == SyntaxKind::LIST
    }

    pub fn items(&self) -> (r: Vec<SyntaxElement<'a>>)
        ensures
            r@.len() == self.syntax_view().children_view().len(),
            forall|j: int|
                0 <= j < r@.len() ==> (#[trigger] r@[j]).child_ref() == self.syntax_view().children_view()[j]
                    && r@[j].tree_view() == self.syntax_view().tree_view(),
    {
        support::elements(&self.syntax)
    }
}

impl<'a> AstNode<'a> for List<'a> {
    open spec fn kind_ok(kind: SyntaxKind) -> bool {
        kind == SyntaxKind::LIST
    }

    closed spec fn syntax_view(&self) -> SyntaxNode<'a> {
        self.syntax
    }

    fn can_cast(kind: SyntaxKind) -> (r: bool) {
        kind == SyntaxKind::LIST
    }

    fn cast(syntax: SyntaxNode<'a>) -> (r: Option<Self>) {
        if syntax.kind() == SyntaxKind::LIST {
            Some(List { syntax })
        } else {
            None
        }
    }

    fn syntax(&self) -> (r: &SyntaxNode<'a>) {
        proof {
            use_type_invariant(self);
        }
        &self.syntax
    }
}

/// A node of kind `IDENT`.
#[derive(Clone, Copy, Debug)]
pub struct Ident<'a> {
    syntax: SyntaxNode<'a>,
}

impl<'a> Ident<'a> {
    #[verifier::type_invariant]
    spec fn inv(self) -> bool {
        self.syntax.kind_view() == SyntaxKind::IDENT
    }

    pub fn ident_token(&self) -> (r: SyntaxResult<SyntaxToken<'a>>)
        ensures
            required_token_field(self.syntax_view(), seq![SyntaxKind::IDENT], r),
    {
        support::required_token(&self.syntax, SyntaxKind::IDENT)
    }
}

impl<'a> AstNode<'a> for Ident<'a> {
    open spec fn kind_ok(kind: SyntaxKind) -> bool {
        kind == SyntaxKind::IDENT
    }

    closed spec fn syntax_view(&self) -> SyntaxNode<'a> {
        self.syntax
    }

    fn can_cast(kind: SyntaxKind) -> (r: bool) {
        kind == SyntaxKind::IDENT
    }

    fn cast(syntax: SyntaxNode<'a>) -> (r: Option<Self>) {
        if syntax.kind() == SyntaxKind::IDENT {
            Some(Ident { syntax })
        } else {
            None
        }
    }

    fn syntax(&self) -> (r: &SyntaxNode<'a>) {
        proof {
            use_type_invariant(self);
        }
        &self.syntax
    }
}

/// A node of kind `JS_SCRIPT`.
#[derive(Clone, Copy, Debug)]
pub struct JsScript<'a> {
    syntax: SyntaxNode<'a>,
}

impl<'a> JsScript<'a> {
    #[verifier::type_invariant]
    spec fn inv(self) -> bool {
        self.syntax.kind_view() == SyntaxKind::JS_SCRIPT
    }

    pub fn interpreter_token(&self) -> (r: Option<SyntaxToken<'a>>)
        ensures
            token_field(self.syntax_view(), seq![SyntaxKind::JS_SHEBANG], r),
    {
        support::token(&self.syntax, SyntaxKind::JS_SHEBANG)
    }

    pub fn directives(&self) -> (r: AstNodeList<'a, JsDirective<'a>>)
        ensures
            list_field(self.syntax_view(), 0, r.list_view()),
    {
        support::node_list(&self.syntax, 0)
    }

    pub fn statements(&self) -> (r: AstNodeList<'a, JsAnyStatement<'a>>)
        ensures
            list_field(self.syntax_view(), 1, r.list_view()),
    {
        support::node_list(&self.syntax, 1)
    }
}

impl<'a> AstNode<'a> for JsScript<'a> {
    open spec fn kind_ok(kind: SyntaxKind) -> bool {
        kind == SyntaxKind::JS_SCRIPT
    }

    closed spec fn syntax_view(&self) -> SyntaxNode<'a> {
        self.syntax
    }

    fn can_cast(kind: SyntaxKind) -> (r: bool) {
        kind == SyntaxKind::JS_SCRIPT
    }

    fn cast(syntax: SyntaxNode<'a>) -> (r: Option<Self>) {
        if syntax.kind() == SyntaxKind::JS_SCRIPT {
            Some(JsScript { syntax })
        } else {
            None
        }
    }

    fn syntax(&self) -> (r: &SyntaxNode<'a>) {
        proof {
            use_type_invariant(self);
        }
        &self.syntax
    }
}

/// A node of kind `JS_MODULE`.
#[derive(Clone, Copy, Debug)]
pub struct JsModule<'a> {
    syntax: SyntaxNode<'a>,
}

impl<'a> JsModule<'a> {
    #[verifier::type_invariant]
    spec fn inv(self) -> bool {
        self.syntax.kind_view() == SyntaxKind::JS_MODULE
    }

    pub fn interpreter_token(&self) -> (r: Option<SyntaxToken<'a>>)
        ensures
            token_field(self.syntax_view(), seq![SyntaxKind::JS_SHEBANG], r),
    {
        support::token(&self.syntax, SyntaxKind::JS_SHEBANG)
    }

    pub fn directives(&self) -> (r: AstNodeList<'a, JsDirective<'a>>)
        ensures
            list_field(self.syntax_view(), 0, r.list_view()),
    {
        support::node_list(&self.syntax, 0)
    }

    pub fn items(&self) -> (r: AstNodeList<'a, JsAnyModuleItem<'a>>)
        ensures
            list_field(self.syntax_view(), 1, r.list_view()),
    {
        support::node_list(&self.syntax, 1)
    }
}

impl<'a> AstNode<'a> for JsModule<'a> {
    open spec fn kind_ok(kind: SyntaxKind) -> bool {
        kind == SyntaxKind::JS_MODULE
    }

    closed spec fn syntax_view(&self) -> SyntaxNode<'a> {
        self.syntax
    }

    fn can_cast(kind: SyntaxKind) -> (r: bool) {
        kind == SyntaxKind::JS_MODULE
    }

    fn cast(syntax: SyntaxNode<'a>) -> (r: Option<Self>) {
        if syntax.kind() == SyntaxKind::JS_MODULE {
            Some(JsModule { syntax })
        } else {
            None
        }
    }

    fn syntax(&self) -> (r: &SyntaxNode<'a>) {
        proof {
            use_type_invariant(self);
        }
        &self.syntax
    }
}

/// A node of kind `JS_DIRECTIVE`.
#[derive(Clone, Copy, Debug)]
pub struct JsDirective<'a> {
    syntax: SyntaxNode<'a>,
}

impl<'a> JsDirective<'a> {
    #[verifier::type_invariant]
    spec fn inv(self) -> bool {
        self.syntax.kind_view() == SyntaxKind::JS_DIRECTIVE
    }

    pub fn value_token(&self) -> (r: SyntaxResult<SyntaxToken<'a>>)
        ensures
            required_token_field(self.syntax_view(), seq![SyntaxKind::JS_STRING_LITERAL], r),
    {
        support::required_token(&self.syntax, SyntaxKind::JS_STRING_LITERAL)
    }

    pub fn semicolon_token(&self) -> (r: Option<SyntaxToken<'a>>)
        ensures
            token_field(self.syntax_view(), seq![SyntaxKind::SEMICOLON], r),
    {
        support::token(&self.syntax, SyntaxKind::SEMICOLON)
    }
}

impl<'a> AstNode<'a> for JsDirective<'a> {
    open spec fn kind_ok(kind: SyntaxKind) -> bool {
        kind == SyntaxKind::JS_DIRECTIVE
    }

    closed spec fn syntax_view(&self) -> SyntaxNode<'a> {
        self.syntax
    }

    fn can_cast(kind: SyntaxKind) -> (r: bool) {
        kind == SyntaxKind::JS_DIRECTIVE
    }

    fn cast(syntax: SyntaxNode<'a>) -> (r: Option<Self>) {
        if syntax.kind() == SyntaxKind::JS_DIRECTIVE {
            Some(JsDirective { syntax })
        } else {
            None
        }
    }

    fn syntax(&self) -> (r: &SyntaxNode<'a>) {
        proof {
            use_type_invariant(self);
        }
        &self.syntax
    }
}

/// A node of kind `JS_BLOCK_STATEMENT`.
#[derive(Clone, Copy, Debug)]
pub struct JsBlockStatement<'a> {
    syntax: SyntaxNode<'a>,
}

impl<'a> JsBlockStatement<'a> {
    #[verifier::type_invariant]
    spec fn inv(self) -> bool {
        self.syntax.kind_view() == SyntaxKind::JS_BLOCK_STATEMENT
    }

    pub fn l_curly_token(&self) -> (r: SyntaxResult<SyntaxToken<'a>>)
        ensures
            required_token_field(self.syntax_view(), seq![SyntaxKind::L_CURLY], r),
    {
        support::required_token(&self.syntax, SyntaxKind::L_CURLY)
    }

    pub fn statements(&self) -> (r: AstNodeList<'a, JsAnyStatement<'a>>)
        ensures
            list_field(self.syntax_view(), 0, r.list_view()),
    {
        support::node_list(&self.syntax, 0)
    }

    pub fn r_curly_token(&self) -> (r: SyntaxResult<SyntaxToken<'a>>)
        ensures
            required_token_field(self.syntax_view(), seq![SyntaxKind::R_CURLY], r),
    {
        support::required_token(&self.syntax, SyntaxKind::R_CURLY)
    }
}

impl<'a> AstNode<'a> for JsBlockStatement<'a> {
    open spec fn kind_ok(kind: SyntaxKind) -> bool {
        kind == SyntaxKind::JS_BLOCK_STATEMENT
    }

    closed spec fn syntax_view(&self) -> SyntaxNode<'a> {
        self.syntax
    }

    fn can_cast(kind: SyntaxKind) -> (r: bool) {
        kind == SyntaxKind::JS_BLOCK_STATEMENT
    }

    fn cast(syntax: SyntaxNode<'a>) -> (r: Option<Self>) {
        if syntax.kind() == SyntaxKind::JS_BLOCK_STATEMENT {
            Some(JsBlockStatement { syntax })
        } else {
            None
        }
    }

    fn syntax(&self) -> (r: &SyntaxNode<'a>) {
        proof {
            use_type_invariant(self);
        }
        &self.syntax
    }
}

/// A node of kind `JS_EMPTY_STATEMENT`.
#[derive(Clone, Copy, Debug)]
pub struct JsEmptyStatement<'a> {
    syntax: SyntaxNode<'a>,
}

impl<'a> JsEmptyStatement<'a> {
    #[verifier::type_invariant]
    spec fn inv(self) -> bool {
        self.syntax.kind_view() == SyntaxKind::JS_EMPTY_STATEMENT
    }

    pub fn semicolon_token(&self) -> (r: SyntaxResult<SyntaxToken<'a>>)
        ensures
            required_token_field(self.syntax_view(), seq![SyntaxKind::SEMICOLON], r),
    {
        support::required_token(&self.syntax, SyntaxKind::SEMICOLON)
    }
}

impl<'a> AstNode<'a> for JsEmptyStatement<'a> {
    open spec fn kind_ok(kind: SyntaxKind) -> bool {
        kind == SyntaxKind::JS_EMPTY_STATEMENT
    }

    closed spec fn syntax_view(&self) -> SyntaxNode<'a> {
        self.syntax
    }

    fn can_cast(kind: SyntaxKind) -> (r: bool) {
        kind == SyntaxKind::JS_EMPTY_STATEMENT
    }

    fn cast(syntax: SyntaxNode<'a>) -> (r: Option<Self>) {
        if syntax.kind() == SyntaxKind::JS_EMPTY_STATEMENT {
            Some(JsEmptyStatement { syntax })
        } else {
            None
        }
    }

    fn syntax(&self) -> (r: &SyntaxNode<'a>) {
        proof {
            use_type_invariant(self);
        }
        &self.syntax
    }
}

/// A node of kind `JS_EXPRESSION_STATEMENT`.
#[derive(Clone, Copy, Debug)]
pub struct JsExpressionStatement<'a> {
    syntax: SyntaxNode<'a>,
}

impl<'a> JsExpressionStatement<'a> {
    #[verifier::type_invariant]
    spec fn inv(self) -> bool {
        self.syntax.kind_view() == SyntaxKind::JS_EXPRESSION_STATEMENT
    }

    pub fn expression(&self) -> (r: SyntaxResult<JsAnyExpression<'a>>)
        ensures
            required_node_field(self.syntax_view(), r),
    {
        support::required_node(&self.syntax)
    }

    pub fn semicolon_token(&self) -> (r: Option<SyntaxToken<'a>>)
        ensures
            token_field(self.syntax_view(), seq![SyntaxKind::SEMICOLON], r),
    {
        support::token(&self.syntax, SyntaxKind::SEMICOLON)
    }
}

impl<'a> AstNode<'a> for JsExpressionStatement<'a> {
    open spec fn kind_ok(kind: SyntaxKind) -> bool {
        kind == SyntaxKind::JS_EXPRESSION_STATEMENT
    }

    closed spec fn syntax_view(&self) -> SyntaxNode<'a> {
        self.syntax
    }

    fn can_cast(kind: SyntaxKind) -> (r: bool) {
        kind == SyntaxKind::JS_EXPRESSION_STATEMENT
    }

    fn cast(syntax: SyntaxNode<'a>) -> (r: Option<Self>) {
        if syntax.kind() == SyntaxKind::JS_EXPRESSION_STATEMENT {
            Some(JsExpressionStatement { syntax })
        } else {
            None
        }
    }

    fn syntax(&self) -> (r: &SyntaxNode<'a>) {
        proof {
            use_type_invariant(self);
        }
        &self.syntax
    }
}

/// A node of kind `JS_IF_STATEMENT`.
#[derive(Clone, Copy, Debug)]
pub struct JsIfStatement<'a> {
    syntax: SyntaxNode<'a>,
}

impl<'a> JsIfStatement<'a> {
    #[verifier::type_invariant]
    spec fn inv(self) -> bool {
        self.syntax.kind_view() == SyntaxKind::JS_IF_STATEMENT
    }

    pub fn if_token(&self) -> (r: SyntaxResult<SyntaxToken<'a>>)
        ensures
            required_token_field(self.syntax_view(), seq![SyntaxKind::IF_KW], r),
    {
        support::required_token(&self.syntax, SyntaxKind::IF_KW)
    }

    pub fn l_paren_token(&self) -> (r: SyntaxResult<SyntaxToken<'a>>)
        ensures
            required_token_field(self.syntax_view(), seq![SyntaxKind::L_PAREN], r),
    {
        support::required_token(&self.syntax, SyntaxKind::L_PAREN)
    }

    pub fn test(&self) -> (r: SyntaxResult<JsAnyExpression<'a>>)
        ensures
            required_node_field(self.syntax_view(), r),
    {
        support::required_node(&self.syntax)
    }

    pub fn r_paren_token(&self) -> (r: SyntaxResult<SyntaxToken<'a>>)
        ensures
            required_token_field(self.syntax_view(), seq![SyntaxKind::R_PAREN], r),
    {
        support::required_token(&self.syntax, SyntaxKind::R_PAREN)
    }

    pub fn consequent(&self) -> (r: SyntaxResult<JsAnyStatement<'a>>)
        ensures
            required_node_field(self.syntax_view(), r),
    {
        support::required_node(&self.syntax)
    }

    pub fn else_clause(&self) -> (r: Option<JsElseClause<'a>>)
        ensures
            node_field(self.syntax_view(), r),
    {
        support::node(&self.syntax)
    }
}

impl<'a> AstNode<'a> for JsIfStatement<'a> {
    open spec fn kind_ok(kind: SyntaxKind) -> bool {
        kind == SyntaxKind::JS_IF_STATEMENT
    }

    closed spec fn syntax_view(&self) -> SyntaxNode<'a> {
        self.syntax
    }

    fn can_cast(kind: SyntaxKind) -> (r: bool) {
        kind == SyntaxKind::JS_IF_STATEMENT
    }

    fn cast(syntax: SyntaxNode<'a>) -> (r: Option<Self>) {
        if syntax.kind() == SyntaxKind::JS_IF_STATEMENT {
            Some(JsIfStatement { syntax })
        } else {
            None
        }
    }

    fn syntax(&self) -> (r: &SyntaxNode<'a>) {
        proof {
            use_type_invariant(self);
        }
        &self.syntax
    }
}

/// A node of kind `JS_DO_WHILE_STATEMENT`.
#[derive(Clone, Copy, Debug)]
pub struct JsDoWhileStatement<'a> {
    syntax: SyntaxNode<'a>,
}

impl<'a> JsDoWhileStatement<'a> {
    #[verifier::type_invariant]
    spec fn inv(self) -> bool {
        self.syntax.kind_view() == SyntaxKind::JS_DO_WHILE_STATEMENT
    }

    pub fn do_token(&self) -> (r: SyntaxResult<SyntaxToken<'a>>)
        ensures
            required_token_field(self.syntax_view(), seq![SyntaxKind::DO_KW], r),
    {
        support::required_token(&self.syntax, SyntaxKind::DO_KW)
    }

    pub fn body(&self) -> (r: SyntaxResult<JsAnyStatement<'a>>)
        ensures
            required_node_field(self.syntax_view(), r),
    {
        support::required_node(&self.syntax)
    }

    pub fn while_token(&self) -> (r: SyntaxResult<SyntaxToken<'a>>)
        ensures
            required_token_field(self.syntax_view(), seq![SyntaxKind::WHILE_KW], r),
    {
        support::required_token(&self.syntax, SyntaxKind::WHILE_KW)
    }

    pub fn l_paren_token(&self) -> (r: SyntaxResult<SyntaxToken<'a>>)
        ensures
            required_token_field(self.syntax_view(), seq![SyntaxKind::L_PAREN], r),
    {
        support::required_token(&self.syntax, SyntaxKind::L_PAREN)
    }

    pub fn test(&self) -> (r: SyntaxResult<JsAnyExpression<'a>>)
        ensures
            required_node_field(self.syntax_view(), r),
    {
        support::required_node(&self.syntax)
    }

    pub fn r_paren_token(&self) -> (r: SyntaxResult<SyntaxToken<'a>>)
        ensures
            required_token_field(self.syntax_view(), seq![SyntaxKind::R_PAREN], r),
    {
        support::required_token(&self.syntax, SyntaxKind::R_PAREN)
    }

    pub fn semicolon_token(&self) -> (r: Option<SyntaxToken<'a>>)
        ensures
            token_field(self.syntax_view(), seq![SyntaxKind::SEMICOLON], r),
    {
        support::token(&self.syntax, SyntaxKind::SEMICOLON)
    }
}

impl<'a> AstNode<'a> for JsDoWhileStatement<'a> {
    open spec fn kind_ok(kind: SyntaxKind) -> bool {
        kind == SyntaxKind::JS_DO_WHILE_STATEMENT
    }

    closed spec fn syntax_view(&self) -> SyntaxNode<'a> {
        self.syntax
    }

    fn can_cast(kind: SyntaxKind) -> (r: bool) {
        kind == SyntaxKind::JS_DO_WHILE_STATEMENT
    }

    fn cast(syntax: SyntaxNode<'a>) -> (r: Option<Self>) {
        if syntax.kind() == SyntaxKind::JS_DO_WHILE_STATEMENT {
            Some(JsDoWhileStatement { syntax })
        } else {
            None
        }
    }

    fn syntax(&self) -> (r: &SyntaxNode<'a>) {
        proof {
            use_type_invariant(self);
        }
        &self.syntax
    }
}

/// A node of kind `JS_WHILE_STATEMENT`.
#[derive(Clone, Copy, Debug)]
pub struct JsWhileStatement<'a> {
    syntax: SyntaxNode<'a>,
}

impl<'a> JsWhileStatement<'a> {
    #[verifier::type_invariant]
    spec fn inv(self) -> bool {
        self.syntax.kind_view() == SyntaxKind::JS_WHILE_STATEMENT
    }

    pub fn while_token(&self) -> (r: SyntaxResult<SyntaxToken<'a>>)
        ensures
            required_token_field(self.syntax_view(), seq![SyntaxKind::WHILE_KW], r),
    {
        support::required_token(&self.syntax, SyntaxKind::WHILE_KW)
    }

    pub fn l_paren_token(&self) -> (r: SyntaxResult<SyntaxToken<'a>>)
        ensures
            required_token_field(self.syntax_view(), seq![SyntaxKind::L_PAREN], r),
    {
        support::required_token(&self.syntax, SyntaxKind::L_PAREN)
    }

    pub fn test(&self) -> (r: SyntaxResult<JsAnyExpression<'a>>)
        ensures
            required_node_field(self.syntax_view(), r),
    {
        support::required_node(&self.syntax)
    }

    pub fn r_paren_token(&self) -> (r: SyntaxResult<SyntaxToken<'a>>)
        ensures
            required_token_field(self.syntax_view(), seq![SyntaxKind::R_PAREN], r),
    {
        support::required_token(&self.syntax, SyntaxKind::R_PAREN)
    }

    pub fn body(&self) -> (r: SyntaxResult<JsAnyStatement<'a>>)
        ensures
            required_node_field(self.syntax_view(), r),
    {
        support::required_node(&self.syntax)
    }
}

impl<'a> AstNode<'a> for JsWhileStatement<'a> {
    open spec fn kind_ok(kind: SyntaxKind) -> bool {
        kind == SyntaxKind::JS_WHILE_STATEMENT
    }

    closed spec fn syntax_view(&self) -> SyntaxNode<'a> {
        self.syntax
    }

    fn can_cast(kind: SyntaxKind) -> (r: bool) {
        kind == SyntaxKind::JS_WHILE_STATEMENT
    }

    fn cast(syntax: SyntaxNode<'a>) -> (r: Option<Self>) {
        if syntax.kind() == SyntaxKind::JS_WHILE_STATEMENT {
            Some(JsWhileStatement { syntax })
        } else {
            None
        }
    }

    fn syntax(&self) -> (r: &SyntaxNode<'a>) {
        proof {
            use_type_invariant(self);
        }
        &self.syntax
    }
}

/// A node of kind `FOR_STMT`.
#[derive(Clone, Copy, Debug)]
pub struct ForStmt<'a> {
    syntax: SyntaxNode<'a>,
}

impl<'a> ForStmt<'a> {
    #[verifier::type_invariant]
    spec fn inv(self) -> bool {
        self.syntax.kind_view() == SyntaxKind::FOR_STMT
    }

    pub fn for_token(&self) -> (r: SyntaxResult<SyntaxToken<'a>>)
        ensures
            required_token_field(self.syntax_view(), seq![SyntaxKind::FOR_KW], r),
    {
        support::required_token(&self.syntax, SyntaxKind::FOR_KW)
    }

    pub fn l_paren_token(&self) -> (r: SyntaxResult<SyntaxToken<'a>>)
        ensures
            required_token_field(self.syntax_view(), seq![SyntaxKind::L_PAREN], r),
    {
        support::required_token(&self.syntax, SyntaxKind::L_PAREN)
    }

    pub fn init(&self) -> (r: Option<ForStmtInit<'a>>)
        ensures
            node_field(self.syntax_view(), r),
    {
        support::node(&self.syntax)
    }

    pub fn first_semi_token(&self) -> (r: SyntaxResult<SyntaxToken<'a>>)
        ensures
            required_token_field(self.syntax_view(), seq![SyntaxKind::SEMICOLON], r),
    {
        support::required_token(&self.syntax, SyntaxKind::SEMICOLON)
    }

    pub fn test(&self) -> (r: Option<ForStmtTest<'a>>)
        ensures
            node_field(self.syntax_view(), r),
    {
        support::node(&self.syntax)
    }

    pub fn update(&self) -> (r: Option<ForStmtUpdate<'a>>)
        ensures
            node_field(self.syntax_view(), r),
    {
        support::node(&self.syntax)
    }

    pub fn r_paren_token(&self) -> (r: SyntaxResult<SyntaxToken<'a>>)
        ensures
            required_token_field(self.syntax_view(), seq![SyntaxKind::R_PAREN], r),
    {
        support::required_token(&self.syntax, SyntaxKind::R_PAREN)
    }

    pub fn cons(&self) -> (r: SyntaxResult<JsAnyStatement<'a>>)
        ensures
            required_node_field(self.syntax_view(), r),
    {
        support::required_node(&self.syntax)
    }
}

impl<'a> AstNode<'a> for ForStmt<'a> {
    open spec fn kind_ok(kind: SyntaxKind) -> bool {
        kind == SyntaxKind::FOR_STMT
    }

    closed spec fn syntax_view(&self) -> SyntaxNode<'a> {
        self.syntax
    }

    fn can_cast(kind: SyntaxKind) -> (r: bool) {
        kind == SyntaxKind::FOR_STMT
    }

    fn cast(syntax: SyntaxNode<'a>) -> (r: Option<Self>) {
        if syntax.kind() == SyntaxKind::FOR_STMT {
            Some(ForStmt { syntax })
        } else {
            None
        }
    }

    fn syntax(&self) -> (r: &SyntaxNode<'a>) {
        proof {
            use_type_invariant(self);
        }
        &self.syntax
    }
}

/// A node of kind `FOR_IN_STMT`.
#[derive(Clone, Copy, Debug)]
pub struct ForInStmt<'a> {
    syntax: SyntaxNode<'a>,
}

impl<'a> ForInStmt<'a> {
    #[verifier::type_invariant]
    spec fn inv(self) -> bool {
        self.syntax.kind_view() == SyntaxKind::FOR_IN_STMT
    }

    pub fn for_token(&self) -> (r: SyntaxResult<SyntaxToken<'a>>)
        ensures
            required_token_field(self.syntax_view(), seq![SyntaxKind::FOR_KW], r),
    {
        support::required_token(&self.syntax, SyntaxKind::FOR_KW)
    }

    pub fn l_paren_token(&self) -> (r: SyntaxResult<SyntaxToken<'a>>)
        ensures
            required_token_field(self.syntax_view(), seq![SyntaxKind::L_PAREN], r),
    {
        support::required_token(&self.syntax, SyntaxKind::L_PAREN)
    }

    pub fn left(&self) -> (r: SyntaxResult<ForLeft<'a>>)
        ensures
            required_node_field(self.syntax_view(), r),
    {
        support::required_node(&self.syntax)
    }

    pub fn in_token(&self) -> (r: SyntaxResult<SyntaxToken<'a>>)
        ensures
            required_token_field(self.syntax_view(), seq![SyntaxKind::IN_KW], r),
    {
        support::required_token(&self.syntax, SyntaxKind::IN_KW)
    }

    pub fn right(&self) -> (r: SyntaxResult<JsAnyExpression<'a>>)
        ensures
            required_node_field(self.syntax_view(), r),
    {
        support::required_node(&self.syntax)
    }

    pub fn r_paren_token(&self) -> (r: SyntaxResult<SyntaxToken<'a>>)
        ensures
            required_token_field(self.syntax_view(), seq![SyntaxKind::R_PAREN], r),
    {
        support::required_token(&self.syntax, SyntaxKind::R_PAREN)
    }

    pub fn cons(&self) -> (r: SyntaxResult<JsAnyStatement<'a>>)
        ensures
            required_node_field(self.syntax_view(), r),
    {
        support::required_node(&self.syntax)
    }
}

impl<'a> AstNode<'a> for ForInStmt<'a> {
    open spec fn kind_ok(kind: SyntaxKind) -> bool {
        kind == SyntaxKind::FOR_IN_STMT
    }

    closed spec fn syntax_view(&self) -> SyntaxNode<'a> {
        self.syntax
    }

    fn can_cast(kind: SyntaxKind) -> (r: bool) {
        kind == SyntaxKind::FOR_IN_STMT
    }

    fn cast(syntax: SyntaxNode<'a>) -> (r: Option<Self>) {
        if syntax.kind() == SyntaxKind::FOR_IN_STMT {
            Some(ForInStmt { syntax })
        } else {
            None
        }
    }

    fn syntax(&self) -> (r: &SyntaxNode<'a>) {
        proof {
            use_type_invariant(self);
        }
        &self.syntax
    }
}

/// A node of kind `FOR_OF_STMT`.
#[derive(Clone, Copy, Debug)]
pub struct ForOfStmt<'a> {
    syntax: SyntaxNode<'a>,
}

impl<'a> ForOfStmt<'a> {
    #[verifier::type_invariant]
    spec fn inv(self) -> bool {
        self.syntax.kind_view() == SyntaxKind::FOR_OF_STMT
    }

    pub fn for_token(&self) -> (r: SyntaxResult<SyntaxToken<'a>>)
        ensures
            required_token_field(self.syntax_view(), seq![SyntaxKind::FOR_KW], r),
    {
        support::required_token(&self.syntax, SyntaxKind::FOR_KW)
    }

    pub fn l_paren_token(&self) -> (r: SyntaxResult<SyntaxToken<'a>>)
        ensures
            required_token_field(self.syntax_view(), seq![SyntaxKind::L_PAREN], r),
    {
        support::required_token(&self.syntax, SyntaxKind::L_PAREN)
    }

    pub fn left(&self) -> (r: SyntaxResult<ForLeft<'a>>)
        ensures
            required_node_field(self.syntax_view(), r),
    {
        support::required_node(&self.syntax)
    }

    pub fn of_token(&self) -> (r: SyntaxResult<SyntaxToken<'a>>)
        ensures
            required_token_field(self.syntax_view(), seq![SyntaxKind::OF_KW], r),
    {
        support::required_token(&self.syntax, SyntaxKind::OF_KW)
    }

    pub fn right(&self) -> (r: SyntaxResult<JsAnyExpression<'a>>)
        ensures
            required_node_field(self.syntax_view(), r),
    {
        support::required_node(&self.syntax)
    }

    pub fn r_paren_token(&self) -> (r: SyntaxResult<SyntaxToken<'a>>)
        ensures
            required_token_field(self.syntax_view(), seq![SyntaxKind::R_PAREN], r),
    {
        support::required_token(&self.syntax, SyntaxKind::R_PAREN)
    }

    pub fn cons(&self) -> (r: SyntaxResult<JsAnyStatement<'a>>)
        ensures
            required_node_field(self.syntax_view(), r),
    {
        support::required_node(&self.syntax)
    }
}

impl<'a> AstNode<'a> for ForOfStmt<'a> {
    open spec fn kind_ok(kind: SyntaxKind) -> bool {
        kind == SyntaxKind::FOR_OF_STMT
    }

    closed spec fn syntax_view(&self) -> SyntaxNode<'a> {
        self.syntax
    }

    fn can_cast(kind: SyntaxKind) -> (r: bool) {
        kind == SyntaxKind::FOR_OF_STMT
    }

    fn cast(syntax: SyntaxNode<'a>) -> (r: Option<Self>) {
        if syntax.kind() == SyntaxKind::FOR_OF_STMT {
            Some(ForOfStmt { syntax })
        } else {
            None
        }
    }

    fn syntax(&self) -> (r: &SyntaxNode<'a>) {
        proof {
            use_type_invariant(self);
        }
        &self.syntax
    }
}

/// A node of kind `JS_CONTINUE_STATEMENT`.
#[derive(Clone, Copy, Debug)]
pub struct JsContinueStatement<'a> {
    syntax: SyntaxNode<'a>,
}

impl<'a> JsContinueStatement<'a> {
    #[verifier::type_invariant]
    spec fn inv(self) -> bool {
        self.syntax.kind_view() == SyntaxKind::JS_CONTINUE_STATEMENT
    }

    pub fn continue_token(&self) -> (r: SyntaxResult<SyntaxToken<'a>>)
        ensures
            required_token_field(self.syntax_view(), seq![SyntaxKind::CONTINUE_KW], r),
    {
        support::required_token(&self.syntax, SyntaxKind::CONTINUE_KW)
    }

    pub fn label_token(&self) -> (r: Option<SyntaxToken<'a>>)
        ensures
            token_field(self.syntax_view(), seq![SyntaxKind::IDENT], r),
    {
        support::token(&self.syntax, SyntaxKind::IDENT)
    }

    pub fn semicolon_token(&self) -> (r: Option<SyntaxToken<'a>>)
        ensures
            token_field(self.syntax_view(), seq![SyntaxKind::SEMICOLON], r),
    {
        support::token(&self.syntax, SyntaxKind::SEMICOLON)
    }
}

impl<'a> AstNode<'a> for JsContinueStatement<'a> {
    open spec fn kind_ok(kind: SyntaxKind) -> bool {
        kind == SyntaxKind::JS_CONTINUE_STATEMENT
    }

    closed spec fn syntax_view(&self) -> SyntaxNode<'a> {
        self.syntax
    }

    fn can_cast(kind: SyntaxKind) -> (r: bool) {
        kind == SyntaxKind::JS_CONTINUE_STATEMENT
    }

    fn cast(syntax: SyntaxNode<'a>) -> (r: Option<Self>) {
        if syntax.kind() == SyntaxKind::JS_CONTINUE_STATEMENT {
            Some(JsContinueStatement { syntax })
        } else {
            None
        }
    }

    fn syntax(&self) -> (r: &SyntaxNode<'a>) {
        proof {
            use_type_invariant(self);
        }
        &self.syntax
    }
}

/// A node of kind `JS_BREAK_STATEMENT`.
#[derive(Clone, Copy, Debug)]
pub struct JsBreakStatement<'a> {
    syntax: SyntaxNode<'a>,
}

impl<'a> JsBreakStatement<'a> {
    #[verifier::type_invariant]
    spec fn inv(self) -> bool {
        self.syntax.kind_view() == SyntaxKind::JS_BREAK_STATEMENT
    }

    pub fn break_token(&self) -> (r: SyntaxResult<SyntaxToken<'a>>)
        ensures
            required_token_field(self.syntax_view(), seq![SyntaxKind::BREAK_KW], r),
    {
        support::required_token(&self.syntax, SyntaxKind::BREAK_KW)
    }

    pub fn label_token(&self) -> (r: Option<SyntaxToken<'a>>)
        ensures
            token_field(self.syntax_view(), seq![SyntaxKind::IDENT], r),
    {
        support::token(&self.syntax, SyntaxKind::IDENT)
    }

    pub fn semicolon_token(&self) -> (r: Option<SyntaxToken<'a>>)
        ensures
            token_field(self.syntax_view(), seq![SyntaxKind::SEMICOLON], r),
    {
        support::token(&self.syntax, SyntaxKind::SEMICOLON)
    }
}

impl<'a> AstNode<'a> for JsBreakStatement<'a> {
    open spec fn kind_ok(kind: SyntaxKind) -> bool {
        kind == SyntaxKind::JS_BREAK_STATEMENT
    }

    closed spec fn syntax_view(&self) -> SyntaxNode<'a> {
        self.syntax
    }

    fn can_cast(kind: SyntaxKind) -> (r: bool) {
        kind == SyntaxKind::JS_BREAK_STATEMENT
    }

    fn cast(syntax: SyntaxNode<'a>) -> (r: Option<Self>) {
        if syntax.kind() == SyntaxKind::JS_BREAK_STATEMENT {
            Some(JsBreakStatement { syntax })
        } else {
            None
        }
    }

    fn syntax(&self) -> (r: &SyntaxNode<'a>) {
        proof {
            use_type_invariant(self);
        }
        &self.syntax
    }
}

/// A node of kind `JS_RETURN_STATEMENT`.
#[derive(Clone, Copy, Debug)]
pub struct JsReturnStatement<'a> {
    syntax: SyntaxNode<'a>,
}

impl<'a> JsReturnStatement<'a> {
    #[verifier::type_invariant]
    spec fn inv(self) -> bool {
        self.syntax.kind_view() == SyntaxKind::JS_RETURN_STATEMENT
    }

    pub fn return_token(&self) -> (r: SyntaxResult<SyntaxToken<'a>>)
        ensures
            required_token_field(self.syntax_view(), seq![SyntaxKind::RETURN_KW], r),
    {
        support::required_token(&self.syntax, SyntaxKind::RETURN_KW)
    }

    pub fn argument(&self) -> (r: Option<JsAnyExpression<'a>>)
        ensures
            node_field(self.syntax_view(), r),
    {
        support::node(&self.syntax)
    }

    pub fn semicolon_token(&self) -> (r: Option<SyntaxToken<'a>>)
        ensures
            token_field(self.syntax_view(), seq![SyntaxKind::SEMICOLON], r),
    {
        support::token(&self.syntax, SyntaxKind::SEMICOLON)
    }
}

impl<'a> AstNode<'a> for JsReturnStatement<'a> {
    open spec fn kind_ok(kind: SyntaxKind) -> bool {
        kind == SyntaxKind::JS_RETURN_STATEMENT
    }

    closed spec fn syntax_view(&self) -> SyntaxNode<'a> {
        self.syntax
    }

    fn can_cast(kind: SyntaxKind) -> (r: bool) {
        kind == SyntaxKind::JS_RETURN_STATEMENT
    }

    fn cast(syntax: SyntaxNode<'a>) -> (r: Option<Self>) {
        if syntax.kind() == SyntaxKind::JS_RETURN_STATEMENT {
            Some(JsReturnStatement { syntax })
        } else {
            None
        }
    }

    fn syntax(&self) -> (r: &SyntaxNode<'a>) {
        proof {
            use_type_invariant(self);
        }
        &self.syntax
    }
}

/// A node of kind `JS_WITH_STATEMENT`.
#[derive(Clone, Copy, Debug)]
pub struct JsWithStatement<'a> {
    syntax: SyntaxNode<'a>,
}

impl<'a> JsWithStatement<'a> {
    #[verifier::type_invariant]
    spec fn inv(self) -> bool {
        self.syntax.kind_view() == SyntaxKind::JS_WITH_STATEMENT
    }

    pub fn with_token(&self) -> (r: SyntaxResult<SyntaxToken<'a>>)
        ensures
            required_token_field(self.syntax_view(), seq![SyntaxKind::WITH_KW], r),
    {
        support::required_token(&self.syntax, SyntaxKind::WITH_KW)
    }

    pub fn l_paren_token(&self) -> (r: SyntaxResult<SyntaxToken<'a>>)
        ensures
            required_token_field(self.syntax_view(), seq![SyntaxKind::L_PAREN], r),
    {
        support::required_token(&self.syntax, SyntaxKind::L_PAREN)
    }

    pub fn object(&self) -> (r: SyntaxResult<JsAnyExpression<'a>>)
        ensures
            required_node_field(self.syntax_view(), r),
    {
        support::required_node(&self.syntax)
    }

    pub fn r_paren_token(&self) -> (r: SyntaxResult<SyntaxToken<'a>>)
        ensures
            required_token_field(self.syntax_view(), seq![SyntaxKind::R_PAREN], r),
    {
        support::required_token(&self.syntax, SyntaxKind::R_PAREN)
    }

    pub fn body(&self) -> (r: SyntaxResult<JsAnyStatement<'a>>)
        ensures
            required_node_field(self.syntax_view(), r),
    {
        support::required_node(&self.syntax)
    }
}

impl<'a> AstNode<'a> for JsWithStatement<'a> {
    open spec fn kind_ok(kind: SyntaxKind) -> bool {
        kind == SyntaxKind::JS_WITH_STATEMENT
    }

    closed spec fn syntax_view(&self) -> SyntaxNode<'a> {
        self.syntax
    }

    fn can_cast(kind: SyntaxKind) -> (r: bool) {
        kind == SyntaxKind::JS_WITH_STATEMENT
    }

    fn cast(syntax: SyntaxNode<'a>) -> (r: Option<Self>) {
        if syntax.kind() == SyntaxKind::JS_WITH_STATEMENT {
            Some(JsWithStatement { syntax })
        } else {
            None
        }
    }

    fn syntax(&self) -> (r: &SyntaxNode<'a>) {
        proof {
            use_type_invariant(self);
        }
        &self.syntax
    }
}

/// A node of kind `JS_LABELED_STATEMENT`.
#[derive(Clone, Copy, Debug)]
pub struct JsLabeledStatement<'a> {
    syntax: SyntaxNode<'a>,
}

impl<'a> JsLabeledStatement<'a> {
    #[verifier::type_invariant]
    spec fn inv(self) -> bool {
        self.syntax.kind_view() == SyntaxKind::JS_LABELED_STATEMENT
    }

    pub fn label_token(&self) -> (r: SyntaxResult<SyntaxToken<'a>>)
        ensures
            required_token_field(self.syntax_view(), seq![SyntaxKind::IDENT], r),
    {
        support::required_token(&self.syntax, SyntaxKind::IDENT)
    }

    pub fn colon_token(&self) -> (r: SyntaxResult<SyntaxToken<'a>>)
        ensures
            required_token_field(self.syntax_view(), seq![SyntaxKind::COLON], r),
    {
        support::required_token(&self.syntax, SyntaxKind::COLON)
    }

    pub fn body(&self) -> (r: SyntaxResult<JsAnyStatement<'a>>)
        ensures
            required_node_field(self.syntax_view(), r),
    {
        support::required_node(&self.syntax)
    }
}

impl<'a> AstNode<'a> for JsLabeledStatement<'a> {
    open spec fn kind_ok(kind: SyntaxKind) -> bool {
        kind == SyntaxKind::JS_LABELED_STATEMENT
    }

    closed spec fn syntax_view(&self) -> SyntaxNode<'a> {
        self.syntax
    }

    fn can_cast(kind: SyntaxKind) -> (r: bool) {
        kind == SyntaxKind::JS_LABELED_STATEMENT
    }

    fn cast(syntax: SyntaxNode<'a>) -> (r: Option<Self>) {
        if syntax.kind() == SyntaxKind::JS_LABELED_STATEMENT {
            Some(JsLabeledStatement { syntax })
        } else {
            None
        }
    }

    fn syntax(&self) -> (r: &SyntaxNode<'a>) {
        proof {
            use_type_invariant(self);
        }
        &self.syntax
    }
}

/// A node of kind `JS_SWITCH_STATEMENT`.
#[derive(Clone, Copy, Debug)]
pub struct JsSwitchStatement<'a> {
    syntax: SyntaxNode<'a>,
}

impl<'a> JsSwitchStatement<'a> {
    #[verifier::type_invariant]
    spec fn inv(self) -> bool {
        self.syntax.kind_view() == SyntaxKind::JS_SWITCH_STATEMENT
    }

    pub fn switch_token(&self) -> (r: SyntaxResult<SyntaxToken<'a>>)
        ensures
            required_token_field(self.syntax_view(), seq![SyntaxKind::SWITCH_KW], r),
    {
        support::required_token(&self.syntax, SyntaxKind::SWITCH_KW)
    }

    pub fn l_paren_token(&self) -> (r: SyntaxResult<SyntaxToken<'a>>)
        ensures
            required_token_field(self.syntax_view(), seq![SyntaxKind::L_PAREN], r),
    {
        support::required_token(&self.syntax, SyntaxKind::L_PAREN)
    }

    pub fn discriminant(&self) -> (r: SyntaxResult<JsAnyExpression<'a>>)
        ensures
            required_node_field(self.syntax_view(), r),
    {
        support::required_node(&self.syntax)
    }

    pub fn r_paren_token(&self) -> (r: SyntaxResult<SyntaxToken<'a>>)
        ensures
            required_token_field(self.syntax_view(), seq![SyntaxKind::R_PAREN], r),
    {
        support::required_token(&self.syntax, SyntaxKind::R_PAREN)
    }

    pub fn l_curly_token(&self) -> (r: SyntaxResult<SyntaxToken<'a>>)
        ensures
            required_token_field(self.syntax_view(), seq![SyntaxKind::L_CURLY], r),
    {
        support::required_token(&self.syntax, SyntaxKind::L_CURLY)
    }

    pub fn cases(&self) -> (r: AstNodeList<'a, JsAnySwitchClause<'a>>)
        ensures
            list_field(self.syntax_view(), 0, r.list_view()),
    {
        support::node_list(&self.syntax, 0)
    }

    pub fn r_curly_token(&self) -> (r: SyntaxResult<SyntaxToken<'a>>)
        ensures
            required_token_field(self.syntax_view(), seq![SyntaxKind::R_CURLY], r),
    {
        support::required_token(&self.syntax, SyntaxKind::R_CURLY)
    }
}

impl<'a> AstNode<'a> for JsSwitchStatement<'a> {
    open spec fn kind_ok(kind: SyntaxKind) -> bool {
        kind == SyntaxKind::JS_SWITCH_STATEMENT
    }

    closed spec fn syntax_view(&self) -> SyntaxNode<'a> {
        self.syntax
    }

    fn can_cast(kind: SyntaxKind) -> (r: bool) {
        kind == SyntaxKind::JS_SWITCH_STATEMENT
    }

    fn cast(syntax: SyntaxNode<'a>) -> (r: Option<Self>) {
        if syntax.kind() == SyntaxKind::JS_SWITCH_STATEMENT {
            Some(JsSwitchStatement { syntax })
        } else {
            None
        }
    }

    fn syntax(&self) -> (r: &SyntaxNode<'a>) {
        proof {
            use_type_invariant(self);
        }
        &self.syntax
    }
}

/// A node of kind `JS_THROW_STATEMENT`.
#[derive(Clone, Copy, Debug)]
pub struct JsThrowStatement<'a> {
    syntax: SyntaxNode<'a>,
}

impl<'a> JsThrowStatement<'a> {
    #[verifier::type_invariant]
    spec fn inv(self) -> bool {
        self.syntax.kind_view() == SyntaxKind::JS_THROW_STATEMENT
    }

    pub fn throw_token(&self) -> (r: SyntaxResult<SyntaxToken<'a>>)
        ensures
            required_token_field(self.syntax_view(), seq![SyntaxKind::THROW_KW], r),
    {
        support::required_token(&self.syntax, SyntaxKind::THROW_KW)
    }

    pub fn argument(&self) -> (r: SyntaxResult<JsAnyExpression<'a>>)
        ensures
            required_node_field(self.syntax_view(), r),
    {
        support::required_node(&self.syntax)
    }

    pub fn semicolon_token(&self) -> (r: Option<SyntaxToken<'a>>)
        ensures
            token_field(self.syntax_view(), seq![SyntaxKind::SEMICOLON], r),
    {
        support::token(&self.syntax, SyntaxKind::SEMICOLON)
    }
}

impl<'a> AstNode<'a> for JsThrowStatement<'a> {
    open spec fn kind_ok(kind: SyntaxKind) -> bool {
        kind == SyntaxKind::JS_THROW_STATEMENT
    }

    closed spec fn syntax_view(&self) -> SyntaxNode<'a> {
        self.syntax
    }

    fn can_cast(kind: SyntaxKind) -> (r: bool) {
        kind == SyntaxKind::JS_THROW_STATEMENT
    }

    fn cast(syntax: SyntaxNode<'a>) -> (r: Option<Self>) {
        if syntax.kind() == SyntaxKind::JS_THROW_STATEMENT {
            Some(JsThrowStatement { syntax })
        } else {
            None
        }
    }

    fn syntax(&self) -> (r: &SyntaxNode<'a>) {
        proof {
            use_type_invariant(self);
        }
        &self.syntax
    }
}

/// A node of kind `JS_TRY_STATEMENT`.
#[derive(Clone, Copy, Debug)]
pub struct JsTryStatement<'a> {
    syntax: SyntaxNode<'a>,
}

impl<'a> JsTryStatement<'a> {
    #[verifier::type_invariant]
    spec fn inv(self) -> bool {
        self.syntax.kind_view() == SyntaxKind::JS_TRY_STATEMENT
    }

    pub fn try_token(&self) -> (r: SyntaxResult<SyntaxToken<'a>>)
        ensures
            required_token_field(self.syntax_view(), seq![SyntaxKind::TRY_KW], r),
    {
        support::required_token(&self.syntax, SyntaxKind::TRY_KW)
    }

    pub fn body(&self) -> (r: SyntaxResult<JsBlockStatement<'a>>)
        ensures
            required_node_field(self.syntax_view(), r),
    {
        support::required_node(&self.syntax)
    }

    pub fn catch_clause(&self) -> (r: SyntaxResult<JsCatchClause<'a>>)
        ensures
            required_node_field(self.syntax_view(), r),
    {
        support::required_node(&self.syntax)
    }
}

impl<'a> AstNode<'a> for JsTryStatement<'a> {
    open spec fn kind_ok(kind: SyntaxKind) -> bool {
        kind == SyntaxKind::JS_TRY_STATEMENT
    }

    closed spec fn syntax_view(&self) -> SyntaxNode<'a> {
        self.syntax
    }

    fn can_cast(kind: SyntaxKind) -> (r: bool) {
        kind == SyntaxKind::JS_TRY_STATEMENT
    }

    fn cast(syntax: SyntaxNode<'a>) -> (r: Option<Self>) {
        if syntax.kind() == SyntaxKind::JS_TRY_STATEMENT {
            Some(JsTryStatement { syntax })
        } else {
            None
        }
    }

    fn syntax(&self) -> (r: &SyntaxNode<'a>) {
        proof {
            use_type_invariant(self);
        }
        &self.syntax
    }
}

/// A node of kind `JS_TRY_FINALLY_STATEMENT`.
#[derive(Clone, Copy, Debug)]
pub struct JsTryFinallyStatement<'a> {
    syntax: SyntaxNode<'a>,
}

impl<'a> JsTryFinallyStatement<'a> {
    #[verifier::type_invariant]
    spec fn inv(self) -> bool {
        self.syntax.kind_view() == SyntaxKind::JS_TRY_FINALLY_STATEMENT
    }

    pub fn try_token(&self) -> (r: SyntaxResult<SyntaxToken<'a>>)
        ensures
            required_token_field(self.syntax_view(), seq![SyntaxKind::TRY_KW], r),
    {
        support::required_token(&self.syntax, SyntaxKind::TRY_KW)
    }

    pub fn body(&self) -> (r: SyntaxResult<JsBlockStatement<'a>>)
        ensures
            required_node_field(self.syntax_view(), r),
    {
        support::required_node(&self.syntax)
    }

    pub fn catch_clause(&self) -> (r: Option<JsCatchClause<'a>>)
        ensures
            node_field(self.syntax_view(), r),
    {
        support::node(&self.syntax)
    }

    pub fn finally_clause(&self) -> (r: SyntaxResult<JsFinallyClause<'a>>)
        ensures
            required_node_field(self.syntax_view(), r),
    {
        support::required_node(&self.syntax)
    }
}

impl<'a> AstNode<'a> for JsTryFinallyStatement<'a> {
    open spec fn kind_ok(kind: SyntaxKind) -> bool {
        kind == SyntaxKind::JS_TRY_FINALLY_STATEMENT
    }

    closed spec fn syntax_view(&self) -> SyntaxNode<'a> {
        self.syntax
    }

    fn can_cast(kind: SyntaxKind) -> (r: bool) {
        kind == SyntaxKind::JS_TRY_FINALLY_STATEMENT
    }

    fn cast(syntax: SyntaxNode<'a>) -> (r: Option<Self>) {
        if syntax.kind() == SyntaxKind::JS_TRY_FINALLY_STATEMENT {
            Some(JsTryFinallyStatement { syntax })
        } else {
            None
        }
    }

    fn syntax(&self) -> (r: &SyntaxNode<'a>) {
        proof {
            use_type_invariant(self);
        }
        &self.syntax
    }
}

/// A node of kind `JS_DEBUGGER_STATEMENT`.
#[derive(Clone, Copy, Debug)]
pub struct JsDebuggerStatement<'a> {
    syntax: SyntaxNode<'a>,
}

impl<'a> JsDebuggerStatement<'a> {
    #[verifier::type_invariant]
    spec fn inv(self) -> bool {
        self.syntax.kind_view() == SyntaxKind::JS_DEBUGGER_STATEMENT
    }

    pub fn debugger_token(&self) -> (r: SyntaxResult<SyntaxToken<'a>>)
        ensures
            required_token_field(self.syntax_view(), seq![SyntaxKind::DEBUGGER_KW], r),
    {
        support::required_token(&self.syntax, SyntaxKind::DEBUGGER_KW)
    }

    pub fn semicolon_token(&self) -> (r: Option<SyntaxToken<'a>>)
        ensures
            token_field(self.syntax_view(), seq![SyntaxKind::SEMICOLON], r),
    {
        support::token(&self.syntax, SyntaxKind::SEMICOLON)
    }
}

impl<'a> AstNode<'a> for JsDebuggerStatement<'a> {
    open spec fn kind_ok(kind: SyntaxKind) -> bool {
        kind == SyntaxKind::JS_DEBUGGER_STATEMENT
    }

    closed spec fn syntax_view(&self) -> SyntaxNode<'a> {
        self.syntax
    }

    fn can_cast(kind: SyntaxKind) -> (r: bool) {
        kind == SyntaxKind::JS_DEBUGGER_STATEMENT
    }

    fn cast(syntax: SyntaxNode<'a>) -> (r: Option<Self>) {
        if syntax.kind() == SyntaxKind::JS_DEBUGGER_STATEMENT {
            Some(JsDebuggerStatement { syntax })
        } else {
            None
        }
    }

    fn syntax(&self) -> (r: &SyntaxNode<'a>) {
        proof {
            use_type_invariant(self);
        }
        &self.syntax
    }
}

/// A node of kind `JS_FUNCTION_DECLARATION`.
#[derive(Clone, Copy, Debug)]
pub struct JsFunctionDeclaration<'a> {
    syntax: SyntaxNode<'a>,
}

impl<'a> JsFunctionDeclaration<'a> {
    #[verifier::type_invariant]
    spec fn inv(self) -> bool {
        self.syntax.kind_view() == SyntaxKind::JS_FUNCTION_DECLARATION
    }

    pub fn async_token(&self) -> (r: Option<SyntaxToken<'a>>)
        ensures
            token_field(self.syntax_view(), seq![SyntaxKind::ASYNC_KW], r),
    {
        support::token(&self.syntax, SyntaxKind::ASYNC_KW)
    }

    pub fn function_token(&self) -> (r: SyntaxResult<SyntaxToken<'a>>)
        ensures
            required_token_field(self.syntax_view(), seq![SyntaxKind::FUNCTION_KW], r),
    {
        support::required_token(&self.syntax, SyntaxKind::FUNCTION_KW)
    }

    pub fn star_token(&self) -> (r: Option<SyntaxToken<'a>>)
        ensures
            token_field(self.syntax_view(), seq![SyntaxKind::STAR], r),
    {
        support::token(&self.syntax, SyntaxKind::STAR)
    }

    pub fn id(&self) -> (r: SyntaxResult<JsAnyBinding<'a>>)
        ensures
            required_node_field(self.syntax_view(), r),
    {
        support::required_node(&self.syntax)
    }

    pub fn type_parameters(&self) -> (r: Option<TsTypeParams<'a>>)
        ensures
            node_field(self.syntax_view(), r),
    {
        support::node(&self.syntax)
    }

    pub fn parameter_list(&self) -> (r: SyntaxResult<JsParameterList<'a>>)
        ensures
            required_node_field(self.syntax_view(), r),
    {
        support::required_node(&self.syntax)
    }

    pub fn return_type(&self) -> (r: Option<TsTypeAnnotation<'a>>)
        ensures
            node_field(self.syntax_view(), r),
    {
        support::node(&self.syntax)
    }

    pub fn body(&self) -> (r: SyntaxResult<JsFunctionBody<'a>>)
        ensures
            required_node_field(self.syntax_view(), r),
    {
        support::required_node(&self.syntax)
    }
}

impl<'a> AstNode<'a> for JsFunctionDeclaration<'a> {
    open spec fn kind_ok(kind: SyntaxKind) -> bool {
        kind == SyntaxKind::JS_FUNCTION_DECLARATION
    }

    closed spec fn syntax_view(&self) -> SyntaxNode<'a> {
        self.syntax
    }

    fn can_cast(kind: SyntaxKind) -> (r: bool) {
        kind == SyntaxKind::JS_FUNCTION_DECLARATION
    }

    fn cast(syntax: SyntaxNode<'a>) -> (r: Option<Self>) {
        if syntax.kind() == SyntaxKind::JS_FUNCTION_DECLARATION {
            Some(JsFunctionDeclaration { syntax })
        } else {
            None
        }
    }

    fn syntax(&self) -> (r: &SyntaxNode<'a>) {
        proof {
            use_type_invariant(self);
        }
        &self.syntax
    }
}

/// A node of kind `JS_CLASS_DECLARATION`.
#[derive(Clone, Copy, Debug)]
pub struct JsClassDeclaration<'a> {
    syntax: SyntaxNode<'a>,
}

impl<'a> JsClassDeclaration<'a> {
    #[verifier::type_invariant]
    spec fn inv(self) -> bool {
        self.syntax.kind_view() == SyntaxKind::JS_CLASS_DECLARATION
    }

    pub fn class_token(&self) -> (r: SyntaxResult<SyntaxToken<'a>>)
        ensures
            required_token_field(self.syntax_view(), seq![SyntaxKind::CLASS_KW], r),
    {
        support::required_token(&self.syntax, SyntaxKind::CLASS_KW)
    }

    pub fn id(&self) -> (r: SyntaxResult<JsAnyBinding<'a>>)
        ensures
            required_node_field(self.syntax_view(), r),
    {
        support::required_node(&self.syntax)
    }

    pub fn implements_clause(&self) -> (r: Option<TsImplementsClause<'a>>)
        ensures
            node_field(self.syntax_view(), r),
    {
        support::node(&self.syntax)
    }

    pub fn extends_clause(&self) -> (r: Option<JsExtendsClause<'a>>)
        ensures
            node_field(self.syntax_view(), r),
    {
        support::node(&self.syntax)
    }

    pub fn l_curly_token(&self) -> (r: SyntaxResult<SyntaxToken<'a>>)
        ensures
            required_token_field(self.syntax_view(), seq![SyntaxKind::L_CURLY], r),
    {
        support::required_token(&self.syntax, SyntaxKind::L_CURLY)
    }

    pub fn members(&self) -> (r: AstNodeList<'a, JsAnyClassMember<'a>>)
        ensures
            list_field(self.syntax_view(), 0, r.list_view()),
    {
        support::node_list(&self.syntax, 0)
    }

    pub fn r_curly_token(&self) -> (r: SyntaxResult<SyntaxToken<'a>>)
        ensures
            required_token_field(self.syntax_view(), seq![SyntaxKind::R_CURLY], r),
    {
        support::required_token(&self.syntax, SyntaxKind::R_CURLY)
    }
}

impl<'a> AstNode<'a> for JsClassDeclaration<'a> {
    open spec fn kind_ok(kind: SyntaxKind) -> bool {
        kind == SyntaxKind::JS_CLASS_DECLARATION
    }

    closed spec fn syntax_view(&self) -> SyntaxNode<'a> {
        self.syntax
    }

    fn can_cast(kind: SyntaxKind) -> (r: bool) {
        kind == SyntaxKind::JS_CLASS_DECLARATION
    }

    fn cast(syntax: SyntaxNode<'a>) -> (r: Option<Self>) {
        if syntax.kind() == SyntaxKind::JS_CLASS_DECLARATION {
            Some(JsClassDeclaration { syntax })
        } else {
            None
        }
    }

    fn syntax(&self) -> (r: &SyntaxNode<'a>) {
        proof {
            use_type_invariant(self);
        }
        &self.syntax
    }
}

/// A node of kind `JS_VARIABLE_DECLARATION_STATEMENT`.
#[derive(Clone, Copy, Debug)]
pub struct JsVariableDeclarationStatement<'a> {
    syntax: SyntaxNode<'a>,
}

impl<'a> JsVariableDeclarationStatement<'a> {
    #[verifier::type_invariant]
    spec fn inv(self) -> bool {
        self.syntax.kind_view() == SyntaxKind::JS_VARIABLE_DECLARATION_STATEMENT
    }

    pub fn declaration(&self) -> (r: SyntaxResult<JsVariableDeclaration<'a>>)
        ensures
            required_node_field(self.syntax_view(), r),
    {
        support::required_node(&self.syntax)
    }

    pub fn semicolon_token(&self) -> (r: Option<SyntaxToken<'a>>)
        ensures
            token_field(self.syntax_view(), seq![SyntaxKind::SEMICOLON], r),
    {
        support::token(&self.syntax, SyntaxKind::SEMICOLON)
    }
}

impl<'a> AstNode<'a> for JsVariableDeclarationStatement<'a> {
    open spec fn kind_ok(kind: SyntaxKind) -> bool {
        kind == SyntaxKind::JS_VARIABLE_DECLARATION_STATEMENT
    }

    closed spec fn syntax_view(&self) -> SyntaxNode<'a> {
        self.syntax
    }

    fn can_cast(kind: SyntaxKind) -> (r: bool) {
        kind == SyntaxKind::JS_VARIABLE_DECLARATION_STATEMENT
    }

    fn cast(syntax: SyntaxNode<'a>) -> (r: Option<Self>) {
        if syntax.kind() == SyntaxKind::JS_VARIABLE_DECLARATION_STATEMENT {
            Some(JsVariableDeclarationStatement { syntax })
        } else {
            None
        }
    }

    fn syntax(&self) -> (r: &SyntaxNode<'a>) {
        proof {
            use_type_invariant(self);
        }
        &self.syntax
    }
}

/// A node of kind `TS_ENUM`.
#[derive(Clone, Copy, Debug)]
pub struct TsEnum<'a> {
    syntax: SyntaxNode<'a>,
}

impl<'a> TsEnum<'a> {
    #[verifier::type_invariant]
    spec fn inv(self) -> bool {
        self.syntax.kind_view() == SyntaxKind::TS_ENUM
    }

    pub fn const_token(&self) -> (r: Option<SyntaxToken<'a>>)
        ensures
            token_field(self.syntax_view(), seq![SyntaxKind::CONST_KW], r),
    {
        support::token(&self.syntax, SyntaxKind::CONST_KW)
    }

    pub fn enum_token(&self) -> (r: SyntaxResult<SyntaxToken<'a>>)
        ensures
            required_token_field(self.syntax_view(), seq![SyntaxKind::ENUM_KW], r),
    {
        support::required_token(&self.syntax, SyntaxKind::ENUM_KW)
    }

    pub fn ident(&self) -> (r: SyntaxResult<Ident<'a>>)
        ensures
            required_node_field(self.syntax_view(), r),
    {
        support::required_node(&self.syntax)
    }

    pub fn l_curly_token(&self) -> (r: SyntaxResult<SyntaxToken<'a>>)
        ensures
            required_token_field(self.syntax_view(), seq![SyntaxKind::L_CURLY], r),
    {
        support::required_token(&self.syntax, SyntaxKind::L_CURLY)
    }

    pub fn members(&self) -> (r: AstNodeList<'a, TsEnumMember<'a>>)
        ensures
            list_field(self.syntax_view(), 0, r.list_view()),
    {
        support::node_list(&self.syntax, 0)
    }

    pub fn r_curly_token(&self) -> (r: SyntaxResult<SyntaxToken<'a>>)
        ensures
            required_token_field(self.syntax_view(), seq![SyntaxKind::R_CURLY], r),
    {
        support::required_token(&self.syntax, SyntaxKind::R_CURLY)
    }
}

impl<'a> AstNode<'a> for TsEnum<'a> {
    open spec fn kind_ok(kind: SyntaxKind) -> bool {
        kind == SyntaxKind::TS_ENUM
    }

    closed spec fn syntax_view(&self) -> SyntaxNode<'a> {
        self.syntax
    }

    fn can_cast(kind: SyntaxKind) -> (r: bool) {
        kind == SyntaxKind::TS_ENUM
    }

    fn cast(syntax: SyntaxNode<'a>) -> (r: Option<Self>) {
        if syntax.kind() == SyntaxKind::TS_ENUM {
            Some(TsEnum { syntax })
        } else {
            None
        }
    }

    fn syntax(&self) -> (r: &SyntaxNode<'a>) {
        proof {
            use_type_invariant(self);
        }
        &self.syntax
    }
}

/// A node of kind `TS_TYPE_ALIAS_DECL`.
#[derive(Clone, Copy, Debug)]
pub struct TsTypeAliasDecl<'a> {
    syntax: SyntaxNode<'a>,
}

impl<'a> TsTypeAliasDecl<'a> {
    #[verifier::type_invariant]
    spec fn inv(self) -> bool {
        self.syntax.kind_view() == SyntaxKind::TS_TYPE_ALIAS_DECL
    }

    pub fn type_token(&self) -> (r: SyntaxResult<SyntaxToken<'a>>)
        ensures
            required_token_field(self.syntax_view(), seq![SyntaxKind::TYPE_KW], r),
    {
        support::required_token(&self.syntax, SyntaxKind::TYPE_KW)
    }

    pub fn type_params(&self) -> (r: SyntaxResult<TsTypeParams<'a>>)
        ensures
            required_node_field(self.syntax_view(), r),
    {
        support::required_node(&self.syntax)
    }

    pub fn eq_token(&self) -> (r: SyntaxResult<SyntaxToken<'a>>)
        ensures
            required_token_field(self.syntax_view(), seq![SyntaxKind::EQ], r),
    {
        support::required_token(&self.syntax, SyntaxKind::EQ)
    }

    pub fn ty(&self) -> (r: SyntaxResult<TsType<'a>>)
        ensures
            required_node_field(self.syntax_view(), r),
    {
        support::required_node(&self.syntax)
    }
}

impl<'a> AstNode<'a> for TsTypeAliasDecl<'a> {
    open spec fn kind_ok(kind: SyntaxKind) -> bool {
        kind == SyntaxKind::TS_TYPE_ALIAS_DECL
    }

    closed spec fn syntax_view(&self) -> SyntaxNode<'a> {
        self.syntax
    }

    fn can_cast(kind: SyntaxKind) -> (r: bool) {
        kind == SyntaxKind::TS_TYPE_ALIAS_DECL
    }

    fn cast(syntax: SyntaxNode<'a>) -> (r: Option<Self>) {
        if syntax.kind() == SyntaxKind::TS_TYPE_ALIAS_DECL {
            Some(TsTypeAliasDecl { syntax })
        } else {
            None
        }
    }

    fn syntax(&self) -> (r: &SyntaxNode<'a>) {
        proof {
            use_type_invariant(self);
        }
        &self.syntax
    }
}

/// A node of kind `TS_NAMESPACE_DECL`.
#[derive(Clone, Copy, Debug)]
pub struct TsNamespaceDecl<'a> {
    syntax: SyntaxNode<'a>,
}

impl<'a> TsNamespaceDecl<'a> {
    #[verifier::type_invariant]
    spec fn inv(self) -> bool {
        self.syntax.kind_view() == SyntaxKind::TS_NAMESPACE_DECL
    }

    pub fn declare_token(&self) -> (r: SyntaxResult<SyntaxToken<'a>>)
        ensures
            required_token_field(self.syntax_view(), seq![SyntaxKind::DECLARE_KW], r),
    {
        support::required_token(&self.syntax, SyntaxKind::DECLARE_KW)
    }

    pub fn ident(&self) -> (r: SyntaxResult<Ident<'a>>)
        ensures
            required_node_field(self.syntax_view(), r),
    {
        support::required_node(&self.syntax)
    }

    pub fn dot_token(&self) -> (r: Option<SyntaxToken<'a>>)
        ensures
            token_field(self.syntax_view(), seq![SyntaxKind::DOT], r),
    {
        support::token(&self.syntax, SyntaxKind::DOT)
    }

    pub fn body(&self) -> (r: SyntaxResult<TsNamespaceBody<'a>>)
        ensures
            required_node_field(self.syntax_view(), r),
    {
        support::required_node(&self.syntax)
    }
}

impl<'a> AstNode<'a> for TsNamespaceDecl<'a> {
    open spec fn kind_ok(kind: SyntaxKind) -> bool {
        kind == SyntaxKind::TS_NAMESPACE_DECL
    }

    closed spec fn syntax_view(&self) -> SyntaxNode<'a> {
        self.syntax
    }

    fn can_cast(kind: SyntaxKind) -> (r: bool) {
        kind == SyntaxKind::TS_NAMESPACE_DECL
    }

    fn cast(syntax: SyntaxNode<'a>) -> (r: Option<Self>) {
        if syntax.kind() == SyntaxKind::TS_NAMESPACE_DECL {
            Some(TsNamespaceDecl { syntax })
        } else {
            None
        }
    }

    fn syntax(&self) -> (r: &SyntaxNode<'a>) {
        proof {
            use_type_invariant(self);
        }
        &self.syntax
    }
}

/// A node of kind `TS_MODULE_DECL`.
#[derive(Clone, Copy, Debug)]
pub struct TsModuleDecl<'a> {
    syntax: SyntaxNode<'a>,
}

impl<'a> TsModuleDecl<'a> {
    #[verifier::type_invariant]
    spec fn inv(self) -> bool {
        self.syntax.kind_view() == SyntaxKind::TS_MODULE_DECL
    }

    pub fn declare_token(&self) -> (r: SyntaxResult<SyntaxToken<'a>>)
        ensures
            required_token_field(self.syntax_view(), seq![SyntaxKind::DECLARE_KW], r),
    {
        support::required_token(&self.syntax, SyntaxKind::DECLARE_KW)
    }

    pub fn global_token(&self) -> (r: Option<SyntaxToken<'a>>)
        ensures
            token_field(self.syntax_view(), seq![SyntaxKind::GLOBAL_KW], r),
    {
        support::token(&self.syntax, SyntaxKind::GLOBAL_KW)
    }

    pub fn module_token(&self) -> (r: SyntaxResult<SyntaxToken<'a>>)
        ensures
            required_token_field(self.syntax_view(), seq![SyntaxKind::MODULE_KW], r),
    {
        support::required_token(&self.syntax, SyntaxKind::MODULE_KW)
    }

    pub fn dot_token(&self) -> (r: Option<SyntaxToken<'a>>)
        ensures
            token_field(self.syntax_view(), seq![SyntaxKind::DOT], r),
    {
        support::token(&self.syntax, SyntaxKind::DOT)
    }

    pub fn ident(&self) -> (r: SyntaxResult<Ident<'a>>)
        ensures
            required_node_field(self.syntax_view(), r),
    {
        support::required_node(&self.syntax)
    }

    pub fn body(&self) -> (r: SyntaxResult<TsNamespaceBody<'a>>)
        ensures
            required_node_field(self.syntax_view(), r),
    {
        support::required_node(&self.syntax)
    }
}

impl<'a> AstNode<'a> for TsModuleDecl<'a> {
    open spec fn kind_ok(kind: SyntaxKind) -> bool {
        kind == SyntaxKind::TS_MODULE_DECL
    }

    closed spec fn syntax_view(&self) -> SyntaxNode<'a> {
        self.syntax
    }

    fn can_cast(kind: SyntaxKind) -> (r: bool) {
        kind == SyntaxKind::TS_MODULE_DECL
    }

    fn cast(syntax: SyntaxNode<'a>) -> (r: Option<Self>) {
        if syntax.kind() == SyntaxKind::TS_MODULE_DECL {
            Some(TsModuleDecl { syntax })
        } else {
            None
        }
    }

    fn syntax(&self) -> (r: &SyntaxNode<'a>) {
        proof {
            use_type_invariant(self);
        }
        &self.syntax
    }
}

/// A node of kind `TS_INTERFACE_DECL`.
#[derive(Clone, Copy, Debug)]
pub struct TsInterfaceDecl<'a> {
    syntax: SyntaxNode<'a>,
}

impl<'a> TsInterfaceDecl<'a> {
    #[verifier::type_invariant]
    spec fn inv(self) -> bool {
        self.syntax.kind_view() == SyntaxKind::TS_INTERFACE_DECL
    }

    pub fn declare_token(&self) -> (r: Option<SyntaxToken<'a>>)
        ensures
            token_field(self.syntax_view(), seq![SyntaxKind::DECLARE_KW], r),
    {
        support::token(&self.syntax, SyntaxKind::DECLARE_KW)
    }

    pub fn interface_token(&self) -> (r: SyntaxResult<SyntaxToken<'a>>)
        ensures
            required_token_field(self.syntax_view(), seq![SyntaxKind::INTERFACE_KW], r),
    {
        support::required_token(&self.syntax, SyntaxKind::INTERFACE_KW)
    }

    pub fn type_params(&self) -> (r: SyntaxResult<TsTypeParams<'a>>)
        ensures
            required_node_field(self.syntax_view(), r),
    {
        support::required_node(&self.syntax)
    }

    pub fn extends_token(&self) -> (r: Option<SyntaxToken<'a>>)
        ensures
            token_field(self.syntax_view(), seq![SyntaxKind::EXTENDS_KW], r),
    {
        support::token(&self.syntax, SyntaxKind::EXTENDS_KW)
    }

    pub fn extends(&self) -> (r: Option<TsExprWithTypeArgs<'a>>)
        ensures
            node_field(self.syntax_view(), r),
    {
        support::node(&self.syntax)
    }

    pub fn l_curly_token(&self) -> (r: SyntaxResult<SyntaxToken<'a>>)
        ensures
            required_token_field(self.syntax_view(), seq![SyntaxKind::L_CURLY], r),
    {
        support::required_token(&self.syntax, SyntaxKind::L_CURLY)
    }

    pub fn members(&self) -> (r: SyntaxResult<TsTypeElement<'a>>)
        ensures
            required_node_field(self.syntax_view(), r),
    {
        support::required_node(&self.syntax)
    }

    pub fn r_curly_token(&self) -> (r: SyntaxResult<SyntaxToken<'a>>)
        ensures
            required_token_field(self.syntax_view(), seq![SyntaxKind::R_CURLY], r),
    {
        support::required_token(&self.syntax, SyntaxKind::R_CURLY)
    }
}

impl<'a> AstNode<'a> for TsInterfaceDecl<'a> {
    open spec fn kind_ok(kind: SyntaxKind) -> bool {
        kind == SyntaxKind::TS_INTERFACE_DECL
    }

    closed spec fn syntax_view(&self) -> SyntaxNode<'a> {
        self.syntax
    }

    fn can_cast(kind: SyntaxKind) -> (r: bool) {
        kind == SyntaxKind::TS_INTERFACE_DECL
    }

    fn cast(syntax: SyntaxNode<'a>) -> (r: Option<Self>) {
        if syntax.kind() == SyntaxKind::TS_INTERFACE_DECL {
            Some(TsInterfaceDecl { syntax })
        } else {
            None
        }
    }

    fn syntax(&self) -> (r: &SyntaxNode<'a>) {
        proof {
            use_type_invariant(self);
        }
        &self.syntax
    }
}

/// A node of kind `JS_ELSE_CLAUSE`.
#[derive(Clone, Copy, Debug)]
pub struct JsElseClause<'a> {
    syntax: SyntaxNode<'a>,
}

impl<'a> JsElseClause<'a> {
    #[verifier::type_invariant]
    spec fn inv(self) -> bool {
        self.syntax.kind_view() == SyntaxKind::JS_ELSE_CLAUSE
    }

    pub fn else_token(&self) -> (r: SyntaxResult<SyntaxToken<'a>>)
        ensures
            required_token_field(self.syntax_view(), seq![SyntaxKind::ELSE_KW], r),
    {
        support::required_token(&self.syntax, SyntaxKind::ELSE_KW)
    }

    pub fn alternate(&self) -> (r: SyntaxResult<JsAnyStatement<'a>>)
        ensures
            required_node_field(self.syntax_view(), r),
    {
        support::required_node(&self.syntax)
    }
}

impl<'a> AstNode<'a> for JsElseClause<'a> {
    open spec fn kind_ok(kind: SyntaxKind) -> bool {
        kind == SyntaxKind::JS_ELSE_CLAUSE
    }

    closed spec fn syntax_view(&self) -> SyntaxNode<'a> {
        self.syntax
    }

    fn can_cast(kind: SyntaxKind) -> (r: bool) {
        kind == SyntaxKind::JS_ELSE_CLAUSE
    }

    fn cast(syntax: SyntaxNode<'a>) -> (r: Option<Self>) {
        if syntax.kind() == SyntaxKind::JS_ELSE_CLAUSE {
            Some(JsElseClause { syntax })
        } else {
            None
        }
    }

    fn syntax(&self) -> (r: &SyntaxNode<'a>) {
        proof {
            use_type_invariant(self);
        }
        &self.syntax
    }
}

/// A node of kind `FOR_STMT_INIT`.
#[derive(Clone, Copy, Debug)]
pub struct ForStmtInit<'a> {
    syntax: SyntaxNode<'a>,
}

impl<'a> ForStmtInit<'a> {
    #[verifier::type_invariant]
    spec fn inv(self) -> bool {
        self.syntax.kind_view() == SyntaxKind::FOR_STMT_INIT
    }

    pub fn inner(&self) -> (r: SyntaxResult<ForHead<'a>>)
        ensures
            required_node_field(self.syntax_view(), r),
    {
        support::required_node(&self.syntax)
    }
}

impl<'a> AstNode<'a> for ForStmtInit<'a> {
    open spec fn kind_ok(kind: SyntaxKind) -> bool {
        kind == SyntaxKind::FOR_STMT_INIT
    }

    closed spec fn syntax_view(&self) -> SyntaxNode<'a> {
        self.syntax
    }

    fn can_cast(kind: SyntaxKind) -> (r: bool) {
        kind == SyntaxKind::FOR_STMT_INIT
    }

    fn cast(syntax: SyntaxNode<'a>) -> (r: Option<Self>) {
        if syntax.kind() == SyntaxKind::FOR_STMT_INIT {
            Some(ForStmtInit { syntax })
        } else {
            None
        }
    }

    fn syntax(&self) -> (r: &SyntaxNode<'a>) {
        proof {
            use_type_invariant(self);
        }
        &self.syntax
    }
}

/// A node of kind `FOR_STMT_TEST`.
#[derive(Clone, Copy, Debug)]
pub struct ForStmtTest<'a> {
    syntax: SyntaxNode<'a>,
}

impl<'a> ForStmtTest<'a> {
    #[verifier::type_invariant]
    spec fn inv(self) -> bool {
        self.syntax.kind_view() == SyntaxKind::FOR_STMT_TEST
    }

    pub fn expr(&self) -> (r: SyntaxResult<JsAnyExpression<'a>>)
        ensures
            required_node_field(self.syntax_view(), r),
    {
        support::required_node(&self.syntax)
    }
}

impl<'a> AstNode<'a> for ForStmtTest<'a> {
    open spec fn kind_ok(kind: SyntaxKind) -> bool {
        kind == SyntaxKind::FOR_STMT_TEST
    }

    closed spec fn syntax_view(&self) -> SyntaxNode<'a> {
        self.syntax
    }

    fn can_cast(kind: SyntaxKind) -> (r: bool) {
        kind == SyntaxKind::FOR_STMT_TEST
    }

    fn cast(syntax: SyntaxNode<'a>) -> (r: Option<Self>) {
        if syntax.kind() == SyntaxKind::FOR_STMT_TEST {
            Some(ForStmtTest { syntax })
        } else {
            None
        }
    }

    fn syntax(&self) -> (r: &SyntaxNode<'a>) {
        proof {
            use_type_invariant(self);
        }
        &self.syntax
    }
}

/// A node of kind `FOR_STMT_UPDATE`.
#[derive(Clone, Copy, Debug)]
pub struct ForStmtUpdate<'a> {
    syntax: SyntaxNode<'a>,
}

impl<'a> ForStmtUpdate<'a> {
    #[verifier::type_invariant]
    spec fn inv(self) -> bool {
        self.syntax.kind_view() == SyntaxKind::FOR_STMT_UPDATE
    }

    pub fn expr(&self) -> (r: SyntaxResult<JsAnyExpression<'a>>)
        ensures
            required_node_field(self.syntax_view(), r),
    {
        support::required_node(&self.syntax)
    }
}

impl<'a> AstNode<'a> for ForStmtUpdate<'a> {
    open spec fn kind_ok(kind: SyntaxKind) -> bool {
        kind == SyntaxKind::FOR_STMT_UPDATE
    }

    closed spec fn syntax_view(&self) -> SyntaxNode<'a> {
        self.syntax
    }

    fn can_cast(kind: SyntaxKind) -> (r: bool) {
        kind == SyntaxKind::FOR_STMT_UPDATE
    }

    fn cast(syntax: SyntaxNode<'a>) -> (r: Option<Self>) {
        if syntax.kind() == SyntaxKind::FOR_STMT_UPDATE {
            Some(ForStmtUpdate { syntax })
        } else {
            None
        }
    }

    fn syntax(&self) -> (r: &SyntaxNode<'a>) {
        proof {
            use_type_invariant(self);
        }
        &self.syntax
    }
}

/// A node of kind `JS_VARIABLE_DECLARATION`.
#[derive(Clone, Copy, Debug)]
pub struct JsVariableDeclaration<'a> {
    syntax: SyntaxNode<'a>,
}

impl<'a> JsVariableDeclaration<'a> {
    #[verifier::type_invariant]
    spec fn inv(self) -> bool {
        self.syntax.kind_view() == SyntaxKind::JS_VARIABLE_DECLARATION
    }

    pub fn kind_token(&self) -> (r: SyntaxResult<SyntaxToken<'a>>)
        ensures
            required_token_field(self.syntax_view(), seq![SyntaxKind::VAR_KW, SyntaxKind::CONST_KW, SyntaxKind::LET_KW], r),
    {
        let kinds = [SyntaxKind::VAR_KW, SyntaxKind::CONST_KW, SyntaxKind::LET_KW];
        assert(kinds@ =~= seq![SyntaxKind::VAR_KW, SyntaxKind::CONST_KW, SyntaxKind::LET_KW]);
        support::find_required_token(&self.syntax, &kinds)
    }

    pub fn declarators(&self) -> (r: AstSeparatedList<'a, JsVariableDeclarator<'a>>)
        ensures
            list_field(self.syntax_view(), 0, r.list_view()),
    {
        support::separated_list(&self.syntax, 0)
    }
}

impl<'a> AstNode<'a> for JsVariableDeclaration<'a> {
    open spec fn kind_ok(kind: SyntaxKind) -> bool {
        kind == SyntaxKind::JS_VARIABLE_DECLARATION
    }

    closed spec fn syntax_view(&self) -> SyntaxNode<'a> {
        self.syntax
    }

    fn can_cast(kind: SyntaxKind) -> (r: bool) {
        kind == SyntaxKind::JS_VARIABLE_DECLARATION
    }

    fn cast(syntax: SyntaxNode<'a>) -> (r: Option<Self>) {
        if syntax.kind() == SyntaxKind::JS_VARIABLE_DECLARATION {
            Some(JsVariableDeclaration { syntax })
        } else {
            None
        }
    }

    fn syntax(&self) -> (r: &SyntaxNode<'a>) {
        proof {
            use_type_invariant(self);
        }
        &self.syntax
    }
}

/// A node of kind `JS_CASE_CLAUSE`.
#[derive(Clone, Copy, Debug)]
pub struct JsCaseClause<'a> {
    syntax: SyntaxNode<'a>,
}

impl<'a> JsCaseClause<'a> {
    #[verifier::type_invariant]
    spec fn inv(self) -> bool {
        self.syntax.kind_view() == SyntaxKind::JS_CASE_CLAUSE
    }

    pub fn case_token(&self) -> (r: SyntaxResult<SyntaxToken<'a>>)
        ensures
            required_token_field(self.syntax_view(), seq![SyntaxKind::CASE_KW], r),
    {
        support::required_token(&self.syntax, SyntaxKind::CASE_KW)
    }

    pub fn test(&self) -> (r: SyntaxResult<JsAnyExpression<'a>>)
        ensures
            required_node_field(self.syntax_view(), r),
    {
        support::required_node(&self.syntax)
    }

    pub fn colon_token(&self) -> (r: SyntaxResult<SyntaxToken<'a>>)
        ensures
            required_token_field(self.syntax_view(), seq![SyntaxKind::COLON], r),
    {
        support::required_token(&self.syntax, SyntaxKind::COLON)
    }

    pub fn consequent(&self) -> (r: AstNodeList<'a, JsAnyStatement<'a>>)
        ensures
            list_field(self.syntax_view(), 0, r.list_view()),
    {
        support::node_list(&self.syntax, 0)
    }
}

impl<'a> AstNode<'a> for JsCaseClause<'a> {
    open spec fn kind_ok(kind: SyntaxKind) -> bool {
        kind == SyntaxKind::JS_CASE_CLAUSE
    }

    closed spec fn syntax_view(&self) -> SyntaxNode<'a> {
        self.syntax
    }

    fn can_cast(kind: SyntaxKind) -> (r: bool) {
        kind == SyntaxKind::JS_CASE_CLAUSE
    }

    fn cast(syntax: SyntaxNode<'a>) -> (r: Option<Self>) {
        if syntax.kind() == SyntaxKind::JS_CASE_CLAUSE {
            Some(JsCaseClause { syntax })
        } else {
            None
        }
    }

    fn syntax(&self) -> (r: &SyntaxNode<'a>) {
        proof {
            use_type_invariant(self);
        }
        &self.syntax
    }
}

/// A node of kind `JS_DEFAULT_CLAUSE`.
#[derive(Clone, Copy, Debug)]
pub struct JsDefaultClause<'a> {
    syntax: SyntaxNode<'a>,
}

impl<'a> JsDefaultClause<'a> {
    #[verifier::type_invariant]
    spec fn inv(self) -> bool {
        self.syntax.kind_view() == SyntaxKind::JS_DEFAULT_CLAUSE
    }

    pub fn default_token(&self) -> (r: SyntaxResult<SyntaxToken<'a>>)
        ensures
            required_token_field(self.syntax_view(), seq![SyntaxKind::DEFAULT_KW], r),
    {
        support::required_token(&self.syntax, SyntaxKind::DEFAULT_KW)
    }

    pub fn colon_token(&self) -> (r: SyntaxResult<SyntaxToken<'a>>)
        ensures
            required_token_field(self.syntax_view(), seq![SyntaxKind::COLON], r),
    {
        support::required_token(&self.syntax, SyntaxKind::COLON)
    }

    pub fn consequent(&self) -> (r: AstNodeList<'a, JsAnyStatement<'a>>)
        ensures
            list_field(self.syntax_view(), 0, r.list_view()),
    {
        support::node_list(&self.syntax, 0)
    }
}

impl<'a> AstNode<'a> for JsDefaultClause<'a> {
    open spec fn kind_ok(kind: SyntaxKind) -> bool {
        kind == SyntaxKind::JS_DEFAULT_CLAUSE
    }

    closed spec fn syntax_view(&self) -> SyntaxNode<'a> {
        self.syntax
    }

    fn can_cast(kind: SyntaxKind) -> (r: bool) {
        kind == SyntaxKind::JS_DEFAULT_CLAUSE
    }

    fn cast(syntax: SyntaxNode<'a>) -> (r: Option<Self>) {
        if syntax.kind() == SyntaxKind::JS_DEFAULT_CLAUSE {
            Some(JsDefaultClause { syntax })
        } else {
            None
        }
    }

    fn syntax(&self) -> (r: &SyntaxNode<'a>) {
        proof {
            use_type_invariant(self);
        }
        &self.syntax
    }
}

/// A node of kind `JS_CATCH_CLAUSE`.
#[derive(Clone, Copy, Debug)]
pub struct JsCatchClause<'a> {
    syntax: SyntaxNode<'a>,
}

impl<'a> JsCatchClause<'a> {
    #[verifier::type_invariant]
    spec fn inv(self) -> bool {
        self.syntax.kind_view() == SyntaxKind::JS_CATCH_CLAUSE
    }

    pub fn catch_token(&self) -> (r: SyntaxResult<SyntaxToken<'a>>)
        ensures
            required_token_field(self.syntax_view(), seq![SyntaxKind::CATCH_KW], r),
    {
        support::required_token(&self.syntax, SyntaxKind::CATCH_KW)
    }

    pub fn declaration(&self) -> (r: Option<JsCatchDeclaration<'a>>)
        ensures
            node_field(self.syntax_view(), r),
    {
        support::node(&self.syntax)
    }

    pub fn body(&self) -> (r: SyntaxResult<JsBlockStatement<'a>>)
        ensures
            required_node_field(self.syntax_view(), r),
    {
        support::required_node(&self.syntax)
    }
}

impl<'a> AstNode<'a> for JsCatchClause<'a> {
    open spec fn kind_ok(kind: SyntaxKind) -> bool {
        kind == SyntaxKind::JS_CATCH_CLAUSE
    }

    closed spec fn syntax_view(&self) -> SyntaxNode<'a> {
        self.syntax
    }

    fn can_cast(kind: SyntaxKind) -> (r: bool) {
        kind == SyntaxKind::JS_CATCH_CLAUSE
    }

    fn cast(syntax: SyntaxNode<'a>) -> (r: Option<Self>) {
        if syntax.kind() == SyntaxKind::JS_CATCH_CLAUSE {
            Some(JsCatchClause { syntax })
        } else {
            None
        }
    }

    fn syntax(&self) -> (r: &SyntaxNode<'a>) {
        proof {
            use_type_invariant(self);
        }
        &self.syntax
    }
}

/// A node of kind `JS_FINALLY_CLAUSE`.
#[derive(Clone, Copy, Debug)]
pub struct JsFinallyClause<'a> {
    syntax: SyntaxNode<'a>,
}

impl<'a> JsFinallyClause<'a> {
    #[verifier::type_invariant]
    spec fn inv(self) -> bool {
        self.syntax.kind_view() == SyntaxKind::JS_FINALLY_CLAUSE
    }

    pub fn finally_token(&self) -> (r: SyntaxResult<SyntaxToken<'a>>)
        ensures
            required_token_field(self.syntax_view(), seq![SyntaxKind::FINALLY_KW], r),
    {
        support::required_token(&self.syntax, SyntaxKind::FINALLY_KW)
    }

    pub fn body(&self) -> (r: SyntaxResult<JsBlockStatement<'a>>)
        ensures
            required_node_field(self.syntax_view(), r),
    {
        support::required_node(&self.syntax)
    }
}

impl<'a> AstNode<'a> for JsFinallyClause<'a> {
    open spec fn kind_ok(kind: SyntaxKind) -> bool {
        kind == SyntaxKind::JS_FINALLY_CLAUSE
    }

    closed spec fn syntax_view(&self) -> SyntaxNode<'a> {
        self.syntax
    }

    fn can_cast(kind: SyntaxKind) -> (r: bool) {
        kind == SyntaxKind::JS_FINALLY_CLAUSE
    }

    fn cast(syntax: SyntaxNode<'a>) -> (r: Option<Self>) {
        if syntax.kind() == SyntaxKind::JS_FINALLY_CLAUSE {
            Some(JsFinallyClause { syntax })
        } else {
            None
        }
    }

    fn syntax(&self) -> (r: &SyntaxNode<'a>) {
        proof {
            use_type_invariant(self);
        }
        &self.syntax
    }
}

/// A node of kind `JS_CATCH_DECLARATION`.
#[derive(Clone, Copy, Debug)]
pub struct JsCatchDeclaration<'a> {
    syntax: SyntaxNode<'a>,
}

impl<'a> JsCatchDeclaration<'a> {
    #[verifier::type_invariant]
    spec fn inv(self) -> bool {
        self.syntax.kind_view() == SyntaxKind::JS_CATCH_DECLARATION
    }

    pub fn l_paren_token(&self) -> (r: SyntaxResult<SyntaxToken<'a>>)
        ensures
            required_token_field(self.syntax_view(), seq![SyntaxKind::L_PAREN], r),
    {
        support::required_token(&self.syntax, SyntaxKind::L_PAREN)
    }

    pub fn binding(&self) -> (r: SyntaxResult<JsAnyBindingPattern<'a>>)
        ensures
            required_node_field(self.syntax_view(), r),
    {
        support::required_node(&self.syntax)
    }

    pub fn r_paren_token(&self) -> (r: SyntaxResult<SyntaxToken<'a>>)
        ensures
            required_token_field(self.syntax_view(), seq![SyntaxKind::R_PAREN], r),
    {
        support::required_token(&self.syntax, SyntaxKind::R_PAREN)
    }
}

impl<'a> AstNode<'a> for JsCatchDeclaration<'a> {
    open spec fn kind_ok(kind: SyntaxKind) -> bool {
        kind == SyntaxKind::JS_CATCH_DECLARATION
    }

    closed spec fn syntax_view(&self) -> SyntaxNode<'a> {
        self.syntax
    }

    fn can_cast(kind: SyntaxKind) -> (r: bool) {
        kind == SyntaxKind::JS_CATCH_DECLARATION
    }

    fn cast(syntax: SyntaxNode<'a>) -> (r: Option<Self>) {
        if syntax.kind() == SyntaxKind::JS_CATCH_DECLARATION {
            Some(JsCatchDeclaration { syntax })
        } else {
            None
        }
    }

    fn syntax(&self) -> (r: &SyntaxNode<'a>) {
        proof {
            use_type_invariant(self);
        }
        &self.syntax
    }
}

/// A node of kind `JS_ARRAY_EXPRESSION`.
#[derive(Clone, Copy, Debug)]
pub struct JsArrayExpression<'a> {
    syntax: SyntaxNode<'a>,
}

impl<'a> JsArrayExpression<'a> {
    #[verifier::type_invariant]
    spec fn inv(self) -> bool {
        self.syntax.kind_view() == SyntaxKind::JS_ARRAY_EXPRESSION
    }

    pub fn l_brack_token(&self) -> (r: SyntaxResult<SyntaxToken<'a>>)
        ensures
            required_token_field(self.syntax_view(), seq![SyntaxKind::L_BRACK], r),
    {
        support::required_token(&self.syntax, SyntaxKind::L_BRACK)
    }

    pub fn elements(&self) -> (r: AstSeparatedList<'a, JsAnyArrayElement<'a>>)
        ensures
            list_field(self.syntax_view(), 0, r.list_view()),
    {
        support::separated_list(&self.syntax, 0)
    }

    pub fn r_brack_token(&self) -> (r: SyntaxResult<SyntaxToken<'a>>)
        ensures
            required_token_field(self.syntax_view(), seq![SyntaxKind::R_BRACK], r),
    {
        support::required_token(&self.syntax, SyntaxKind::R_BRACK)
    }
}

impl<'a> AstNode<'a> for JsArrayExpression<'a> {
    open spec fn kind_ok(kind: SyntaxKind) -> bool {
        kind == SyntaxKind::JS_ARRAY_EXPRESSION
    }

    closed spec fn syntax_view(&self) -> SyntaxNode<'a> {
        self.syntax
    }

    fn can_cast(kind: SyntaxKind) -> (r: bool) {
        kind == SyntaxKind::JS_ARRAY_EXPRESSION
    }

    fn cast(syntax: SyntaxNode<'a>) -> (r: Option<Self>) {
        if syntax.kind() == SyntaxKind::JS_ARRAY_EXPRESSION {
            Some(JsArrayExpression { syntax })
        } else {
            None
        }
    }

    fn syntax(&self) -> (r: &SyntaxNode<'a>) {
        proof {
            use_type_invariant(self);
        }
        &self.syntax
    }
}

/// A node of kind `JS_ARROW_FUNCTION_EXPRESSION`.
#[derive(Clone, Copy, Debug)]
pub struct JsArrowFunctionExpression<'a> {
    syntax: SyntaxNode<'a>,
}

impl<'a> JsArrowFunctionExpression<'a> {
    #[verifier::type_invariant]
    spec fn inv(self) -> bool {
        self.syntax.kind_view() == SyntaxKind::JS_ARROW_FUNCTION_EXPRESSION
    }

    pub fn async_token(&self) -> (r: Option<SyntaxToken<'a>>)
        ensures
            token_field(self.syntax_view(), seq![SyntaxKind::ASYNC_KW], r),
    {
        support::token(&self.syntax, SyntaxKind::ASYNC_KW)
    }

    pub fn type_parameters(&self) -> (r: Option<TsTypeParams<'a>>)
        ensures
            node_field(self.syntax_view(), r),
    {
        support::node(&self.syntax)
    }

    pub fn parameter_list(&self) -> (r: Option<JsAnyArrowFunctionParameters<'a>>)
        ensures
            node_field(self.syntax_view(), r),
    {
        support::node(&self.syntax)
    }

    pub fn fat_arrow_token(&self) -> (r: SyntaxResult<SyntaxToken<'a>>)
        ensures
            required_token_field(self.syntax_view(), seq![SyntaxKind::FAT_ARROW], r),
    {
        support::required_token(&self.syntax, SyntaxKind::FAT_ARROW)
    }

    pub fn return_type(&self) -> (r: Option<TsTypeAnnotation<'a>>)
        ensures
            node_field(self.syntax_view(), r),
    {
        support::node(&self.syntax)
    }
}

impl<'a> AstNode<'a> for JsArrowFunctionExpression<'a> {
    open spec fn kind_ok(kind: SyntaxKind) -> bool {
        kind == SyntaxKind::JS_ARROW_FUNCTION_EXPRESSION
    }

    closed spec fn syntax_view(&self) -> SyntaxNode<'a> {
        self.syntax
    }

    fn can_cast(kind: SyntaxKind) -> (r: bool) {
        kind == SyntaxKind::JS_ARROW_FUNCTION_EXPRESSION
    }

    fn cast(syntax: SyntaxNode<'a>) -> (r: Option<Self>) {
        if syntax.kind() == SyntaxKind::JS_ARROW_FUNCTION_EXPRESSION {
            Some(JsArrowFunctionExpression { syntax })
        } else {
            None
        }
    }

    fn syntax(&self) -> (r: &SyntaxNode<'a>) {
        proof {
            use_type_invariant(self);
        }
        &self.syntax
    }
}

/// A node of kind `JS_ASSIGNMENT_EXPRESSION`.
#[derive(Clone, Copy, Debug)]
pub struct JsAssignmentExpression<'a> {
    syntax: SyntaxNode<'a>,
}

impl<'a> JsAssignmentExpression<'a> {
    #[verifier::type_invariant]
    spec fn inv(self) -> bool {
        self.syntax.kind_view() == SyntaxKind::JS_ASSIGNMENT_EXPRESSION
    }

    pub fn left(&self) -> (r: SyntaxResult<JsAnyAssignmentPattern<'a>>)
        ensures
            required_node_field(self.syntax_view(), r),
    {
        support::required_node(&self.syntax)
    }

    pub fn operator_token(&self) -> (r: SyntaxResult<SyntaxToken<'a>>)
        ensures
            required_token_field(self.syntax_view(), seq![SyntaxKind::EQ, SyntaxKind::PLUSEQ, SyntaxKind::MINUSEQ, SyntaxKind::STAREQ, SyntaxKind::SLASHEQ, SyntaxKind::PERCENTEQ, SyntaxKind::STAR2EQ, SyntaxKind::SHREQ, SyntaxKind::SHLEQ, SyntaxKind::USHREQ, SyntaxKind::AMPEQ, SyntaxKind::PIPEEQ, SyntaxKind::CARETEQ, SyntaxKind::AMP2EQ, SyntaxKind::PIPE2EQ, SyntaxKind::QUESTION2EQ], r),
    {
        let kinds = [SyntaxKind::EQ, SyntaxKind::PLUSEQ, SyntaxKind::MINUSEQ, SyntaxKind::STAREQ, SyntaxKind::SLASHEQ, SyntaxKind::PERCENTEQ, SyntaxKind::STAR2EQ, SyntaxKind::SHREQ, SyntaxKind::SHLEQ, SyntaxKind::USHREQ, SyntaxKind::AMPEQ, SyntaxKind::PIPEEQ, SyntaxKind::CARETEQ, SyntaxKind::AMP2EQ, SyntaxKind::PIPE2EQ, SyntaxKind::QUESTION2EQ];
        assert(kinds@ =~= seq![SyntaxKind::EQ, SyntaxKind::PLUSEQ, SyntaxKind::MINUSEQ, SyntaxKind::STAREQ, SyntaxKind::SLASHEQ, SyntaxKind::PERCENTEQ, SyntaxKind::STAR2EQ, SyntaxKind::SHREQ, SyntaxKind::SHLEQ, SyntaxKind::USHREQ, SyntaxKind::AMPEQ, SyntaxKind::PIPEEQ, SyntaxKind::CARETEQ, SyntaxKind::AMP2EQ, SyntaxKind::PIPE2EQ, SyntaxKind::QUESTION2EQ]);
        support::find_required_token(&self.syntax, &kinds)
    }

    pub fn right(&self) -> (r: SyntaxResult<JsAnyExpression<'a>>)
        ensures
            required_node_field(self.syntax_view(), r),
    {
        support::required_node(&self.syntax)
    }
}

impl<'a> AstNode<'a> for JsAssignmentExpression<'a> {
    open spec fn kind_ok(kind: SyntaxKind) -> bool {
        kind == SyntaxKind::JS_ASSIGNMENT_EXPRESSION
    }

    closed spec fn syntax_view(&self) -> SyntaxNode<'a> {
        self.syntax
    }

    fn can_cast(kind: SyntaxKind) -> (r: bool) {
        kind == SyntaxKind::JS_ASSIGNMENT_EXPRESSION
    }

    fn cast(syntax: SyntaxNode<'a>) -> (r: Option<Self>) {
        if syntax.kind() == SyntaxKind::JS_ASSIGNMENT_EXPRESSION {
            Some(JsAssignmentExpression { syntax })
        } else {
            None
        }
    }

    fn syntax(&self) -> (r: &SyntaxNode<'a>) {
        proof {
            use_type_invariant(self);
        }
        &self.syntax
    }
}

/// A node of kind `JS_AWAIT_EXPRESSION`.
#[derive(Clone, Copy, Debug)]
pub struct JsAwaitExpression<'a> {
    syntax: SyntaxNode<'a>,
}

impl<'a> JsAwaitExpression<'a> {
    #[verifier::type_invariant]
    spec fn inv(self) -> bool {
        self.syntax.kind_view() == SyntaxKind::JS_AWAIT_EXPRESSION
    }

    pub fn await_token(&self) -> (r: SyntaxResult<SyntaxToken<'a>>)
        ensures
            required_token_field(self.syntax_view(), seq![SyntaxKind::AWAIT_KW], r),
    {
        support::required_token(&self.syntax, SyntaxKind::AWAIT_KW)
    }

    pub fn argument(&self) -> (r: SyntaxResult<JsAnyExpression<'a>>)
        ensures
            required_node_field(self.syntax_view(), r),
    {
        support::required_node(&self.syntax)
    }
}

impl<'a> AstNode<'a> for JsAwaitExpression<'a> {
    open spec fn kind_ok(kind: SyntaxKind) -> bool {
        kind == SyntaxKind::JS_AWAIT_EXPRESSION
    }

    closed spec fn syntax_view(&self) -> SyntaxNode<'a> {
        self.syntax
    }

    fn can_cast(kind: SyntaxKind) -> (r: bool) {
        kind == SyntaxKind::JS_AWAIT_EXPRESSION
    }

    fn cast(syntax: SyntaxNode<'a>) -> (r: Option<Self>) {
        if syntax.kind() == SyntaxKind::JS_AWAIT_EXPRESSION {
            Some(JsAwaitExpression { syntax })
        } else {
            None
        }
    }

    fn syntax(&self) -> (r: &SyntaxNode<'a>) {
        proof {
            use_type_invariant(self);
        }
        &self.syntax
    }
}

/// A node of kind `JS_BINARY_EXPRESSION`.
#[derive(Clone, Copy, Debug)]
pub struct JsBinaryExpression<'a> {
    syntax: SyntaxNode<'a>,
}

impl<'a> JsBinaryExpression<'a> {
    #[verifier::type_invariant]
    spec fn inv(self) -> bool {
        self.syntax.kind_view() == SyntaxKind::JS_BINARY_EXPRESSION
    }

    pub fn left(&self) -> (r: SyntaxResult<JsAnyExpression<'a>>)
        ensures
            required_node_field(self.syntax_view(), r),
    {
        support::required_node(&self.syntax)
    }

    pub fn operator(&self) -> (r: SyntaxResult<SyntaxToken<'a>>)
        ensures
            required_token_field(self.syntax_view(), seq![SyntaxKind::L_ANGLE, SyntaxKind::R_ANGLE, SyntaxKind::LTEQ, SyntaxKind::GTEQ, SyntaxKind::EQ2, SyntaxKind::EQ3, SyntaxKind::NEQ, SyntaxKind::NEQ2, SyntaxKind::PLUS, SyntaxKind::MINUS, SyntaxKind::STAR, SyntaxKind::SLASH, SyntaxKind::PERCENT, SyntaxKind::STAR2, SyntaxKind::SHL, SyntaxKind::SHR, SyntaxKind::USHR, SyntaxKind::AMP, SyntaxKind::PIPE, SyntaxKind::CARET, SyntaxKind::IN_KW, SyntaxKind::INSTANCEOF_KW], r),
    {
        let kinds = [SyntaxKind::L_ANGLE, SyntaxKind::R_ANGLE, SyntaxKind::LTEQ, SyntaxKind::GTEQ, SyntaxKind::EQ2, SyntaxKind::EQ3, SyntaxKind::NEQ, SyntaxKind::NEQ2, SyntaxKind::PLUS, SyntaxKind::MINUS, SyntaxKind::STAR, SyntaxKind::SLASH, SyntaxKind::PERCENT, SyntaxKind::STAR2, SyntaxKind::SHL, SyntaxKind::SHR, SyntaxKind::USHR, SyntaxKind::AMP, SyntaxKind::PIPE, SyntaxKind::CARET, SyntaxKind::IN_KW, SyntaxKind::INSTANCEOF_KW];
        assert(kinds@ =~= seq![SyntaxKind::L_ANGLE, SyntaxKind::R_ANGLE, SyntaxKind::LTEQ, SyntaxKind::GTEQ, SyntaxKind::EQ2, SyntaxKind::EQ3, SyntaxKind::NEQ, SyntaxKind::NEQ2, SyntaxKind::PLUS, SyntaxKind::MINUS, SyntaxKind::STAR, SyntaxKind::SLASH, SyntaxKind::PERCENT, SyntaxKind::STAR2, SyntaxKind::SHL, SyntaxKind::SHR, SyntaxKind::USHR, SyntaxKind::AMP, SyntaxKind::PIPE, SyntaxKind::CARET, SyntaxKind::IN_KW, SyntaxKind::INSTANCEOF_KW]);
        support::find_required_token(&self.syntax, &kinds)
    }
}

impl<'a> AstNode<'a> for JsBinaryExpression<'a> {
    open spec fn kind_ok(kind: SyntaxKind) -> bool {
        kind == SyntaxKind::JS_BINARY_EXPRESSION
    }

    closed spec fn syntax_view(&self) -> SyntaxNode<'a> {
        self.syntax
    }

    fn can_cast(kind: SyntaxKind) -> (r: bool) {
        kind == SyntaxKind::JS_BINARY_EXPRESSION
    }

    fn cast(syntax: SyntaxNode<'a>) -> (r: Option<Self>) {
        if syntax.kind() == SyntaxKind::JS_BINARY_EXPRESSION {
            Some(JsBinaryExpression { syntax })
        } else {
            None
        }
    }

    fn syntax(&self) -> (r: &SyntaxNode<'a>) {
        proof {
            use_type_invariant(self);
        }
        &self.syntax
    }
}

/// A node of kind `JS_CLASS_EXPRESSION`.
#[derive(Clone, Copy, Debug)]
pub struct JsClassExpression<'a> {
    syntax: SyntaxNode<'a>,
}

impl<'a> JsClassExpression<'a> {
    #[verifier::type_invariant]
    spec fn inv(self) -> bool {
        self.syntax.kind_view() == SyntaxKind::JS_CLASS_EXPRESSION
    }

    pub fn class_token(&self) -> (r: SyntaxResult<SyntaxToken<'a>>)
        ensures
            required_token_field(self.syntax_view(), seq![SyntaxKind::CLASS_KW], r),
    {
        support::required_token(&self.syntax, SyntaxKind::CLASS_KW)
    }

    pub fn id(&self) -> (r: Option<JsAnyBinding<'a>>)
        ensures
            node_field(self.syntax_view(), r),
    {
        support::node(&self.syntax)
    }

    pub fn extends_clause(&self) -> (r: Option<JsExtendsClause<'a>>)
        ensures
            node_field(self.syntax_view(), r),
    {
        support::node(&self.syntax)
    }

    pub fn l_curly_token(&self) -> (r: SyntaxResult<SyntaxToken<'a>>)
        ensures
            required_token_field(self.syntax_view(), seq![SyntaxKind::L_CURLY], r),
    {
        support::required_token(&self.syntax, SyntaxKind::L_CURLY)
    }

    pub fn members(&self) -> (r: AstNodeList<'a, JsAnyClassMember<'a>>)
        ensures
            list_field(self.syntax_view(), 0, r.list_view()),
    {
        support::node_list(&self.syntax, 0)
    }

    pub fn r_curly_token(&self) -> (r: SyntaxResult<SyntaxToken<'a>>)
        ensures
            required_token_field(self.syntax_view(), seq![SyntaxKind::R_CURLY], r),
    {
        support::required_token(&self.syntax, SyntaxKind::R_CURLY)
    }
}

impl<'a> AstNode<'a> for JsClassExpression<'a> {
    open spec fn kind_ok(kind: SyntaxKind) -> bool {
        kind == SyntaxKind::JS_CLASS_EXPRESSION
    }

    closed spec fn syntax_view(&self) -> SyntaxNode<'a> {
        self.syntax
    }

    fn can_cast(kind: SyntaxKind) -> (r: bool) {
        kind == SyntaxKind::JS_CLASS_EXPRESSION
    }

    fn cast(syntax: SyntaxNode<'a>) -> (r: Option<Self>) {
        if syntax.kind() == SyntaxKind::JS_CLASS_EXPRESSION {
            Some(JsClassExpression { syntax })
        } else {
            None
        }
    }

    fn syntax(&self) -> (r: &SyntaxNode<'a>) {
        proof {
            use_type_invariant(self);
        }
        &self.syntax
    }
}

/// A node of kind `JS_CONDITIONAL_EXPRESSION`.
#[derive(Clone, Copy, Debug)]
pub struct JsConditionalExpression<'a> {
    syntax: SyntaxNode<'a>,
}

impl<'a> JsConditionalExpression<'a> {
    #[verifier::type_invariant]
    spec fn inv(self) -> bool {
        self.syntax.kind_view() == SyntaxKind::JS_CONDITIONAL_EXPRESSION
    }

    pub fn test(&self) -> (r: SyntaxResult<JsAnyExpression<'a>>)
        ensures
            required_node_field(self.syntax_view(), r),
    {
        support::required_node(&self.syntax)
    }

    pub fn question_mark_token(&self) -> (r: SyntaxResult<SyntaxToken<'a>>)
        ensures
            required_token_field(self.syntax_view(), seq![SyntaxKind::QUESTION], r),
    {
        support::required_token(&self.syntax, SyntaxKind::QUESTION)
    }

    pub fn colon_token(&self) -> (r: SyntaxResult<SyntaxToken<'a>>)
        ensures
            required_token_field(self.syntax_view(), seq![SyntaxKind::COLON], r),
    {
        support::required_token(&self.syntax, SyntaxKind::COLON)
    }
}

impl<'a> AstNode<'a> for JsConditionalExpression<'a> {
    open spec fn kind_ok(kind: SyntaxKind) -> bool {
        kind == SyntaxKind::JS_CONDITIONAL_EXPRESSION
    }

    closed spec fn syntax_view(&self) -> SyntaxNode<'a> {
        self.syntax
    }

    fn can_cast(kind: SyntaxKind) -> (r: bool) {
        kind == SyntaxKind::JS_CONDITIONAL_EXPRESSION
    }

    fn cast(syntax: SyntaxNode<'a>) -> (r: Option<Self>) {
        if syntax.kind() == SyntaxKind::JS_CONDITIONAL_EXPRESSION {
            Some(JsConditionalExpression { syntax })
        } else {
            None
        }
    }

    fn syntax(&self) -> (r: &SyntaxNode<'a>) {
        proof {
            use_type_invariant(self);
        }
        &self.syntax
    }
}

/// A node of kind `JS_COMPUTED_MEMBER_EXPRESSION`.
#[derive(Clone, Copy, Debug)]
pub struct JsComputedMemberExpression<'a> {
    syntax: SyntaxNode<'a>,
}

impl<'a> JsComputedMemberExpression<'a> {
    #[verifier::type_invariant]
    spec fn inv(self) -> bool {
        self.syntax.kind_view() == SyntaxKind::JS_COMPUTED_MEMBER_EXPRESSION
    }

    pub fn object(&self) -> (r: SyntaxResult<JsAnyExpression<'a>>)
        ensures
            required_node_field(self.syntax_view(), r),
    {
        support::required_node(&self.syntax)
    }

    pub fn optional_chain_token_token(&self) -> (r: Option<SyntaxToken<'a>>)
        ensures
            token_field(self.syntax_view(), seq![SyntaxKind::QUESTIONDOT], r),
    {
        support::token(&self.syntax, SyntaxKind::QUESTIONDOT)
    }

    pub fn l_brack_token(&self) -> (r: SyntaxResult<SyntaxToken<'a>>)
        ensures
            required_token_field(self.syntax_view(), seq![SyntaxKind::L_BRACK], r),
    {
        support::required_token(&self.syntax, SyntaxKind::L_BRACK)
    }

    pub fn r_brack_token(&self) -> (r: SyntaxResult<SyntaxToken<'a>>)
        ensures
            required_token_field(self.syntax_view(), seq![SyntaxKind::R_BRACK], r),
    {
        support::required_token(&self.syntax, SyntaxKind::R_BRACK)
    }
}

impl<'a> AstNode<'a> for JsComputedMemberExpression<'a> {
    open spec fn kind_ok(kind: SyntaxKind) -> bool {
        kind == SyntaxKind::JS_COMPUTED_MEMBER_EXPRESSION
    }

    closed spec fn syntax_view(&self) -> SyntaxNode<'a> {
        self.syntax
    }

    fn can_cast(kind: SyntaxKind) -> (r: bool) {
        kind == SyntaxKind::JS_COMPUTED_MEMBER_EXPRESSION
    }

    fn cast(syntax: SyntaxNode<'a>) -> (r: Option<Self>) {
        if syntax.kind() == SyntaxKind::JS_COMPUTED_MEMBER_EXPRESSION {
            Some(JsComputedMemberExpression { syntax })
        } else {
            None
        }
    }

    fn syntax(&self) -> (r: &SyntaxNode<'a>) {
        proof {
            use_type_invariant(self);
        }
        &self.syntax
    }
}

/// A node of kind `JS_FUNCTION_EXPRESSION`.
#[derive(Clone, Copy, Debug)]
pub struct JsFunctionExpression<'a> {
    syntax: SyntaxNode<'a>,
}

impl<'a> JsFunctionExpression<'a> {
    #[verifier::type_invariant]
    spec fn inv(self) -> bool {
        self.syntax.kind_view() == SyntaxKind::JS_FUNCTION_EXPRESSION
    }

    pub fn async_token(&self) -> (r: Option<SyntaxToken<'a>>)
        ensures
            token_field(self.syntax_view(), seq![SyntaxKind::ASYNC_KW], r),
    {
        support::token(&self.syntax, SyntaxKind::ASYNC_KW)
    }

    pub fn function_token(&self) -> (r: SyntaxResult<SyntaxToken<'a>>)
        ensures
            required_token_field(self.syntax_view(), seq![SyntaxKind::FUNCTION_KW], r),
    {
        support::required_token(&self.syntax, SyntaxKind::FUNCTION_KW)
    }

    pub fn star_token(&self) -> (r: Option<SyntaxToken<'a>>)
        ensures
            token_field(self.syntax_view(), seq![SyntaxKind::STAR], r),
    {
        support::token(&self.syntax, SyntaxKind::STAR)
    }

    pub fn id(&self) -> (r: Option<JsAnyBinding<'a>>)
        ensures
            node_field(self.syntax_view(), r),
    {
        support::node(&self.syntax)
    }

    pub fn type_parameters(&self) -> (r: Option<TsTypeParams<'a>>)
        ensures
            node_field(self.syntax_view(), r),
    {
        support::node(&self.syntax)
    }

    pub fn parameters(&self) -> (r: SyntaxResult<JsParameterList<'a>>)
        ensures
            required_node_field(self.syntax_view(), r),
    {
        support::required_node(&self.syntax)
    }

    pub fn return_type(&self) -> (r: Option<TsTypeAnnotation<'a>>)
        ensures
            node_field(self.syntax_view(), r),
    {
        support::node(&self.syntax)
    }

    pub fn body(&self) -> (r: SyntaxResult<JsFunctionBody<'a>>)
        ensures
            required_node_field(self.syntax_view(), r),
    {
        support::required_node(&self.syntax)
    }
}

impl<'a> AstNode<'a> for JsFunctionExpression<'a> {
    open spec fn kind_ok(kind: SyntaxKind) -> bool {
        kind == SyntaxKind::JS_FUNCTION_EXPRESSION
    }

    closed spec fn syntax_view(&self) -> SyntaxNode<'a> {
        self.syntax
    }

    fn can_cast(kind: SyntaxKind) -> (r: bool) {
        kind == SyntaxKind::JS_FUNCTION_EXPRESSION
    }

    fn cast(syntax: SyntaxNode<'a>) -> (r: Option<Self>) {
        if syntax.kind() == SyntaxKind::JS_FUNCTION_EXPRESSION {
            Some(JsFunctionExpression { syntax })
        } else {
            None
        }
    }

    fn syntax(&self) -> (r: &SyntaxNode<'a>) {
        proof {
            use_type_invariant(self);
        }
        &self.syntax
    }
}

/// A node of kind `JS_IMPORT_CALL_EXPRESSION`.
#[derive(Clone, Copy, Debug)]
pub struct JsImportCallExpression<'a> {
    syntax: SyntaxNode<'a>,
}

impl<'a> JsImportCallExpression<'a> {
    #[verifier::type_invariant]
    spec fn inv(self) -> bool {
        self.syntax.kind_view() == SyntaxKind::JS_IMPORT_CALL_EXPRESSION
    }

    pub fn import_token(&self) -> (r: SyntaxResult<SyntaxToken<'a>>)
        ensures
            required_token_field(self.syntax_view(), seq![SyntaxKind::IMPORT_KW], r),
    {
        support::required_token(&self.syntax, SyntaxKind::IMPORT_KW)
    }

    pub fn l_paren_token(&self) -> (r: SyntaxResult<SyntaxToken<'a>>)
        ensures
            required_token_field(self.syntax_view(), seq![SyntaxKind::L_PAREN], r),
    {
        support::required_token(&self.syntax, SyntaxKind::L_PAREN)
    }

    pub fn argument(&self) -> (r: SyntaxResult<JsAnyExpression<'a>>)
        ensures
            required_node_field(self.syntax_view(), r),
    {
        support::required_node(&self.syntax)
    }

    pub fn r_paren_token(&self) -> (r: SyntaxResult<SyntaxToken<'a>>)
        ensures
            required_token_field(self.syntax_view(), seq![SyntaxKind::R_PAREN], r),
    {
        support::required_token(&self.syntax, SyntaxKind::R_PAREN)
    }
}

impl<'a> AstNode<'a> for JsImportCallExpression<'a> {
    open spec fn kind_ok(kind: SyntaxKind) -> bool {
        kind == SyntaxKind::JS_IMPORT_CALL_EXPRESSION
    }

    closed spec fn syntax_view(&self) -> SyntaxNode<'a> {
        self.syntax
    }

    fn can_cast(kind: SyntaxKind) -> (r: bool) {
        kind == SyntaxKind::JS_IMPORT_CALL_EXPRESSION
    }

    fn cast(syntax: SyntaxNode<'a>) -> (r: Option<Self>) {
        if syntax.kind() == SyntaxKind::JS_IMPORT_CALL_EXPRESSION {
            Some(JsImportCallExpression { syntax })
        } else {
            None
        }
    }

    fn syntax(&self) -> (r: &SyntaxNode<'a>) {
        proof {
            use_type_invariant(self);
        }
        &self.syntax
    }
}

/// A node of kind `JS_LOGICAL_EXPRESSION`.
#[derive(Clone, Copy, Debug)]
pub struct JsLogicalExpression<'a> {
    syntax: SyntaxNode<'a>,
}

impl<'a> JsLogicalExpression<'a> {
    #[verifier::type_invariant]
    spec fn inv(self) -> bool {
        self.syntax.kind_view() == SyntaxKind::JS_LOGICAL_EXPRESSION
    }

    pub fn left(&self) -> (r: SyntaxResult<JsAnyExpression<'a>>)
        ensures
            required_node_field(self.syntax_view(), r),
    {
        support::required_node(&self.syntax)
    }

    pub fn operator(&self) -> (r: SyntaxResult<SyntaxToken<'a>>)
        ensures
            required_token_field(self.syntax_view(), seq![SyntaxKind::QUESTION2, SyntaxKind::PIPE2, SyntaxKind::AMP2], r),
    {
        let kinds = [SyntaxKind::QUESTION2, SyntaxKind::PIPE2, SyntaxKind::AMP2];
        assert(kinds@ =~= seq![SyntaxKind::QUESTION2, SyntaxKind::PIPE2, SyntaxKind::AMP2]);
        support::find_required_token(&self.syntax, &kinds)
    }
}

impl<'a> AstNode<'a> for JsLogicalExpression<'a> {
    open spec fn kind_ok(kind: SyntaxKind) -> bool {
        kind == SyntaxKind::JS_LOGICAL_EXPRESSION
    }

    closed spec fn syntax_view(&self) -> SyntaxNode<'a> {
        self.syntax
    }

    fn can_cast(kind: SyntaxKind) -> (r: bool) {
        kind == SyntaxKind::JS_LOGICAL_EXPRESSION
    }

    fn cast(syntax: SyntaxNode<'a>) -> (r: Option<Self>) {
        if syntax.kind() == SyntaxKind::JS_LOGICAL_EXPRESSION {
            Some(JsLogicalExpression { syntax })
        } else {
            None
        }
    }

    fn syntax(&self) -> (r: &SyntaxNode<'a>) {
        proof {
            use_type_invariant(self);
        }
        &self.syntax
    }
}

/// A node of kind `JS_OBJECT_EXPRESSION`.
#[derive(Clone, Copy, Debug)]
pub struct JsObjectExpression<'a> {
    syntax: SyntaxNode<'a>,
}

impl<'a> JsObjectExpression<'a> {
    #[verifier::type_invariant]
    spec fn inv(self) -> bool {
        self.syntax.kind_view() == SyntaxKind::JS_OBJECT_EXPRESSION
    }

    pub fn l_curly_token(&self) -> (r: SyntaxResult<SyntaxToken<'a>>)
        ensures
            required_token_field(self.syntax_view(), seq![SyntaxKind::L_CURLY], r),
    {
        support::required_token(&self.syntax, SyntaxKind::L_CURLY)
    }

    pub fn members(&self) -> (r: AstSeparatedList<'a, JsAnyObjectMember<'a>>)
        ensures
            list_field(self.syntax_view(), 0, r.list_view()),
    {
        support::separated_list(&self.syntax, 0)
    }

    pub fn r_curly_token(&self) -> (r: SyntaxResult<SyntaxToken<'a>>)
        ensures
            required_token_field(self.syntax_view(), seq![SyntaxKind::R_CURLY], r),
    {
        support::required_token(&self.syntax, SyntaxKind::R_CURLY)
    }
}

impl<'a> AstNode<'a> for JsObjectExpression<'a> {
    open spec fn kind_ok(kind: SyntaxKind) -> bool {
        kind == SyntaxKind::JS_OBJECT_EXPRESSION
    }

    closed spec fn syntax_view(&self) -> SyntaxNode<'a> {
        self.syntax
    }

    fn can_cast(kind: SyntaxKind) -> (r: bool) {
        kind == SyntaxKind::JS_OBJECT_EXPRESSION
    }

    fn cast(syntax: SyntaxNode<'a>) -> (r: Option<Self>) {
        if syntax.kind() == SyntaxKind::JS_OBJECT_EXPRESSION {
            Some(JsObjectExpression { syntax })
        } else {
            None
        }
    }

    fn syntax(&self) -> (r: &SyntaxNode<'a>) {
        proof {
            use_type_invariant(self);
        }
        &self.syntax
    }
}

/// A node of kind `JS_PARENTHESIZED_EXPRESSION`.
#[derive(Clone, Copy, Debug)]
pub struct JsParenthesizedExpression<'a> {
    syntax: SyntaxNode<'a>,
}

impl<'a> JsParenthesizedExpression<'a> {
    #[verifier::type_invariant]
    spec fn inv(self) -> bool {
        self.syntax.kind_view() == SyntaxKind::JS_PARENTHESIZED_EXPRESSION
    }

    pub fn l_paren_token(&self) -> (r: SyntaxResult<SyntaxToken<'a>>)
        ensures
            required_token_field(self.syntax_view(), seq![SyntaxKind::L_PAREN], r),
    {
        support::required_token(&self.syntax, SyntaxKind::L_PAREN)
    }

    pub fn expression(&self) -> (r: SyntaxResult<JsAnyExpression<'a>>)
        ensures
            required_node_field(self.syntax_view(), r),
    {
        support::required_node(&self.syntax)
    }

    pub fn r_paren_token(&self) -> (r: SyntaxResult<SyntaxToken<'a>>)
        ensures
            required_token_field(self.syntax_view(), seq![SyntaxKind::R_PAREN], r),
    {
        support::required_token(&self.syntax, SyntaxKind::R_PAREN)
    }
}

impl<'a> AstNode<'a> for JsParenthesizedExpression<'a> {
    open spec fn kind_ok(kind: SyntaxKind) -> bool {
        kind == SyntaxKind::JS_PARENTHESIZED_EXPRESSION
    }

    closed spec fn syntax_view(&self) -> SyntaxNode<'a> {
        self.syntax
    }

    fn can_cast(kind: SyntaxKind) -> (r: bool) {
        kind == SyntaxKind::JS_PARENTHESIZED_EXPRESSION
    }

    fn cast(syntax: SyntaxNode<'a>) -> (r: Option<Self>) {
        if syntax.kind() == SyntaxKind::JS_PARENTHESIZED_EXPRESSION {
            Some(JsParenthesizedExpression { syntax })
        } else {
            None
        }
    }

    fn syntax(&self) -> (r: &SyntaxNode<'a>) {
        proof {
            use_type_invariant(self);
        }
        &self.syntax
    }
}

/// A node of kind `JS_IDENTIFIER_EXPRESSION`.
#[derive(Clone, Copy, Debug)]
pub struct JsIdentifierExpression<'a> {
    syntax: SyntaxNode<'a>,
}

impl<'a> JsIdentifierExpression<'a> {
    #[verifier::type_invariant]
    spec fn inv(self) -> bool {
        self.syntax.kind_view() == SyntaxKind::JS_IDENTIFIER_EXPRESSION
    }

    pub fn name(&self) -> (r: SyntaxResult<JsReferenceIdentifier<'a>>)
        ensures
            required_node_field(self.syntax_view(), r),
    {
        support::required_node(&self.syntax)
    }
}

impl<'a> AstNode<'a> for JsIdentifierExpression<'a> {
    open spec fn kind_ok(kind: SyntaxKind) -> bool {
        kind == SyntaxKind::JS_IDENTIFIER_EXPRESSION
    }

    closed spec fn syntax_view(&self) -> SyntaxNode<'a> {
        self.syntax
    }

    fn can_cast(kind: SyntaxKind) -> (r: bool) {
        kind == SyntaxKind::JS_IDENTIFIER_EXPRESSION
    }

    fn cast(syntax: SyntaxNode<'a>) -> (r: Option<Self>) {
        if syntax.kind() == SyntaxKind::JS_IDENTIFIER_EXPRESSION {
            Some(JsIdentifierExpression { syntax })
        } else {
            None
        }
    }

    fn syntax(&self) -> (r: &SyntaxNode<'a>) {
        proof {
            use_type_invariant(self);
        }
        &self.syntax
    }
}

/// A node of kind `JS_SEQUENCE_EXPRESSION`.
#[derive(Clone, Copy, Debug)]
pub struct JsSequenceExpression<'a> {
    syntax: SyntaxNode<'a>,
}

impl<'a> JsSequenceExpression<'a> {
    #[verifier::type_invariant]
    spec fn inv(self) -> bool {
        self.syntax.kind_view() == SyntaxKind::JS_SEQUENCE_EXPRESSION
    }

    pub fn left(&self) -> (r: SyntaxResult<JsAnyExpression<'a>>)
        ensures
            required_node_field(self.syntax_view(), r),
    {
        support::required_node(&self.syntax)
    }

    pub fn comma_token(&self) -> (r: SyntaxResult<SyntaxToken<'a>>)
        ensures
            required_token_field(self.syntax_view(), seq![SyntaxKind::COMMA], r),
    {
        support::required_token(&self.syntax, SyntaxKind::COMMA)
    }
}

impl<'a> AstNode<'a> for JsSequenceExpression<'a> {
    open spec fn kind_ok(kind: SyntaxKind) -> bool {
        kind == SyntaxKind::JS_SEQUENCE_EXPRESSION
    }

    closed spec fn syntax_view(&self) -> SyntaxNode<'a> {
        self.syntax
    }

    fn can_cast(kind: SyntaxKind) -> (r: bool) {
        kind == SyntaxKind::JS_SEQUENCE_EXPRESSION
    }

    fn cast(syntax: SyntaxNode<'a>) -> (r: Option<Self>) {
        if syntax.kind() == SyntaxKind::JS_SEQUENCE_EXPRESSION {
            Some(JsSequenceExpression { syntax })
        } else {
            None
        }
    }

    fn syntax(&self) -> (r: &SyntaxNode<'a>) {
        proof {
            use_type_invariant(self);
        }
        &self.syntax
    }
}

/// A node of kind `JS_STATIC_MEMBER_EXPRESSION`.
#[derive(Clone, Copy, Debug)]
pub struct JsStaticMemberExpression<'a> {
    syntax: SyntaxNode<'a>,
}

impl<'a> JsStaticMemberExpression<'a> {
    #[verifier::type_invariant]
    spec fn inv(self) -> bool {
        self.syntax.kind_view() == SyntaxKind::JS_STATIC_MEMBER_EXPRESSION
    }

    pub fn object(&self) -> (r: SyntaxResult<JsAnyExpression<'a>>)
        ensures
            required_node_field(self.syntax_view(), r),
    {
        support::required_node(&self.syntax)
    }

    pub fn operator(&self) -> (r: SyntaxResult<SyntaxToken<'a>>)
        ensures
            required_token_field(self.syntax_view(), seq![SyntaxKind::DOT, SyntaxKind::QUESTIONDOT], r),
    {
        let kinds = [SyntaxKind::DOT, SyntaxKind::QUESTIONDOT];
        assert(kinds@ =~= seq![SyntaxKind::DOT, SyntaxKind::QUESTIONDOT]);
        support::find_required_token(&self.syntax, &kinds)
    }

    pub fn member(&self) -> (r: SyntaxResult<JsAnyName<'a>>)
        ensures
            required_node_field(self.syntax_view(), r),
    {
        support::required_node(&self.syntax)
    }
}

impl<'a> AstNode<'a> for JsStaticMemberExpression<'a> {
    open spec fn kind_ok(kind: SyntaxKind) -> bool {
        kind == SyntaxKind::JS_STATIC_MEMBER_EXPRESSION
    }

    closed spec fn syntax_view(&self) -> SyntaxNode<'a> {
        self.syntax
    }

    fn can_cast(kind: SyntaxKind) -> (r: bool) {
        kind == SyntaxKind::JS_STATIC_MEMBER_EXPRESSION
    }

    fn cast(syntax: SyntaxNode<'a>) -> (r: Option<Self>) {
        if syntax.kind() == SyntaxKind::JS_STATIC_MEMBER_EXPRESSION {
            Some(JsStaticMemberExpression { syntax })
        } else {
            None
        }
    }

    fn syntax(&self) -> (r: &SyntaxNode<'a>) {
        proof {
            use_type_invariant(self);
        }
        &self.syntax
    }
}

/// A node of kind `JS_SUPER_EXPRESSION`.
#[derive(Clone, Copy, Debug)]
pub struct JsSuperExpression<'a> {
    syntax: SyntaxNode<'a>,
}

impl<'a> JsSuperExpression<'a> {
    #[verifier::type_invariant]
    spec fn inv(self) -> bool {
        self.syntax.kind_view() == SyntaxKind::JS_SUPER_EXPRESSION
    }

    pub fn super_token(&self) -> (r: SyntaxResult<SyntaxToken<'a>>)
        ensures
            required_token_field(self.syntax_view(), seq![SyntaxKind::SUPER_KW], r),
    {
        support::required_token(&self.syntax, SyntaxKind::SUPER_KW)
    }
}

impl<'a> AstNode<'a> for JsSuperExpression<'a> {
    open spec fn kind_ok(kind: SyntaxKind) -> bool {
        kind == SyntaxKind::JS_SUPER_EXPRESSION
    }

    closed spec fn syntax_view(&self) -> SyntaxNode<'a> {
        self.syntax
    }

    fn can_cast(kind: SyntaxKind) -> (r: bool) {
        kind == SyntaxKind::JS_SUPER_EXPRESSION
    }

    fn cast(syntax: SyntaxNode<'a>) -> (r: Option<Self>) {
        if syntax.kind() == SyntaxKind::JS_SUPER_EXPRESSION {
            Some(JsSuperExpression { syntax })
        } else {
            None
        }
    }

    fn syntax(&self) -> (r: &SyntaxNode<'a>) {
        proof {
            use_type_invariant(self);
        }
        &self.syntax
    }
}

/// A node of kind `JS_THIS_EXPRESSION`.
#[derive(Clone, Copy, Debug)]
pub struct JsThisExpression<'a> {
    syntax: SyntaxNode<'a>,
}

impl<'a> JsThisExpression<'a> {
    #[verifier::type_invariant]
    spec fn inv(self) -> bool {
        self.syntax.kind_view() == SyntaxKind::JS_THIS_EXPRESSION
    }

    pub fn this_token(&self) -> (r: SyntaxResult<SyntaxToken<'a>>)
        ensures
            required_token_field(self.syntax_view(), seq![SyntaxKind::THIS_KW], r),
    {
        support::required_token(&self.syntax, SyntaxKind::THIS_KW)
    }
}

impl<'a> AstNode<'a> for JsThisExpression<'a> {
    open spec fn kind_ok(kind: SyntaxKind) -> bool {
        kind == SyntaxKind::JS_THIS_EXPRESSION
    }

    closed spec fn syntax_view(&self) -> SyntaxNode<'a> {
        self.syntax
    }

    fn can_cast(kind: SyntaxKind) -> (r: bool) {
        kind == SyntaxKind::JS_THIS_EXPRESSION
    }

    fn cast(syntax: SyntaxNode<'a>) -> (r: Option<Self>) {
        if syntax.kind() == SyntaxKind::JS_THIS_EXPRESSION {
            Some(JsThisExpression { syntax })
        } else {
            None
        }
    }

    fn syntax(&self) -> (r: &SyntaxNode<'a>) {
        proof {
            use_type_invariant(self);
        }
        &self.syntax
    }
}

/// A node of kind `JS_UNARY_EXPRESSION`.
#[derive(Clone, Copy, Debug)]
pub struct JsUnaryExpression<'a> {
    syntax: SyntaxNode<'a>,
}

impl<'a> JsUnaryExpression<'a> {
    #[verifier::type_invariant]
    spec fn inv(self) -> bool {
        self.syntax.kind_view() == SyntaxKind::JS_UNARY_EXPRESSION
    }

    pub fn operator(&self) -> (r: SyntaxResult<SyntaxToken<'a>>)
        ensures
            required_token_field(self.syntax_view(), seq![SyntaxKind::DELETE_KW, SyntaxKind::VOID_KW, SyntaxKind::TYPEOF_KW, SyntaxKind::PLUS, SyntaxKind::MINUS, SyntaxKind::TILDE, SyntaxKind::BANG], r),
    {
        let kinds = [SyntaxKind::DELETE_KW, SyntaxKind::VOID_KW, SyntaxKind::TYPEOF_KW, SyntaxKind::PLUS, SyntaxKind::MINUS, SyntaxKind::TILDE, SyntaxKind::BANG];
        assert(kinds@ =~= seq![SyntaxKind::DELETE_KW, SyntaxKind::VOID_KW, SyntaxKind::TYPEOF_KW, SyntaxKind::PLUS, SyntaxKind::MINUS, SyntaxKind::TILDE, SyntaxKind::BANG]);
        support::find_required_token(&self.syntax, &kinds)
    }

    pub fn argument(&self) -> (r: SyntaxResult<JsAnyExpression<'a>>)
        ensures
            required_node_field(self.syntax_view(), r),
    {
        support::required_node(&self.syntax)
    }
}

impl<'a> AstNode<'a> for JsUnaryExpression<'a> {
    open spec fn kind_ok(kind: SyntaxKind) -> bool {
        kind == SyntaxKind::JS_UNARY_EXPRESSION
    }

    closed spec fn syntax_view(&self) -> SyntaxNode<'a> {
        self.syntax
    }

    fn can_cast(kind: SyntaxKind) -> (r: bool) {
        kind == SyntaxKind::JS_UNARY_EXPRESSION
    }

    fn cast(syntax: SyntaxNode<'a>) -> (r: Option<Self>) {
        if syntax.kind() == SyntaxKind::JS_UNARY_EXPRESSION {
            Some(JsUnaryExpression { syntax })
        } else {
            None
        }
    }

    fn syntax(&self) -> (r: &SyntaxNode<'a>) {
        proof {
            use_type_invariant(self);
        }
        &self.syntax
    }
}

/// A node of kind `JS_PRE_UPDATE_EXPRESSION`.
#[derive(Clone, Copy, Debug)]
pub struct JsPreUpdateExpression<'a> {
    syntax: SyntaxNode<'a>,
}

impl<'a> JsPreUpdateExpression<'a> {
    #[verifier::type_invariant]
    spec fn inv(self) -> bool {
        self.syntax.kind_view() == SyntaxKind::JS_PRE_UPDATE_EXPRESSION
    }

    pub fn operator(&self) -> (r: SyntaxResult<SyntaxToken<'a>>)
        ensures
            required_token_field(self.syntax_view(), seq![SyntaxKind::PLUS2, SyntaxKind::MINUS2], r),
    {
        let kinds = [SyntaxKind::PLUS2, SyntaxKind::MINUS2];
        assert(kinds@ =~= seq![SyntaxKind::PLUS2, SyntaxKind::MINUS2]);
        support::find_required_token(&self.syntax, &kinds)
    }

    pub fn operand(&self) -> (r: SyntaxResult<JsAnyAssignment<'a>>)
        ensures
            required_node_field(self.syntax_view(), r),
    {
        support::required_node(&self.syntax)
    }
}

impl<'a> AstNode<'a> for JsPreUpdateExpression<'a> {
    open spec fn kind_ok(kind: SyntaxKind) -> bool {
        kind == SyntaxKind::JS_PRE_UPDATE_EXPRESSION
    }

    closed spec fn syntax_view(&self) -> SyntaxNode<'a> {
        self.syntax
    }

    fn can_cast(kind: SyntaxKind) -> (r: bool) {
        kind == SyntaxKind::JS_PRE_UPDATE_EXPRESSION
    }

    fn cast(syntax: SyntaxNode<'a>) -> (r: Option<Self>) {
        if syntax.kind() == SyntaxKind::JS_PRE_UPDATE_EXPRESSION {
            Some(JsPreUpdateExpression { syntax })
        } else {
            None
        }
    }

    fn syntax(&self) -> (r: &SyntaxNode<'a>) {
        proof {
            use_type_invariant(self);
        }
        &self.syntax
    }
}

/// A node of kind `JS_POST_UPDATE_EXPRESSION`.
#[derive(Clone, Copy, Debug)]
pub struct JsPostUpdateExpression<'a> {
    syntax: SyntaxNode<'a>,
}

impl<'a> JsPostUpdateExpression<'a> {
    #[verifier::type_invariant]
    spec fn inv(self) -> bool {
        self.syntax.kind_view() == SyntaxKind::JS_POST_UPDATE_EXPRESSION
    }

    pub fn operand(&self) -> (r: SyntaxResult<JsAnyAssignment<'a>>)
        ensures
            required_node_field(self.syntax_view(), r),
    {
        support::required_node(&self.syntax)
    }

    pub fn operator(&self) -> (r: SyntaxResult<SyntaxToken<'a>>)
        ensures
            required_token_field(self.syntax_view(), seq![SyntaxKind::PLUS2, SyntaxKind::MINUS2], r),
    {
        let kinds = [SyntaxKind::PLUS2, SyntaxKind::MINUS2];
        assert(kinds@ =~= seq![SyntaxKind::PLUS2, SyntaxKind::MINUS2]);
        support::find_required_token(&self.syntax, &kinds)
    }
}

impl<'a> AstNode<'a> for JsPostUpdateExpression<'a> {
    open spec fn kind_ok(kind: SyntaxKind) -> bool {
        kind == SyntaxKind::JS_POST_UPDATE_EXPRESSION
    }

    closed spec fn syntax_view(&self) -> SyntaxNode<'a> {
        self.syntax
    }

    fn can_cast(kind: SyntaxKind) -> (r: bool) {
        kind == SyntaxKind::JS_POST_UPDATE_EXPRESSION
    }

    fn cast(syntax: SyntaxNode<'a>) -> (r: Option<Self>) {
        if syntax.kind() == SyntaxKind::JS_POST_UPDATE_EXPRESSION {
            Some(JsPostUpdateExpression { syntax })
        } else {
            None
        }
    }

    fn syntax(&self) -> (r: &SyntaxNode<'a>) {
        proof {
            use_type_invariant(self);
        }
        &self.syntax
    }
}

/// A node of kind `JS_YIELD_EXPRESSION`.
#[derive(Clone, Copy, Debug)]
pub struct JsYieldExpression<'a> {
    syntax: SyntaxNode<'a>,
}

impl<'a> JsYieldExpression<'a> {
    #[verifier::type_invariant]
    spec fn inv(self) -> bool {
        self.syntax.kind_view() == SyntaxKind::JS_YIELD_EXPRESSION
    }

    pub fn yield_token(&self) -> (r: SyntaxResult<SyntaxToken<'a>>)
        ensures
            required_token_field(self.syntax_view(), seq![SyntaxKind::YIELD_KW], r),
    {
        support::required_token(&self.syntax, SyntaxKind::YIELD_KW)
    }

    pub fn star_token(&self) -> (r: Option<SyntaxToken<'a>>)
        ensures
            token_field(self.syntax_view(), seq![SyntaxKind::STAR], r),
    {
        support::token(&self.syntax, SyntaxKind::STAR)
    }

    pub fn argument(&self) -> (r: Option<JsAnyExpression<'a>>)
        ensures
            node_field(self.syntax_view(), r),
    {
        support::node(&self.syntax)
    }
}

impl<'a> AstNode<'a> for JsYieldExpression<'a> {
    open spec fn kind_ok(kind: SyntaxKind) -> bool {
        kind == SyntaxKind::JS_YIELD_EXPRESSION
    }

    closed spec fn syntax_view(&self) -> SyntaxNode<'a> {
        self.syntax
    }

    fn can_cast(kind: SyntaxKind) -> (r: bool) {
        kind == SyntaxKind::JS_YIELD_EXPRESSION
    }

    fn cast(syntax: SyntaxNode<'a>) -> (r: Option<Self>) {
        if syntax.kind() == SyntaxKind::JS_YIELD_EXPRESSION {
            Some(JsYieldExpression { syntax })
        } else {
            None
        }
    }

    fn syntax(&self) -> (r: &SyntaxNode<'a>) {
        proof {
            use_type_invariant(self);
        }
        &self.syntax
    }
}

/// A node of kind `TEMPLATE`.
#[derive(Clone, Copy, Debug)]
pub struct Template<'a> {
    syntax: SyntaxNode<'a>,
}

impl<'a> Template<'a> {
    #[verifier::type_invariant]
    spec fn inv(self) -> bool {
        self.syntax.kind_view() == SyntaxKind::TEMPLATE
    }

    pub fn backtick_token(&self) -> (r: SyntaxResult<SyntaxToken<'a>>)
        ensures
            required_token_field(self.syntax_view(), seq![SyntaxKind::BACKTICK], r),
    {
        support::required_token(&self.syntax, SyntaxKind::BACKTICK)
    }
}

impl<'a> AstNode<'a> for Template<'a> {
    open spec fn kind_ok(kind: SyntaxKind) -> bool {
        kind == SyntaxKind::TEMPLATE
    }

    closed spec fn syntax_view(&self) -> SyntaxNode<'a> {
        self.syntax
    }

    fn can_cast(kind: SyntaxKind) -> (r: bool) {
        kind == SyntaxKind::TEMPLATE
    }

    fn cast(syntax: SyntaxNode<'a>) -> (r: Option<Self>) {
        if syntax.kind() == SyntaxKind::TEMPLATE {
            Some(Template { syntax })
        } else {
            None
        }
    }

    fn syntax(&self) -> (r: &SyntaxNode<'a>) {
        proof {
            use_type_invariant(self);
        }
        &self.syntax
    }
}

/// A node of kind `NEW_EXPR`.
#[derive(Clone, Copy, Debug)]
pub struct NewExpr<'a> {
    syntax: SyntaxNode<'a>,
}

impl<'a> NewExpr<'a> {
    #[verifier::type_invariant]
    spec fn inv(self) -> bool {
        self.syntax.kind_view() == SyntaxKind::NEW_EXPR
    }

    pub fn new_token(&self) -> (r: SyntaxResult<SyntaxToken<'a>>)
        ensures
            required_token_field(self.syntax_view(), seq![SyntaxKind::NEW_KW], r),
    {
        support::required_token(&self.syntax, SyntaxKind::NEW_KW)
    }

    pub fn type_args(&self) -> (r: Option<TsTypeArgs<'a>>)
        ensures
            node_field(self.syntax_view(), r),
    {
        support::node(&self.syntax)
    }

    pub fn object(&self) -> (r: SyntaxResult<JsAnyExpression<'a>>)
        ensures
            required_node_field(self.syntax_view(), r),
    {
        support::required_node(&self.syntax)
    }

    pub fn arguments(&self) -> (r: SyntaxResult<ArgList<'a>>)
        ensures
            required_node_field(self.syntax_view(), r),
    {
        support::required_node(&self.syntax)
    }
}

impl<'a> AstNode<'a> for NewExpr<'a> {
    open spec fn kind_ok(kind: SyntaxKind) -> bool {
        kind == SyntaxKind::NEW_EXPR
    }

    closed spec fn syntax_view(&self) -> SyntaxNode<'a> {
        self.syntax
    }

    fn can_cast(kind: SyntaxKind) -> (r: bool) {
        kind == SyntaxKind::NEW_EXPR
    }

    fn cast(syntax: SyntaxNode<'a>) -> (r: Option<Self>) {
        if syntax.kind() == SyntaxKind::NEW_EXPR {
            Some(NewExpr { syntax })
        } else {
            None
        }
    }

    fn syntax(&self) -> (r: &SyntaxNode<'a>) {
        proof {
            use_type_invariant(self);
        }
        &self.syntax
    }
}

/// A node of kind `CALL_EXPR`.
#[derive(Clone, Copy, Debug)]
pub struct CallExpr<'a> {
    syntax: SyntaxNode<'a>,
}

impl<'a> CallExpr<'a> {
    #[verifier::type_invariant]
    spec fn inv(self) -> bool {
        self.syntax.kind_view() == SyntaxKind::CALL_EXPR
    }

    pub fn type_args(&self) -> (r: Option<TsTypeArgs<'a>>)
        ensures
            node_field(self.syntax_view(), r),
    {
        support::node(&self.syntax)
    }

    pub fn callee(&self) -> (r: SyntaxResult<JsAnyExpression<'a>>)
        ensures
            required_node_field(self.syntax_view(), r),
    {
        support::required_node(&self.syntax)
    }

    pub fn arguments(&self) -> (r: SyntaxResult<ArgList<'a>>)
        ensures
            required_node_field(self.syntax_view(), r),
    {
        support::required_node(&self.syntax)
    }
}

impl<'a> AstNode<'a> for CallExpr<'a> {
    open spec fn kind_ok(kind: SyntaxKind) -> bool {
        kind == SyntaxKind::CALL_EXPR
    }

    closed spec fn syntax_view(&self) -> SyntaxNode<'a> {
        self.syntax
    }

    fn can_cast(kind: SyntaxKind) -> (r: bool) {
        kind == SyntaxKind::CALL_EXPR
    }

    fn cast(syntax: SyntaxNode<'a>) -> (r: Option<Self>) {
        if syntax.kind() == SyntaxKind::CALL_EXPR {
            Some(CallExpr { syntax })
        } else {
            None
        }
    }

    fn syntax(&self) -> (r: &SyntaxNode<'a>) {
        proof {
            use_type_invariant(self);
        }
        &self.syntax
    }
}

/// A node of kind `NEW_TARGET`.
#[derive(Clone, Copy, Debug)]
pub struct NewTarget<'a> {
    syntax: SyntaxNode<'a>,
}

impl<'a> NewTarget<'a> {
    #[verifier::type_invariant]
    spec fn inv(self) -> bool {
        self.syntax.kind_view() == SyntaxKind::NEW_TARGET
    }

    pub fn new_token(&self) -> (r: SyntaxResult<SyntaxToken<'a>>)
        ensures
            required_token_field(self.syntax_view(), seq![SyntaxKind::NEW_KW], r),
    {
        support::required_token(&self.syntax, SyntaxKind::NEW_KW)
    }

    pub fn dot_token(&self) -> (r: SyntaxResult<SyntaxToken<'a>>)
        ensures
            required_token_field(self.syntax_view(), seq![SyntaxKind::DOT], r),
    {
        support::required_token(&self.syntax, SyntaxKind::DOT)
    }

    pub fn target_token(&self) -> (r: SyntaxResult<SyntaxToken<'a>>)
        ensures
            required_token_field(self.syntax_view(), seq![SyntaxKind::TARGET_KW], r),
    {
        support::required_token(&self.syntax, SyntaxKind::TARGET_KW)
    }
}

impl<'a> AstNode<'a> for NewTarget<'a> {
    open spec fn kind_ok(kind: SyntaxKind) -> bool {
        kind == SyntaxKind::NEW_TARGET
    }

    closed spec fn syntax_view(&self) -> SyntaxNode<'a> {
        self.syntax
    }

    fn can_cast(kind: SyntaxKind) -> (r: bool) {
        kind == SyntaxKind::NEW_TARGET
    }

    fn cast(syntax: SyntaxNode<'a>) -> (r: Option<Self>) {
        if syntax.kind() == SyntaxKind::NEW_TARGET {
            Some(NewTarget { syntax })
        } else {
            None
        }
    }

    fn syntax(&self) -> (r: &SyntaxNode<'a>) {
        proof {
            use_type_invariant(self);
        }
        &self.syntax
    }
}

/// A node of kind `IMPORT_META`.
#[derive(Clone, Copy, Debug)]
pub struct ImportMeta<'a> {
    syntax: SyntaxNode<'a>,
}

impl<'a> ImportMeta<'a> {
    #[verifier::type_invariant]
    spec fn inv(self) -> bool {
        self.syntax.kind_view() == SyntaxKind::IMPORT_META
    }

    pub fn import_token(&self) -> (r: SyntaxResult<SyntaxToken<'a>>)
        ensures
            required_token_field(self.syntax_view(), seq![SyntaxKind::IMPORT_KW], r),
    {
        support::required_token(&self.syntax, SyntaxKind::IMPORT_KW)
    }

    pub fn dot_token(&self) -> (r: SyntaxResult<SyntaxToken<'a>>)
        ensures
            required_token_field(self.syntax_view(), seq![SyntaxKind::DOT], r),
    {
        support::required_token(&self.syntax, SyntaxKind::DOT)
    }
}

impl<'a> AstNode<'a> for ImportMeta<'a> {
    open spec fn kind_ok(kind: SyntaxKind) -> bool {
        kind == SyntaxKind::IMPORT_META
    }

    closed spec fn syntax_view(&self) -> SyntaxNode<'a> {
        self.syntax
    }

    fn can_cast(kind: SyntaxKind) -> (r: bool) {
        kind == SyntaxKind::IMPORT_META
    }

    fn cast(syntax: SyntaxNode<'a>) -> (r: Option<Self>) {
        if syntax.kind() == SyntaxKind::IMPORT_META {
            Some(ImportMeta { syntax })
        } else {
            None
        }
    }

    fn syntax(&self) -> (r: &SyntaxNode<'a>) {
        proof {
            use_type_invariant(self);
        }
        &self.syntax
    }
}

/// A node of kind `TS_NON_NULL`.
#[derive(Clone, Copy, Debug)]
pub struct TsNonNull<'a> {
    syntax: SyntaxNode<'a>,
}

impl<'a> TsNonNull<'a> {
    #[verifier::type_invariant]
    spec fn inv(self) -> bool {
        self.syntax.kind_view() == SyntaxKind::TS_NON_NULL
    }

    pub fn expr(&self) -> (r: SyntaxResult<JsAnyExpression<'a>>)
        ensures
            required_node_field(self.syntax_view(), r),
    {
        support::required_node(&self.syntax)
    }

    pub fn excl_token(&self) -> (r: SyntaxResult<SyntaxToken<'a>>)
        ensures
            required_token_field(self.syntax_view(), seq![SyntaxKind::BANG], r),
    {
        support::required_token(&self.syntax, SyntaxKind::BANG)
    }
}

impl<'a> AstNode<'a> for TsNonNull<'a> {
    open spec fn kind_ok(kind: SyntaxKind) -> bool {
        kind == SyntaxKind::TS_NON_NULL
    }

    closed spec fn syntax_view(&self) -> SyntaxNode<'a> {
        self.syntax
    }

    fn can_cast(kind: SyntaxKind) -> (r: bool) {
        kind == SyntaxKind::TS_NON_NULL
    }

    fn cast(syntax: SyntaxNode<'a>) -> (r: Option<Self>) {
        if syntax.kind() == SyntaxKind::TS_NON_NULL {
            Some(TsNonNull { syntax })
        } else {
            None
        }
    }

    fn syntax(&self) -> (r: &SyntaxNode<'a>) {
        proof {
            use_type_invariant(self);
        }
        &self.syntax
    }
}

/// A node of kind `TS_ASSERTION`.
#[derive(Clone, Copy, Debug)]
pub struct TsAssertion<'a> {
    syntax: SyntaxNode<'a>,
}

impl<'a> TsAssertion<'a> {
    #[verifier::type_invariant]
    spec fn inv(self) -> bool {
        self.syntax.kind_view() == SyntaxKind::TS_ASSERTION
    }

    pub fn expr(&self) -> (r: SyntaxResult<JsAnyExpression<'a>>)
        ensures
            required_node_field(self.syntax_view(), r),
    {
        support::required_node(&self.syntax)
    }

    pub fn ident(&self) -> (r: SyntaxResult<Ident<'a>>)
        ensures
            required_node_field(self.syntax_view(), r),
    {
        support::required_node(&self.syntax)
    }

    pub fn l_angle_token(&self) -> (r: SyntaxResult<SyntaxToken<'a>>)
        ensures
            required_token_field(self.syntax_view(), seq![SyntaxKind::L_ANGLE], r),
    {
        support::required_token(&self.syntax, SyntaxKind::L_ANGLE)
    }

    pub fn ty(&self) -> (r: SyntaxResult<TsType<'a>>)
        ensures
            required_node_field(self.syntax_view(), r),
    {
        support::required_node(&self.syntax)
    }

    pub fn r_angle_token(&self) -> (r: SyntaxResult<SyntaxToken<'a>>)
        ensures
            required_token_field(self.syntax_view(), seq![SyntaxKind::R_ANGLE], r),
    {
        support::required_token(&self.syntax, SyntaxKind::R_ANGLE)
    }
}

impl<'a> AstNode<'a> for TsAssertion<'a> {
    open spec fn kind_ok(kind: SyntaxKind) -> bool {
        kind == SyntaxKind::TS_ASSERTION
    }

    closed spec fn syntax_view(&self) -> SyntaxNode<'a> {
        self.syntax
    }

    fn can_cast(kind: SyntaxKind) -> (r: bool) {
        kind == SyntaxKind::TS_ASSERTION
    }

    fn cast(syntax: SyntaxNode<'a>) -> (r: Option<Self>) {
        if syntax.kind() == SyntaxKind::TS_ASSERTION {
            Some(TsAssertion { syntax })
        } else {
            None
        }
    }

    fn syntax(&self) -> (r: &SyntaxNode<'a>) {
        proof {
            use_type_invariant(self);
        }
        &self.syntax
    }
}

/// A node of kind `TS_CONST_ASSERTION`.
#[derive(Clone, Copy, Debug)]
pub struct TsConstAssertion<'a> {
    syntax: SyntaxNode<'a>,
}

impl<'a> TsConstAssertion<'a> {
    #[verifier::type_invariant]
    spec fn inv(self) -> bool {
        self.syntax.kind_view() == SyntaxKind::TS_CONST_ASSERTION
    }

    pub fn expr(&self) -> (r: SyntaxResult<JsAnyExpression<'a>>)
        ensures
            required_node_field(self.syntax_view(), r),
    {
        support::required_node(&self.syntax)
    }

    pub fn ident(&self) -> (r: SyntaxResult<Ident<'a>>)
        ensures
            required_node_field(self.syntax_view(), r),
    {
        support::required_node(&self.syntax)
    }

    pub fn l_angle_token(&self) -> (r: SyntaxResult<SyntaxToken<'a>>)
        ensures
            required_token_field(self.syntax_view(), seq![SyntaxKind::L_ANGLE], r),
    {
        support::required_token(&self.syntax, SyntaxKind::L_ANGLE)
    }

    pub fn const_token(&self) -> (r: SyntaxResult<SyntaxToken<'a>>)
        ensures
            required_token_field(self.syntax_view(), seq![SyntaxKind::CONST_KW], r),
    {
        support::required_token(&self.syntax, SyntaxKind::CONST_KW)
    }

    pub fn r_angle_token(&self) -> (r: SyntaxResult<SyntaxToken<'a>>)
        ensures
            required_token_field(self.syntax_view(), seq![SyntaxKind::R_ANGLE], r),
    {
        support::required_token(&self.syntax, SyntaxKind::R_ANGLE)
    }
}

impl<'a> AstNode<'a> for TsConstAssertion<'a> {
    open spec fn kind_ok(kind: SyntaxKind) -> bool {
        kind == SyntaxKind::TS_CONST_ASSERTION
    }

    closed spec fn syntax_view(&self) -> SyntaxNode<'a> {
        self.syntax
    }

    fn can_cast(kind: SyntaxKind) -> (r: bool) {
        kind == SyntaxKind::TS_CONST_ASSERTION
    }

    fn cast(syntax: SyntaxNode<'a>) -> (r: Option<Self>) {
        if syntax.kind() == SyntaxKind::TS_CONST_ASSERTION {
            Some(TsConstAssertion { syntax })
        } else {
            None
        }
    }

    fn syntax(&self) -> (r: &SyntaxNode<'a>) {
        proof {
            use_type_invariant(self);
        }
        &self.syntax
    }
}

/// A node of kind `TS_TYPE_ARGS`.
#[derive(Clone, Copy, Debug)]
pub struct TsTypeArgs<'a> {
    syntax: SyntaxNode<'a>,
}

impl<'a> TsTypeArgs<'a> {
    #[verifier::type_invariant]
    spec fn inv(self) -> bool {
        self.syntax.kind_view() == SyntaxKind::TS_TYPE_ARGS
    }

    pub fn l_angle_token(&self) -> (r: SyntaxResult<SyntaxToken<'a>>)
        ensures
            required_token_field(self.syntax_view(), seq![SyntaxKind::L_ANGLE], r),
    {
        support::required_token(&self.syntax, SyntaxKind::L_ANGLE)
    }

    pub fn args(&self) -> (r: SyntaxResult<TsType<'a>>)
        ensures
            required_node_field(self.syntax_view(), r),
    {
        support::required_node(&self.syntax)
    }

    pub fn r_angle_token(&self) -> (r: SyntaxResult<SyntaxToken<'a>>)
        ensures
            required_token_field(self.syntax_view(), seq![SyntaxKind::R_ANGLE], r),
    {
        support::required_token(&self.syntax, SyntaxKind::R_ANGLE)
    }
}

impl<'a> AstNode<'a> for TsTypeArgs<'a> {
    open spec fn kind_ok(kind: SyntaxKind) -> bool {
        kind == SyntaxKind::TS_TYPE_ARGS
    }

    closed spec fn syntax_view(&self) -> SyntaxNode<'a> {
        self.syntax
    }

    fn can_cast(kind: SyntaxKind) -> (r: bool) {
        kind == SyntaxKind::TS_TYPE_ARGS
    }

    fn cast(syntax: SyntaxNode<'a>) -> (r: Option<Self>) {
        if syntax.kind() == SyntaxKind::TS_TYPE_ARGS {
            Some(TsTypeArgs { syntax })
        } else {
            None
        }
    }

    fn syntax(&self) -> (r: &SyntaxNode<'a>) {
        proof {
            use_type_invariant(self);
        }
        &self.syntax
    }
}

/// A node of kind `ARG_LIST`.
#[derive(Clone, Copy, Debug)]
pub struct ArgList<'a> {
    syntax: SyntaxNode<'a>,
}

impl<'a> ArgList<'a> {
    #[verifier::type_invariant]
    spec fn inv(self) -> bool {
        self.syntax.kind_view() == SyntaxKind::ARG_LIST
    }

    pub fn l_paren_token(&self) -> (r: SyntaxResult<SyntaxToken<'a>>)
        ensures
            required_token_field(self.syntax_view(), seq![SyntaxKind::L_PAREN], r),
    {
        support::required_token(&self.syntax, SyntaxKind::L_PAREN)
    }

    pub fn args(&self) -> (r: AstSeparatedList<'a, JsAnyExpression<'a>>)
        ensures
            list_field(self.syntax_view(), 0, r.list_view()),
    {
        support::separated_list(&self.syntax, 0)
    }

    pub fn r_paren_token(&self) -> (r: SyntaxResult<SyntaxToken<'a>>)
        ensures
            required_token_field(self.syntax_view(), seq![SyntaxKind::R_PAREN], r),
    {
        support::required_token(&self.syntax, SyntaxKind::R_PAREN)
    }
}

impl<'a> AstNode<'a> for ArgList<'a> {
    open spec fn kind_ok(kind: SyntaxKind) -> bool {
        kind == SyntaxKind::ARG_LIST
    }

    closed spec fn syntax_view(&self) -> SyntaxNode<'a> {
        self.syntax
    }

    fn can_cast(kind: SyntaxKind) -> (r: bool) {
        kind == SyntaxKind::ARG_LIST
    }

    fn cast(syntax: SyntaxNode<'a>) -> (r: Option<Self>) {
        if syntax.kind() == SyntaxKind::ARG_LIST {
            Some(ArgList { syntax })
        } else {
            None
        }
    }

    fn syntax(&self) -> (r: &SyntaxNode<'a>) {
        proof {
            use_type_invariant(self);
        }
        &self.syntax
    }
}

/// A node of kind `TS_TYPE_PARAMS`.
#[derive(Clone, Copy, Debug)]
pub struct TsTypeParams<'a> {
    syntax: SyntaxNode<'a>,
}

impl<'a> TsTypeParams<'a> {
    #[verifier::type_invariant]
    spec fn inv(self) -> bool {
        self.syntax.kind_view() == SyntaxKind::TS_TYPE_PARAMS
    }

    pub fn l_angle_token(&self) -> (r: Option<SyntaxToken<'a>>)
        ensures
            token_field(self.syntax_view(), seq![SyntaxKind::L_ANGLE], r),
    {
        support::token(&self.syntax, SyntaxKind::L_ANGLE)
    }

    pub fn params(&self) -> (r: SyntaxResult<TsTypeParam<'a>>)
        ensures
            required_node_field(self.syntax_view(), r),
    {
        support::required_node(&self.syntax)
    }

    pub fn r_angle_token(&self) -> (r: Option<SyntaxToken<'a>>)
        ensures
            token_field(self.syntax_view(), seq![SyntaxKind::R_ANGLE], r),
    {
        support::token(&self.syntax, SyntaxKind::R_ANGLE)
    }
}

impl<'a> AstNode<'a> for TsTypeParams<'a> {
    open spec fn kind_ok(kind: SyntaxKind) -> bool {
        kind == SyntaxKind::TS_TYPE_PARAMS
    }

    closed spec fn syntax_view(&self) -> SyntaxNode<'a> {
        self.syntax
    }

    fn can_cast(kind: SyntaxKind) -> (r: bool) {
        kind == SyntaxKind::TS_TYPE_PARAMS
    }

    fn cast(syntax: SyntaxNode<'a>) -> (r: Option<Self>) {
        if syntax.kind() == SyntaxKind::TS_TYPE_PARAMS {
            Some(TsTypeParams { syntax })
        } else {
            None
        }
    }

    fn syntax(&self) -> (r: &SyntaxNode<'a>) {
        proof {
            use_type_invariant(self);
        }
        &self.syntax
    }
}

/// A node of kind `JS_PARAMETER_LIST`.
#[derive(Clone, Copy, Debug)]
pub struct JsParameterList<'a> {
    syntax: SyntaxNode<'a>,
}

impl<'a> JsParameterList<'a> {
    #[verifier::type_invariant]
    spec fn inv(self) -> bool {
        self.syntax.kind_view() == SyntaxKind::JS_PARAMETER_LIST
    }

    pub fn l_paren_token(&self) -> (r: SyntaxResult<SyntaxToken<'a>>)
        ensures
            required_token_field(self.syntax_view(), seq![SyntaxKind::L_PAREN], r),
    {
        support::required_token(&self.syntax, SyntaxKind::L_PAREN)
    }

    pub fn parameters(&self) -> (r: AstSeparatedList<'a, JsAnyParameter<'a>>)
        ensures
            list_field(self.syntax_view(), 0, r.list_view()),
    {
        support::separated_list(&self.syntax, 0)
    }

    pub fn r_paren_token(&self) -> (r: SyntaxResult<SyntaxToken<'a>>)
        ensures
            required_token_field(self.syntax_view(), seq![SyntaxKind::R_PAREN], r),
    {
        support::required_token(&self.syntax, SyntaxKind::R_PAREN)
    }
}

impl<'a> AstNode<'a> for JsParameterList<'a> {
    open spec fn kind_ok(kind: SyntaxKind) -> bool {
        kind == SyntaxKind::JS_PARAMETER_LIST
    }

    closed spec fn syntax_view(&self) -> SyntaxNode<'a> {
        self.syntax
    }

    fn can_cast(kind: SyntaxKind) -> (r: bool) {
        kind == SyntaxKind::JS_PARAMETER_LIST
    }

    fn cast(syntax: SyntaxNode<'a>) -> (r: Option<Self>) {
        if syntax.kind() == SyntaxKind::JS_PARAMETER_LIST {
            Some(JsParameterList { syntax })
        } else {
            None
        }
    }

    fn syntax(&self) -> (r: &SyntaxNode<'a>) {
        proof {
            use_type_invariant(self);
        }
        &self.syntax
    }
}

/// A node of kind `TS_TYPE_ANNOTATION`.
#[derive(Clone, Copy, Debug)]
pub struct TsTypeAnnotation<'a> {
    syntax: SyntaxNode<'a>,
}

impl<'a> TsTypeAnnotation<'a> {
    #[verifier::type_invariant]
    spec fn inv(self) -> bool {
        self.syntax.kind_view() == SyntaxKind::TS_TYPE_ANNOTATION
    }

    pub fn colon_token(&self) -> (r: SyntaxResult<SyntaxToken<'a>>)
        ensures
            required_token_field(self.syntax_view(), seq![SyntaxKind::COLON], r),
    {
        support::required_token(&self.syntax, SyntaxKind::COLON)
    }

    pub fn ty(&self) -> (r: SyntaxResult<TsType<'a>>)
        ensures
            required_node_field(self.syntax_view(), r),
    {
        support::required_node(&self.syntax)
    }
}

impl<'a> AstNode<'a> for TsTypeAnnotation<'a> {
    open spec fn kind_ok(kind: SyntaxKind) -> bool {
        kind == SyntaxKind::TS_TYPE_ANNOTATION
    }

    closed spec fn syntax_view(&self) -> SyntaxNode<'a> {
        self.syntax
    }

    fn can_cast(kind: SyntaxKind) -> (r: bool) {
        kind == SyntaxKind::TS_TYPE_ANNOTATION
    }

    fn cast(syntax: SyntaxNode<'a>) -> (r: Option<Self>) {
        if syntax.kind() == SyntaxKind::TS_TYPE_ANNOTATION {
            Some(TsTypeAnnotation { syntax })
        } else {
            None
        }
    }

    fn syntax(&self) -> (r: &SyntaxNode<'a>) {
        proof {
            use_type_invariant(self);
        }
        &self.syntax
    }
}

/// A node of kind `JS_FUNCTION_BODY`.
#[derive(Clone, Copy, Debug)]
pub struct JsFunctionBody<'a> {
    syntax: SyntaxNode<'a>,
}

impl<'a> JsFunctionBody<'a> {
    #[verifier::type_invariant]
    spec fn inv(self) -> bool {
        self.syntax.kind_view() == SyntaxKind::JS_FUNCTION_BODY
    }

    pub fn l_curly_token(&self) -> (r: SyntaxResult<SyntaxToken<'a>>)
        ensures
            required_token_field(self.syntax_view(), seq![SyntaxKind::L_CURLY], r),
    {
        support::required_token(&self.syntax, SyntaxKind::L_CURLY)
    }

    pub fn directives(&self) -> (r: AstNodeList<'a, JsDirective<'a>>)
        ensures
            list_field(self.syntax_view(), 0, r.list_view()),
    {
        support::node_list(&self.syntax, 0)
    }

    pub fn statements(&self) -> (r: AstNodeList<'a, JsAnyStatement<'a>>)
        ensures
            list_field(self.syntax_view(), 1, r.list_view()),
    {
        support::node_list(&self.syntax, 1)
    }

    pub fn r_curly_token(&self) -> (r: SyntaxResult<SyntaxToken<'a>>)
        ensures
            required_token_field(self.syntax_view(), seq![SyntaxKind::R_CURLY], r),
    {
        support::required_token(&self.syntax, SyntaxKind::R_CURLY)
    }
}

impl<'a> AstNode<'a> for JsFunctionBody<'a> {
    open spec fn kind_ok(kind: SyntaxKind) -> bool {
        kind == SyntaxKind::JS_FUNCTION_BODY
    }

    closed spec fn syntax_view(&self) -> SyntaxNode<'a> {
        self.syntax
    }

    fn can_cast(kind: SyntaxKind) -> (r: bool) {
        kind == SyntaxKind::JS_FUNCTION_BODY
    }

    fn cast(syntax: SyntaxNode<'a>) -> (r: Option<Self>) {
        if syntax.kind() == SyntaxKind::JS_FUNCTION_BODY {
            Some(JsFunctionBody { syntax })
        } else {
            None
        }
    }

    fn syntax(&self) -> (r: &SyntaxNode<'a>) {
        proof {
            use_type_invariant(self);
        }
        &self.syntax
    }
}

/// A node of kind `JS_SPREAD`.
#[derive(Clone, Copy, Debug)]
pub struct JsSpread<'a> {
    syntax: SyntaxNode<'a>,
}

impl<'a> JsSpread<'a> {
    #[verifier::type_invariant]
    spec fn inv(self) -> bool {
        self.syntax.kind_view() == SyntaxKind::JS_SPREAD
    }

    pub fn dotdotdot_token(&self) -> (r: SyntaxResult<SyntaxToken<'a>>)
        ensures
            required_token_field(self.syntax_view(), seq![SyntaxKind::DOT3], r),
    {
        support::required_token(&self.syntax, SyntaxKind::DOT3)
    }

    pub fn argument(&self) -> (r: SyntaxResult<JsAnyExpression<'a>>)
        ensures
            required_node_field(self.syntax_view(), r),
    {
        support::required_node(&self.syntax)
    }
}

impl<'a> AstNode<'a> for JsSpread<'a> {
    open spec fn kind_ok(kind: SyntaxKind) -> bool {
        kind == SyntaxKind::JS_SPREAD
    }

    closed spec fn syntax_view(&self) -> SyntaxNode<'a> {
        self.syntax
    }

    fn can_cast(kind: SyntaxKind) -> (r: bool) {
        kind == SyntaxKind::JS_SPREAD
    }

    fn cast(syntax: SyntaxNode<'a>) -> (r: Option<Self>) {
        if syntax.kind() == SyntaxKind::JS_SPREAD {
            Some(JsSpread { syntax })
        } else {
            None
        }
    }

    fn syntax(&self) -> (r: &SyntaxNode<'a>) {
        proof {
            use_type_invariant(self);
        }
        &self.syntax
    }
}

/// A node of kind `JS_ARRAY_HOLE`.
#[derive(Clone, Copy, Debug)]
pub struct JsArrayHole<'a> {
    syntax: SyntaxNode<'a>,
}

impl<'a> JsArrayHole<'a> {
    #[verifier::type_invariant]
    spec fn inv(self) -> bool {
        self.syntax.kind_view() == SyntaxKind::JS_ARRAY_HOLE
    }
}

impl<'a> AstNode<'a> for JsArrayHole<'a> {
    open spec fn kind_ok(kind: SyntaxKind) -> bool {
        kind == SyntaxKind::JS_ARRAY_HOLE
    }

    closed spec fn syntax_view(&self) -> SyntaxNode<'a> {
        self.syntax
    }

    fn can_cast(kind: SyntaxKind) -> (r: bool) {
        kind == SyntaxKind::JS_ARRAY_HOLE
    }

    fn cast(syntax: SyntaxNode<'a>) -> (r: Option<Self>) {
        if syntax.kind() == SyntaxKind::JS_ARRAY_HOLE {
            Some(JsArrayHole { syntax })
        } else {
            None
        }
    }

    fn syntax(&self) -> (r: &SyntaxNode<'a>) {
        proof {
            use_type_invariant(self);
        }
        &self.syntax
    }
}

/// A node of kind `JS_REFERENCE_IDENTIFIER`.
#[derive(Clone, Copy, Debug)]
pub struct JsReferenceIdentifier<'a> {
    syntax: SyntaxNode<'a>,
}

impl<'a> JsReferenceIdentifier<'a> {
    #[verifier::type_invariant]
    spec fn inv(self) -> bool {
        self.syntax.kind_view() == SyntaxKind::JS_REFERENCE_IDENTIFIER
    }

    pub fn value_token(&self) -> (r: SyntaxResult<SyntaxToken<'a>>)
        ensures
            required_token_field(self.syntax_view(), seq![SyntaxKind::IDENT], r),
    {
        support::required_token(&self.syntax, SyntaxKind::IDENT)
    }
}

impl<'a> AstNode<'a> for JsReferenceIdentifier<'a> {
    open spec fn kind_ok(kind: SyntaxKind) -> bool {
        kind == SyntaxKind::JS_REFERENCE_IDENTIFIER
    }

    closed spec fn syntax_view(&self) -> SyntaxNode<'a> {
        self.syntax
    }

    fn can_cast(kind: SyntaxKind) -> (r: bool) {
        kind == SyntaxKind::JS_REFERENCE_IDENTIFIER
    }

    fn cast(syntax: SyntaxNode<'a>) -> (r: Option<Self>) {
        if syntax.kind() == SyntaxKind::JS_REFERENCE_IDENTIFIER {
            Some(JsReferenceIdentifier { syntax })
        } else {
            None
        }
    }

    fn syntax(&self) -> (r: &SyntaxNode<'a>) {
        proof {
            use_type_invariant(self);
        }
        &self.syntax
    }
}

/// A node of kind `JS_LITERAL_MEMBER_NAME`.
#[derive(Clone, Copy, Debug)]
pub struct JsLiteralMemberName<'a> {
    syntax: SyntaxNode<'a>,
}

impl<'a> JsLiteralMemberName<'a> {
    #[verifier::type_invariant]
    spec fn inv(self) -> bool {
        self.syntax.kind_view() == SyntaxKind::JS_LITERAL_MEMBER_NAME
    }

    pub fn value(&self) -> (r: SyntaxResult<SyntaxToken<'a>>)
        ensures
            required_token_field(self.syntax_view(), seq![SyntaxKind::IDENT, SyntaxKind::JS_STRING_LITERAL, SyntaxKind::JS_NUMBER_LITERAL], r),
    {
        let kinds = [SyntaxKind::IDENT, SyntaxKind::JS_STRING_LITERAL, SyntaxKind::JS_NUMBER_LITERAL];
        assert(kinds@ =~= seq![SyntaxKind::IDENT, SyntaxKind::JS_STRING_LITERAL, SyntaxKind::JS_NUMBER_LITERAL]);
        support::find_required_token(&self.syntax, &kinds)
    }
}

impl<'a> AstNode<'a> for JsLiteralMemberName<'a> {
    open spec fn kind_ok(kind: SyntaxKind) -> bool {
        kind == SyntaxKind::JS_LITERAL_MEMBER_NAME
    }

    closed spec fn syntax_view(&self) -> SyntaxNode<'a> {
        self.syntax
    }

    fn can_cast(kind: SyntaxKind) -> (r: bool) {
        kind == SyntaxKind::JS_LITERAL_MEMBER_NAME
    }

    fn cast(syntax: SyntaxNode<'a>) -> (r: Option<Self>) {
        if syntax.kind() == SyntaxKind::JS_LITERAL_MEMBER_NAME {
            Some(JsLiteralMemberName { syntax })
        } else {
            None
        }
    }

    fn syntax(&self) -> (r: &SyntaxNode<'a>) {
        proof {
            use_type_invariant(self);
        }
        &self.syntax
    }
}

/// A node of kind `JS_COMPUTED_MEMBER_NAME`.
#[derive(Clone, Copy, Debug)]
pub struct JsComputedMemberName<'a> {
    syntax: SyntaxNode<'a>,
}

impl<'a> JsComputedMemberName<'a> {
    #[verifier::type_invariant]
    spec fn inv(self) -> bool {
        self.syntax.kind_view() == SyntaxKind::JS_COMPUTED_MEMBER_NAME
    }

    pub fn l_brack_token(&self) -> (r: SyntaxResult<SyntaxToken<'a>>)
        ensures
            required_token_field(self.syntax_view(), seq![SyntaxKind::L_BRACK], r),
    {
        support::required_token(&self.syntax, SyntaxKind::L_BRACK)
    }

    pub fn expression(&self) -> (r: SyntaxResult<JsAnyExpression<'a>>)
        ensures
            required_node_field(self.syntax_view(), r),
    {
        support::required_node(&self.syntax)
    }

    pub fn r_brack_token(&self) -> (r: SyntaxResult<SyntaxToken<'a>>)
        ensures
            required_token_field(self.syntax_view(), seq![SyntaxKind::R_BRACK], r),
    {
        support::required_token(&self.syntax, SyntaxKind::R_BRACK)
    }
}

impl<'a> AstNode<'a> for JsComputedMemberName<'a> {
    open spec fn kind_ok(kind: SyntaxKind) -> bool {
        kind == SyntaxKind::JS_COMPUTED_MEMBER_NAME
    }

    closed spec fn syntax_view(&self) -> SyntaxNode<'a> {
        self.syntax
    }

    fn can_cast(kind: SyntaxKind) -> (r: bool) {
        kind == SyntaxKind::JS_COMPUTED_MEMBER_NAME
    }

    fn cast(syntax: SyntaxNode<'a>) -> (r: Option<Self>) {
        if syntax.kind() == SyntaxKind::JS_COMPUTED_MEMBER_NAME {
            Some(JsComputedMemberName { syntax })
        } else {
            None
        }
    }

    fn syntax(&self) -> (r: &SyntaxNode<'a>) {
        proof {
            use_type_invariant(self);
        }
        &self.syntax
    }
}

/// A node of kind `JS_PROPERTY_OBJECT_MEMBER`.
#[derive(Clone, Copy, Debug)]
pub struct JsPropertyObjectMember<'a> {
    syntax: SyntaxNode<'a>,
}

impl<'a> JsPropertyObjectMember<'a> {
    #[verifier::type_invariant]
    spec fn inv(self) -> bool {
        self.syntax.kind_view() == SyntaxKind::JS_PROPERTY_OBJECT_MEMBER
    }

    pub fn name(&self) -> (r: SyntaxResult<JsAnyObjectMemberName<'a>>)
        ensures
            required_node_field(self.syntax_view(), r),
    {
        support::required_node(&self.syntax)
    }

    pub fn colon_token(&self) -> (r: SyntaxResult<SyntaxToken<'a>>)
        ensures
            required_token_field(self.syntax_view(), seq![SyntaxKind::COLON], r),
    {
        support::required_token(&self.syntax, SyntaxKind::COLON)
    }
}

impl<'a> AstNode<'a> for JsPropertyObjectMember<'a> {
    open spec fn kind_ok(kind: SyntaxKind) -> bool {
        kind == SyntaxKind::JS_PROPERTY_OBJECT_MEMBER
    }

    closed spec fn syntax_view(&self) -> SyntaxNode<'a> {
        self.syntax
    }

    fn can_cast(kind: SyntaxKind) -> (r: bool) {
        kind == SyntaxKind::JS_PROPERTY_OBJECT_MEMBER
    }

    fn cast(syntax: SyntaxNode<'a>) -> (r: Option<Self>) {
        if syntax.kind() == SyntaxKind::JS_PROPERTY_OBJECT_MEMBER {
            Some(JsPropertyObjectMember { syntax })
        } else {
            None
        }
    }

    fn syntax(&self) -> (r: &SyntaxNode<'a>) {
        proof {
            use_type_invariant(self);
        }
        &self.syntax
    }
}

/// A node of kind `JS_METHOD_OBJECT_MEMBER`.
#[derive(Clone, Copy, Debug)]
pub struct JsMethodObjectMember<'a> {
    syntax: SyntaxNode<'a>,
}

impl<'a> JsMethodObjectMember<'a> {
    #[verifier::type_invariant]
    spec fn inv(self) -> bool {
        self.syntax.kind_view() == SyntaxKind::JS_METHOD_OBJECT_MEMBER
    }

    pub fn async_token(&self) -> (r: Option<SyntaxToken<'a>>)
        ensures
            token_field(self.syntax_view(), seq![SyntaxKind::ASYNC_KW], r),
    {
        support::token(&self.syntax, SyntaxKind::ASYNC_KW)
    }

    pub fn star_token(&self) -> (r: Option<SyntaxToken<'a>>)
        ensures
            token_field(self.syntax_view(), seq![SyntaxKind::STAR], r),
    {
        support::token(&self.syntax, SyntaxKind::STAR)
    }

    pub fn name(&self) -> (r: SyntaxResult<JsAnyObjectMemberName<'a>>)
        ensures
            required_node_field(self.syntax_view(), r),
    {
        support::required_node(&self.syntax)
    }

    pub fn type_params(&self) -> (r: Option<TsTypeParams<'a>>)
        ensures
            node_field(self.syntax_view(), r),
    {
        support::node(&self.syntax)
    }

    pub fn parameter_list(&self) -> (r: SyntaxResult<JsParameterList<'a>>)
        ensures
            required_node_field(self.syntax_view(), r),
    {
        support::required_node(&self.syntax)
    }

    pub fn return_type(&self) -> (r: Option<TsTypeAnnotation<'a>>)
        ensures
            node_field(self.syntax_view(), r),
    {
        support::node(&self.syntax)
    }

    pub fn body(&self) -> (r: SyntaxResult<JsFunctionBody<'a>>)
        ensures
            required_node_field(self.syntax_view(), r),
    {
        support::required_node(&self.syntax)
    }
}

impl<'a> AstNode<'a> for JsMethodObjectMember<'a> {
    open spec fn kind_ok(kind: SyntaxKind) -> bool {
        kind == SyntaxKind::JS_METHOD_OBJECT_MEMBER
    }

    closed spec fn syntax_view(&self) -> SyntaxNode<'a> {
        self.syntax
    }

    fn can_cast(kind: SyntaxKind) -> (r: bool) {
        kind == SyntaxKind::JS_METHOD_OBJECT_MEMBER
    }

    fn cast(syntax: SyntaxNode<'a>) -> (r: Option<Self>) {
        if syntax.kind() == SyntaxKind::JS_METHOD_OBJECT_MEMBER {
            Some(JsMethodObjectMember { syntax })
        } else {
            None
        }
    }

    fn syntax(&self) -> (r: &SyntaxNode<'a>) {
        proof {
            use_type_invariant(self);
        }
        &self.syntax
    }
}

/// A node of kind `JS_GETTER_OBJECT_MEMBER`.
#[derive(Clone, Copy, Debug)]
pub struct JsGetterObjectMember<'a> {
    syntax: SyntaxNode<'a>,
}

impl<'a> JsGetterObjectMember<'a> {
    #[verifier::type_invariant]
    spec fn inv(self) -> bool {
        self.syntax.kind_view() == SyntaxKind::JS_GETTER_OBJECT_MEMBER
    }

    pub fn get_token(&self) -> (r: SyntaxResult<SyntaxToken<'a>>)
        ensures
            required_token_field(self.syntax_view(), seq![SyntaxKind::GET_KW], r),
    {
        support::required_token(&self.syntax, SyntaxKind::GET_KW)
    }

    pub fn name(&self) -> (r: SyntaxResult<JsAnyObjectMemberName<'a>>)
        ensures
            required_node_field(self.syntax_view(), r),
    {
        support::required_node(&self.syntax)
    }

    pub fn l_paren_token(&self) -> (r: SyntaxResult<SyntaxToken<'a>>)
        ensures
            required_token_field(self.syntax_view(), seq![SyntaxKind::L_PAREN], r),
    {
        support::required_token(&self.syntax, SyntaxKind::L_PAREN)
    }

    pub fn r_paren_token(&self) -> (r: SyntaxResult<SyntaxToken<'a>>)
        ensures
            required_token_field(self.syntax_view(), seq![SyntaxKind::R_PAREN], r),
    {
        support::required_token(&self.syntax, SyntaxKind::R_PAREN)
    }

    pub fn return_type(&self) -> (r: Option<TsTypeAnnotation<'a>>)
        ensures
            node_field(self.syntax_view(), r),
    {
        support::node(&self.syntax)
    }

    pub fn body(&self) -> (r: SyntaxResult<JsFunctionBody<'a>>)
        ensures
            required_node_field(self.syntax_view(), r),
    {
        support::required_node(&self.syntax)
    }
}

impl<'a> AstNode<'a> for JsGetterObjectMember<'a> {
    open spec fn kind_ok(kind: SyntaxKind) -> bool {
        kind == SyntaxKind::JS_GETTER_OBJECT_MEMBER
    }

    closed spec fn syntax_view(&self) -> SyntaxNode<'a> {
        self.syntax
    }

    fn can_cast(kind: SyntaxKind) -> (r: bool) {
        kind == SyntaxKind::JS_GETTER_OBJECT_MEMBER
    }

    fn cast(syntax: SyntaxNode<'a>) -> (r: Option<Self>) {
        if syntax.kind() == SyntaxKind::JS_GETTER_OBJECT_MEMBER {
            Some(JsGetterObjectMember { syntax })
        } else {
            None
        }
    }

    fn syntax(&self) -> (r: &SyntaxNode<'a>) {
        proof {
            use_type_invariant(self);
        }
        &self.syntax
    }
}

/// A node of kind `JS_SETTER_OBJECT_MEMBER`.
#[derive(Clone, Copy, Debug)]
pub struct JsSetterObjectMember<'a> {
    syntax: SyntaxNode<'a>,
}

impl<'a> JsSetterObjectMember<'a> {
    #[verifier::type_invariant]
    spec fn inv(self) -> bool {
        self.syntax.kind_view() == SyntaxKind::JS_SETTER_OBJECT_MEMBER
    }

    pub fn set_token(&self) -> (r: SyntaxResult<SyntaxToken<'a>>)
        ensures
            required_token_field(self.syntax_view(), seq![SyntaxKind::SET_KW], r),
    {
        support::required_token(&self.syntax, SyntaxKind::SET_KW)
    }

    pub fn name(&self) -> (r: SyntaxResult<JsAnyObjectMemberName<'a>>)
        ensures
            required_node_field(self.syntax_view(), r),
    {
        support::required_node(&self.syntax)
    }

    pub fn l_paren_token(&self) -> (r: SyntaxResult<SyntaxToken<'a>>)
        ensures
            required_token_field(self.syntax_view(), seq![SyntaxKind::L_PAREN], r),
    {
        support::required_token(&self.syntax, SyntaxKind::L_PAREN)
    }

    pub fn parameter(&self) -> (r: SyntaxResult<JsAnyBindingPattern<'a>>)
        ensures
            required_node_field(self.syntax_view(), r),
    {
        support::required_node(&self.syntax)
    }

    pub fn r_paren_token(&self) -> (r: SyntaxResult<SyntaxToken<'a>>)
        ensures
            required_token_field(self.syntax_view(), seq![SyntaxKind::R_PAREN], r),
    {
        support::required_token(&self.syntax, SyntaxKind::R_PAREN)
    }

    pub fn body(&self) -> (r: SyntaxResult<JsFunctionBody<'a>>)
        ensures
            required_node_field(self.syntax_view(), r),
    {
        support::required_node(&self.syntax)
    }
}

impl<'a> AstNode<'a> for JsSetterObjectMember<'a> {
    open spec fn kind_ok(kind: SyntaxKind) -> bool {
        kind == SyntaxKind::JS_SETTER_OBJECT_MEMBER
    }

    closed spec fn syntax_view(&self) -> SyntaxNode<'a> {
        self.syntax
    }

    fn can_cast(kind: SyntaxKind) -> (r: bool) {
        kind == SyntaxKind::JS_SETTER_OBJECT_MEMBER
    }

    fn cast(syntax: SyntaxNode<'a>) -> (r: Option<Self>) {
        if syntax.kind() == SyntaxKind::JS_SETTER_OBJECT_MEMBER {
            Some(JsSetterObjectMember { syntax })
        } else {
            None
        }
    }

    fn syntax(&self) -> (r: &SyntaxNode<'a>) {
        proof {
            use_type_invariant(self);
        }
        &self.syntax
    }
}

/// A node of kind `JS_SHORTHAND_PROPERTY_OBJECT_MEMBER`.
#[derive(Clone, Copy, Debug)]
pub struct JsShorthandPropertyObjectMember<'a> {
    syntax: SyntaxNode<'a>,
}

impl<'a> JsShorthandPropertyObjectMember<'a> {
    #[verifier::type_invariant]
    spec fn inv(self) -> bool {
        self.syntax.kind_view() == SyntaxKind::JS_SHORTHAND_PROPERTY_OBJECT_MEMBER
    }

    pub fn name(&self) -> (r: SyntaxResult<JsReferenceIdentifier<'a>>)
        ensures
            required_node_field(self.syntax_view(), r),
    {
        support::required_node(&self.syntax)
    }
}

impl<'a> AstNode<'a> for JsShorthandPropertyObjectMember<'a> {
    open spec fn kind_ok(kind: SyntaxKind) -> bool {
        kind == SyntaxKind::JS_SHORTHAND_PROPERTY_OBJECT_MEMBER
    }

    closed spec fn syntax_view(&self) -> SyntaxNode<'a> {
        self.syntax
    }

    fn can_cast(kind: SyntaxKind) -> (r: bool) {
        kind == SyntaxKind::JS_SHORTHAND_PROPERTY_OBJECT_MEMBER
    }

    fn cast(syntax: SyntaxNode<'a>) -> (r: Option<Self>) {
        if syntax.kind() == SyntaxKind::JS_SHORTHAND_PROPERTY_OBJECT_MEMBER {
            Some(JsShorthandPropertyObjectMember { syntax })
        } else {
            None
        }
    }

    fn syntax(&self) -> (r: &SyntaxNode<'a>) {
        proof {
            use_type_invariant(self);
        }
        &self.syntax
    }
}

/// A node of kind `TS_IMPLEMENTS_CLAUSE`.
#[derive(Clone, Copy, Debug)]
pub struct TsImplementsClause<'a> {
    syntax: SyntaxNode<'a>,
}

impl<'a> TsImplementsClause<'a> {
    #[verifier::type_invariant]
    spec fn inv(self) -> bool {
        self.syntax.kind_view() == SyntaxKind::TS_IMPLEMENTS_CLAUSE
    }

    pub fn implements_token(&self) -> (r: SyntaxResult<SyntaxToken<'a>>)
        ensures
            required_token_field(self.syntax_view(), seq![SyntaxKind::IMPLEMENTS_KW], r),
    {
        support::required_token(&self.syntax, SyntaxKind::IMPLEMENTS_KW)
    }

    pub fn interfaces(&self) -> (r: AstSeparatedList<'a, TsExprWithTypeArgs<'a>>)
        ensures
            list_field(self.syntax_view(), 0, r.list_view()),
    {
        support::separated_list(&self.syntax, 0)
    }
}

impl<'a> AstNode<'a> for TsImplementsClause<'a> {
    open spec fn kind_ok(kind: SyntaxKind) -> bool {
        kind == SyntaxKind::TS_IMPLEMENTS_CLAUSE
    }

    closed spec fn syntax_view(&self) -> SyntaxNode<'a> {
        self.syntax
    }

    fn can_cast(kind: SyntaxKind) -> (r: bool) {
        kind == SyntaxKind::TS_IMPLEMENTS_CLAUSE
    }

    fn cast(syntax: SyntaxNode<'a>) -> (r: Option<Self>) {
        if syntax.kind() == SyntaxKind::TS_IMPLEMENTS_CLAUSE {
            Some(TsImplementsClause { syntax })
        } else {
            None
        }
    }

    fn syntax(&self) -> (r: &SyntaxNode<'a>) {
        proof {
            use_type_invariant(self);
        }
        &self.syntax
    }
}

/// A node of kind `JS_EXTENDS_CLAUSE`.
#[derive(Clone, Copy, Debug)]
pub struct JsExtendsClause<'a> {
    syntax: SyntaxNode<'a>,
}

impl<'a> JsExtendsClause<'a> {
    #[verifier::type_invariant]
    spec fn inv(self) -> bool {
        self.syntax.kind_view() == SyntaxKind::JS_EXTENDS_CLAUSE
    }

    pub fn extends_token(&self) -> (r: SyntaxResult<SyntaxToken<'a>>)
        ensures
            required_token_field(self.syntax_view(), seq![SyntaxKind::EXTENDS_KW], r),
    {
        support::required_token(&self.syntax, SyntaxKind::EXTENDS_KW)
    }

    pub fn super_class(&self) -> (r: SyntaxResult<JsAnyExpression<'a>>)
        ensures
            required_node_field(self.syntax_view(), r),
    {
        support::required_node(&self.syntax)
    }
}

impl<'a> AstNode<'a> for JsExtendsClause<'a> {
    open spec fn kind_ok(kind: SyntaxKind) -> bool {
        kind == SyntaxKind::JS_EXTENDS_CLAUSE
    }

    closed spec fn syntax_view(&self) -> SyntaxNode<'a> {
        self.syntax
    }

    fn can_cast(kind: SyntaxKind) -> (r: bool) {
        kind == SyntaxKind::JS_EXTENDS_CLAUSE
    }

    fn cast(syntax: SyntaxNode<'a>) -> (r: Option<Self>) {
        if syntax.kind() == SyntaxKind::JS_EXTENDS_CLAUSE {
            Some(JsExtendsClause { syntax })
        } else {
            None
        }
    }

    fn syntax(&self) -> (r: &SyntaxNode<'a>) {
        proof {
            use_type_invariant(self);
        }
        &self.syntax
    }
}

/// A node of kind `TS_EXPR_WITH_TYPE_ARGS`.
#[derive(Clone, Copy, Debug)]
pub struct TsExprWithTypeArgs<'a> {
    syntax: SyntaxNode<'a>,
}

impl<'a> TsExprWithTypeArgs<'a> {
    #[verifier::type_invariant]
    spec fn inv(self) -> bool {
        self.syntax.kind_view() == SyntaxKind::TS_EXPR_WITH_TYPE_ARGS
    }

    pub fn item(&self) -> (r: SyntaxResult<TsEntityName<'a>>)
        ensures
            required_node_field(self.syntax_view(), r),
    {
        support::required_node(&self.syntax)
    }

    pub fn type_params(&self) -> (r: SyntaxResult<TsTypeArgs<'a>>)
        ensures
            required_node_field(self.syntax_view(), r),
    {
        support::required_node(&self.syntax)
    }
}

impl<'a> AstNode<'a> for TsExprWithTypeArgs<'a> {
    open spec fn kind_ok(kind: SyntaxKind) -> bool {
        kind == SyntaxKind::TS_EXPR_WITH_TYPE_ARGS
    }

    closed spec fn syntax_view(&self) -> SyntaxNode<'a> {
        self.syntax
    }

    fn can_cast(kind: SyntaxKind) -> (r: bool) {
        kind == SyntaxKind::TS_EXPR_WITH_TYPE_ARGS
    }

    fn cast(syntax: SyntaxNode<'a>) -> (r: Option<Self>) {
        if syntax.kind() == SyntaxKind::TS_EXPR_WITH_TYPE_ARGS {
            Some(TsExprWithTypeArgs { syntax })
        } else {
            None
        }
    }

    fn syntax(&self) -> (r: &SyntaxNode<'a>) {
        proof {
            use_type_invariant(self);
        }
        &self.syntax
    }
}

/// A node of kind `JS_PRIVATE_CLASS_MEMBER_NAME`.
#[derive(Clone, Copy, Debug)]
pub struct JsPrivateClassMemberName<'a> {
    syntax: SyntaxNode<'a>,
}

impl<'a> JsPrivateClassMemberName<'a> {
    #[verifier::type_invariant]
    spec fn inv(self) -> bool {
        self.syntax.kind_view() == SyntaxKind::JS_PRIVATE_CLASS_MEMBER_NAME
    }

    pub fn hash_token(&self) -> (r: SyntaxResult<SyntaxToken<'a>>)
        ensures
            required_token_field(self.syntax_view(), seq![SyntaxKind::HASH], r),
    {
        support::required_token(&self.syntax, SyntaxKind::HASH)
    }

    pub fn id_token(&self) -> (r: SyntaxResult<SyntaxToken<'a>>)
        ensures
            required_token_field(self.syntax_view(), seq![SyntaxKind::IDENT], r),
    {
        support::required_token(&self.syntax, SyntaxKind::IDENT)
    }
}

impl<'a> AstNode<'a> for JsPrivateClassMemberName<'a> {
    open spec fn kind_ok(kind: SyntaxKind) -> bool {
        kind == SyntaxKind::JS_PRIVATE_CLASS_MEMBER_NAME
    }

    closed spec fn syntax_view(&self) -> SyntaxNode<'a> {
        self.syntax
    }

    fn can_cast(kind: SyntaxKind) -> (r: bool) {
        kind == SyntaxKind::JS_PRIVATE_CLASS_MEMBER_NAME
    }

    fn cast(syntax: SyntaxNode<'a>) -> (r: Option<Self>) {
        if syntax.kind() == SyntaxKind::JS_PRIVATE_CLASS_MEMBER_NAME {
            Some(JsPrivateClassMemberName { syntax })
        } else {
            None
        }
    }

    fn syntax(&self) -> (r: &SyntaxNode<'a>) {
        proof {
            use_type_invariant(self);
        }
        &self.syntax
    }
}

/// A node of kind `JS_CONSTRUCTOR_CLASS_MEMBER`.
#[derive(Clone, Copy, Debug)]
pub struct JsConstructorClassMember<'a> {
    syntax: SyntaxNode<'a>,
}

impl<'a> JsConstructorClassMember<'a> {
    #[verifier::type_invariant]
    spec fn inv(self) -> bool {
        self.syntax.kind_view() == SyntaxKind::JS_CONSTRUCTOR_CLASS_MEMBER
    }

    pub fn access_modifier(&self) -> (r: Option<TsAccessibility<'a>>)
        ensures
            node_field(self.syntax_view(), r),
    {
        support::node(&self.syntax)
    }

    pub fn name(&self) -> (r: SyntaxResult<JsLiteralMemberName<'a>>)
        ensures
            required_node_field(self.syntax_view(), r),
    {
        support::required_node(&self.syntax)
    }

    pub fn parameter_list(&self) -> (r: SyntaxResult<JsConstructorParameterList<'a>>)
        ensures
            required_node_field(self.syntax_view(), r),
    {
        support::required_node(&self.syntax)
    }

    pub fn body(&self) -> (r: SyntaxResult<JsFunctionBody<'a>>)
        ensures
            required_node_field(self.syntax_view(), r),
    {
        support::required_node(&self.syntax)
    }
}

impl<'a> AstNode<'a> for JsConstructorClassMember<'a> {
    open spec fn kind_ok(kind: SyntaxKind) -> bool {
        kind == SyntaxKind::JS_CONSTRUCTOR_CLASS_MEMBER
    }

    closed spec fn syntax_view(&self) -> SyntaxNode<'a> {
        self.syntax
    }

    fn can_cast(kind: SyntaxKind) -> (r: bool) {
        kind == SyntaxKind::JS_CONSTRUCTOR_CLASS_MEMBER
    }

    fn cast(syntax: SyntaxNode<'a>) -> (r: Option<Self>) {
        if syntax.kind() == SyntaxKind::JS_CONSTRUCTOR_CLASS_MEMBER {
            Some(JsConstructorClassMember { syntax })
        } else {
            None
        }
    }

    fn syntax(&self) -> (r: &SyntaxNode<'a>) {
        proof {
            use_type_invariant(self);
        }
        &self.syntax
    }
}

/// A node of kind `JS_PROPERTY_CLASS_MEMBER`.
#[derive(Clone, Copy, Debug)]
pub struct JsPropertyClassMember<'a> {
    syntax: SyntaxNode<'a>,
}

impl<'a> JsPropertyClassMember<'a> {
    #[verifier::type_invariant]
    spec fn inv(self) -> bool {
        self.syntax.kind_view() == SyntaxKind::JS_PROPERTY_CLASS_MEMBER
    }

    pub fn modifiers(&self) -> (r: Option<JsAnyModifier<'a>>)
        ensures
            node_field(self.syntax_view(), r),
    {
        support::node(&self.syntax)
    }

    pub fn access_modifier(&self) -> (r: Option<TsAccessibility<'a>>)
        ensures
            node_field(self.syntax_view(), r),
    {
        support::node(&self.syntax)
    }

    pub fn abstract_token(&self) -> (r: Option<SyntaxToken<'a>>)
        ensures
            token_field(self.syntax_view(), seq![SyntaxKind::ABSTRACT_KW], r),
    {
        support::token(&self.syntax, SyntaxKind::ABSTRACT_KW)
    }

    pub fn static_token(&self) -> (r: Option<SyntaxToken<'a>>)
        ensures
            token_field(self.syntax_view(), seq![SyntaxKind::STATIC_KW], r),
    {
        support::token(&self.syntax, SyntaxKind::STATIC_KW)
    }

    pub fn name(&self) -> (r: SyntaxResult<JsAnyClassMemberName<'a>>)
        ensures
            required_node_field(self.syntax_view(), r),
    {
        support::required_node(&self.syntax)
    }

    pub fn question_mark_token(&self) -> (r: Option<SyntaxToken<'a>>)
        ensures
            token_field(self.syntax_view(), seq![SyntaxKind::QUESTION], r),
    {
        support::token(&self.syntax, SyntaxKind::QUESTION)
    }

    pub fn excl_token(&self) -> (r: Option<SyntaxToken<'a>>)
        ensures
            token_field(self.syntax_view(), seq![SyntaxKind::BANG], r),
    {
        support::token(&self.syntax, SyntaxKind::BANG)
    }

    pub fn ty(&self) -> (r: Option<TsTypeAnnotation<'a>>)
        ensures
            node_field(self.syntax_view(), r),
    {
        support::node(&self.syntax)
    }

    pub fn value(&self) -> (r: Option<JsEqualValueClause<'a>>)
        ensures
            node_field(self.syntax_view(), r),
    {
        support::node(&self.syntax)
    }

    pub fn semicolon_token(&self) -> (r: Option<SyntaxToken<'a>>)
        ensures
            token_field(self.syntax_view(), seq![SyntaxKind::SEMICOLON], r),
    {
        support::token(&self.syntax, SyntaxKind::SEMICOLON)
    }
}

impl<'a> AstNode<'a> for JsPropertyClassMember<'a> {
    open spec fn kind_ok(kind: SyntaxKind) -> bool {
        kind == SyntaxKind::JS_PROPERTY_CLASS_MEMBER
    }

    closed spec fn syntax_view(&self) -> SyntaxNode<'a> {
        self.syntax
    }

    fn can_cast(kind: SyntaxKind) -> (r: bool) {
        kind == SyntaxKind::JS_PROPERTY_CLASS_MEMBER
    }

    fn cast(syntax: SyntaxNode<'a>) -> (r: Option<Self>) {
        if syntax.kind() == SyntaxKind::JS_PROPERTY_CLASS_MEMBER {
            Some(JsPropertyClassMember { syntax })
        } else {
            None
        }
    }

    fn syntax(&self) -> (r: &SyntaxNode<'a>) {
        proof {
            use_type_invariant(self);
        }
        &self.syntax
    }
}

/// A node of kind `JS_METHOD_CLASS_MEMBER`.
#[derive(Clone, Copy, Debug)]
pub struct JsMethodClassMember<'a> {
    syntax: SyntaxNode<'a>,
}

impl<'a> JsMethodClassMember<'a> {
    #[verifier::type_invariant]
    spec fn inv(self) -> bool {
        self.syntax.kind_view() == SyntaxKind::JS_METHOD_CLASS_MEMBER
    }

    pub fn access_modifier(&self) -> (r: Option<TsAccessibility<'a>>)
        ensures
            node_field(self.syntax_view(), r),
    {
        support::node(&self.syntax)
    }

    pub fn static_token(&self) -> (r: Option<SyntaxToken<'a>>)
        ensures
            token_field(self.syntax_view(), seq![SyntaxKind::STATIC_KW], r),
    {
        support::token(&self.syntax, SyntaxKind::STATIC_KW)
    }

    pub fn abstract_token(&self) -> (r: Option<SyntaxToken<'a>>)
        ensures
            token_field(self.syntax_view(), seq![SyntaxKind::ABSTRACT_KW], r),
    {
        support::token(&self.syntax, SyntaxKind::ABSTRACT_KW)
    }

    pub fn async_token(&self) -> (r: Option<SyntaxToken<'a>>)
        ensures
            token_field(self.syntax_view(), seq![SyntaxKind::ASYNC_KW], r),
    {
        support::token(&self.syntax, SyntaxKind::ASYNC_KW)
    }

    pub fn star_token(&self) -> (r: Option<SyntaxToken<'a>>)
        ensures
            token_field(self.syntax_view(), seq![SyntaxKind::STAR], r),
    {
        support::token(&self.syntax, SyntaxKind::STAR)
    }

    pub fn name(&self) -> (r: SyntaxResult<JsAnyClassMemberName<'a>>)
        ensures
            required_node_field(self.syntax_view(), r),
    {
        support::required_node(&self.syntax)
    }

    pub fn type_parameters(&self) -> (r: Option<TsTypeParams<'a>>)
        ensures
            node_field(self.syntax_view(), r),
    {
        support::node(&self.syntax)
    }

    pub fn parameter_list(&self) -> (r: SyntaxResult<JsParameterList<'a>>)
        ensures
            required_node_field(self.syntax_view(), r),
    {
        support::required_node(&self.syntax)
    }

    pub fn return_type(&self) -> (r: Option<TsTypeAnnotation<'a>>)
        ensures
            node_field(self.syntax_view(), r),
    {
        support::node(&self.syntax)
    }

    pub fn body(&self) -> (r: SyntaxResult<JsFunctionBody<'a>>)
        ensures
            required_node_field(self.syntax_view(), r),
    {
        support::required_node(&self.syntax)
    }
}

impl<'a> AstNode<'a> for JsMethodClassMember<'a> {
    open spec fn kind_ok(kind: SyntaxKind) -> bool {
        kind == SyntaxKind::JS_METHOD_CLASS_MEMBER
    }

    closed spec fn syntax_view(&self) -> SyntaxNode<'a> {
        self.syntax
    }

    fn can_cast(kind: SyntaxKind) -> (r: bool) {
        kind == SyntaxKind::JS_METHOD_CLASS_MEMBER
    }

    fn cast(syntax: SyntaxNode<'a>) -> (r: Option<Self>) {
        if syntax.kind() == SyntaxKind::JS_METHOD_CLASS_MEMBER {
            Some(JsMethodClassMember { syntax })
        } else {
            None
        }
    }

    fn syntax(&self) -> (r: &SyntaxNode<'a>) {
        proof {
            use_type_invariant(self);
        }
        &self.syntax
    }
}

/// A node of kind `JS_GETTER_CLASS_MEMBER`.
#[derive(Clone, Copy, Debug)]
pub struct JsGetterClassMember<'a> {
    syntax: SyntaxNode<'a>,
}

impl<'a> JsGetterClassMember<'a> {
    #[verifier::type_invariant]
    spec fn inv(self) -> bool {
        self.syntax.kind_view() == SyntaxKind::JS_GETTER_CLASS_MEMBER
    }

    pub fn access_modifier(&self) -> (r: Option<TsAccessibility<'a>>)
        ensures
            node_field(self.syntax_view(), r),
    {
        support::node(&self.syntax)
    }

    pub fn abstract_token(&self) -> (r: Option<SyntaxToken<'a>>)
        ensures
            token_field(self.syntax_view(), seq![SyntaxKind::ABSTRACT_KW], r),
    {
        support::token(&self.syntax, SyntaxKind::ABSTRACT_KW)
    }

    pub fn static_token(&self) -> (r: Option<SyntaxToken<'a>>)
        ensures
            token_field(self.syntax_view(), seq![SyntaxKind::STATIC_KW], r),
    {
        support::token(&self.syntax, SyntaxKind::STATIC_KW)
    }

    pub fn get_token(&self) -> (r: SyntaxResult<SyntaxToken<'a>>)
        ensures
            required_token_field(self.syntax_view(), seq![SyntaxKind::GET_KW], r),
    {
        support::required_token(&self.syntax, SyntaxKind::GET_KW)
    }

    pub fn name(&self) -> (r: SyntaxResult<JsAnyClassMemberName<'a>>)
        ensures
            required_node_field(self.syntax_view(), r),
    {
        support::required_node(&self.syntax)
    }

    pub fn l_paren_token(&self) -> (r: SyntaxResult<SyntaxToken<'a>>)
        ensures
            required_token_field(self.syntax_view(), seq![SyntaxKind::L_PAREN], r),
    {
        support::required_token(&self.syntax, SyntaxKind::L_PAREN)
    }

    pub fn r_paren_token(&self) -> (r: SyntaxResult<SyntaxToken<'a>>)
        ensures
            required_token_field(self.syntax_view(), seq![SyntaxKind::R_PAREN], r),
    {
        support::required_token(&self.syntax, SyntaxKind::R_PAREN)
    }

    pub fn return_type(&self) -> (r: Option<TsTypeAnnotation<'a>>)
        ensures
            node_field(self.syntax_view(), r),
    {
        support::node(&self.syntax)
    }

    pub fn body(&self) -> (r: SyntaxResult<JsFunctionBody<'a>>)
        ensures
            required_node_field(self.syntax_view(), r),
    {
        support::required_node(&self.syntax)
    }
}

impl<'a> AstNode<'a> for JsGetterClassMember<'a> {
    open spec fn kind_ok(kind: SyntaxKind) -> bool {
        kind == SyntaxKind::JS_GETTER_CLASS_MEMBER
    }

    closed spec fn syntax_view(&self) -> SyntaxNode<'a> {
        self.syntax
    }

    fn can_cast(kind: SyntaxKind) -> (r: bool) {
        kind == SyntaxKind::JS_GETTER_CLASS_MEMBER
    }

    fn cast(syntax: SyntaxNode<'a>) -> (r: Option<Self>) {
        if syntax.kind() == SyntaxKind::JS_GETTER_CLASS_MEMBER {
            Some(JsGetterClassMember { syntax })
        } else {
            None
        }
    }

    fn syntax(&self) -> (r: &SyntaxNode<'a>) {
        proof {
            use_type_invariant(self);
        }
        &self.syntax
    }
}

/// A node of kind `JS_SETTER_CLASS_MEMBER`.
#[derive(Clone, Copy, Debug)]
pub struct JsSetterClassMember<'a> {
    syntax: SyntaxNode<'a>,
}

impl<'a> JsSetterClassMember<'a> {
    #[verifier::type_invariant]
    spec fn inv(self) -> bool {
        self.syntax.kind_view() == SyntaxKind::JS_SETTER_CLASS_MEMBER
    }

    pub fn access_modifier(&self) -> (r: Option<TsAccessibility<'a>>)
        ensures
            node_field(self.syntax_view(), r),
    {
        support::node(&self.syntax)
    }

    pub fn abstract_token(&self) -> (r: Option<SyntaxToken<'a>>)
        ensures
            token_field(self.syntax_view(), seq![SyntaxKind::ABSTRACT_KW], r),
    {
        support::token(&self.syntax, SyntaxKind::ABSTRACT_KW)
    }

    pub fn static_token(&self) -> (r: Option<SyntaxToken<'a>>)
        ensures
            token_field(self.syntax_view(), seq![SyntaxKind::STATIC_KW], r),
    {
        support::token(&self.syntax, SyntaxKind::STATIC_KW)
    }

    pub fn set_token(&self) -> (r: SyntaxResult<SyntaxToken<'a>>)
        ensures
            required_token_field(self.syntax_view(), seq![SyntaxKind::SET_KW], r),
    {
        support::required_token(&self.syntax, SyntaxKind::SET_KW)
    }

    pub fn name(&self) -> (r: SyntaxResult<JsAnyClassMemberName<'a>>)
        ensures
            required_node_field(self.syntax_view(), r),
    {
        support::required_node(&self.syntax)
    }

    pub fn l_paren_token(&self) -> (r: SyntaxResult<SyntaxToken<'a>>)
        ensures
            required_token_field(self.syntax_view(), seq![SyntaxKind::L_PAREN], r),
    {
        support::required_token(&self.syntax, SyntaxKind::L_PAREN)
    }

    pub fn parameter(&self) -> (r: SyntaxResult<JsAnyBindingPattern<'a>>)
        ensures
            required_node_field(self.syntax_view(), r),
    {
        support::required_node(&self.syntax)
    }

    pub fn r_paren_token(&self) -> (r: SyntaxResult<SyntaxToken<'a>>)
        ensures
            required_token_field(self.syntax_view(), seq![SyntaxKind::R_PAREN], r),
    {
        support::required_token(&self.syntax, SyntaxKind::R_PAREN)
    }

    pub fn body(&self) -> (r: SyntaxResult<JsFunctionBody<'a>>)
        ensures
            required_node_field(self.syntax_view(), r),
    {
        support::required_node(&self.syntax)
    }
}

impl<'a> AstNode<'a> for JsSetterClassMember<'a> {
    open spec fn kind_ok(kind: SyntaxKind) -> bool {
        kind == SyntaxKind::JS_SETTER_CLASS_MEMBER
    }

    closed spec fn syntax_view(&self) -> SyntaxNode<'a> {
        self.syntax
    }

    fn can_cast(kind: SyntaxKind) -> (r: bool) {
        kind == SyntaxKind::JS_SETTER_CLASS_MEMBER
    }

    fn cast(syntax: SyntaxNode<'a>) -> (r: Option<Self>) {
        if syntax.kind() == SyntaxKind::JS_SETTER_CLASS_MEMBER {
            Some(JsSetterClassMember { syntax })
        } else {
            None
        }
    }

    fn syntax(&self) -> (r: &SyntaxNode<'a>) {
        proof {
            use_type_invariant(self);
        }
        &self.syntax
    }
}

/// A node of kind `JS_EMPTY_CLASS_MEMBER`.
#[derive(Clone, Copy, Debug)]
pub struct JsEmptyClassMember<'a> {
    syntax: SyntaxNode<'a>,
}

impl<'a> JsEmptyClassMember<'a> {
    #[verifier::type_invariant]
    spec fn inv(self) -> bool {
        self.syntax.kind_view() == SyntaxKind::JS_EMPTY_CLASS_MEMBER
    }

    pub fn semicolon_token(&self) -> (r: SyntaxResult<SyntaxToken<'a>>)
        ensures
            required_token_field(self.syntax_view(), seq![SyntaxKind::SEMICOLON], r),
    {
        support::required_token(&self.syntax, SyntaxKind::SEMICOLON)
    }
}

impl<'a> AstNode<'a> for JsEmptyClassMember<'a> {
    open spec fn kind_ok(kind: SyntaxKind) -> bool {
        kind == SyntaxKind::JS_EMPTY_CLASS_MEMBER
    }

    closed spec fn syntax_view(&self) -> SyntaxNode<'a> {
        self.syntax
    }

    fn can_cast(kind: SyntaxKind) -> (r: bool) {
        kind == SyntaxKind::JS_EMPTY_CLASS_MEMBER
    }

    fn cast(syntax: SyntaxNode<'a>) -> (r: Option<Self>) {
        if syntax.kind() == SyntaxKind::JS_EMPTY_CLASS_MEMBER {
            Some(JsEmptyClassMember { syntax })
        } else {
            None
        }
    }

    fn syntax(&self) -> (r: &SyntaxNode<'a>) {
        proof {
            use_type_invariant(self);
        }
        &self.syntax
    }
}

/// A node of kind `TS_INDEX_SIGNATURE`.
#[derive(Clone, Copy, Debug)]
pub struct TsIndexSignature<'a> {
    syntax: SyntaxNode<'a>,
}

impl<'a> TsIndexSignature<'a> {
    #[verifier::type_invariant]
    spec fn inv(self) -> bool {
        self.syntax.kind_view() == SyntaxKind::TS_INDEX_SIGNATURE
    }

    pub fn readonly_token(&self) -> (r: Option<SyntaxToken<'a>>)
        ensures
            token_field(self.syntax_view(), seq![SyntaxKind::READONLY_KW], r),
    {
        support::token(&self.syntax, SyntaxKind::READONLY_KW)
    }

    pub fn l_brack_token(&self) -> (r: SyntaxResult<SyntaxToken<'a>>)
        ensures
            required_token_field(self.syntax_view(), seq![SyntaxKind::L_BRACK], r),
    {
        support::required_token(&self.syntax, SyntaxKind::L_BRACK)
    }

    pub fn pat(&self) -> (r: SyntaxResult<JsAnyBinding<'a>>)
        ensures
            required_node_field(self.syntax_view(), r),
    {
        support::required_node(&self.syntax)
    }

    pub fn colon_token(&self) -> (r: SyntaxResult<SyntaxToken<'a>>)
        ensures
            required_token_field(self.syntax_view(), seq![SyntaxKind::COLON], r),
    {
        support::required_token(&self.syntax, SyntaxKind::COLON)
    }

    pub fn ty(&self) -> (r: SyntaxResult<TsType<'a>>)
        ensures
            required_node_field(self.syntax_view(), r),
    {
        support::required_node(&self.syntax)
    }

    pub fn r_brack_token(&self) -> (r: SyntaxResult<SyntaxToken<'a>>)
        ensures
            required_token_field(self.syntax_view(), seq![SyntaxKind::R_BRACK], r),
    {
        support::required_token(&self.syntax, SyntaxKind::R_BRACK)
    }
}

impl<'a> AstNode<'a> for TsIndexSignature<'a> {
    open spec fn kind_ok(kind: SyntaxKind) -> bool {
        kind == SyntaxKind::TS_INDEX_SIGNATURE
    }

    closed spec fn syntax_view(&self) -> SyntaxNode<'a> {
        self.syntax
    }

    fn can_cast(kind: SyntaxKind) -> (r: bool) {
        kind == SyntaxKind::TS_INDEX_SIGNATURE
    }

    fn cast(syntax: SyntaxNode<'a>) -> (r: Option<Self>) {
        if syntax.kind() == SyntaxKind::TS_INDEX_SIGNATURE {
            Some(TsIndexSignature { syntax })
        } else {
            None
        }
    }

    fn syntax(&self) -> (r: &SyntaxNode<'a>) {
        proof {
            use_type_invariant(self);
        }
        &self.syntax
    }
}

/// A node of kind `TS_ACCESSIBILITY`.
#[derive(Clone, Copy, Debug)]
pub struct TsAccessibility<'a> {
    syntax: SyntaxNode<'a>,
}

impl<'a> TsAccessibility<'a> {
    #[verifier::type_invariant]
    spec fn inv(self) -> bool {
        self.syntax.kind_view() == SyntaxKind::TS_ACCESSIBILITY
    }

    pub fn private_token(&self) -> (r: SyntaxResult<SyntaxToken<'a>>)
        ensures
            required_token_field(self.syntax_view(), seq![SyntaxKind::PRIVATE_KW], r),
    {
        support::required_token(&self.syntax, SyntaxKind::PRIVATE_KW)
    }

    pub fn readonly_token(&self) -> (r: SyntaxResult<SyntaxToken<'a>>)
        ensures
            required_token_field(self.syntax_view(), seq![SyntaxKind::READONLY_KW], r),
    {
        support::required_token(&self.syntax, SyntaxKind::READONLY_KW)
    }
}

impl<'a> AstNode<'a> for TsAccessibility<'a> {
    open spec fn kind_ok(kind: SyntaxKind) -> bool {
        kind == SyntaxKind::TS_ACCESSIBILITY
    }

    closed spec fn syntax_view(&self) -> SyntaxNode<'a> {
        self.syntax
    }

    fn can_cast(kind: SyntaxKind) -> (r: bool) {
        kind == SyntaxKind::TS_ACCESSIBILITY
    }

    fn cast(syntax: SyntaxNode<'a>) -> (r: Option<Self>) {
        if syntax.kind() == SyntaxKind::TS_ACCESSIBILITY {
            Some(TsAccessibility { syntax })
        } else {
            None
        }
    }

    fn syntax(&self) -> (r: &SyntaxNode<'a>) {
        proof {
            use_type_invariant(self);
        }
        &self.syntax
    }
}

/// A node of kind `JS_CONSTRUCTOR_PARAMETER_LIST`.
#[derive(Clone, Copy, Debug)]
pub struct JsConstructorParameterList<'a> {
    syntax: SyntaxNode<'a>,
}

impl<'a> JsConstructorParameterList<'a> {
    #[verifier::type_invariant]
    spec fn inv(self) -> bool {
        self.syntax.kind_view() == SyntaxKind::JS_CONSTRUCTOR_PARAMETER_LIST
    }

    pub fn l_paren_token(&self) -> (r: SyntaxResult<SyntaxToken<'a>>)
        ensures
            required_token_field(self.syntax_view(), seq![SyntaxKind::L_PAREN], r),
    {
        support::required_token(&self.syntax, SyntaxKind::L_PAREN)
    }

    pub fn parameters(&self) -> (r: AstSeparatedList<'a, JsAnyConstructorParameter<'a>>)
        ensures
            list_field(self.syntax_view(), 0, r.list_view()),
    {
        support::separated_list(&self.syntax, 0)
    }

    pub fn r_paren_token(&self) -> (r: SyntaxResult<SyntaxToken<'a>>)
        ensures
            required_token_field(self.syntax_view(), seq![SyntaxKind::R_PAREN], r),
    {
        support::required_token(&self.syntax, SyntaxKind::R_PAREN)
    }
}

impl<'a> AstNode<'a> for JsConstructorParameterList<'a> {
    open spec fn kind_ok(kind: SyntaxKind) -> bool {
        kind == SyntaxKind::JS_CONSTRUCTOR_PARAMETER_LIST
    }

    closed spec fn syntax_view(&self) -> SyntaxNode<'a> {
        self.syntax
    }

    fn can_cast(kind: SyntaxKind) -> (r: bool) {
        kind == SyntaxKind::JS_CONSTRUCTOR_PARAMETER_LIST
    }

    fn cast(syntax: SyntaxNode<'a>) -> (r: Option<Self>) {
        if syntax.kind() == SyntaxKind::JS_CONSTRUCTOR_PARAMETER_LIST {
            Some(JsConstructorParameterList { syntax })
        } else {
            None
        }
    }

    fn syntax(&self) -> (r: &SyntaxNode<'a>) {
        proof {
            use_type_invariant(self);
        }
        &self.syntax
    }
}

/// A node of kind `TS_CONSTRUCTOR_PARAM`.
#[derive(Clone, Copy, Debug)]
pub struct TsConstructorParam<'a> {
    syntax: SyntaxNode<'a>,
}

impl<'a> TsConstructorParam<'a> {
    #[verifier::type_invariant]
    spec fn inv(self) -> bool {
        self.syntax.kind_view() == SyntaxKind::TS_CONSTRUCTOR_PARAM
    }

    pub fn readonly_token(&self) -> (r: SyntaxResult<SyntaxToken<'a>>)
        ensures
            required_token_field(self.syntax_view(), seq![SyntaxKind::READONLY_KW], r),
    {
        support::required_token(&self.syntax, SyntaxKind::READONLY_KW)
    }

    pub fn pat(&self) -> (r: SyntaxResult<JsAnyBindingPattern<'a>>)
        ensures
            required_node_field(self.syntax_view(), r),
    {
        support::required_node(&self.syntax)
    }
}

impl<'a> AstNode<'a> for TsConstructorParam<'a> {
    open spec fn kind_ok(kind: SyntaxKind) -> bool {
        kind == SyntaxKind::TS_CONSTRUCTOR_PARAM
    }

    closed spec fn syntax_view(&self) -> SyntaxNode<'a> {
        self.syntax
    }

    fn can_cast(kind: SyntaxKind) -> (r: bool) {
        kind == SyntaxKind::TS_CONSTRUCTOR_PARAM
    }

    fn cast(syntax: SyntaxNode<'a>) -> (r: Option<Self>) {
        if syntax.kind() == SyntaxKind::TS_CONSTRUCTOR_PARAM {
            Some(TsConstructorParam { syntax })
        } else {
            None
        }
    }

    fn syntax(&self) -> (r: &SyntaxNode<'a>) {
        proof {
            use_type_invariant(self);
        }
        &self.syntax
    }
}

/// A node of kind `JS_BINDING_PATTERN_WITH_DEFAULT`.
#[derive(Clone, Copy, Debug)]
pub struct JsBindingPatternWithDefault<'a> {
    syntax: SyntaxNode<'a>,
}

impl<'a> JsBindingPatternWithDefault<'a> {
    #[verifier::type_invariant]
    spec fn inv(self) -> bool {
        self.syntax.kind_view() == SyntaxKind::JS_BINDING_PATTERN_WITH_DEFAULT
    }

    pub fn pattern(&self) -> (r: SyntaxResult<JsAnyBindingPattern<'a>>)
        ensures
            required_node_field(self.syntax_view(), r),
    {
        support::required_node(&self.syntax)
    }

    pub fn eq_token(&self) -> (r: SyntaxResult<SyntaxToken<'a>>)
        ensures
            required_token_field(self.syntax_view(), seq![SyntaxKind::EQ], r),
    {
        support::required_token(&self.syntax, SyntaxKind::EQ)
    }

    pub fn default(&self) -> (r: SyntaxResult<JsAnyExpression<'a>>)
        ensures
            required_node_field(self.syntax_view(), r),
    {
        support::required_node(&self.syntax)
    }
}

impl<'a> AstNode<'a> for JsBindingPatternWithDefault<'a> {
    open spec fn kind_ok(kind: SyntaxKind) -> bool {
        kind == SyntaxKind::JS_BINDING_PATTERN_WITH_DEFAULT
    }

    closed spec fn syntax_view(&self) -> SyntaxNode<'a> {
        self.syntax
    }

    fn can_cast(kind: SyntaxKind) -> (r: bool) {
        kind == SyntaxKind::JS_BINDING_PATTERN_WITH_DEFAULT
    }

    fn cast(syntax: SyntaxNode<'a>) -> (r: Option<Self>) {
        if syntax.kind() == SyntaxKind::JS_BINDING_PATTERN_WITH_DEFAULT {
            Some(JsBindingPatternWithDefault { syntax })
        } else {
            None
        }
    }

    fn syntax(&self) -> (r: &SyntaxNode<'a>) {
        proof {
            use_type_invariant(self);
        }
        &self.syntax
    }
}

/// A node of kind `JS_EQUAL_VALUE_CLAUSE`.
#[derive(Clone, Copy, Debug)]
pub struct JsEqualValueClause<'a> {
    syntax: SyntaxNode<'a>,
}

impl<'a> JsEqualValueClause<'a> {
    #[verifier::type_invariant]
    spec fn inv(self) -> bool {
        self.syntax.kind_view() == SyntaxKind::JS_EQUAL_VALUE_CLAUSE
    }

    pub fn eq_token(&self) -> (r: SyntaxResult<SyntaxToken<'a>>)
        ensures
            required_token_field(self.syntax_view(), seq![SyntaxKind::EQ], r),
    {
        support::required_token(&self.syntax, SyntaxKind::EQ)
    }

    pub fn expression(&self) -> (r: SyntaxResult<JsAnyExpression<'a>>)
        ensures
            required_node_field(self.syntax_view(), r),
    {
        support::required_node(&self.syntax)
    }
}

impl<'a> AstNode<'a> for JsEqualValueClause<'a> {
    open spec fn kind_ok(kind: SyntaxKind) -> bool {
        kind == SyntaxKind::JS_EQUAL_VALUE_CLAUSE
    }

    closed spec fn syntax_view(&self) -> SyntaxNode<'a> {
        self.syntax
    }

    fn can_cast(kind: SyntaxKind) -> (r: bool) {
        kind == SyntaxKind::JS_EQUAL_VALUE_CLAUSE
    }

    fn cast(syntax: SyntaxNode<'a>) -> (r: Option<Self>) {
        if syntax.kind() == SyntaxKind::JS_EQUAL_VALUE_CLAUSE {
            Some(JsEqualValueClause { syntax })
        } else {
            None
        }
    }

    fn syntax(&self) -> (r: &SyntaxNode<'a>) {
        proof {
            use_type_invariant(self);
        }
        &self.syntax
    }
}

/// A node of kind `JS_MODIFIER`.
#[derive(Clone, Copy, Debug)]
pub struct JsModifier<'a> {
    syntax: SyntaxNode<'a>,
}

impl<'a> JsModifier<'a> {
    #[verifier::type_invariant]
    spec fn inv(self) -> bool {
        self.syntax.kind_view() == SyntaxKind::JS_MODIFIER
    }

    pub fn declare_token(&self) -> (r: Option<SyntaxToken<'a>>)
        ensures
            token_field(self.syntax_view(), seq![SyntaxKind::DECLARE_KW], r),
    {
        support::token(&self.syntax, SyntaxKind::DECLARE_KW)
    }
}

impl<'a> AstNode<'a> for JsModifier<'a> {
    open spec fn kind_ok(kind: SyntaxKind) -> bool {
        kind == SyntaxKind::JS_MODIFIER
    }

    closed spec fn syntax_view(&self) -> SyntaxNode<'a> {
        self.syntax
    }

    fn can_cast(kind: SyntaxKind) -> (r: bool) {
        kind == SyntaxKind::JS_MODIFIER
    }

    fn cast(syntax: SyntaxNode<'a>) -> (r: Option<Self>) {
        if syntax.kind() == SyntaxKind::JS_MODIFIER {
            Some(JsModifier { syntax })
        } else {
            None
        }
    }

    fn syntax(&self) -> (r: &SyntaxNode<'a>) {
        proof {
            use_type_invariant(self);
        }
        &self.syntax
    }
}

/// A node of kind `JS_IDENTIFIER_ASSIGNMENT`.
#[derive(Clone, Copy, Debug)]
pub struct JsIdentifierAssignment<'a> {
    syntax: SyntaxNode<'a>,
}

impl<'a> JsIdentifierAssignment<'a> {
    #[verifier::type_invariant]
    spec fn inv(self) -> bool {
        self.syntax.kind_view() == SyntaxKind::JS_IDENTIFIER_ASSIGNMENT
    }

    pub fn name_token(&self) -> (r: SyntaxResult<SyntaxToken<'a>>)
        ensures
            required_token_field(self.syntax_view(), seq![SyntaxKind::IDENT], r),
    {
        support::required_token(&self.syntax, SyntaxKind::IDENT)
    }
}

impl<'a> AstNode<'a> for JsIdentifierAssignment<'a> {
    open spec fn kind_ok(kind: SyntaxKind) -> bool {
        kind == SyntaxKind::JS_IDENTIFIER_ASSIGNMENT
    }

    closed spec fn syntax_view(&self) -> SyntaxNode<'a> {
        self.syntax
    }

    fn can_cast(kind: SyntaxKind) -> (r: bool) {
        kind == SyntaxKind::JS_IDENTIFIER_ASSIGNMENT
    }

    fn cast(syntax: SyntaxNode<'a>) -> (r: Option<Self>) {
        if syntax.kind() == SyntaxKind::JS_IDENTIFIER_ASSIGNMENT {
            Some(JsIdentifierAssignment { syntax })
        } else {
            None
        }
    }

    fn syntax(&self) -> (r: &SyntaxNode<'a>) {
        proof {
            use_type_invariant(self);
        }
        &self.syntax
    }
}

/// A node of kind `JS_STATIC_MEMBER_ASSIGNMENT`.
#[derive(Clone, Copy, Debug)]
pub struct JsStaticMemberAssignment<'a> {
    syntax: SyntaxNode<'a>,
}

impl<'a> JsStaticMemberAssignment<'a> {
    #[verifier::type_invariant]
    spec fn inv(self) -> bool {
        self.syntax.kind_view() == SyntaxKind::JS_STATIC_MEMBER_ASSIGNMENT
    }

    pub fn object(&self) -> (r: SyntaxResult<JsAnyExpression<'a>>)
        ensures
            required_node_field(self.syntax_view(), r),
    {
        support::required_node(&self.syntax)
    }

    pub fn dot_token(&self) -> (r: SyntaxResult<SyntaxToken<'a>>)
        ensures
            required_token_field(self.syntax_view(), seq![SyntaxKind::DOT], r),
    {
        support::required_token(&self.syntax, SyntaxKind::DOT)
    }

    pub fn member(&self) -> (r: SyntaxResult<JsAnyName<'a>>)
        ensures
            required_node_field(self.syntax_view(), r),
    {
        support::required_node(&self.syntax)
    }
}

impl<'a> AstNode<'a> for JsStaticMemberAssignment<'a> {
    open spec fn kind_ok(kind: SyntaxKind) -> bool {
        kind == SyntaxKind::JS_STATIC_MEMBER_ASSIGNMENT
    }

    closed spec fn syntax_view(&self) -> SyntaxNode<'a> {
        self.syntax
    }

    fn can_cast(kind: SyntaxKind) -> (r: bool) {
        kind == SyntaxKind::JS_STATIC_MEMBER_ASSIGNMENT
    }

    fn cast(syntax: SyntaxNode<'a>) -> (r: Option<Self>) {
        if syntax.kind() == SyntaxKind::JS_STATIC_MEMBER_ASSIGNMENT {
            Some(JsStaticMemberAssignment { syntax })
        } else {
            None
        }
    }

    fn syntax(&self) -> (r: &SyntaxNode<'a>) {
        proof {
            use_type_invariant(self);
        }
        &self.syntax
    }
}

/// A node of kind `JS_COMPUTED_MEMBER_ASSIGNMENT`.
#[derive(Clone, Copy, Debug)]
pub struct JsComputedMemberAssignment<'a> {
    syntax: SyntaxNode<'a>,
}

impl<'a> JsComputedMemberAssignment<'a> {
    #[verifier::type_invariant]
    spec fn inv(self) -> bool {
        self.syntax.kind_view() == SyntaxKind::JS_COMPUTED_MEMBER_ASSIGNMENT
    }

    pub fn object(&self) -> (r: SyntaxResult<JsAnyExpression<'a>>)
        ensures
            required_node_field(self.syntax_view(), r),
    {
        support::required_node(&self.syntax)
    }

    pub fn l_brack_token(&self) -> (r: SyntaxResult<SyntaxToken<'a>>)
        ensures
            required_token_field(self.syntax_view(), seq![SyntaxKind::L_BRACK], r),
    {
        support::required_token(&self.syntax, SyntaxKind::L_BRACK)
    }

    pub fn r_brack_token(&self) -> (r: SyntaxResult<SyntaxToken<'a>>)
        ensures
            required_token_field(self.syntax_view(), seq![SyntaxKind::R_BRACK], r),
    {
        support::required_token(&self.syntax, SyntaxKind::R_BRACK)
    }
}

impl<'a> AstNode<'a> for JsComputedMemberAssignment<'a> {
    open spec fn kind_ok(kind: SyntaxKind) -> bool {
        kind == SyntaxKind::JS_COMPUTED_MEMBER_ASSIGNMENT
    }

    closed spec fn syntax_view(&self) -> SyntaxNode<'a> {
        self.syntax
    }

    fn can_cast(kind: SyntaxKind) -> (r: bool) {
        kind == SyntaxKind::JS_COMPUTED_MEMBER_ASSIGNMENT
    }

    fn cast(syntax: SyntaxNode<'a>) -> (r: Option<Self>) {
        if syntax.kind() == SyntaxKind::JS_COMPUTED_MEMBER_ASSIGNMENT {
            Some(JsComputedMemberAssignment { syntax })
        } else {
            None
        }
    }

    fn syntax(&self) -> (r: &SyntaxNode<'a>) {
        proof {
            use_type_invariant(self);
        }
        &self.syntax
    }
}

/// A node of kind `JS_PARENTHESIZED_ASSIGNMENT`.
#[derive(Clone, Copy, Debug)]
pub struct JsParenthesizedAssignment<'a> {
    syntax: SyntaxNode<'a>,
}

impl<'a> JsParenthesizedAssignment<'a> {
    #[verifier::type_invariant]
    spec fn inv(self) -> bool {
        self.syntax.kind_view() == SyntaxKind::JS_PARENTHESIZED_ASSIGNMENT
    }

    pub fn l_paren_token(&self) -> (r: SyntaxResult<SyntaxToken<'a>>)
        ensures
            required_token_field(self.syntax_view(), seq![SyntaxKind::L_PAREN], r),
    {
        support::required_token(&self.syntax, SyntaxKind::L_PAREN)
    }

    pub fn assignment(&self) -> (r: SyntaxResult<JsAnyAssignment<'a>>)
        ensures
            required_node_field(self.syntax_view(), r),
    {
        support::required_node(&self.syntax)
    }

    pub fn r_paren_token(&self) -> (r: SyntaxResult<SyntaxToken<'a>>)
        ensures
            required_token_field(self.syntax_view(), seq![SyntaxKind::R_PAREN], r),
    {
        support::required_token(&self.syntax, SyntaxKind::R_PAREN)
    }
}

impl<'a> AstNode<'a> for JsParenthesizedAssignment<'a> {
    open spec fn kind_ok(kind: SyntaxKind) -> bool {
        kind == SyntaxKind::JS_PARENTHESIZED_ASSIGNMENT
    }

    closed spec fn syntax_view(&self) -> SyntaxNode<'a> {
        self.syntax
    }

    fn can_cast(kind: SyntaxKind) -> (r: bool) {
        kind == SyntaxKind::JS_PARENTHESIZED_ASSIGNMENT
    }

    fn cast(syntax: SyntaxNode<'a>) -> (r: Option<Self>) {
        if syntax.kind() == SyntaxKind::JS_PARENTHESIZED_ASSIGNMENT {
            Some(JsParenthesizedAssignment { syntax })
        } else {
            None
        }
    }

    fn syntax(&self) -> (r: &SyntaxNode<'a>) {
        proof {
            use_type_invariant(self);
        }
        &self.syntax
    }
}

/// A node of kind `JS_ASSIGNMENT_WITH_DEFAULT`.
#[derive(Clone, Copy, Debug)]
pub struct JsAssignmentWithDefault<'a> {
    syntax: SyntaxNode<'a>,
}

impl<'a> JsAssignmentWithDefault<'a> {
    #[verifier::type_invariant]
    spec fn inv(self) -> bool {
        self.syntax.kind_view() == SyntaxKind::JS_ASSIGNMENT_WITH_DEFAULT
    }

    pub fn pattern(&self) -> (r: SyntaxResult<JsAnyAssignmentPattern<'a>>)
        ensures
            required_node_field(self.syntax_view(), r),
    {
        support::required_node(&self.syntax)
    }

    pub fn eq_token(&self) -> (r: SyntaxResult<SyntaxToken<'a>>)
        ensures
            required_token_field(self.syntax_view(), seq![SyntaxKind::EQ], r),
    {
        support::required_token(&self.syntax, SyntaxKind::EQ)
    }

    pub fn default(&self) -> (r: SyntaxResult<JsAnyExpression<'a>>)
        ensures
            required_node_field(self.syntax_view(), r),
    {
        support::required_node(&self.syntax)
    }
}

impl<'a> AstNode<'a> for JsAssignmentWithDefault<'a> {
    open spec fn kind_ok(kind: SyntaxKind) -> bool {
        kind == SyntaxKind::JS_ASSIGNMENT_WITH_DEFAULT
    }

    closed spec fn syntax_view(&self) -> SyntaxNode<'a> {
        self.syntax
    }

    fn can_cast(kind: SyntaxKind) -> (r: bool) {
        kind == SyntaxKind::JS_ASSIGNMENT_WITH_DEFAULT
    }

    fn cast(syntax: SyntaxNode<'a>) -> (r: Option<Self>) {
        if syntax.kind() == SyntaxKind::JS_ASSIGNMENT_WITH_DEFAULT {
            Some(JsAssignmentWithDefault { syntax })
        } else {
            None
        }
    }

    fn syntax(&self) -> (r: &SyntaxNode<'a>) {
        proof {
            use_type_invariant(self);
        }
        &self.syntax
    }
}

/// A node of kind `JS_ARRAY_ASSIGNMENT_PATTERN`.
#[derive(Clone, Copy, Debug)]
pub struct JsArrayAssignmentPattern<'a> {
    syntax: SyntaxNode<'a>,
}

impl<'a> JsArrayAssignmentPattern<'a> {
    #[verifier::type_invariant]
    spec fn inv(self) -> bool {
        self.syntax.kind_view() == SyntaxKind::JS_ARRAY_ASSIGNMENT_PATTERN
    }

    pub fn l_brack_token(&self) -> (r: SyntaxResult<SyntaxToken<'a>>)
        ensures
            required_token_field(self.syntax_view(), seq![SyntaxKind::L_BRACK], r),
    {
        support::required_token(&self.syntax, SyntaxKind::L_BRACK)
    }

    pub fn elements(&self) -> (r: AstSeparatedList<'a, JsAnyArrayAssignmentPatternElement<'a>>)
        ensures
            list_field(self.syntax_view(), 0, r.list_view()),
    {
        support::separated_list(&self.syntax, 0)
    }

    pub fn r_brack_token(&self) -> (r: SyntaxResult<SyntaxToken<'a>>)
        ensures
            required_token_field(self.syntax_view(), seq![SyntaxKind::R_BRACK], r),
    {
        support::required_token(&self.syntax, SyntaxKind::R_BRACK)
    }
}

impl<'a> AstNode<'a> for JsArrayAssignmentPattern<'a> {
    open spec fn kind_ok(kind: SyntaxKind) -> bool {
        kind == SyntaxKind::JS_ARRAY_ASSIGNMENT_PATTERN
    }

    closed spec fn syntax_view(&self) -> SyntaxNode<'a> {
        self.syntax
    }

    fn can_cast(kind: SyntaxKind) -> (r: bool) {
        kind == SyntaxKind::JS_ARRAY_ASSIGNMENT_PATTERN
    }

    fn cast(syntax: SyntaxNode<'a>) -> (r: Option<Self>) {
        if syntax.kind() == SyntaxKind::JS_ARRAY_ASSIGNMENT_PATTERN {
            Some(JsArrayAssignmentPattern { syntax })
        } else {
            None
        }
    }

    fn syntax(&self) -> (r: &SyntaxNode<'a>) {
        proof {
            use_type_invariant(self);
        }
        &self.syntax
    }
}

/// A node of kind `JS_OBJECT_ASSIGNMENT_PATTERN`.
#[derive(Clone, Copy, Debug)]
pub struct JsObjectAssignmentPattern<'a> {
    syntax: SyntaxNode<'a>,
}

impl<'a> JsObjectAssignmentPattern<'a> {
    #[verifier::type_invariant]
    spec fn inv(self) -> bool {
        self.syntax.kind_view() == SyntaxKind::JS_OBJECT_ASSIGNMENT_PATTERN
    }

    pub fn l_curly_token(&self) -> (r: SyntaxResult<SyntaxToken<'a>>)
        ensures
            required_token_field(self.syntax_view(), seq![SyntaxKind::L_CURLY], r),
    {
        support::required_token(&self.syntax, SyntaxKind::L_CURLY)
    }

    pub fn properties(&self) -> (r: AstSeparatedList<'a, JsAnyObjectAssignmentPatternMember<'a>>)
        ensures
            list_field(self.syntax_view(), 0, r.list_view()),
    {
        support::separated_list(&self.syntax, 0)
    }

    pub fn r_curly_token(&self) -> (r: SyntaxResult<SyntaxToken<'a>>)
        ensures
            required_token_field(self.syntax_view(), seq![SyntaxKind::R_CURLY], r),
    {
        support::required_token(&self.syntax, SyntaxKind::R_CURLY)
    }
}

impl<'a> AstNode<'a> for JsObjectAssignmentPattern<'a> {
    open spec fn kind_ok(kind: SyntaxKind) -> bool {
        kind == SyntaxKind::JS_OBJECT_ASSIGNMENT_PATTERN
    }

    closed spec fn syntax_view(&self) -> SyntaxNode<'a> {
        self.syntax
    }

    fn can_cast(kind: SyntaxKind) -> (r: bool) {
        kind == SyntaxKind::JS_OBJECT_ASSIGNMENT_PATTERN
    }

    fn cast(syntax: SyntaxNode<'a>) -> (r: Option<Self>) {
        if syntax.kind() == SyntaxKind::JS_OBJECT_ASSIGNMENT_PATTERN {
            Some(JsObjectAssignmentPattern { syntax })
        } else {
            None
        }
    }

    fn syntax(&self) -> (r: &SyntaxNode<'a>) {
        proof {
            use_type_invariant(self);
        }
        &self.syntax
    }
}

/// A node of kind `JS_ARRAY_ASSIGNMENT_PATTERN_REST_ELEMENT`.
#[derive(Clone, Copy, Debug)]
pub struct JsArrayAssignmentPatternRestElement<'a> {
    syntax: SyntaxNode<'a>,
}

impl<'a> JsArrayAssignmentPatternRestElement<'a> {
    #[verifier::type_invariant]
    spec fn inv(self) -> bool {
        self.syntax.kind_view() == SyntaxKind::JS_ARRAY_ASSIGNMENT_PATTERN_REST_ELEMENT
    }

    pub fn dotdotdot_token(&self) -> (r: SyntaxResult<SyntaxToken<'a>>)
        ensures
            required_token_field(self.syntax_view(), seq![SyntaxKind::DOT3], r),
    {
        support::required_token(&self.syntax, SyntaxKind::DOT3)
    }

    pub fn pattern(&self) -> (r: SyntaxResult<JsAnyAssignmentPattern<'a>>)
        ensures
            required_node_field(self.syntax_view(), r),
    {
        support::required_node(&self.syntax)
    }
}

impl<'a> AstNode<'a> for JsArrayAssignmentPatternRestElement<'a> {
    open spec fn kind_ok(kind: SyntaxKind) -> bool {
        kind == SyntaxKind::JS_ARRAY_ASSIGNMENT_PATTERN_REST_ELEMENT
    }

    closed spec fn syntax_view(&self) -> SyntaxNode<'a> {
        self.syntax
    }

    fn can_cast(kind: SyntaxKind) -> (r: bool) {
        kind == SyntaxKind::JS_ARRAY_ASSIGNMENT_PATTERN_REST_ELEMENT
    }

    fn cast(syntax: SyntaxNode<'a>) -> (r: Option<Self>) {
        if syntax.kind() == SyntaxKind::JS_ARRAY_ASSIGNMENT_PATTERN_REST_ELEMENT {
            Some(JsArrayAssignmentPatternRestElement { syntax })
        } else {
            None
        }
    }

    fn syntax(&self) -> (r: &SyntaxNode<'a>) {
        proof {
            use_type_invariant(self);
        }
        &self.syntax
    }
}

/// A node of kind `JS_OBJECT_ASSIGNMENT_PATTERN_SHORTHAND_PROPERTY`.
#[derive(Clone, Copy, Debug)]
pub struct JsObjectAssignmentPatternShorthandProperty<'a> {
    syntax: SyntaxNode<'a>,
}

impl<'a> JsObjectAssignmentPatternShorthandProperty<'a> {
    #[verifier::type_invariant]
    spec fn inv(self) -> bool {
        self.syntax.kind_view() == SyntaxKind::JS_OBJECT_ASSIGNMENT_PATTERN_SHORTHAND_PROPERTY
    }

    pub fn identifier(&self) -> (r: SyntaxResult<JsAnyAssignment<'a>>)
        ensures
            required_node_field(self.syntax_view(), r),
    {
        support::required_node(&self.syntax)
    }

    pub fn init(&self) -> (r: Option<JsEqualValueClause<'a>>)
        ensures
            node_field(self.syntax_view(), r),
    {
        support::node(&self.syntax)
    }
}

impl<'a> AstNode<'a> for JsObjectAssignmentPatternShorthandProperty<'a> {
    open spec fn kind_ok(kind: SyntaxKind) -> bool {
        kind == SyntaxKind::JS_OBJECT_ASSIGNMENT_PATTERN_SHORTHAND_PROPERTY
    }

    closed spec fn syntax_view(&self) -> SyntaxNode<'a> {
        self.syntax
    }

    fn can_cast(kind: SyntaxKind) -> (r: bool) {
        kind == SyntaxKind::JS_OBJECT_ASSIGNMENT_PATTERN_SHORTHAND_PROPERTY
    }

    fn cast(syntax: SyntaxNode<'a>) -> (r: Option<Self>) {
        if syntax.kind() == SyntaxKind::JS_OBJECT_ASSIGNMENT_PATTERN_SHORTHAND_PROPERTY {
            Some(JsObjectAssignmentPatternShorthandProperty { syntax })
        } else {
            None
        }
    }

    fn syntax(&self) -> (r: &SyntaxNode<'a>) {
        proof {
            use_type_invariant(self);
        }
        &self.syntax
    }
}

/// A node of kind `JS_OBJECT_ASSIGNMENT_PATTERN_PROPERTY`.
#[derive(Clone, Copy, Debug)]
pub struct JsObjectAssignmentPatternProperty<'a> {
    syntax: SyntaxNode<'a>,
}

impl<'a> JsObjectAssignmentPatternProperty<'a> {
    #[verifier::type_invariant]
    spec fn inv(self) -> bool {
        self.syntax.kind_view() == SyntaxKind::JS_OBJECT_ASSIGNMENT_PATTERN_PROPERTY
    }

    pub fn member(&self) -> (r: SyntaxResult<JsName<'a>>)
        ensures
            required_node_field(self.syntax_view(), r),
    {
        support::required_node(&self.syntax)
    }

    pub fn colon_token(&self) -> (r: SyntaxResult<SyntaxToken<'a>>)
        ensures
            required_token_field(self.syntax_view(), seq![SyntaxKind::COLON], r),
    {
        support::required_token(&self.syntax, SyntaxKind::COLON)
    }

    pub fn pattern(&self) -> (r: SyntaxResult<JsAnyAssignmentPattern<'a>>)
        ensures
            required_node_field(self.syntax_view(), r),
    {
        support::required_node(&self.syntax)
    }

    pub fn init(&self) -> (r: Option<JsEqualValueClause<'a>>)
        ensures
            node_field(self.syntax_view(), r),
    {
        support::node(&self.syntax)
    }
}

impl<'a> AstNode<'a> for JsObjectAssignmentPatternProperty<'a> {
    open spec fn kind_ok(kind: SyntaxKind) -> bool {
        kind == SyntaxKind::JS_OBJECT_ASSIGNMENT_PATTERN_PROPERTY
    }

    closed spec fn syntax_view(&self) -> SyntaxNode<'a> {
        self.syntax
    }

    fn can_cast(kind: SyntaxKind) -> (r: bool) {
        kind == SyntaxKind::JS_OBJECT_ASSIGNMENT_PATTERN_PROPERTY
    }

    fn cast(syntax: SyntaxNode<'a>) -> (r: Option<Self>) {
        if syntax.kind() == SyntaxKind::JS_OBJECT_ASSIGNMENT_PATTERN_PROPERTY {
            Some(JsObjectAssignmentPatternProperty { syntax })
        } else {
            None
        }
    }

    fn syntax(&self) -> (r: &SyntaxNode<'a>) {
        proof {
            use_type_invariant(self);
        }
        &self.syntax
    }
}

/// A node of kind `JS_OBJECT_ASSIGNMENT_PATTERN_REST`.
#[derive(Clone, Copy, Debug)]
pub struct JsObjectAssignmentPatternRest<'a> {
    syntax: SyntaxNode<'a>,
}

impl<'a> JsObjectAssignmentPatternRest<'a> {
    #[verifier::type_invariant]
    spec fn inv(self) -> bool {
        self.syntax.kind_view() == SyntaxKind::JS_OBJECT_ASSIGNMENT_PATTERN_REST
    }

    pub fn dotdotdot_token(&self) -> (r: SyntaxResult<SyntaxToken<'a>>)
        ensures
            required_token_field(self.syntax_view(), seq![SyntaxKind::DOT3], r),
    {
        support::required_token(&self.syntax, SyntaxKind::DOT3)
    }

    pub fn target(&self) -> (r: SyntaxResult<JsAnyAssignment<'a>>)
        ensures
            required_node_field(self.syntax_view(), r),
    {
        support::required_node(&self.syntax)
    }
}

impl<'a> AstNode<'a> for JsObjectAssignmentPatternRest<'a> {
    open spec fn kind_ok(kind: SyntaxKind) -> bool {
        kind == SyntaxKind::JS_OBJECT_ASSIGNMENT_PATTERN_REST
    }

    closed spec fn syntax_view(&self) -> SyntaxNode<'a> {
        self.syntax
    }

    fn can_cast(kind: SyntaxKind) -> (r: bool) {
        kind == SyntaxKind::JS_OBJECT_ASSIGNMENT_PATTERN_REST
    }

    fn cast(syntax: SyntaxNode<'a>) -> (r: Option<Self>) {
        if syntax.kind() == SyntaxKind::JS_OBJECT_ASSIGNMENT_PATTERN_REST {
            Some(JsObjectAssignmentPatternRest { syntax })
        } else {
            None
        }
    }

    fn syntax(&self) -> (r: &SyntaxNode<'a>) {
        proof {
            use_type_invariant(self);
        }
        &self.syntax
    }
}

/// A node of kind `JS_NAME`.
#[derive(Clone, Copy, Debug)]
pub struct JsName<'a> {
    syntax: SyntaxNode<'a>,
}

impl<'a> JsName<'a> {
    #[verifier::type_invariant]
    spec fn inv(self) -> bool {
        self.syntax.kind_view() == SyntaxKind::JS_NAME
    }

    pub fn value_token(&self) -> (r: SyntaxResult<SyntaxToken<'a>>)
        ensures
            required_token_field(self.syntax_view(), seq![SyntaxKind::IDENT], r),
    {
        support::required_token(&self.syntax, SyntaxKind::IDENT)
    }
}

impl<'a> AstNode<'a> for JsName<'a> {
    open spec fn kind_ok(kind: SyntaxKind) -> bool {
        kind == SyntaxKind::JS_NAME
    }

    closed spec fn syntax_view(&self) -> SyntaxNode<'a> {
        self.syntax
    }

    fn can_cast(kind: SyntaxKind) -> (r: bool) {
        kind == SyntaxKind::JS_NAME
    }

    fn cast(syntax: SyntaxNode<'a>) -> (r: Option<Self>) {
        if syntax.kind() == SyntaxKind::JS_NAME {
            Some(JsName { syntax })
        } else {
            None
        }
    }

    fn syntax(&self) -> (r: &SyntaxNode<'a>) {
        proof {
            use_type_invariant(self);
        }
        &self.syntax
    }
}

/// A node of kind `JS_IDENTIFIER_BINDING`.
#[derive(Clone, Copy, Debug)]
pub struct JsIdentifierBinding<'a> {
    syntax: SyntaxNode<'a>,
}

impl<'a> JsIdentifierBinding<'a> {
    #[verifier::type_invariant]
    spec fn inv(self) -> bool {
        self.syntax.kind_view() == SyntaxKind::JS_IDENTIFIER_BINDING
    }

    pub fn name_token(&self) -> (r: SyntaxResult<SyntaxToken<'a>>)
        ensures
            required_token_field(self.syntax_view(), seq![SyntaxKind::IDENT], r),
    {
        support::required_token(&self.syntax, SyntaxKind::IDENT)
    }
}

impl<'a> AstNode<'a> for JsIdentifierBinding<'a> {
    open spec fn kind_ok(kind: SyntaxKind) -> bool {
        kind == SyntaxKind::JS_IDENTIFIER_BINDING
    }

    closed spec fn syntax_view(&self) -> SyntaxNode<'a> {
        self.syntax
    }

    fn can_cast(kind: SyntaxKind) -> (r: bool) {
        kind == SyntaxKind::JS_IDENTIFIER_BINDING
    }

    fn cast(syntax: SyntaxNode<'a>) -> (r: Option<Self>) {
        if syntax.kind() == SyntaxKind::JS_IDENTIFIER_BINDING {
            Some(JsIdentifierBinding { syntax })
        } else {
            None
        }
    }

    fn syntax(&self) -> (r: &SyntaxNode<'a>) {
        proof {
            use_type_invariant(self);
        }
        &self.syntax
    }
}

/// A node of kind `JS_ARRAY_BINDING_PATTERN`.
#[derive(Clone, Copy, Debug)]
pub struct JsArrayBindingPattern<'a> {
    syntax: SyntaxNode<'a>,
}

impl<'a> JsArrayBindingPattern<'a> {
    #[verifier::type_invariant]
    spec fn inv(self) -> bool {
        self.syntax.kind_view() == SyntaxKind::JS_ARRAY_BINDING_PATTERN
    }

    pub fn l_brack_token(&self) -> (r: SyntaxResult<SyntaxToken<'a>>)
        ensures
            required_token_field(self.syntax_view(), seq![SyntaxKind::L_BRACK], r),
    {
        support::required_token(&self.syntax, SyntaxKind::L_BRACK)
    }

    pub fn elements(&self) -> (r: AstSeparatedList<'a, JsAnyArrayBindingPatternElement<'a>>)
        ensures
            list_field(self.syntax_view(), 0, r.list_view()),
    {
        support::separated_list(&self.syntax, 0)
    }

    pub fn r_brack_token(&self) -> (r: SyntaxResult<SyntaxToken<'a>>)
        ensures
            required_token_field(self.syntax_view(), seq![SyntaxKind::R_BRACK], r),
    {
        support::required_token(&self.syntax, SyntaxKind::R_BRACK)
    }
}

impl<'a> AstNode<'a> for JsArrayBindingPattern<'a> {
    open spec fn kind_ok(kind: SyntaxKind) -> bool {
        kind == SyntaxKind::JS_ARRAY_BINDING_PATTERN
    }

    closed spec fn syntax_view(&self) -> SyntaxNode<'a> {
        self.syntax
    }

    fn can_cast(kind: SyntaxKind) -> (r: bool) {
        kind == SyntaxKind::JS_ARRAY_BINDING_PATTERN
    }

    fn cast(syntax: SyntaxNode<'a>) -> (r: Option<Self>) {
        if syntax.kind() == SyntaxKind::JS_ARRAY_BINDING_PATTERN {
            Some(JsArrayBindingPattern { syntax })
        } else {
            None
        }
    }

    fn syntax(&self) -> (r: &SyntaxNode<'a>) {
        proof {
            use_type_invariant(self);
        }
        &self.syntax
    }
}

/// A node of kind `JS_OBJECT_BINDING_PATTERN`.
#[derive(Clone, Copy, Debug)]
pub struct JsObjectBindingPattern<'a> {
    syntax: SyntaxNode<'a>,
}

impl<'a> JsObjectBindingPattern<'a> {
    #[verifier::type_invariant]
    spec fn inv(self) -> bool {
        self.syntax.kind_view() == SyntaxKind::JS_OBJECT_BINDING_PATTERN
    }

    pub fn l_curly_token(&self) -> (r: SyntaxResult<SyntaxToken<'a>>)
        ensures
            required_token_field(self.syntax_view(), seq![SyntaxKind::L_CURLY], r),
    {
        support::required_token(&self.syntax, SyntaxKind::L_CURLY)
    }

    pub fn properties(&self) -> (r: AstSeparatedList<'a, JsAnyObjectBindingPatternMember<'a>>)
        ensures
            list_field(self.syntax_view(), 0, r.list_view()),
    {
        support::separated_list(&self.syntax, 0)
    }

    pub fn r_curly_token(&self) -> (r: SyntaxResult<SyntaxToken<'a>>)
        ensures
            required_token_field(self.syntax_view(), seq![SyntaxKind::R_CURLY], r),
    {
        support::required_token(&self.syntax, SyntaxKind::R_CURLY)
    }
}

impl<'a> AstNode<'a> for JsObjectBindingPattern<'a> {
    open spec fn kind_ok(kind: SyntaxKind) -> bool {
        kind == SyntaxKind::JS_OBJECT_BINDING_PATTERN
    }

    closed spec fn syntax_view(&self) -> SyntaxNode<'a> {
        self.syntax
    }

    fn can_cast(kind: SyntaxKind) -> (r: bool) {
        kind == SyntaxKind::JS_OBJECT_BINDING_PATTERN
    }

    fn cast(syntax: SyntaxNode<'a>) -> (r: Option<Self>) {
        if syntax.kind() == SyntaxKind::JS_OBJECT_BINDING_PATTERN {
            Some(JsObjectBindingPattern { syntax })
        } else {
            None
        }
    }

    fn syntax(&self) -> (r: &SyntaxNode<'a>) {
        proof {
            use_type_invariant(self);
        }
        &self.syntax
    }
}

/// A node of kind `JS_ARRAY_BINDING_PATTERN_REST_ELEMENT`.
#[derive(Clone, Copy, Debug)]
pub struct JsArrayBindingPatternRestElement<'a> {
    syntax: SyntaxNode<'a>,
}

impl<'a> JsArrayBindingPatternRestElement<'a> {
    #[verifier::type_invariant]
    spec fn inv(self) -> bool {
        self.syntax.kind_view() == SyntaxKind::JS_ARRAY_BINDING_PATTERN_REST_ELEMENT
    }

    pub fn dotdotdot_token(&self) -> (r: SyntaxResult<SyntaxToken<'a>>)
        ensures
            required_token_field(self.syntax_view(), seq![SyntaxKind::DOT3], r),
    {
        support::required_token(&self.syntax, SyntaxKind::DOT3)
    }

    pub fn pattern(&self) -> (r: SyntaxResult<JsAnyBindingPattern<'a>>)
        ensures
            required_node_field(self.syntax_view(), r),
    {
        support::required_node(&self.syntax)
    }
}

impl<'a> AstNode<'a> for JsArrayBindingPatternRestElement<'a> {
    open spec fn kind_ok(kind: SyntaxKind) -> bool {
        kind == SyntaxKind::JS_ARRAY_BINDING_PATTERN_REST_ELEMENT
    }

    closed spec fn syntax_view(&self) -> SyntaxNode<'a> {
        self.syntax
    }

    fn can_cast(kind: SyntaxKind) -> (r: bool) {
        kind == SyntaxKind::JS_ARRAY_BINDING_PATTERN_REST_ELEMENT
    }

    fn cast(syntax: SyntaxNode<'a>) -> (r: Option<Self>) {
        if syntax.kind() == SyntaxKind::JS_ARRAY_BINDING_PATTERN_REST_ELEMENT {
            Some(JsArrayBindingPatternRestElement { syntax })
        } else {
            None
        }
    }

    fn syntax(&self) -> (r: &SyntaxNode<'a>) {
        proof {
            use_type_invariant(self);
        }
        &self.syntax
    }
}

/// A node of kind `JS_OBJECT_BINDING_PATTERN_PROPERTY`.
#[derive(Clone, Copy, Debug)]
pub struct JsObjectBindingPatternProperty<'a> {
    syntax: SyntaxNode<'a>,
}

impl<'a> JsObjectBindingPatternProperty<'a> {
    #[verifier::type_invariant]
    spec fn inv(self) -> bool {
        self.syntax.kind_view() == SyntaxKind::JS_OBJECT_BINDING_PATTERN_PROPERTY
    }

    pub fn member(&self) -> (r: SyntaxResult<JsAnyObjectMemberName<'a>>)
        ensures
            required_node_field(self.syntax_view(), r),
    {
        support::required_node(&self.syntax)
    }

    pub fn colon_token(&self) -> (r: SyntaxResult<SyntaxToken<'a>>)
        ensures
            required_token_field(self.syntax_view(), seq![SyntaxKind::COLON], r),
    {
        support::required_token(&self.syntax, SyntaxKind::COLON)
    }

    pub fn pattern(&self) -> (r: SyntaxResult<JsAnyBindingPattern<'a>>)
        ensures
            required_node_field(self.syntax_view(), r),
    {
        support::required_node(&self.syntax)
    }

    pub fn init(&self) -> (r: Option<JsEqualValueClause<'a>>)
        ensures
            node_field(self.syntax_view(), r),
    {
        support::node(&self.syntax)
    }
}

impl<'a> AstNode<'a> for JsObjectBindingPatternProperty<'a> {
    open spec fn kind_ok(kind: SyntaxKind) -> bool {
        kind == SyntaxKind::JS_OBJECT_BINDING_PATTERN_PROPERTY
    }

    closed spec fn syntax_view(&self) -> SyntaxNode<'a> {
        self.syntax
    }

    fn can_cast(kind: SyntaxKind) -> (r: bool) {
        kind == SyntaxKind::JS_OBJECT_BINDING_PATTERN_PROPERTY
    }

    fn cast(syntax: SyntaxNode<'a>) -> (r: Option<Self>) {
        if syntax.kind() == SyntaxKind::JS_OBJECT_BINDING_PATTERN_PROPERTY {
            Some(JsObjectBindingPatternProperty { syntax })
        } else {
            None
        }
    }

    fn syntax(&self) -> (r: &SyntaxNode<'a>) {
        proof {
            use_type_invariant(self);
        }
        &self.syntax
    }
}

/// A node of kind `JS_OBJECT_BINDING_PATTERN_REST`.
#[derive(Clone, Copy, Debug)]
pub struct JsObjectBindingPatternRest<'a> {
    syntax: SyntaxNode<'a>,
}

impl<'a> JsObjectBindingPatternRest<'a> {
    #[verifier::type_invariant]
    spec fn inv(self) -> bool {
        self.syntax.kind_view() == SyntaxKind::JS_OBJECT_BINDING_PATTERN_REST
    }

    pub fn dotdotdot_token(&self) -> (r: SyntaxResult<SyntaxToken<'a>>)
        ensures
            required_token_field(self.syntax_view(), seq![SyntaxKind::DOT3], r),
    {
        support::required_token(&self.syntax, SyntaxKind::DOT3)
    }

    pub fn binding(&self) -> (r: SyntaxResult<JsAnyBinding<'a>>)
        ensures
            required_node_field(self.syntax_view(), r),
    {
        support::required_node(&self.syntax)
    }
}

impl<'a> AstNode<'a> for JsObjectBindingPatternRest<'a> {
    open spec fn kind_ok(kind: SyntaxKind) -> bool {
        kind == SyntaxKind::JS_OBJECT_BINDING_PATTERN_REST
    }

    closed spec fn syntax_view(&self) -> SyntaxNode<'a> {
        self.syntax
    }

    fn can_cast(kind: SyntaxKind) -> (r: bool) {
        kind == SyntaxKind::JS_OBJECT_BINDING_PATTERN_REST
    }

    fn cast(syntax: SyntaxNode<'a>) -> (r: Option<Self>) {
        if syntax.kind() == SyntaxKind::JS_OBJECT_BINDING_PATTERN_REST {
            Some(JsObjectBindingPatternRest { syntax })
        } else {
            None
        }
    }

    fn syntax(&self) -> (r: &SyntaxNode<'a>) {
        proof {
            use_type_invariant(self);
        }
        &self.syntax
    }
}

/// A node of kind `JS_OBJECT_BINDING_PATTERN_SHORTHAND_PROPERTY`.
#[derive(Clone, Copy, Debug)]
pub struct JsObjectBindingPatternShorthandProperty<'a> {
    syntax: SyntaxNode<'a>,
}

impl<'a> JsObjectBindingPatternShorthandProperty<'a> {
    #[verifier::type_invariant]
    spec fn inv(self) -> bool {
        self.syntax.kind_view() == SyntaxKind::JS_OBJECT_BINDING_PATTERN_SHORTHAND_PROPERTY
    }

    pub fn identifier(&self) -> (r: SyntaxResult<JsAnyBinding<'a>>)
        ensures
            required_node_field(self.syntax_view(), r),
    {
        support::required_node(&self.syntax)
    }

    pub fn init(&self) -> (r: Option<JsEqualValueClause<'a>>)
        ensures
            node_field(self.syntax_view(), r),
    {
        support::node(&self.syntax)
    }
}

impl<'a> AstNode<'a> for JsObjectBindingPatternShorthandProperty<'a> {
    open spec fn kind_ok(kind: SyntaxKind) -> bool {
        kind == SyntaxKind::JS_OBJECT_BINDING_PATTERN_SHORTHAND_PROPERTY
    }

    closed spec fn syntax_view(&self) -> SyntaxNode<'a> {
        self.syntax
    }

    fn can_cast(kind: SyntaxKind) -> (r: bool) {
        kind == SyntaxKind::JS_OBJECT_BINDING_PATTERN_SHORTHAND_PROPERTY
    }

    fn cast(syntax: SyntaxNode<'a>) -> (r: Option<Self>) {
        if syntax.kind() == SyntaxKind::JS_OBJECT_BINDING_PATTERN_SHORTHAND_PROPERTY {
            Some(JsObjectBindingPatternShorthandProperty { syntax })
        } else {
            None
        }
    }

    fn syntax(&self) -> (r: &SyntaxNode<'a>) {
        proof {
            use_type_invariant(self);
        }
        &self.syntax
    }
}

/// A node of kind `JS_STRING_LITERAL_EXPRESSION`.
#[derive(Clone, Copy, Debug)]
pub struct JsStringLiteralExpression<'a> {
    syntax: SyntaxNode<'a>,
}

impl<'a> JsStringLiteralExpression<'a> {
    #[verifier::type_invariant]
    spec fn inv(self) -> bool {
        self.syntax.kind_view() == SyntaxKind::JS_STRING_LITERAL_EXPRESSION
    }

    pub fn value_token(&self) -> (r: SyntaxResult<SyntaxToken<'a>>)
        ensures
            required_token_field(self.syntax_view(), seq![SyntaxKind::JS_STRING_LITERAL], r),
    {
        support::required_token(&self.syntax, SyntaxKind::JS_STRING_LITERAL)
    }
}

impl<'a> AstNode<'a> for JsStringLiteralExpression<'a> {
    open spec fn kind_ok(kind: SyntaxKind) -> bool {
        kind == SyntaxKind::JS_STRING_LITERAL_EXPRESSION
    }

    closed spec fn syntax_view(&self) -> SyntaxNode<'a> {
        self.syntax
    }

    fn can_cast(kind: SyntaxKind) -> (r: bool) {
        kind == SyntaxKind::JS_STRING_LITERAL_EXPRESSION
    }

    fn cast(syntax: SyntaxNode<'a>) -> (r: Option<Self>) {
        if syntax.kind() == SyntaxKind::JS_STRING_LITERAL_EXPRESSION {
            Some(JsStringLiteralExpression { syntax })
        } else {
            None
        }
    }

    fn syntax(&self) -> (r: &SyntaxNode<'a>) {
        proof {
            use_type_invariant(self);
        }
        &self.syntax
    }
}

/// A node of kind `JS_NUMBER_LITERAL_EXPRESSION`.
#[derive(Clone, Copy, Debug)]
pub struct JsNumberLiteralExpression<'a> {
    syntax: SyntaxNode<'a>,
}

impl<'a> JsNumberLiteralExpression<'a> {
    #[verifier::type_invariant]
    spec fn inv(self) -> bool {
        self.syntax.kind_view() == SyntaxKind::JS_NUMBER_LITERAL_EXPRESSION
    }

    pub fn value_token(&self) -> (r: SyntaxResult<SyntaxToken<'a>>)
        ensures
            required_token_field(self.syntax_view(), seq![SyntaxKind::JS_NUMBER_LITERAL], r),
    {
        support::required_token(&self.syntax, SyntaxKind::JS_NUMBER_LITERAL)
    }
}

impl<'a> AstNode<'a> for JsNumberLiteralExpression<'a> {
    open spec fn kind_ok(kind: SyntaxKind) -> bool {
        kind == SyntaxKind::JS_NUMBER_LITERAL_EXPRESSION
    }

    closed spec fn syntax_view(&self) -> SyntaxNode<'a> {
        self.syntax
    }

    fn can_cast(kind: SyntaxKind) -> (r: bool) {
        kind == SyntaxKind::JS_NUMBER_LITERAL_EXPRESSION
    }

    fn cast(syntax: SyntaxNode<'a>) -> (r: Option<Self>) {
        if syntax.kind() == SyntaxKind::JS_NUMBER_LITERAL_EXPRESSION {
            Some(JsNumberLiteralExpression { syntax })
        } else {
            None
        }
    }

    fn syntax(&self) -> (r: &SyntaxNode<'a>) {
        proof {
            use_type_invariant(self);
        }
        &self.syntax
    }
}

/// A node of kind `JS_BIG_INT_LITERAL_EXPRESSION`.
#[derive(Clone, Copy, Debug)]
pub struct JsBigIntLiteralExpression<'a> {
    syntax: SyntaxNode<'a>,
}

impl<'a> JsBigIntLiteralExpression<'a> {
    #[verifier::type_invariant]
    spec fn inv(self) -> bool {
        self.syntax.kind_view() == SyntaxKind::JS_BIG_INT_LITERAL_EXPRESSION
    }

    pub fn value_token(&self) -> (r: SyntaxResult<SyntaxToken<'a>>)
        ensures
            required_token_field(self.syntax_view(), seq![SyntaxKind::JS_BIG_INT_LITERAL], r),
    {
        support::required_token(&self.syntax, SyntaxKind::JS_BIG_INT_LITERAL)
    }
}

impl<'a> AstNode<'a> for JsBigIntLiteralExpression<'a> {
    open spec fn kind_ok(kind: SyntaxKind) -> bool {
        kind == SyntaxKind::JS_BIG_INT_LITERAL_EXPRESSION
    }

    closed spec fn syntax_view(&self) -> SyntaxNode<'a> {
        self.syntax
    }

    fn can_cast(kind: SyntaxKind) -> (r: bool) {
        kind == SyntaxKind::JS_BIG_INT_LITERAL_EXPRESSION
    }

    fn cast(syntax: SyntaxNode<'a>) -> (r: Option<Self>) {
        if syntax.kind() == SyntaxKind::JS_BIG_INT_LITERAL_EXPRESSION {
            Some(JsBigIntLiteralExpression { syntax })
        } else {
            None
        }
    }

    fn syntax(&self) -> (r: &SyntaxNode<'a>) {
        proof {
            use_type_invariant(self);
        }
        &self.syntax
    }
}

/// A node of kind `JS_BOOLEAN_LITERAL_EXPRESSION`.
#[derive(Clone, Copy, Debug)]
pub struct JsBooleanLiteralExpression<'a> {
    syntax: SyntaxNode<'a>,
}

impl<'a> JsBooleanLiteralExpression<'a> {
    #[verifier::type_invariant]
    spec fn inv(self) -> bool {
        self.syntax.kind_view() == SyntaxKind::JS_BOOLEAN_LITERAL_EXPRESSION
    }

    pub fn value_token(&self) -> (r: SyntaxResult<SyntaxToken<'a>>)
        ensures
            required_token_field(self.syntax_view(), seq![SyntaxKind::TRUE_KW, SyntaxKind::FALSE_KW], r),
    {
        let kinds = [SyntaxKind::TRUE_KW, SyntaxKind::FALSE_KW];
        assert(kinds@ =~= seq![SyntaxKind::TRUE_KW, SyntaxKind::FALSE_KW]);
        support::find_required_token(&self.syntax, &kinds)
    }
}

impl<'a> AstNode<'a> for JsBooleanLiteralExpression<'a> {
    open spec fn kind_ok(kind: SyntaxKind) -> bool {
        kind == SyntaxKind::JS_BOOLEAN_LITERAL_EXPRESSION
    }

    closed spec fn syntax_view(&self) -> SyntaxNode<'a> {
        self.syntax
    }

    fn can_cast(kind: SyntaxKind) -> (r: bool) {
        kind == SyntaxKind::JS_BOOLEAN_LITERAL_EXPRESSION
    }

    fn cast(syntax: SyntaxNode<'a>) -> (r: Option<Self>) {
        if syntax.kind() == SyntaxKind::JS_BOOLEAN_LITERAL_EXPRESSION {
            Some(JsBooleanLiteralExpression { syntax })
        } else {
            None
        }
    }

    fn syntax(&self) -> (r: &SyntaxNode<'a>) {
        proof {
            use_type_invariant(self);
        }
        &self.syntax
    }
}

/// A node of kind `JS_NULL_LITERAL_EXPRESSION`.
#[derive(Clone, Copy, Debug)]
pub struct JsNullLiteralExpression<'a> {
    syntax: SyntaxNode<'a>,
}

impl<'a> JsNullLiteralExpression<'a> {
    #[verifier::type_invariant]
    spec fn inv(self) -> bool {
        self.syntax.kind_view() == SyntaxKind::JS_NULL_LITERAL_EXPRESSION
    }

    pub fn value_token(&self) -> (r: SyntaxResult<SyntaxToken<'a>>)
        ensures
            required_token_field(self.syntax_view(), seq![SyntaxKind::NULL_KW], r),
    {
        support::required_token(&self.syntax, SyntaxKind::NULL_KW)
    }
}

impl<'a> AstNode<'a> for JsNullLiteralExpression<'a> {
    open spec fn kind_ok(kind: SyntaxKind) -> bool {
        kind == SyntaxKind::JS_NULL_LITERAL_EXPRESSION
    }

    closed spec fn syntax_view(&self) -> SyntaxNode<'a> {
        self.syntax
    }

    fn can_cast(kind: SyntaxKind) -> (r: bool) {
        kind == SyntaxKind::JS_NULL_LITERAL_EXPRESSION
    }

    fn cast(syntax: SyntaxNode<'a>) -> (r: Option<Self>) {
        if syntax.kind() == SyntaxKind::JS_NULL_LITERAL_EXPRESSION {
            Some(JsNullLiteralExpression { syntax })
        } else {
            None
        }
    }

    fn syntax(&self) -> (r: &SyntaxNode<'a>) {
        proof {
            use_type_invariant(self);
        }
        &self.syntax
    }
}

/// A node of kind `JS_REGEX_LITERAL_EXPRESSION`.
#[derive(Clone, Copy, Debug)]
pub struct JsRegexLiteralExpression<'a> {
    syntax: SyntaxNode<'a>,
}

impl<'a> JsRegexLiteralExpression<'a> {
    #[verifier::type_invariant]
    spec fn inv(self) -> bool {
        self.syntax.kind_view() == SyntaxKind::JS_REGEX_LITERAL_EXPRESSION
    }

    pub fn value_token(&self) -> (r: SyntaxResult<SyntaxToken<'a>>)
        ensures
            required_token_field(self.syntax_view(), seq![SyntaxKind::JS_REGEX_LITERAL], r),
    {
        support::required_token(&self.syntax, SyntaxKind::JS_REGEX_LITERAL)
    }
}

impl<'a> AstNode<'a> for JsRegexLiteralExpression<'a> {
    open spec fn kind_ok(kind: SyntaxKind) -> bool {
        kind == SyntaxKind::JS_REGEX_LITERAL_EXPRESSION
    }

    closed spec fn syntax_view(&self) -> SyntaxNode<'a> {
        self.syntax
    }

    fn can_cast(kind: SyntaxKind) -> (r: bool) {
        kind == SyntaxKind::JS_REGEX_LITERAL_EXPRESSION
    }

    fn cast(syntax: SyntaxNode<'a>) -> (r: Option<Self>) {
        if syntax.kind() == SyntaxKind::JS_REGEX_LITERAL_EXPRESSION {
            Some(JsRegexLiteralExpression { syntax })
        } else {
            None
        }
    }

    fn syntax(&self) -> (r: &SyntaxNode<'a>) {
        proof {
            use_type_invariant(self);
        }
        &self.syntax
    }
}

/// A node of kind `JS_VARIABLE_DECLARATOR`.
#[derive(Clone, Copy, Debug)]
pub struct JsVariableDeclarator<'a> {
    syntax: SyntaxNode<'a>,
}

impl<'a> JsVariableDeclarator<'a> {
    #[verifier::type_invariant]
    spec fn inv(self) -> bool {
        self.syntax.kind_view() == SyntaxKind::JS_VARIABLE_DECLARATOR
    }

    pub fn id(&self) -> (r: SyntaxResult<JsAnyBindingPattern<'a>>)
        ensures
            required_node_field(self.syntax_view(), r),
    {
        support::required_node(&self.syntax)
    }

    pub fn init(&self) -> (r: Option<JsEqualValueClause<'a>>)
        ensures
            node_field(self.syntax_view(), r),
    {
        support::node(&self.syntax)
    }
}

impl<'a> AstNode<'a> for JsVariableDeclarator<'a> {
    open spec fn kind_ok(kind: SyntaxKind) -> bool {
        kind == SyntaxKind::JS_VARIABLE_DECLARATOR
    }

    closed spec fn syntax_view(&self) -> SyntaxNode<'a> {
        self.syntax
    }

    fn can_cast(kind: SyntaxKind) -> (r: bool) {
        kind == SyntaxKind::JS_VARIABLE_DECLARATOR
    }

    fn cast(syntax: SyntaxNode<'a>) -> (r: Option<Self>) {
        if syntax.kind() == SyntaxKind::JS_VARIABLE_DECLARATOR {
            Some(JsVariableDeclarator { syntax })
        } else {
            None
        }
    }

    fn syntax(&self) -> (r: &SyntaxNode<'a>) {
        proof {
            use_type_invariant(self);
        }
        &self.syntax
    }
}

/// A node of kind `JS_IMPORT`.
#[derive(Clone, Copy, Debug)]
pub struct JsImport<'a> {
    syntax: SyntaxNode<'a>,
}

impl<'a> JsImport<'a> {
    #[verifier::type_invariant]
    spec fn inv(self) -> bool {
        self.syntax.kind_view() == SyntaxKind::JS_IMPORT
    }

    pub fn import_token(&self) -> (r: SyntaxResult<SyntaxToken<'a>>)
        ensures
            required_token_field(self.syntax_view(), seq![SyntaxKind::IMPORT_KW], r),
    {
        support::required_token(&self.syntax, SyntaxKind::IMPORT_KW)
    }

    pub fn import_clause(&self) -> (r: SyntaxResult<AnyJsImportClause<'a>>)
        ensures
            required_node_field(self.syntax_view(), r),
    {
        support::required_node(&self.syntax)
    }

    pub fn semicolon_token(&self) -> (r: Option<SyntaxToken<'a>>)
        ensures
            token_field(self.syntax_view(), seq![SyntaxKind::SEMICOLON], r),
    {
        support::token(&self.syntax, SyntaxKind::SEMICOLON)
    }
}

impl<'a> AstNode<'a> for JsImport<'a> {
    open spec fn kind_ok(kind: SyntaxKind) -> bool {
        kind == SyntaxKind::JS_IMPORT
    }

    closed spec fn syntax_view(&self) -> SyntaxNode<'a> {
        self.syntax
    }

    fn can_cast(kind: SyntaxKind) -> (r: bool) {
        kind == SyntaxKind::JS_IMPORT
    }

    fn cast(syntax: SyntaxNode<'a>) -> (r: Option<Self>) {
        if syntax.kind() == SyntaxKind::JS_IMPORT {
            Some(JsImport { syntax })
        } else {
            None
        }
    }

    fn syntax(&self) -> (r: &SyntaxNode<'a>) {
        proof {
            use_type_invariant(self);
        }
        &self.syntax
    }
}

/// A node of kind `EXPORT_NAMED`.
#[derive(Clone, Copy, Debug)]
pub struct ExportNamed<'a> {
    syntax: SyntaxNode<'a>,
}

impl<'a> ExportNamed<'a> {
    #[verifier::type_invariant]
    spec fn inv(self) -> bool {
        self.syntax.kind_view() == SyntaxKind::EXPORT_NAMED
    }

    pub fn export_token(&self) -> (r: SyntaxResult<SyntaxToken<'a>>)
        ensures
            required_token_field(self.syntax_view(), seq![SyntaxKind::EXPORT_KW], r),
    {
        support::required_token(&self.syntax, SyntaxKind::EXPORT_KW)
    }

    pub fn type_token(&self) -> (r: Option<SyntaxToken<'a>>)
        ensures
            token_field(self.syntax_view(), seq![SyntaxKind::TYPE_KW], r),
    {
        support::token(&self.syntax, SyntaxKind::TYPE_KW)
    }

    pub fn from_token(&self) -> (r: Option<SyntaxToken<'a>>)
        ensures
            token_field(self.syntax_view(), seq![SyntaxKind::FROM_KW], r),
    {
        support::token(&self.syntax, SyntaxKind::FROM_KW)
    }

    pub fn l_curly_token(&self) -> (r: SyntaxResult<SyntaxToken<'a>>)
        ensures
            required_token_field(self.syntax_view(), seq![SyntaxKind::L_CURLY], r),
    {
        support::required_token(&self.syntax, SyntaxKind::L_CURLY)
    }

    pub fn specifiers(&self) -> (r: AstSeparatedList<'a, Specifier<'a>>)
        ensures
            list_field(self.syntax_view(), 0, r.list_view()),
    {
        support::separated_list(&self.syntax, 0)
    }

    pub fn r_curly_token(&self) -> (r: SyntaxResult<SyntaxToken<'a>>)
        ensures
            required_token_field(self.syntax_view(), seq![SyntaxKind::R_CURLY], r),
    {
        support::required_token(&self.syntax, SyntaxKind::R_CURLY)
    }
}

impl<'a> AstNode<'a> for ExportNamed<'a> {
    open spec fn kind_ok(kind: SyntaxKind) -> bool {
        kind == SyntaxKind::EXPORT_NAMED
    }

    closed spec fn syntax_view(&self) -> SyntaxNode<'a> {
        self.syntax
    }

    fn can_cast(kind: SyntaxKind) -> (r: bool) {
        kind == SyntaxKind::EXPORT_NAMED
    }

    fn cast(syntax: SyntaxNode<'a>) -> (r: Option<Self>) {
        if syntax.kind() == SyntaxKind::EXPORT_NAMED {
            Some(ExportNamed { syntax })
        } else {
            None
        }
    }

    fn syntax(&self) -> (r: &SyntaxNode<'a>) {
        proof {
            use_type_invariant(self);
        }
        &self.syntax
    }
}

/// A node of kind `EXPORT_DEFAULT_DECL`.
#[derive(Clone, Copy, Debug)]
pub struct ExportDefaultDecl<'a> {
    syntax: SyntaxNode<'a>,
}

impl<'a> ExportDefaultDecl<'a> {
    #[verifier::type_invariant]
    spec fn inv(self) -> bool {
        self.syntax.kind_view() == SyntaxKind::EXPORT_DEFAULT_DECL
    }

    pub fn export_token(&self) -> (r: SyntaxResult<SyntaxToken<'a>>)
        ensures
            required_token_field(self.syntax_view(), seq![SyntaxKind::EXPORT_KW], r),
    {
        support::required_token(&self.syntax, SyntaxKind::EXPORT_KW)
    }

    pub fn default_token(&self) -> (r: Option<SyntaxToken<'a>>)
        ensures
            token_field(self.syntax_view(), seq![SyntaxKind::DEFAULT_KW], r),
    {
        support::token(&self.syntax, SyntaxKind::DEFAULT_KW)
    }

    pub fn type_token(&self) -> (r: Option<SyntaxToken<'a>>)
        ensures
            token_field(self.syntax_view(), seq![SyntaxKind::TYPE_KW], r),
    {
        support::token(&self.syntax, SyntaxKind::TYPE_KW)
    }

    pub fn decl(&self) -> (r: SyntaxResult<DefaultDecl<'a>>)
        ensures
            required_node_field(self.syntax_view(), r),
    {
        support::required_node(&self.syntax)
    }
}

impl<'a> AstNode<'a> for ExportDefaultDecl<'a> {
    open spec fn kind_ok(kind: SyntaxKind) -> bool {
        kind == SyntaxKind::EXPORT_DEFAULT_DECL
    }

    closed spec fn syntax_view(&self) -> SyntaxNode<'a> {
        self.syntax
    }

    fn can_cast(kind: SyntaxKind) -> (r: bool) {
        kind == SyntaxKind::EXPORT_DEFAULT_DECL
    }

    fn cast(syntax: SyntaxNode<'a>) -> (r: Option<Self>) {
        if syntax.kind() == SyntaxKind::EXPORT_DEFAULT_DECL {
            Some(ExportDefaultDecl { syntax })
        } else {
            None
        }
    }

    fn syntax(&self) -> (r: &SyntaxNode<'a>) {
        proof {
            use_type_invariant(self);
        }
        &self.syntax
    }
}

/// A node of kind `EXPORT_DEFAULT_EXPR`.
#[derive(Clone, Copy, Debug)]
pub struct ExportDefaultExpr<'a> {
    syntax: SyntaxNode<'a>,
}

impl<'a> ExportDefaultExpr<'a> {
    #[verifier::type_invariant]
    spec fn inv(self) -> bool {
        self.syntax.kind_view() == SyntaxKind::EXPORT_DEFAULT_EXPR
    }

    pub fn export_token(&self) -> (r: SyntaxResult<SyntaxToken<'a>>)
        ensures
            required_token_field(self.syntax_view(), seq![SyntaxKind::EXPORT_KW], r),
    {
        support::required_token(&self.syntax, SyntaxKind::EXPORT_KW)
    }

    pub fn type_token(&self) -> (r: Option<SyntaxToken<'a>>)
        ensures
            token_field(self.syntax_view(), seq![SyntaxKind::TYPE_KW], r),
    {
        support::token(&self.syntax, SyntaxKind::TYPE_KW)
    }

    pub fn default_token(&self) -> (r: Option<SyntaxToken<'a>>)
        ensures
            token_field(self.syntax_view(), seq![SyntaxKind::DEFAULT_KW], r),
    {
        support::token(&self.syntax, SyntaxKind::DEFAULT_KW)
    }

    pub fn expr(&self) -> (r: SyntaxResult<JsAnyExpression<'a>>)
        ensures
            required_node_field(self.syntax_view(), r),
    {
        support::required_node(&self.syntax)
    }
}

impl<'a> AstNode<'a> for ExportDefaultExpr<'a> {
    open spec fn kind_ok(kind: SyntaxKind) -> bool {
        kind == SyntaxKind::EXPORT_DEFAULT_EXPR
    }

    closed spec fn syntax_view(&self) -> SyntaxNode<'a> {
        self.syntax
    }

    fn can_cast(kind: SyntaxKind) -> (r: bool) {
        kind == SyntaxKind::EXPORT_DEFAULT_EXPR
    }

    fn cast(syntax: SyntaxNode<'a>) -> (r: Option<Self>) {
        if syntax.kind() == SyntaxKind::EXPORT_DEFAULT_EXPR {
            Some(ExportDefaultExpr { syntax })
        } else {
            None
        }
    }

    fn syntax(&self) -> (r: &SyntaxNode<'a>) {
        proof {
            use_type_invariant(self);
        }
        &self.syntax
    }
}

/// A node of kind `EXPORT_WILDCARD`.
#[derive(Clone, Copy, Debug)]
pub struct ExportWildcard<'a> {
    syntax: SyntaxNode<'a>,
}

impl<'a> ExportWildcard<'a> {
    #[verifier::type_invariant]
    spec fn inv(self) -> bool {
        self.syntax.kind_view() == SyntaxKind::EXPORT_WILDCARD
    }

    pub fn export_token(&self) -> (r: SyntaxResult<SyntaxToken<'a>>)
        ensures
            required_token_field(self.syntax_view(), seq![SyntaxKind::EXPORT_KW], r),
    {
        support::required_token(&self.syntax, SyntaxKind::EXPORT_KW)
    }

    pub fn type_token(&self) -> (r: Option<SyntaxToken<'a>>)
        ensures
            token_field(self.syntax_view(), seq![SyntaxKind::TYPE_KW], r),
    {
        support::token(&self.syntax, SyntaxKind::TYPE_KW)
    }

    pub fn star_token(&self) -> (r: SyntaxResult<SyntaxToken<'a>>)
        ensures
            required_token_field(self.syntax_view(), seq![SyntaxKind::STAR], r),
    {
        support::required_token(&self.syntax, SyntaxKind::STAR)
    }

    pub fn as_token(&self) -> (r: Option<SyntaxToken<'a>>)
        ensures
            token_field(self.syntax_view(), seq![SyntaxKind::AS_KW], r),
    {
        support::token(&self.syntax, SyntaxKind::AS_KW)
    }

    pub fn ident(&self) -> (r: Option<Ident<'a>>)
        ensures
            node_field(self.syntax_view(), r),
    {
        support::node(&self.syntax)
    }

    pub fn from_token(&self) -> (r: SyntaxResult<SyntaxToken<'a>>)
        ensures
            required_token_field(self.syntax_view(), seq![SyntaxKind::FROM_KW], r),
    {
        support::required_token(&self.syntax, SyntaxKind::FROM_KW)
    }

    pub fn source_token(&self) -> (r: SyntaxResult<SyntaxToken<'a>>)
        ensures
            required_token_field(self.syntax_view(), seq![SyntaxKind::JS_STRING_LITERAL], r),
    {
        support::required_token(&self.syntax, SyntaxKind::JS_STRING_LITERAL)
    }
}

impl<'a> AstNode<'a> for ExportWildcard<'a> {
    open spec fn kind_ok(kind: SyntaxKind) -> bool {
        kind == SyntaxKind::EXPORT_WILDCARD
    }

    closed spec fn syntax_view(&self) -> SyntaxNode<'a> {
        self.syntax
    }

    fn can_cast(kind: SyntaxKind) -> (r: bool) {
        kind == SyntaxKind::EXPORT_WILDCARD
    }

    fn cast(syntax: SyntaxNode<'a>) -> (r: Option<Self>) {
        if syntax.kind() == SyntaxKind::EXPORT_WILDCARD {
            Some(ExportWildcard { syntax })
        } else {
            None
        }
    }

    fn syntax(&self) -> (r: &SyntaxNode<'a>) {
        proof {
            use_type_invariant(self);
        }
        &self.syntax
    }
}

/// A node of kind `EXPORT_DECL`.
#[derive(Clone, Copy, Debug)]
pub struct ExportDecl<'a> {
    syntax: SyntaxNode<'a>,
}

impl<'a> ExportDecl<'a> {
    #[verifier::type_invariant]
    spec fn inv(self) -> bool {
        self.syntax.kind_view() == SyntaxKind::EXPORT_DECL
    }

    pub fn export_token(&self) -> (r: SyntaxResult<SyntaxToken<'a>>)
        ensures
            required_token_field(self.syntax_view(), seq![SyntaxKind::EXPORT_KW], r),
    {
        support::required_token(&self.syntax, SyntaxKind::EXPORT_KW)
    }

    pub fn type_token(&self) -> (r: Option<SyntaxToken<'a>>)
        ensures
            token_field(self.syntax_view(), seq![SyntaxKind::TYPE_KW], r),
    {
        support::token(&self.syntax, SyntaxKind::TYPE_KW)
    }

    pub fn decl(&self) -> (r: SyntaxResult<JsAnyExportDeclaration<'a>>)
        ensures
            required_node_field(self.syntax_view(), r),
    {
        support::required_node(&self.syntax)
    }
}

impl<'a> AstNode<'a> for ExportDecl<'a> {
    open spec fn kind_ok(kind: SyntaxKind) -> bool {
        kind == SyntaxKind::EXPORT_DECL
    }

    closed spec fn syntax_view(&self) -> SyntaxNode<'a> {
        self.syntax
    }

    fn can_cast(kind: SyntaxKind) -> (r: bool) {
        kind == SyntaxKind::EXPORT_DECL
    }

    fn cast(syntax: SyntaxNode<'a>) -> (r: Option<Self>) {
        if syntax.kind() == SyntaxKind::EXPORT_DECL {
            Some(ExportDecl { syntax })
        } else {
            None
        }
    }

    fn syntax(&self) -> (r: &SyntaxNode<'a>) {
        proof {
            use_type_invariant(self);
        }
        &self.syntax
    }
}

/// A node of kind `TS_IMPORT_EQUALS_DECL`.
#[derive(Clone, Copy, Debug)]
pub struct TsImportEqualsDecl<'a> {
    syntax: SyntaxNode<'a>,
}

impl<'a> TsImportEqualsDecl<'a> {
    #[verifier::type_invariant]
    spec fn inv(self) -> bool {
        self.syntax.kind_view() == SyntaxKind::TS_IMPORT_EQUALS_DECL
    }

    pub fn import_token(&self) -> (r: SyntaxResult<SyntaxToken<'a>>)
        ensures
            required_token_field(self.syntax_view(), seq![SyntaxKind::IMPORT_KW], r),
    {
        support::required_token(&self.syntax, SyntaxKind::IMPORT_KW)
    }

    pub fn export_token(&self) -> (r: SyntaxResult<SyntaxToken<'a>>)
        ensures
            required_token_field(self.syntax_view(), seq![SyntaxKind::EXPORT_KW], r),
    {
        support::required_token(&self.syntax, SyntaxKind::EXPORT_KW)
    }

    pub fn ident(&self) -> (r: SyntaxResult<Ident<'a>>)
        ensures
            required_node_field(self.syntax_view(), r),
    {
        support::required_node(&self.syntax)
    }

    pub fn eq_token(&self) -> (r: SyntaxResult<SyntaxToken<'a>>)
        ensures
            required_token_field(self.syntax_view(), seq![SyntaxKind::EQ], r),
    {
        support::required_token(&self.syntax, SyntaxKind::EQ)
    }

    pub fn module(&self) -> (r: SyntaxResult<TsModuleRef<'a>>)
        ensures
            required_node_field(self.syntax_view(), r),
    {
        support::required_node(&self.syntax)
    }

    pub fn semicolon_token(&self) -> (r: Option<SyntaxToken<'a>>)
        ensures
            token_field(self.syntax_view(), seq![SyntaxKind::SEMICOLON], r),
    {
        support::token(&self.syntax, SyntaxKind::SEMICOLON)
    }
}

impl<'a> AstNode<'a> for TsImportEqualsDecl<'a> {
    open spec fn kind_ok(kind: SyntaxKind) -> bool {
        kind == SyntaxKind::TS_IMPORT_EQUALS_DECL
    }

    closed spec fn syntax_view(&self) -> SyntaxNode<'a> {
        self.syntax
    }

    fn can_cast(kind: SyntaxKind) -> (r: bool) {
        kind == SyntaxKind::TS_IMPORT_EQUALS_DECL
    }

    fn cast(syntax: SyntaxNode<'a>) -> (r: Option<Self>) {
        if syntax.kind() == SyntaxKind::TS_IMPORT_EQUALS_DECL {
            Some(TsImportEqualsDecl { syntax })
        } else {
            None
        }
    }

    fn syntax(&self) -> (r: &SyntaxNode<'a>) {
        proof {
            use_type_invariant(self);
        }
        &self.syntax
    }
}

/// A node of kind `TS_EXPORT_ASSIGNMENT`.
#[derive(Clone, Copy, Debug)]
pub struct TsExportAssignment<'a> {
    syntax: SyntaxNode<'a>,
}

impl<'a> TsExportAssignment<'a> {
    #[verifier::type_invariant]
    spec fn inv(self) -> bool {
        self.syntax.kind_view() == SyntaxKind::TS_EXPORT_ASSIGNMENT
    }

    pub fn export_token(&self) -> (r: SyntaxResult<SyntaxToken<'a>>)
        ensures
            required_token_field(self.syntax_view(), seq![SyntaxKind::EXPORT_KW], r),
    {
        support::required_token(&self.syntax, SyntaxKind::EXPORT_KW)
    }

    pub fn eq_token(&self) -> (r: SyntaxResult<SyntaxToken<'a>>)
        ensures
            required_token_field(self.syntax_view(), seq![SyntaxKind::EQ], r),
    {
        support::required_token(&self.syntax, SyntaxKind::EQ)
    }

    pub fn expr(&self) -> (r: SyntaxResult<JsAnyExpression<'a>>)
        ensures
            required_node_field(self.syntax_view(), r),
    {
        support::required_node(&self.syntax)
    }

    pub fn semicolon_token(&self) -> (r: Option<SyntaxToken<'a>>)
        ensures
            token_field(self.syntax_view(), seq![SyntaxKind::SEMICOLON], r),
    {
        support::token(&self.syntax, SyntaxKind::SEMICOLON)
    }
}

impl<'a> AstNode<'a> for TsExportAssignment<'a> {
    open spec fn kind_ok(kind: SyntaxKind) -> bool {
        kind == SyntaxKind::TS_EXPORT_ASSIGNMENT
    }

    closed spec fn syntax_view(&self) -> SyntaxNode<'a> {
        self.syntax
    }

    fn can_cast(kind: SyntaxKind) -> (r: bool) {
        kind == SyntaxKind::TS_EXPORT_ASSIGNMENT
    }

    fn cast(syntax: SyntaxNode<'a>) -> (r: Option<Self>) {
        if syntax.kind() == SyntaxKind::TS_EXPORT_ASSIGNMENT {
            Some(TsExportAssignment { syntax })
        } else {
            None
        }
    }

    fn syntax(&self) -> (r: &SyntaxNode<'a>) {
        proof {
            use_type_invariant(self);
        }
        &self.syntax
    }
}

/// A node of kind `TS_NAMESPACE_EXPORT_DECL`.
#[derive(Clone, Copy, Debug)]
pub struct TsNamespaceExportDecl<'a> {
    syntax: SyntaxNode<'a>,
}

impl<'a> TsNamespaceExportDecl<'a> {
    #[verifier::type_invariant]
    spec fn inv(self) -> bool {
        self.syntax.kind_view() == SyntaxKind::TS_NAMESPACE_EXPORT_DECL
    }

    pub fn export_token(&self) -> (r: SyntaxResult<SyntaxToken<'a>>)
        ensures
            required_token_field(self.syntax_view(), seq![SyntaxKind::EXPORT_KW], r),
    {
        support::required_token(&self.syntax, SyntaxKind::EXPORT_KW)
    }

    pub fn as_token(&self) -> (r: SyntaxResult<SyntaxToken<'a>>)
        ensures
            required_token_field(self.syntax_view(), seq![SyntaxKind::AS_KW], r),
    {
        support::required_token(&self.syntax, SyntaxKind::AS_KW)
    }

    pub fn namespace_token(&self) -> (r: SyntaxResult<SyntaxToken<'a>>)
        ensures
            required_token_field(self.syntax_view(), seq![SyntaxKind::NAMESPACE_KW], r),
    {
        support::required_token(&self.syntax, SyntaxKind::NAMESPACE_KW)
    }

    pub fn ident(&self) -> (r: Option<Ident<'a>>)
        ensures
            node_field(self.syntax_view(), r),
    {
        support::node(&self.syntax)
    }

    pub fn semicolon_token(&self) -> (r: Option<SyntaxToken<'a>>)
        ensures
            token_field(self.syntax_view(), seq![SyntaxKind::SEMICOLON], r),
    {
        support::token(&self.syntax, SyntaxKind::SEMICOLON)
    }
}

impl<'a> AstNode<'a> for TsNamespaceExportDecl<'a> {
    open spec fn kind_ok(kind: SyntaxKind) -> bool {
        kind == SyntaxKind::TS_NAMESPACE_EXPORT_DECL
    }

    closed spec fn syntax_view(&self) -> SyntaxNode<'a> {
        self.syntax
    }

    fn can_cast(kind: SyntaxKind) -> (r: bool) {
        kind == SyntaxKind::TS_NAMESPACE_EXPORT_DECL
    }

    fn cast(syntax: SyntaxNode<'a>) -> (r: Option<Self>) {
        if syntax.kind() == SyntaxKind::TS_NAMESPACE_EXPORT_DECL {
            Some(TsNamespaceExportDecl { syntax })
        } else {
            None
        }
    }

    fn syntax(&self) -> (r: &SyntaxNode<'a>) {
        proof {
            use_type_invariant(self);
        }
        &self.syntax
    }
}

/// A node of kind `JS_IMPORT_BARE_CLAUSE`.
#[derive(Clone, Copy, Debug)]
pub struct JsImportBareClause<'a> {
    syntax: SyntaxNode<'a>,
}

impl<'a> JsImportBareClause<'a> {
    #[verifier::type_invariant]
    spec fn inv(self) -> bool {
        self.syntax.kind_view() == SyntaxKind::JS_IMPORT_BARE_CLAUSE
    }

    pub fn source(&self) -> (r: SyntaxResult<JsModuleSource<'a>>)
        ensures
            required_node_field(self.syntax_view(), r),
    {
        support::required_node(&self.syntax)
    }

    pub fn assertion(&self) -> (r: Option<JsImportAssertion<'a>>)
        ensures
            node_field(self.syntax_view(), r),
    {
        support::node(&self.syntax)
    }
}

impl<'a> AstNode<'a> for JsImportBareClause<'a> {
    open spec fn kind_ok(kind: SyntaxKind) -> bool {
        kind == SyntaxKind::JS_IMPORT_BARE_CLAUSE
    }

    closed spec fn syntax_view(&self) -> SyntaxNode<'a> {
        self.syntax
    }

    fn can_cast(kind: SyntaxKind) -> (r: bool) {
        kind == SyntaxKind::JS_IMPORT_BARE_CLAUSE
    }

    fn cast(syntax: SyntaxNode<'a>) -> (r: Option<Self>) {
        if syntax.kind() == SyntaxKind::JS_IMPORT_BARE_CLAUSE {
            Some(JsImportBareClause { syntax })
        } else {
            None
        }
    }

    fn syntax(&self) -> (r: &SyntaxNode<'a>) {
        proof {
            use_type_invariant(self);
        }
        &self.syntax
    }
}

/// A node of kind `JS_IMPORT_NAMED_CLAUSE`.
#[derive(Clone, Copy, Debug)]
pub struct JsImportNamedClause<'a> {
    syntax: SyntaxNode<'a>,
}

impl<'a> JsImportNamedClause<'a> {
    #[verifier::type_invariant]
    spec fn inv(self) -> bool {
        self.syntax.kind_view() == SyntaxKind::JS_IMPORT_NAMED_CLAUSE
    }

    pub fn default_specifier(&self) -> (r: Option<JsDefaultImportSpecifier<'a>>)
        ensures
            node_field(self.syntax_view(), r),
    {
        support::node(&self.syntax)
    }

    pub fn named_import(&self) -> (r: SyntaxResult<JsAnyNamedImport<'a>>)
        ensures
            required_node_field(self.syntax_view(), r),
    {
        support::required_node(&self.syntax)
    }

    pub fn from_token(&self) -> (r: SyntaxResult<SyntaxToken<'a>>)
        ensures
            required_token_field(self.syntax_view(), seq![SyntaxKind::FROM_KW], r),
    {
        support::required_token(&self.syntax, SyntaxKind::FROM_KW)
    }

    pub fn source(&self) -> (r: SyntaxResult<JsModuleSource<'a>>)
        ensures
            required_node_field(self.syntax_view(), r),
    {
        support::required_node(&self.syntax)
    }

    pub fn assertion(&self) -> (r: Option<JsImportAssertion<'a>>)
        ensures
            node_field(self.syntax_view(), r),
    {
        support::node(&self.syntax)
    }
}

impl<'a> AstNode<'a> for JsImportNamedClause<'a> {
    open spec fn kind_ok(kind: SyntaxKind) -> bool {
        kind == SyntaxKind::JS_IMPORT_NAMED_CLAUSE
    }

    closed spec fn syntax_view(&self) -> SyntaxNode<'a> {
        self.syntax
    }

    fn can_cast(kind: SyntaxKind) -> (r: bool) {
        kind == SyntaxKind::JS_IMPORT_NAMED_CLAUSE
    }

    fn cast(syntax: SyntaxNode<'a>) -> (r: Option<Self>) {
        if syntax.kind() == SyntaxKind::JS_IMPORT_NAMED_CLAUSE {
            Some(JsImportNamedClause { syntax })
        } else {
            None
        }
    }

    fn syntax(&self) -> (r: &SyntaxNode<'a>) {
        proof {
            use_type_invariant(self);
        }
        &self.syntax
    }
}

/// A node of kind `JS_IMPORT_DEFAULT_CLAUSE`.
#[derive(Clone, Copy, Debug)]
pub struct JsImportDefaultClause<'a> {
    syntax: SyntaxNode<'a>,
}

impl<'a> JsImportDefaultClause<'a> {
    #[verifier::type_invariant]
    spec fn inv(self) -> bool {
        self.syntax.kind_view() == SyntaxKind::JS_IMPORT_DEFAULT_CLAUSE
    }

    pub fn local_name(&self) -> (r: SyntaxResult<JsAnyBinding<'a>>)
        ensures
            required_node_field(self.syntax_view(), r),
    {
        support::required_node(&self.syntax)
    }

    pub fn from_token(&self) -> (r: SyntaxResult<SyntaxToken<'a>>)
        ensures
            required_token_field(self.syntax_view(), seq![SyntaxKind::FROM_KW], r),
    {
        support::required_token(&self.syntax, SyntaxKind::FROM_KW)
    }

    pub fn source(&self) -> (r: SyntaxResult<JsModuleSource<'a>>)
        ensures
            required_node_field(self.syntax_view(), r),
    {
        support::required_node(&self.syntax)
    }

    pub fn assertion(&self) -> (r: Option<JsImportAssertion<'a>>)
        ensures
            node_field(self.syntax_view(), r),
    {
        support::node(&self.syntax)
    }
}

impl<'a> AstNode<'a> for JsImportDefaultClause<'a> {
    open spec fn kind_ok(kind: SyntaxKind) -> bool {
        kind == SyntaxKind::JS_IMPORT_DEFAULT_CLAUSE
    }

    closed spec fn syntax_view(&self) -> SyntaxNode<'a> {
        self.syntax
    }

    fn can_cast(kind: SyntaxKind) -> (r: bool) {
        kind == SyntaxKind::JS_IMPORT_DEFAULT_CLAUSE
    }

    fn cast(syntax: SyntaxNode<'a>) -> (r: Option<Self>) {
        if syntax.kind() == SyntaxKind::JS_IMPORT_DEFAULT_CLAUSE {
            Some(JsImportDefaultClause { syntax })
        } else {
            None
        }
    }

    fn syntax(&self) -> (r: &SyntaxNode<'a>) {
        proof {
            use_type_invariant(self);
        }
        &self.syntax
    }
}

/// A node of kind `JS_IMPORT_NAMESPACE_CLAUSE`.
#[derive(Clone, Copy, Debug)]
pub struct JsImportNamespaceClause<'a> {
    syntax: SyntaxNode<'a>,
}

impl<'a> JsImportNamespaceClause<'a> {
    #[verifier::type_invariant]
    spec fn inv(self) -> bool {
        self.syntax.kind_view() == SyntaxKind::JS_IMPORT_NAMESPACE_CLAUSE
    }

    pub fn star_token(&self) -> (r: SyntaxResult<SyntaxToken<'a>>)
        ensures
            required_token_field(self.syntax_view(), seq![SyntaxKind::STAR], r),
    {
        support::required_token(&self.syntax, SyntaxKind::STAR)
    }

    pub fn as_token(&self) -> (r: SyntaxResult<SyntaxToken<'a>>)
        ensures
            required_token_field(self.syntax_view(), seq![SyntaxKind::AS_KW], r),
    {
        support::required_token(&self.syntax, SyntaxKind::AS_KW)
    }

    pub fn local_name(&self) -> (r: SyntaxResult<JsAnyBinding<'a>>)
        ensures
            required_node_field(self.syntax_view(), r),
    {
        support::required_node(&self.syntax)
    }

    pub fn from_token(&self) -> (r: SyntaxResult<SyntaxToken<'a>>)
        ensures
            required_token_field(self.syntax_view(), seq![SyntaxKind::FROM_KW], r),
    {
        support::required_token(&self.syntax, SyntaxKind::FROM_KW)
    }

    pub fn source(&self) -> (r: SyntaxResult<JsModuleSource<'a>>)
        ensures
            required_node_field(self.syntax_view(), r),
    {
        support::required_node(&self.syntax)
    }

    pub fn assertion(&self) -> (r: Option<JsImportAssertion<'a>>)
        ensures
            node_field(self.syntax_view(), r),
    {
        support::node(&self.syntax)
    }
}

impl<'a> AstNode<'a> for JsImportNamespaceClause<'a> {
    open spec fn kind_ok(kind: SyntaxKind) -> bool {
        kind == SyntaxKind::JS_IMPORT_NAMESPACE_CLAUSE
    }

    closed spec fn syntax_view(&self) -> SyntaxNode<'a> {
        self.syntax
    }

    fn can_cast(kind: SyntaxKind) -> (r: bool) {
        kind == SyntaxKind::JS_IMPORT_NAMESPACE_CLAUSE
    }

    fn cast(syntax: SyntaxNode<'a>) -> (r: Option<Self>) {
        if syntax.kind() == SyntaxKind::JS_IMPORT_NAMESPACE_CLAUSE {
            Some(JsImportNamespaceClause { syntax })
        } else {
            None
        }
    }

    fn syntax(&self) -> (r: &SyntaxNode<'a>) {
        proof {
            use_type_invariant(self);
        }
        &self.syntax
    }
}

/// A node of kind `JS_MODULE_SOURCE`.
#[derive(Clone, Copy, Debug)]
pub struct JsModuleSource<'a> {
    syntax: SyntaxNode<'a>,
}

impl<'a> JsModuleSource<'a> {
    #[verifier::type_invariant]
    spec fn inv(self) -> bool {
        self.syntax.kind_view() == SyntaxKind::JS_MODULE_SOURCE
    }

    pub fn value_token(&self) -> (r: SyntaxResult<SyntaxToken<'a>>)
        ensures
            required_token_field(self.syntax_view(), seq![SyntaxKind::JS_STRING_LITERAL], r),
    {
        support::required_token(&self.syntax, SyntaxKind::JS_STRING_LITERAL)
    }
}

impl<'a> AstNode<'a> for JsModuleSource<'a> {
    open spec fn kind_ok(kind: SyntaxKind) -> bool {
        kind == SyntaxKind::JS_MODULE_SOURCE
    }

    closed spec fn syntax_view(&self) -> SyntaxNode<'a> {
        self.syntax
    }

    fn can_cast(kind: SyntaxKind) -> (r: bool) {
        kind == SyntaxKind::JS_MODULE_SOURCE
    }

    fn cast(syntax: SyntaxNode<'a>) -> (r: Option<Self>) {
        if syntax.kind() == SyntaxKind::JS_MODULE_SOURCE {
            Some(JsModuleSource { syntax })
        } else {
            None
        }
    }

    fn syntax(&self) -> (r: &SyntaxNode<'a>) {
        proof {
            use_type_invariant(self);
        }
        &self.syntax
    }
}

/// A node of kind `JS_IMPORT_ASSERTION`.
#[derive(Clone, Copy, Debug)]
pub struct JsImportAssertion<'a> {
    syntax: SyntaxNode<'a>,
}

impl<'a> JsImportAssertion<'a> {
    #[verifier::type_invariant]
    spec fn inv(self) -> bool {
        self.syntax.kind_view() == SyntaxKind::JS_IMPORT_ASSERTION
    }

    pub fn assert_token(&self) -> (r: SyntaxResult<SyntaxToken<'a>>)
        ensures
            required_token_field(self.syntax_view(), seq![SyntaxKind::ASSERT_KW], r),
    {
        support::required_token(&self.syntax, SyntaxKind::ASSERT_KW)
    }

    pub fn l_curly_token(&self) -> (r: SyntaxResult<SyntaxToken<'a>>)
        ensures
            required_token_field(self.syntax_view(), seq![SyntaxKind::L_CURLY], r),
    {
        support::required_token(&self.syntax, SyntaxKind::L_CURLY)
    }

    pub fn assertions(&self) -> (r: AstSeparatedList<'a, JsAnyImportAssertionEntry<'a>>)
        ensures
            list_field(self.syntax_view(), 0, r.list_view()),
    {
        support::separated_list(&self.syntax, 0)
    }

    pub fn r_curly_token(&self) -> (r: SyntaxResult<SyntaxToken<'a>>)
        ensures
            required_token_field(self.syntax_view(), seq![SyntaxKind::R_CURLY], r),
    {
        support::required_token(&self.syntax, SyntaxKind::R_CURLY)
    }
}

impl<'a> AstNode<'a> for JsImportAssertion<'a> {
    open spec fn kind_ok(kind: SyntaxKind) -> bool {
        kind == SyntaxKind::JS_IMPORT_ASSERTION
    }

    closed spec fn syntax_view(&self) -> SyntaxNode<'a> {
        self.syntax
    }

    fn can_cast(kind: SyntaxKind) -> (r: bool) {
        kind == SyntaxKind::JS_IMPORT_ASSERTION
    }

    fn cast(syntax: SyntaxNode<'a>) -> (r: Option<Self>) {
        if syntax.kind() == SyntaxKind::JS_IMPORT_ASSERTION {
            Some(JsImportAssertion { syntax })
        } else {
            None
        }
    }

    fn syntax(&self) -> (r: &SyntaxNode<'a>) {
        proof {
            use_type_invariant(self);
        }
        &self.syntax
    }
}

/// A node of kind `JS_DEFAULT_IMPORT_SPECIFIER`.
#[derive(Clone, Copy, Debug)]
pub struct JsDefaultImportSpecifier<'a> {
    syntax: SyntaxNode<'a>,
}

impl<'a> JsDefaultImportSpecifier<'a> {
    #[verifier::type_invariant]
    spec fn inv(self) -> bool {
        self.syntax.kind_view() == SyntaxKind::JS_DEFAULT_IMPORT_SPECIFIER
    }

    pub fn local_name(&self) -> (r: SyntaxResult<JsAnyBinding<'a>>)
        ensures
            required_node_field(self.syntax_view(), r),
    {
        support::required_node(&self.syntax)
    }

    pub fn trailing_comma_token(&self) -> (r: SyntaxResult<SyntaxToken<'a>>)
        ensures
            required_token_field(self.syntax_view(), seq![SyntaxKind::COMMA], r),
    {
        support::required_token(&self.syntax, SyntaxKind::COMMA)
    }
}

impl<'a> AstNode<'a> for JsDefaultImportSpecifier<'a> {
    open spec fn kind_ok(kind: SyntaxKind) -> bool {
        kind == SyntaxKind::JS_DEFAULT_IMPORT_SPECIFIER
    }

    closed spec fn syntax_view(&self) -> SyntaxNode<'a> {
        self.syntax
    }

    fn can_cast(kind: SyntaxKind) -> (r: bool) {
        kind == SyntaxKind::JS_DEFAULT_IMPORT_SPECIFIER
    }

    fn cast(syntax: SyntaxNode<'a>) -> (r: Option<Self>) {
        if syntax.kind() == SyntaxKind::JS_DEFAULT_IMPORT_SPECIFIER {
            Some(JsDefaultImportSpecifier { syntax })
        } else {
            None
        }
    }

    fn syntax(&self) -> (r: &SyntaxNode<'a>) {
        proof {
            use_type_invariant(self);
        }
        &self.syntax
    }
}

/// A node of kind `JS_NAMED_IMPORT_SPECIFIER_LIST`.
#[derive(Clone, Copy, Debug)]
pub struct JsNamedImportSpecifierList<'a> {
    syntax: SyntaxNode<'a>,
}

impl<'a> JsNamedImportSpecifierList<'a> {
    #[verifier::type_invariant]
    spec fn inv(self) -> bool {
        self.syntax.kind_view() == SyntaxKind::JS_NAMED_IMPORT_SPECIFIER_LIST
    }

    pub fn l_curly_token(&self) -> (r: SyntaxResult<SyntaxToken<'a>>)
        ensures
            required_token_field(self.syntax_view(), seq![SyntaxKind::L_CURLY], r),
    {
        support::required_token(&self.syntax, SyntaxKind::L_CURLY)
    }

    pub fn specifiers(&self) -> (r: AstSeparatedList<'a, JsAnyNamedImportSpecifier<'a>>)
        ensures
            list_field(self.syntax_view(), 0, r.list_view()),
    {
        support::separated_list(&self.syntax, 0)
    }

    pub fn r_curly_token(&self) -> (r: SyntaxResult<SyntaxToken<'a>>)
        ensures
            required_token_field(self.syntax_view(), seq![SyntaxKind::R_CURLY], r),
    {
        support::required_token(&self.syntax, SyntaxKind::R_CURLY)
    }
}

impl<'a> AstNode<'a> for JsNamedImportSpecifierList<'a> {
    open spec fn kind_ok(kind: SyntaxKind) -> bool {
        kind == SyntaxKind::JS_NAMED_IMPORT_SPECIFIER_LIST
    }

    closed spec fn syntax_view(&self) -> SyntaxNode<'a> {
        self.syntax
    }

    fn can_cast(kind: SyntaxKind) -> (r: bool) {
        kind == SyntaxKind::JS_NAMED_IMPORT_SPECIFIER_LIST
    }

    fn cast(syntax: SyntaxNode<'a>) -> (r: Option<Self>) {
        if syntax.kind() == SyntaxKind::JS_NAMED_IMPORT_SPECIFIER_LIST {
            Some(JsNamedImportSpecifierList { syntax })
        } else {
            None
        }
    }

    fn syntax(&self) -> (r: &SyntaxNode<'a>) {
        proof {
            use_type_invariant(self);
        }
        &self.syntax
    }
}

/// A node of kind `JS_NAMESPACE_IMPORT_SPECIFIER`.
#[derive(Clone, Copy, Debug)]
pub struct JsNamespaceImportSpecifier<'a> {
    syntax: SyntaxNode<'a>,
}

impl<'a> JsNamespaceImportSpecifier<'a> {
    #[verifier::type_invariant]
    spec fn inv(self) -> bool {
        self.syntax.kind_view() == SyntaxKind::JS_NAMESPACE_IMPORT_SPECIFIER
    }

    pub fn star_token(&self) -> (r: SyntaxResult<SyntaxToken<'a>>)
        ensures
            required_token_field(self.syntax_view(), seq![SyntaxKind::STAR], r),
    {
        support::required_token(&self.syntax, SyntaxKind::STAR)
    }

    pub fn as_token(&self) -> (r: SyntaxResult<SyntaxToken<'a>>)
        ensures
            required_token_field(self.syntax_view(), seq![SyntaxKind::AS_KW], r),
    {
        support::required_token(&self.syntax, SyntaxKind::AS_KW)
    }

    pub fn local_name(&self) -> (r: SyntaxResult<JsAnyBinding<'a>>)
        ensures
            required_node_field(self.syntax_view(), r),
    {
        support::required_node(&self.syntax)
    }
}

impl<'a> AstNode<'a> for JsNamespaceImportSpecifier<'a> {
    open spec fn kind_ok(kind: SyntaxKind) -> bool {
        kind == SyntaxKind::JS_NAMESPACE_IMPORT_SPECIFIER
    }

    closed spec fn syntax_view(&self) -> SyntaxNode<'a> {
        self.syntax
    }

    fn can_cast(kind: SyntaxKind) -> (r: bool) {
        kind == SyntaxKind::JS_NAMESPACE_IMPORT_SPECIFIER
    }

    fn cast(syntax: SyntaxNode<'a>) -> (r: Option<Self>) {
        if syntax.kind() == SyntaxKind::JS_NAMESPACE_IMPORT_SPECIFIER {
            Some(JsNamespaceImportSpecifier { syntax })
        } else {
            None
        }
    }

    fn syntax(&self) -> (r: &SyntaxNode<'a>) {
        proof {
            use_type_invariant(self);
        }
        &self.syntax
    }
}

/// A node of kind `JS_SHORTHAND_NAMED_IMPORT_SPECIFIER`.
#[derive(Clone, Copy, Debug)]
pub struct JsShorthandNamedImportSpecifier<'a> {
    syntax: SyntaxNode<'a>,
}

impl<'a> JsShorthandNamedImportSpecifier<'a> {
    #[verifier::type_invariant]
    spec fn inv(self) -> bool {
        self.syntax.kind_view() == SyntaxKind::JS_SHORTHAND_NAMED_IMPORT_SPECIFIER
    }

    pub fn local_name(&self) -> (r: SyntaxResult<JsAnyBinding<'a>>)
        ensures
            required_node_field(self.syntax_view(), r),
    {
        support::required_node(&self.syntax)
    }
}

impl<'a> AstNode<'a> for JsShorthandNamedImportSpecifier<'a> {
    open spec fn kind_ok(kind: SyntaxKind) -> bool {
        kind == SyntaxKind::JS_SHORTHAND_NAMED_IMPORT_SPECIFIER
    }

    closed spec fn syntax_view(&self) -> SyntaxNode<'a> {
        self.syntax
    }

    fn can_cast(kind: SyntaxKind) -> (r: bool) {
        kind == SyntaxKind::JS_SHORTHAND_NAMED_IMPORT_SPECIFIER
    }

    fn cast(syntax: SyntaxNode<'a>) -> (r: Option<Self>) {
        if syntax.kind() == SyntaxKind::JS_SHORTHAND_NAMED_IMPORT_SPECIFIER {
            Some(JsShorthandNamedImportSpecifier { syntax })
        } else {
            None
        }
    }

    fn syntax(&self) -> (r: &SyntaxNode<'a>) {
        proof {
            use_type_invariant(self);
        }
        &self.syntax
    }
}

/// A node of kind `JS_NAMED_IMPORT_SPECIFIER`.
#[derive(Clone, Copy, Debug)]
pub struct JsNamedImportSpecifier<'a> {
    syntax: SyntaxNode<'a>,
}

impl<'a> JsNamedImportSpecifier<'a> {
    #[verifier::type_invariant]
    spec fn inv(self) -> bool {
        self.syntax.kind_view() == SyntaxKind::JS_NAMED_IMPORT_SPECIFIER
    }

    pub fn name(&self) -> (r: SyntaxResult<JsLiteralExportName<'a>>)
        ensures
            required_node_field(self.syntax_view(), r),
    {
        support::required_node(&self.syntax)
    }

    pub fn as_token(&self) -> (r: SyntaxResult<SyntaxToken<'a>>)
        ensures
            required_token_field(self.syntax_view(), seq![SyntaxKind::AS_KW], r),
    {
        support::required_token(&self.syntax, SyntaxKind::AS_KW)
    }

    pub fn local_name(&self) -> (r: SyntaxResult<JsAnyBinding<'a>>)
        ensures
            required_node_field(self.syntax_view(), r),
    {
        support::required_node(&self.syntax)
    }
}

impl<'a> AstNode<'a> for JsNamedImportSpecifier<'a> {
    open spec fn kind_ok(kind: SyntaxKind) -> bool {
        kind == SyntaxKind::JS_NAMED_IMPORT_SPECIFIER
    }

    closed spec fn syntax_view(&self) -> SyntaxNode<'a> {
        self.syntax
    }

    fn can_cast(kind: SyntaxKind) -> (r: bool) {
        kind == SyntaxKind::JS_NAMED_IMPORT_SPECIFIER
    }

    fn cast(syntax: SyntaxNode<'a>) -> (r: Option<Self>) {
        if syntax.kind() == SyntaxKind::JS_NAMED_IMPORT_SPECIFIER {
            Some(JsNamedImportSpecifier { syntax })
        } else {
            None
        }
    }

    fn syntax(&self) -> (r: &SyntaxNode<'a>) {
        proof {
            use_type_invariant(self);
        }
        &self.syntax
    }
}

/// A node of kind `JS_LITERAL_EXPORT_NAME`.
#[derive(Clone, Copy, Debug)]
pub struct JsLiteralExportName<'a> {
    syntax: SyntaxNode<'a>,
}

impl<'a> JsLiteralExportName<'a> {
    #[verifier::type_invariant]
    spec fn inv(self) -> bool {
        self.syntax.kind_view() == SyntaxKind::JS_LITERAL_EXPORT_NAME
    }

    pub fn value(&self) -> (r: SyntaxResult<SyntaxToken<'a>>)
        ensures
            required_token_field(self.syntax_view(), seq![SyntaxKind::IDENT, SyntaxKind::JS_STRING_LITERAL], r),
    {
        let kinds = [SyntaxKind::IDENT, SyntaxKind::JS_STRING_LITERAL];
        assert(kinds@ =~= seq![SyntaxKind::IDENT, SyntaxKind::JS_STRING_LITERAL]);
        support::find_required_token(&self.syntax, &kinds)
    }
}

impl<'a> AstNode<'a> for JsLiteralExportName<'a> {
    open spec fn kind_ok(kind: SyntaxKind) -> bool {
        kind == SyntaxKind::JS_LITERAL_EXPORT_NAME
    }

    closed spec fn syntax_view(&self) -> SyntaxNode<'a> {
        self.syntax
    }

    fn can_cast(kind: SyntaxKind) -> (r: bool) {
        kind == SyntaxKind::JS_LITERAL_EXPORT_NAME
    }

    fn cast(syntax: SyntaxNode<'a>) -> (r: Option<Self>) {
        if syntax.kind() == SyntaxKind::JS_LITERAL_EXPORT_NAME {
            Some(JsLiteralExportName { syntax })
        } else {
            None
        }
    }

    fn syntax(&self) -> (r: &SyntaxNode<'a>) {
        proof {
            use_type_invariant(self);
        }
        &self.syntax
    }
}

/// A node of kind `JS_IMPORT_ASSERTION_ENTRY`.
#[derive(Clone, Copy, Debug)]
pub struct JsImportAssertionEntry<'a> {
    syntax: SyntaxNode<'a>,
}

impl<'a> JsImportAssertionEntry<'a> {
    #[verifier::type_invariant]
    spec fn inv(self) -> bool {
        self.syntax.kind_view() == SyntaxKind::JS_IMPORT_ASSERTION_ENTRY
    }

    pub fn key(&self) -> (r: SyntaxResult<SyntaxToken<'a>>)
        ensures
            required_token_field(self.syntax_view(), seq![SyntaxKind::IDENT, SyntaxKind::JS_STRING_LITERAL], r),
    {
        let kinds = [SyntaxKind::IDENT, SyntaxKind::JS_STRING_LITERAL];
        assert(kinds@ =~= seq![SyntaxKind::IDENT, SyntaxKind::JS_STRING_LITERAL]);
        support::find_required_token(&self.syntax, &kinds)
    }

    pub fn colon_token(&self) -> (r: SyntaxResult<SyntaxToken<'a>>)
        ensures
            required_token_field(self.syntax_view(), seq![SyntaxKind::COLON], r),
    {
        support::required_token(&self.syntax, SyntaxKind::COLON)
    }

    pub fn value_token(&self) -> (r: SyntaxResult<SyntaxToken<'a>>)
        ensures
            required_token_field(self.syntax_view(), seq![SyntaxKind::JS_STRING_LITERAL], r),
    {
        support::required_token(&self.syntax, SyntaxKind::JS_STRING_LITERAL)
    }
}

impl<'a> AstNode<'a> for JsImportAssertionEntry<'a> {
    open spec fn kind_ok(kind: SyntaxKind) -> bool {
        kind == SyntaxKind::JS_IMPORT_ASSERTION_ENTRY
    }

    closed spec fn syntax_view(&self) -> SyntaxNode<'a> {
        self.syntax
    }

    fn can_cast(kind: SyntaxKind) -> (r: bool) {
        kind == SyntaxKind::JS_IMPORT_ASSERTION_ENTRY
    }

    fn cast(syntax: SyntaxNode<'a>) -> (r: Option<Self>) {
        if syntax.kind() == SyntaxKind::JS_IMPORT_ASSERTION_ENTRY {
            Some(JsImportAssertionEntry { syntax })
        } else {
            None
        }
    }

    fn syntax(&self) -> (r: &SyntaxNode<'a>) {
        proof {
            use_type_invariant(self);
        }
        &self.syntax
    }
}

/// A node of kind `SPECIFIER`.
#[derive(Clone, Copy, Debug)]
pub struct Specifier<'a> {
    syntax: SyntaxNode<'a>,
}

impl<'a> Specifier<'a> {
    #[verifier::type_invariant]
    spec fn inv(self) -> bool {
        self.syntax.kind_view() == SyntaxKind::SPECIFIER
    }

    pub fn name(&self) -> (r: SyntaxResult<Ident<'a>>)
        ensures
            required_node_field(self.syntax_view(), r),
    {
        support::required_node(&self.syntax)
    }

    pub fn as_token(&self) -> (r: Option<SyntaxToken<'a>>)
        ensures
            token_field(self.syntax_view(), seq![SyntaxKind::AS_KW], r),
    {
        support::token(&self.syntax, SyntaxKind::AS_KW)
    }
}

impl<'a> AstNode<'a> for Specifier<'a> {
    open spec fn kind_ok(kind: SyntaxKind) -> bool {
        kind == SyntaxKind::SPECIFIER
    }

    closed spec fn syntax_view(&self) -> SyntaxNode<'a> {
        self.syntax
    }

    fn can_cast(kind: SyntaxKind) -> (r: bool) {
        kind == SyntaxKind::SPECIFIER
    }

    fn cast(syntax: SyntaxNode<'a>) -> (r: Option<Self>) {
        if syntax.kind() == SyntaxKind::SPECIFIER {
            Some(Specifier { syntax })
        } else {
            None
        }
    }

    fn syntax(&self) -> (r: &SyntaxNode<'a>) {
        proof {
            use_type_invariant(self);
        }
        &self.syntax
    }
}

/// A node of kind `JS_PRIVATE_NAME`.
#[derive(Clone, Copy, Debug)]
pub struct JsPrivateName<'a> {
    syntax: SyntaxNode<'a>,
}

impl<'a> JsPrivateName<'a> {
    #[verifier::type_invariant]
    spec fn inv(self) -> bool {
        self.syntax.kind_view() == SyntaxKind::JS_PRIVATE_NAME
    }

    pub fn hash_token(&self) -> (r: SyntaxResult<SyntaxToken<'a>>)
        ensures
            required_token_field(self.syntax_view(), seq![SyntaxKind::HASH], r),
    {
        support::required_token(&self.syntax, SyntaxKind::HASH)
    }

    pub fn value_token(&self) -> (r: SyntaxResult<SyntaxToken<'a>>)
        ensures
            required_token_field(self.syntax_view(), seq![SyntaxKind::IDENT], r),
    {
        support::required_token(&self.syntax, SyntaxKind::IDENT)
    }
}

impl<'a> AstNode<'a> for JsPrivateName<'a> {
    open spec fn kind_ok(kind: SyntaxKind) -> bool {
        kind == SyntaxKind::JS_PRIVATE_NAME
    }

    closed spec fn syntax_view(&self) -> SyntaxNode<'a> {
        self.syntax
    }

    fn can_cast(kind: SyntaxKind) -> (r: bool) {
        kind == SyntaxKind::JS_PRIVATE_NAME
    }

    fn cast(syntax: SyntaxNode<'a>) -> (r: Option<Self>) {
        if syntax.kind() == SyntaxKind::JS_PRIVATE_NAME {
            Some(JsPrivateName { syntax })
        } else {
            None
        }
    }

    fn syntax(&self) -> (r: &SyntaxNode<'a>) {
        proof {
            use_type_invariant(self);
        }
        &self.syntax
    }
}

/// A node of kind `JS_REST_PARAMETER`.
#[derive(Clone, Copy, Debug)]
pub struct JsRestParameter<'a> {
    syntax: SyntaxNode<'a>,
}

impl<'a> JsRestParameter<'a> {
    #[verifier::type_invariant]
    spec fn inv(self) -> bool {
        self.syntax.kind_view() == SyntaxKind::JS_REST_PARAMETER
    }

    pub fn dotdotdot_token(&self) -> (r: SyntaxResult<SyntaxToken<'a>>)
        ensures
            required_token_field(self.syntax_view(), seq![SyntaxKind::DOT3], r),
    {
        support::required_token(&self.syntax, SyntaxKind::DOT3)
    }

    pub fn binding(&self) -> (r: SyntaxResult<JsAnyBindingPattern<'a>>)
        ensures
            required_node_field(self.syntax_view(), r),
    {
        support::required_node(&self.syntax)
    }
}

impl<'a> AstNode<'a> for JsRestParameter<'a> {
    open spec fn kind_ok(kind: SyntaxKind) -> bool {
        kind == SyntaxKind::JS_REST_PARAMETER
    }

    closed spec fn syntax_view(&self) -> SyntaxNode<'a> {
        self.syntax
    }

    fn can_cast(kind: SyntaxKind) -> (r: bool) {
        kind == SyntaxKind::JS_REST_PARAMETER
    }

    fn cast(syntax: SyntaxNode<'a>) -> (r: Option<Self>) {
        if syntax.kind() == SyntaxKind::JS_REST_PARAMETER {
            Some(JsRestParameter { syntax })
        } else {
            None
        }
    }

    fn syntax(&self) -> (r: &SyntaxNode<'a>) {
        proof {
            use_type_invariant(self);
        }
        &self.syntax
    }
}

/// A node of kind `TS_EXTERNAL_MODULE_REF`.
#[derive(Clone, Copy, Debug)]
pub struct TsExternalModuleRef<'a> {
    syntax: SyntaxNode<'a>,
}

impl<'a> TsExternalModuleRef<'a> {
    #[verifier::type_invariant]
    spec fn inv(self) -> bool {
        self.syntax.kind_view() == SyntaxKind::TS_EXTERNAL_MODULE_REF
    }

    pub fn require_token(&self) -> (r: SyntaxResult<SyntaxToken<'a>>)
        ensures
            required_token_field(self.syntax_view(), seq![SyntaxKind::REQUIRE_KW], r),
    {
        support::required_token(&self.syntax, SyntaxKind::REQUIRE_KW)
    }

    pub fn l_paren_token(&self) -> (r: SyntaxResult<SyntaxToken<'a>>)
        ensures
            required_token_field(self.syntax_view(), seq![SyntaxKind::L_PAREN], r),
    {
        support::required_token(&self.syntax, SyntaxKind::L_PAREN)
    }

    pub fn module_token(&self) -> (r: SyntaxResult<SyntaxToken<'a>>)
        ensures
            required_token_field(self.syntax_view(), seq![SyntaxKind::JS_STRING_LITERAL], r),
    {
        support::required_token(&self.syntax, SyntaxKind::JS_STRING_LITERAL)
    }

    pub fn r_paren_token(&self) -> (r: SyntaxResult<SyntaxToken<'a>>)
        ensures
            required_token_field(self.syntax_view(), seq![SyntaxKind::R_PAREN], r),
    {
        support::required_token(&self.syntax, SyntaxKind::R_PAREN)
    }
}

impl<'a> AstNode<'a> for TsExternalModuleRef<'a> {
    open spec fn kind_ok(kind: SyntaxKind) -> bool {
        kind == SyntaxKind::TS_EXTERNAL_MODULE_REF
    }

    closed spec fn syntax_view(&self) -> SyntaxNode<'a> {
        self.syntax
    }

    fn can_cast(kind: SyntaxKind) -> (r: bool) {
        kind == SyntaxKind::TS_EXTERNAL_MODULE_REF
    }

    fn cast(syntax: SyntaxNode<'a>) -> (r: Option<Self>) {
        if syntax.kind() == SyntaxKind::TS_EXTERNAL_MODULE_REF {
            Some(TsExternalModuleRef { syntax })
        } else {
            None
        }
    }

    fn syntax(&self) -> (r: &SyntaxNode<'a>) {
        proof {
            use_type_invariant(self);
        }
        &self.syntax
    }
}

/// A node of kind `TS_ANY`.
#[derive(Clone, Copy, Debug)]
pub struct TsAny<'a> {
    syntax: SyntaxNode<'a>,
}

impl<'a> TsAny<'a> {
    #[verifier::type_invariant]
    spec fn inv(self) -> bool {
        self.syntax.kind_view() == SyntaxKind::TS_ANY
    }

    pub fn any_token(&self) -> (r: SyntaxResult<SyntaxToken<'a>>)
        ensures
            required_token_field(self.syntax_view(), seq![SyntaxKind::ANY_KW], r),
    {
        support::required_token(&self.syntax, SyntaxKind::ANY_KW)
    }
}

impl<'a> AstNode<'a> for TsAny<'a> {
    open spec fn kind_ok(kind: SyntaxKind) -> bool {
        kind == SyntaxKind::TS_ANY
    }

    closed spec fn syntax_view(&self) -> SyntaxNode<'a> {
        self.syntax
    }

    fn can_cast(kind: SyntaxKind) -> (r: bool) {
        kind == SyntaxKind::TS_ANY
    }

    fn cast(syntax: SyntaxNode<'a>) -> (r: Option<Self>) {
        if syntax.kind() == SyntaxKind::TS_ANY {
            Some(TsAny { syntax })
        } else {
            None
        }
    }

    fn syntax(&self) -> (r: &SyntaxNode<'a>) {
        proof {
            use_type_invariant(self);
        }
        &self.syntax
    }
}

/// A node of kind `TS_UNKNOWN`.
#[derive(Clone, Copy, Debug)]
pub struct TsUnknown<'a> {
    syntax: SyntaxNode<'a>,
}

impl<'a> TsUnknown<'a> {
    #[verifier::type_invariant]
    spec fn inv(self) -> bool {
        self.syntax.kind_view() == SyntaxKind::TS_UNKNOWN
    }

    pub fn unknown_token(&self) -> (r: SyntaxResult<SyntaxToken<'a>>)
        ensures
            required_token_field(self.syntax_view(), seq![SyntaxKind::UNKNOWN_KW], r),
    {
        support::required_token(&self.syntax, SyntaxKind::UNKNOWN_KW)
    }
}

impl<'a> AstNode<'a> for TsUnknown<'a> {
    open spec fn kind_ok(kind: SyntaxKind) -> bool {
        kind == SyntaxKind::TS_UNKNOWN
    }

    closed spec fn syntax_view(&self) -> SyntaxNode<'a> {
        self.syntax
    }

    fn can_cast(kind: SyntaxKind) -> (r: bool) {
        kind == SyntaxKind::TS_UNKNOWN
    }

    fn cast(syntax: SyntaxNode<'a>) -> (r: Option<Self>) {
        if syntax.kind() == SyntaxKind::TS_UNKNOWN {
            Some(TsUnknown { syntax })
        } else {
            None
        }
    }

    fn syntax(&self) -> (r: &SyntaxNode<'a>) {
        proof {
            use_type_invariant(self);
        }
        &self.syntax
    }
}

/// A node of kind `TS_NUMBER`.
#[derive(Clone, Copy, Debug)]
pub struct TsNumber<'a> {
    syntax: SyntaxNode<'a>,
}

impl<'a> TsNumber<'a> {
    #[verifier::type_invariant]
    spec fn inv(self) -> bool {
        self.syntax.kind_view() == SyntaxKind::TS_NUMBER
    }

    pub fn ident(&self) -> (r: SyntaxResult<Ident<'a>>)
        ensures
            required_node_field(self.syntax_view(), r),
    {
        support::required_node(&self.syntax)
    }
}

impl<'a> AstNode<'a> for TsNumber<'a> {
    open spec fn kind_ok(kind: SyntaxKind) -> bool {
        kind == SyntaxKind::TS_NUMBER
    }

    closed spec fn syntax_view(&self) -> SyntaxNode<'a> {
        self.syntax
    }

    fn can_cast(kind: SyntaxKind) -> (r: bool) {
        kind == SyntaxKind::TS_NUMBER
    }

    fn cast(syntax: SyntaxNode<'a>) -> (r: Option<Self>) {
        if syntax.kind() == SyntaxKind::TS_NUMBER {
            Some(TsNumber { syntax })
        } else {
            None
        }
    }

    fn syntax(&self) -> (r: &SyntaxNode<'a>) {
        proof {
            use_type_invariant(self);
        }
        &self.syntax
    }
}

/// A node of kind `TS_OBJECT`.
#[derive(Clone, Copy, Debug)]
pub struct TsObject<'a> {
    syntax: SyntaxNode<'a>,
}

impl<'a> TsObject<'a> {
    #[verifier::type_invariant]
    spec fn inv(self) -> bool {
        self.syntax.kind_view() == SyntaxKind::TS_OBJECT
    }

    pub fn ident(&self) -> (r: SyntaxResult<Ident<'a>>)
        ensures
            required_node_field(self.syntax_view(), r),
    {
        support::required_node(&self.syntax)
    }
}

impl<'a> AstNode<'a> for TsObject<'a> {
    open spec fn kind_ok(kind: SyntaxKind) -> bool {
        kind == SyntaxKind::TS_OBJECT
    }

    closed spec fn syntax_view(&self) -> SyntaxNode<'a> {
        self.syntax
    }

    fn can_cast(kind: SyntaxKind) -> (r: bool) {
        kind == SyntaxKind::TS_OBJECT
    }

    fn cast(syntax: SyntaxNode<'a>) -> (r: Option<Self>) {
        if syntax.kind() == SyntaxKind::TS_OBJECT {
            Some(TsObject { syntax })
        } else {
            None
        }
    }

    fn syntax(&self) -> (r: &SyntaxNode<'a>) {
        proof {
            use_type_invariant(self);
        }
        &self.syntax
    }
}

/// A node of kind `TS_BOOLEAN`.
#[derive(Clone, Copy, Debug)]
pub struct TsBoolean<'a> {
    syntax: SyntaxNode<'a>,
}

impl<'a> TsBoolean<'a> {
    #[verifier::type_invariant]
    spec fn inv(self) -> bool {
        self.syntax.kind_view() == SyntaxKind::TS_BOOLEAN
    }

    pub fn ident(&self) -> (r: SyntaxResult<Ident<'a>>)
        ensures
            required_node_field(self.syntax_view(), r),
    {
        support::required_node(&self.syntax)
    }
}

impl<'a> AstNode<'a> for TsBoolean<'a> {
    open spec fn kind_ok(kind: SyntaxKind) -> bool {
        kind == SyntaxKind::TS_BOOLEAN
    }

    closed spec fn syntax_view(&self) -> SyntaxNode<'a> {
        self.syntax
    }

    fn can_cast(kind: SyntaxKind) -> (r: bool) {
        kind == SyntaxKind::TS_BOOLEAN
    }

    fn cast(syntax: SyntaxNode<'a>) -> (r: Option<Self>) {
        if syntax.kind() == SyntaxKind::TS_BOOLEAN {
            Some(TsBoolean { syntax })
        } else {
            None
        }
    }

    fn syntax(&self) -> (r: &SyntaxNode<'a>) {
        proof {
            use_type_invariant(self);
        }
        &self.syntax
    }
}

/// A node of kind `TS_BIGINT`.
#[derive(Clone, Copy, Debug)]
pub struct TsBigint<'a> {
    syntax: SyntaxNode<'a>,
}

impl<'a> TsBigint<'a> {
    #[verifier::type_invariant]
    spec fn inv(self) -> bool {
        self.syntax.kind_view() == SyntaxKind::TS_BIGINT
    }

    pub fn ident(&self) -> (r: SyntaxResult<Ident<'a>>)
        ensures
            required_node_field(self.syntax_view(), r),
    {
        support::required_node(&self.syntax)
    }
}

impl<'a> AstNode<'a> for TsBigint<'a> {
    open spec fn kind_ok(kind: SyntaxKind) -> bool {
        kind == SyntaxKind::TS_BIGINT
    }

    closed spec fn syntax_view(&self) -> SyntaxNode<'a> {
        self.syntax
    }

    fn can_cast(kind: SyntaxKind) -> (r: bool) {
        kind == SyntaxKind::TS_BIGINT
    }

    fn cast(syntax: SyntaxNode<'a>) -> (r: Option<Self>) {
        if syntax.kind() == SyntaxKind::TS_BIGINT {
            Some(TsBigint { syntax })
        } else {
            None
        }
    }

    fn syntax(&self) -> (r: &SyntaxNode<'a>) {
        proof {
            use_type_invariant(self);
        }
        &self.syntax
    }
}

/// A node of kind `TS_STRING`.
#[derive(Clone, Copy, Debug)]
pub struct TsString<'a> {
    syntax: SyntaxNode<'a>,
}

impl<'a> TsString<'a> {
    #[verifier::type_invariant]
    spec fn inv(self) -> bool {
        self.syntax.kind_view() == SyntaxKind::TS_STRING
    }

    pub fn ident(&self) -> (r: SyntaxResult<Ident<'a>>)
        ensures
            required_node_field(self.syntax_view(), r),
    {
        support::required_node(&self.syntax)
    }
}

impl<'a> AstNode<'a> for TsString<'a> {
    open spec fn kind_ok(kind: SyntaxKind) -> bool {
        kind == SyntaxKind::TS_STRING
    }

    closed spec fn syntax_view(&self) -> SyntaxNode<'a> {
        self.syntax
    }

    fn can_cast(kind: SyntaxKind) -> (r: bool) {
        kind == SyntaxKind::TS_STRING
    }

    fn cast(syntax: SyntaxNode<'a>) -> (r: Option<Self>) {
        if syntax.kind() == SyntaxKind::TS_STRING {
            Some(TsString { syntax })
        } else {
            None
        }
    }

    fn syntax(&self) -> (r: &SyntaxNode<'a>) {
        proof {
            use_type_invariant(self);
        }
        &self.syntax
    }
}

/// A node of kind `TS_SYMBOL`.
#[derive(Clone, Copy, Debug)]
pub struct TsSymbol<'a> {
    syntax: SyntaxNode<'a>,
}

impl<'a> TsSymbol<'a> {
    #[verifier::type_invariant]
    spec fn inv(self) -> bool {
        self.syntax.kind_view() == SyntaxKind::TS_SYMBOL
    }

    pub fn ident(&self) -> (r: SyntaxResult<Ident<'a>>)
        ensures
            required_node_field(self.syntax_view(), r),
    {
        support::required_node(&self.syntax)
    }
}

impl<'a> AstNode<'a> for TsSymbol<'a> {
    open spec fn kind_ok(kind: SyntaxKind) -> bool {
        kind == SyntaxKind::TS_SYMBOL
    }

    closed spec fn syntax_view(&self) -> SyntaxNode<'a> {
        self.syntax
    }

    fn can_cast(kind: SyntaxKind) -> (r: bool) {
        kind == SyntaxKind::TS_SYMBOL
    }

    fn cast(syntax: SyntaxNode<'a>) -> (r: Option<Self>) {
        if syntax.kind() == SyntaxKind::TS_SYMBOL {
            Some(TsSymbol { syntax })
        } else {
            None
        }
    }

    fn syntax(&self) -> (r: &SyntaxNode<'a>) {
        proof {
            use_type_invariant(self);
        }
        &self.syntax
    }
}

/// A node of kind `TS_VOID`.
#[derive(Clone, Copy, Debug)]
pub struct TsVoid<'a> {
    syntax: SyntaxNode<'a>,
}

impl<'a> TsVoid<'a> {
    #[verifier::type_invariant]
    spec fn inv(self) -> bool {
        self.syntax.kind_view() == SyntaxKind::TS_VOID
    }

    pub fn void_token(&self) -> (r: SyntaxResult<SyntaxToken<'a>>)
        ensures
            required_token_field(self.syntax_view(), seq![SyntaxKind::VOID_KW], r),
    {
        support::required_token(&self.syntax, SyntaxKind::VOID_KW)
    }
}

impl<'a> AstNode<'a> for TsVoid<'a> {
    open spec fn kind_ok(kind: SyntaxKind) -> bool {
        kind == SyntaxKind::TS_VOID
    }

    closed spec fn syntax_view(&self) -> SyntaxNode<'a> {
        self.syntax
    }

    fn can_cast(kind: SyntaxKind) -> (r: bool) {
        kind == SyntaxKind::TS_VOID
    }

    fn cast(syntax: SyntaxNode<'a>) -> (r: Option<Self>) {
        if syntax.kind() == SyntaxKind::TS_VOID {
            Some(TsVoid { syntax })
        } else {
            None
        }
    }

    fn syntax(&self) -> (r: &SyntaxNode<'a>) {
        proof {
            use_type_invariant(self);
        }
        &self.syntax
    }
}

/// A node of kind `TS_UNDEFINED`.
#[derive(Clone, Copy, Debug)]
pub struct TsUndefined<'a> {
    syntax: SyntaxNode<'a>,
}

impl<'a> TsUndefined<'a> {
    #[verifier::type_invariant]
    spec fn inv(self) -> bool {
        self.syntax.kind_view() == SyntaxKind::TS_UNDEFINED
    }

    pub fn undefined_token(&self) -> (r: SyntaxResult<SyntaxToken<'a>>)
        ensures
            required_token_field(self.syntax_view(), seq![SyntaxKind::UNDEFINED_KW], r),
    {
        support::required_token(&self.syntax, SyntaxKind::UNDEFINED_KW)
    }
}

impl<'a> AstNode<'a> for TsUndefined<'a> {
    open spec fn kind_ok(kind: SyntaxKind) -> bool {
        kind == SyntaxKind::TS_UNDEFINED
    }

    closed spec fn syntax_view(&self) -> SyntaxNode<'a> {
        self.syntax
    }

    fn can_cast(kind: SyntaxKind) -> (r: bool) {
        kind == SyntaxKind::TS_UNDEFINED
    }

    fn cast(syntax: SyntaxNode<'a>) -> (r: Option<Self>) {
        if syntax.kind() == SyntaxKind::TS_UNDEFINED {
            Some(TsUndefined { syntax })
        } else {
            None
        }
    }

    fn syntax(&self) -> (r: &SyntaxNode<'a>) {
        proof {
            use_type_invariant(self);
        }
        &self.syntax
    }
}

/// A node of kind `TS_NULL`.
#[derive(Clone, Copy, Debug)]
pub struct TsNull<'a> {
    syntax: SyntaxNode<'a>,
}

impl<'a> TsNull<'a> {
    #[verifier::type_invariant]
    spec fn inv(self) -> bool {
        self.syntax.kind_view() == SyntaxKind::TS_NULL
    }

    pub fn null_token(&self) -> (r: SyntaxResult<SyntaxToken<'a>>)
        ensures
            required_token_field(self.syntax_view(), seq![SyntaxKind::NULL_KW], r),
    {
        support::required_token(&self.syntax, SyntaxKind::NULL_KW)
    }
}

impl<'a> AstNode<'a> for TsNull<'a> {
    open spec fn kind_ok(kind: SyntaxKind) -> bool {
        kind == SyntaxKind::TS_NULL
    }

    closed spec fn syntax_view(&self) -> SyntaxNode<'a> {
        self.syntax
    }

    fn can_cast(kind: SyntaxKind) -> (r: bool) {
        kind == SyntaxKind::TS_NULL
    }

    fn cast(syntax: SyntaxNode<'a>) -> (r: Option<Self>) {
        if syntax.kind() == SyntaxKind::TS_NULL {
            Some(TsNull { syntax })
        } else {
            None
        }
    }

    fn syntax(&self) -> (r: &SyntaxNode<'a>) {
        proof {
            use_type_invariant(self);
        }
        &self.syntax
    }
}

/// A node of kind `TS_NEVER`.
#[derive(Clone, Copy, Debug)]
pub struct TsNever<'a> {
    syntax: SyntaxNode<'a>,
}

impl<'a> TsNever<'a> {
    #[verifier::type_invariant]
    spec fn inv(self) -> bool {
        self.syntax.kind_view() == SyntaxKind::TS_NEVER
    }

    pub fn never_token(&self) -> (r: SyntaxResult<SyntaxToken<'a>>)
        ensures
            required_token_field(self.syntax_view(), seq![SyntaxKind::NEVER_KW], r),
    {
        support::required_token(&self.syntax, SyntaxKind::NEVER_KW)
    }
}

impl<'a> AstNode<'a> for TsNever<'a> {
    open spec fn kind_ok(kind: SyntaxKind) -> bool {
        kind == SyntaxKind::TS_NEVER
    }

    closed spec fn syntax_view(&self) -> SyntaxNode<'a> {
        self.syntax
    }

    fn can_cast(kind: SyntaxKind) -> (r: bool) {
        kind == SyntaxKind::TS_NEVER
    }

    fn cast(syntax: SyntaxNode<'a>) -> (r: Option<Self>) {
        if syntax.kind() == SyntaxKind::TS_NEVER {
            Some(TsNever { syntax })
        } else {
            None
        }
    }

    fn syntax(&self) -> (r: &SyntaxNode<'a>) {
        proof {
            use_type_invariant(self);
        }
        &self.syntax
    }
}

/// A node of kind `TS_THIS`.
#[derive(Clone, Copy, Debug)]
pub struct TsThis<'a> {
    syntax: SyntaxNode<'a>,
}

impl<'a> TsThis<'a> {
    #[verifier::type_invariant]
    spec fn inv(self) -> bool {
        self.syntax.kind_view() == SyntaxKind::TS_THIS
    }

    pub fn this_token(&self) -> (r: SyntaxResult<SyntaxToken<'a>>)
        ensures
            required_token_field(self.syntax_view(), seq![SyntaxKind::THIS_KW], r),
    {
        support::required_token(&self.syntax, SyntaxKind::THIS_KW)
    }
}

impl<'a> AstNode<'a> for TsThis<'a> {
    open spec fn kind_ok(kind: SyntaxKind) -> bool {
        kind == SyntaxKind::TS_THIS
    }

    closed spec fn syntax_view(&self) -> SyntaxNode<'a> {
        self.syntax
    }

    fn can_cast(kind: SyntaxKind) -> (r: bool) {
        kind == SyntaxKind::TS_THIS
    }

    fn cast(syntax: SyntaxNode<'a>) -> (r: Option<Self>) {
        if syntax.kind() == SyntaxKind::TS_THIS {
            Some(TsThis { syntax })
        } else {
            None
        }
    }

    fn syntax(&self) -> (r: &SyntaxNode<'a>) {
        proof {
            use_type_invariant(self);
        }
        &self.syntax
    }
}

/// A node of kind `TS_LITERAL`.
#[derive(Clone, Copy, Debug)]
pub struct TsLiteral<'a> {
    syntax: SyntaxNode<'a>,
}

impl<'a> TsLiteral<'a> {
    #[verifier::type_invariant]
    spec fn inv(self) -> bool {
        self.syntax.kind_view() == SyntaxKind::TS_LITERAL
    }

    pub fn ident(&self) -> (r: SyntaxResult<Ident<'a>>)
        ensures
            required_node_field(self.syntax_view(), r),
    {
        support::required_node(&self.syntax)
    }
}

impl<'a> AstNode<'a> for TsLiteral<'a> {
    open spec fn kind_ok(kind: SyntaxKind) -> bool {
        kind == SyntaxKind::TS_LITERAL
    }

    closed spec fn syntax_view(&self) -> SyntaxNode<'a> {
        self.syntax
    }

    fn can_cast(kind: SyntaxKind) -> (r: bool) {
        kind == SyntaxKind::TS_LITERAL
    }

    fn cast(syntax: SyntaxNode<'a>) -> (r: Option<Self>) {
        if syntax.kind() == SyntaxKind::TS_LITERAL {
            Some(TsLiteral { syntax })
        } else {
            None
        }
    }

    fn syntax(&self) -> (r: &SyntaxNode<'a>) {
        proof {
            use_type_invariant(self);
        }
        &self.syntax
    }
}

/// A node of kind `TS_PREDICATE`.
#[derive(Clone, Copy, Debug)]
pub struct TsPredicate<'a> {
    syntax: SyntaxNode<'a>,
}

impl<'a> TsPredicate<'a> {
    #[verifier::type_invariant]
    spec fn inv(self) -> bool {
        self.syntax.kind_view() == SyntaxKind::TS_PREDICATE
    }

    pub fn lhs(&self) -> (r: SyntaxResult<TsThisOrMore<'a>>)
        ensures
            required_node_field(self.syntax_view(), r),
    {
        support::required_node(&self.syntax)
    }

    pub fn rhs(&self) -> (r: SyntaxResult<TsType<'a>>)
        ensures
            required_node_field(self.syntax_view(), r),
    {
        support::required_node(&self.syntax)
    }
}

impl<'a> AstNode<'a> for TsPredicate<'a> {
    open spec fn kind_ok(kind: SyntaxKind) -> bool {
        kind == SyntaxKind::TS_PREDICATE
    }

    closed spec fn syntax_view(&self) -> SyntaxNode<'a> {
        self.syntax
    }

    fn can_cast(kind: SyntaxKind) -> (r: bool) {
        kind == SyntaxKind::TS_PREDICATE
    }

    fn cast(syntax: SyntaxNode<'a>) -> (r: Option<Self>) {
        if syntax.kind() == SyntaxKind::TS_PREDICATE {
            Some(TsPredicate { syntax })
        } else {
            None
        }
    }

    fn syntax(&self) -> (r: &SyntaxNode<'a>) {
        proof {
            use_type_invariant(self);
        }
        &self.syntax
    }
}

/// A node of kind `TS_TUPLE`.
#[derive(Clone, Copy, Debug)]
pub struct TsTuple<'a> {
    syntax: SyntaxNode<'a>,
}

impl<'a> TsTuple<'a> {
    #[verifier::type_invariant]
    spec fn inv(self) -> bool {
        self.syntax.kind_view() == SyntaxKind::TS_TUPLE
    }

    pub fn l_brack_token(&self) -> (r: SyntaxResult<SyntaxToken<'a>>)
        ensures
            required_token_field(self.syntax_view(), seq![SyntaxKind::L_BRACK], r),
    {
        support::required_token(&self.syntax, SyntaxKind::L_BRACK)
    }

    pub fn elements(&self) -> (r: SyntaxResult<TsTupleElement<'a>>)
        ensures
            required_node_field(self.syntax_view(), r),
    {
        support::required_node(&self.syntax)
    }

    pub fn r_brack_token(&self) -> (r: SyntaxResult<SyntaxToken<'a>>)
        ensures
            required_token_field(self.syntax_view(), seq![SyntaxKind::R_BRACK], r),
    {
        support::required_token(&self.syntax, SyntaxKind::R_BRACK)
    }
}

impl<'a> AstNode<'a> for TsTuple<'a> {
    open spec fn kind_ok(kind: SyntaxKind) -> bool {
        kind == SyntaxKind::TS_TUPLE
    }

    closed spec fn syntax_view(&self) -> SyntaxNode<'a> {
        self.syntax
    }

    fn can_cast(kind: SyntaxKind) -> (r: bool) {
        kind == SyntaxKind::TS_TUPLE
    }

    fn cast(syntax: SyntaxNode<'a>) -> (r: Option<Self>) {
        if syntax.kind() == SyntaxKind::TS_TUPLE {
            Some(TsTuple { syntax })
        } else {
            None
        }
    }

    fn syntax(&self) -> (r: &SyntaxNode<'a>) {
        proof {
            use_type_invariant(self);
        }
        &self.syntax
    }
}

/// A node of kind `TS_PAREN`.
#[derive(Clone, Copy, Debug)]
pub struct TsParen<'a> {
    syntax: SyntaxNode<'a>,
}

impl<'a> TsParen<'a> {
    #[verifier::type_invariant]
    spec fn inv(self) -> bool {
        self.syntax.kind_view() == SyntaxKind::TS_PAREN
    }

    pub fn l_paren_token(&self) -> (r: SyntaxResult<SyntaxToken<'a>>)
        ensures
            required_token_field(self.syntax_view(), seq![SyntaxKind::L_PAREN], r),
    {
        support::required_token(&self.syntax, SyntaxKind::L_PAREN)
    }

    pub fn ty(&self) -> (r: SyntaxResult<TsType<'a>>)
        ensures
            required_node_field(self.syntax_view(), r),
    {
        support::required_node(&self.syntax)
    }

    pub fn r_paren_token(&self) -> (r: SyntaxResult<SyntaxToken<'a>>)
        ensures
            required_token_field(self.syntax_view(), seq![SyntaxKind::R_PAREN], r),
    {
        support::required_token(&self.syntax, SyntaxKind::R_PAREN)
    }
}

impl<'a> AstNode<'a> for TsParen<'a> {
    open spec fn kind_ok(kind: SyntaxKind) -> bool {
        kind == SyntaxKind::TS_PAREN
    }

    closed spec fn syntax_view(&self) -> SyntaxNode<'a> {
        self.syntax
    }

    fn can_cast(kind: SyntaxKind) -> (r: bool) {
        kind == SyntaxKind::TS_PAREN
    }

    fn cast(syntax: SyntaxNode<'a>) -> (r: Option<Self>) {
        if syntax.kind() == SyntaxKind::TS_PAREN {
            Some(TsParen { syntax })
        } else {
            None
        }
    }

    fn syntax(&self) -> (r: &SyntaxNode<'a>) {
        proof {
            use_type_invariant(self);
        }
        &self.syntax
    }
}

/// A node of kind `TS_TYPE_REF`.
#[derive(Clone, Copy, Debug)]
pub struct TsTypeRef<'a> {
    syntax: SyntaxNode<'a>,
}

impl<'a> TsTypeRef<'a> {
    #[verifier::type_invariant]
    spec fn inv(self) -> bool {
        self.syntax.kind_view() == SyntaxKind::TS_TYPE_REF
    }

    pub fn name(&self) -> (r: SyntaxResult<TsEntityName<'a>>)
        ensures
            required_node_field(self.syntax_view(), r),
    {
        support::required_node(&self.syntax)
    }

    pub fn type_args(&self) -> (r: SyntaxResult<TsTypeArgs<'a>>)
        ensures
            required_node_field(self.syntax_view(), r),
    {
        support::required_node(&self.syntax)
    }
}

impl<'a> AstNode<'a> for TsTypeRef<'a> {
    open spec fn kind_ok(kind: SyntaxKind) -> bool {
        kind == SyntaxKind::TS_TYPE_REF
    }

    closed spec fn syntax_view(&self) -> SyntaxNode<'a> {
        self.syntax
    }

    fn can_cast(kind: SyntaxKind) -> (r: bool) {
        kind == SyntaxKind::TS_TYPE_REF
    }

    fn cast(syntax: SyntaxNode<'a>) -> (r: Option<Self>) {
        if syntax.kind() == SyntaxKind::TS_TYPE_REF {
            Some(TsTypeRef { syntax })
        } else {
            None
        }
    }

    fn syntax(&self) -> (r: &SyntaxNode<'a>) {
        proof {
            use_type_invariant(self);
        }
        &self.syntax
    }
}

/// A node of kind `TS_TEMPLATE`.
#[derive(Clone, Copy, Debug)]
pub struct TsTemplate<'a> {
    syntax: SyntaxNode<'a>,
}

impl<'a> TsTemplate<'a> {
    #[verifier::type_invariant]
    spec fn inv(self) -> bool {
        self.syntax.kind_view() == SyntaxKind::TS_TEMPLATE
    }

    pub fn elements(&self) -> (r: SyntaxResult<TsTemplateElement<'a>>)
        ensures
            required_node_field(self.syntax_view(), r),
    {
        support::required_node(&self.syntax)
    }
}

impl<'a> AstNode<'a> for TsTemplate<'a> {
    open spec fn kind_ok(kind: SyntaxKind) -> bool {
        kind == SyntaxKind::TS_TEMPLATE
    }

    closed spec fn syntax_view(&self) -> SyntaxNode<'a> {
        self.syntax
    }

    fn can_cast(kind: SyntaxKind) -> (r: bool) {
        kind == SyntaxKind::TS_TEMPLATE
    }

    fn cast(syntax: SyntaxNode<'a>) -> (r: Option<Self>) {
        if syntax.kind() == SyntaxKind::TS_TEMPLATE {
            Some(TsTemplate { syntax })
        } else {
            None
        }
    }

    fn syntax(&self) -> (r: &SyntaxNode<'a>) {
        proof {
            use_type_invariant(self);
        }
        &self.syntax
    }
}

/// A node of kind `TS_MAPPED_TYPE`.
#[derive(Clone, Copy, Debug)]
pub struct TsMappedType<'a> {
    syntax: SyntaxNode<'a>,
}

impl<'a> TsMappedType<'a> {
    #[verifier::type_invariant]
    spec fn inv(self) -> bool {
        self.syntax.kind_view() == SyntaxKind::TS_MAPPED_TYPE
    }

    pub fn l_curly_token(&self) -> (r: SyntaxResult<SyntaxToken<'a>>)
        ensures
            required_token_field(self.syntax_view(), seq![SyntaxKind::L_CURLY], r),
    {
        support::required_token(&self.syntax, SyntaxKind::L_CURLY)
    }

    pub fn readonly_modifier(&self) -> (r: Option<TsMappedTypeReadonly<'a>>)
        ensures
            node_field(self.syntax_view(), r),
    {
        support::node(&self.syntax)
    }

    pub fn minus_token(&self) -> (r: Option<SyntaxToken<'a>>)
        ensures
            token_field(self.syntax_view(), seq![SyntaxKind::MINUS], r),
    {
        support::token(&self.syntax, SyntaxKind::MINUS)
    }

    pub fn plus_token(&self) -> (r: Option<SyntaxToken<'a>>)
        ensures
            token_field(self.syntax_view(), seq![SyntaxKind::PLUS], r),
    {
        support::token(&self.syntax, SyntaxKind::PLUS)
    }

    pub fn question_mark_token(&self) -> (r: Option<SyntaxToken<'a>>)
        ensures
            token_field(self.syntax_view(), seq![SyntaxKind::QUESTION], r),
    {
        support::token(&self.syntax, SyntaxKind::QUESTION)
    }

    pub fn param(&self) -> (r: SyntaxResult<TsMappedTypeParam<'a>>)
        ensures
            required_node_field(self.syntax_view(), r),
    {
        support::required_node(&self.syntax)
    }

    pub fn colon_token(&self) -> (r: SyntaxResult<SyntaxToken<'a>>)
        ensures
            required_token_field(self.syntax_view(), seq![SyntaxKind::COLON], r),
    {
        support::required_token(&self.syntax, SyntaxKind::COLON)
    }

    pub fn ty(&self) -> (r: SyntaxResult<TsType<'a>>)
        ensures
            required_node_field(self.syntax_view(), r),
    {
        support::required_node(&self.syntax)
    }

    pub fn r_curly_token(&self) -> (r: SyntaxResult<SyntaxToken<'a>>)
        ensures
            required_token_field(self.syntax_view(), seq![SyntaxKind::R_CURLY], r),
    {
        support::required_token(&self.syntax, SyntaxKind::R_CURLY)
    }

    pub fn semicolon_token(&self) -> (r: Option<SyntaxToken<'a>>)
        ensures
            token_field(self.syntax_view(), seq![SyntaxKind::SEMICOLON], r),
    {
        support::token(&self.syntax, SyntaxKind::SEMICOLON)
    }
}

impl<'a> AstNode<'a> for TsMappedType<'a> {
    open spec fn kind_ok(kind: SyntaxKind) -> bool {
        kind == SyntaxKind::TS_MAPPED_TYPE
    }

    closed spec fn syntax_view(&self) -> SyntaxNode<'a> {
        self.syntax
    }

    fn can_cast(kind: SyntaxKind) -> (r: bool) {
        kind == SyntaxKind::TS_MAPPED_TYPE
    }

    fn cast(syntax: SyntaxNode<'a>) -> (r: Option<Self>) {
        if syntax.kind() == SyntaxKind::TS_MAPPED_TYPE {
            Some(TsMappedType { syntax })
        } else {
            None
        }
    }

    fn syntax(&self) -> (r: &SyntaxNode<'a>) {
        proof {
            use_type_invariant(self);
        }
        &self.syntax
    }
}

/// A node of kind `TS_IMPORT`.
#[derive(Clone, Copy, Debug)]
pub struct TsImport<'a> {
    syntax: SyntaxNode<'a>,
}

impl<'a> TsImport<'a> {
    #[verifier::type_invariant]
    spec fn inv(self) -> bool {
        self.syntax.kind_view() == SyntaxKind::TS_IMPORT
    }

    pub fn import_token(&self) -> (r: SyntaxResult<SyntaxToken<'a>>)
        ensures
            required_token_field(self.syntax_view(), seq![SyntaxKind::IMPORT_KW], r),
    {
        support::required_token(&self.syntax, SyntaxKind::IMPORT_KW)
    }

    pub fn type_args(&self) -> (r: SyntaxResult<TsTypeArgs<'a>>)
        ensures
            required_node_field(self.syntax_view(), r),
    {
        support::required_node(&self.syntax)
    }

    pub fn dot_token(&self) -> (r: Option<SyntaxToken<'a>>)
        ensures
            token_field(self.syntax_view(), seq![SyntaxKind::DOT], r),
    {
        support::token(&self.syntax, SyntaxKind::DOT)
    }

    pub fn l_paren_token(&self) -> (r: SyntaxResult<SyntaxToken<'a>>)
        ensures
            required_token_field(self.syntax_view(), seq![SyntaxKind::L_PAREN], r),
    {
        support::required_token(&self.syntax, SyntaxKind::L_PAREN)
    }

    pub fn qualifier(&self) -> (r: SyntaxResult<TsEntityName<'a>>)
        ensures
            required_node_field(self.syntax_view(), r),
    {
        support::required_node(&self.syntax)
    }

    pub fn r_paren_token(&self) -> (r: SyntaxResult<SyntaxToken<'a>>)
        ensures
            required_token_field(self.syntax_view(), seq![SyntaxKind::R_PAREN], r),
    {
        support::required_token(&self.syntax, SyntaxKind::R_PAREN)
    }
}

impl<'a> AstNode<'a> for TsImport<'a> {
    open spec fn kind_ok(kind: SyntaxKind) -> bool {
        kind == SyntaxKind::TS_IMPORT
    }

    closed spec fn syntax_view(&self) -> SyntaxNode<'a> {
        self.syntax
    }

    fn can_cast(kind: SyntaxKind) -> (r: bool) {
        kind == SyntaxKind::TS_IMPORT
    }

    fn cast(syntax: SyntaxNode<'a>) -> (r: Option<Self>) {
        if syntax.kind() == SyntaxKind::TS_IMPORT {
            Some(TsImport { syntax })
        } else {
            None
        }
    }

    fn syntax(&self) -> (r: &SyntaxNode<'a>) {
        proof {
            use_type_invariant(self);
        }
        &self.syntax
    }
}

/// A node of kind `TS_ARRAY`.
#[derive(Clone, Copy, Debug)]
pub struct TsArray<'a> {
    syntax: SyntaxNode<'a>,
}

impl<'a> TsArray<'a> {
    #[verifier::type_invariant]
    spec fn inv(self) -> bool {
        self.syntax.kind_view() == SyntaxKind::TS_ARRAY
    }

    pub fn l_brack_token(&self) -> (r: SyntaxResult<SyntaxToken<'a>>)
        ensures
            required_token_field(self.syntax_view(), seq![SyntaxKind::L_BRACK], r),
    {
        support::required_token(&self.syntax, SyntaxKind::L_BRACK)
    }

    pub fn ty(&self) -> (r: SyntaxResult<TsType<'a>>)
        ensures
            required_node_field(self.syntax_view(), r),
    {
        support::required_node(&self.syntax)
    }

    pub fn r_brack_token(&self) -> (r: SyntaxResult<SyntaxToken<'a>>)
        ensures
            required_token_field(self.syntax_view(), seq![SyntaxKind::R_BRACK], r),
    {
        support::required_token(&self.syntax, SyntaxKind::R_BRACK)
    }
}

impl<'a> AstNode<'a> for TsArray<'a> {
    open spec fn kind_ok(kind: SyntaxKind) -> bool {
        kind == SyntaxKind::TS_ARRAY
    }

    closed spec fn syntax_view(&self) -> SyntaxNode<'a> {
        self.syntax
    }

    fn can_cast(kind: SyntaxKind) -> (r: bool) {
        kind == SyntaxKind::TS_ARRAY
    }

    fn cast(syntax: SyntaxNode<'a>) -> (r: Option<Self>) {
        if syntax.kind() == SyntaxKind::TS_ARRAY {
            Some(TsArray { syntax })
        } else {
            None
        }
    }

    fn syntax(&self) -> (r: &SyntaxNode<'a>) {
        proof {
            use_type_invariant(self);
        }
        &self.syntax
    }
}

/// A node of kind `TS_INDEXED_ARRAY`.
#[derive(Clone, Copy, Debug)]
pub struct TsIndexedArray<'a> {
    syntax: SyntaxNode<'a>,
}

impl<'a> TsIndexedArray<'a> {
    #[verifier::type_invariant]
    spec fn inv(self) -> bool {
        self.syntax.kind_view() == SyntaxKind::TS_INDEXED_ARRAY
    }

    pub fn l_brack_token(&self) -> (r: SyntaxResult<SyntaxToken<'a>>)
        ensures
            required_token_field(self.syntax_view(), seq![SyntaxKind::L_BRACK], r),
    {
        support::required_token(&self.syntax, SyntaxKind::L_BRACK)
    }

    pub fn ty(&self) -> (r: SyntaxResult<TsType<'a>>)
        ensures
            required_node_field(self.syntax_view(), r),
    {
        support::required_node(&self.syntax)
    }

    pub fn r_brack_token(&self) -> (r: SyntaxResult<SyntaxToken<'a>>)
        ensures
            required_token_field(self.syntax_view(), seq![SyntaxKind::R_BRACK], r),
    {
        support::required_token(&self.syntax, SyntaxKind::R_BRACK)
    }
}

impl<'a> AstNode<'a> for TsIndexedArray<'a> {
    open spec fn kind_ok(kind: SyntaxKind) -> bool {
        kind == SyntaxKind::TS_INDEXED_ARRAY
    }

    closed spec fn syntax_view(&self) -> SyntaxNode<'a> {
        self.syntax
    }

    fn can_cast(kind: SyntaxKind) -> (r: bool) {
        kind == SyntaxKind::TS_INDEXED_ARRAY
    }

    fn cast(syntax: SyntaxNode<'a>) -> (r: Option<Self>) {
        if syntax.kind() == SyntaxKind::TS_INDEXED_ARRAY {
            Some(TsIndexedArray { syntax })
        } else {
            None
        }
    }

    fn syntax(&self) -> (r: &SyntaxNode<'a>) {
        proof {
            use_type_invariant(self);
        }
        &self.syntax
    }
}

/// A node of kind `TS_TYPE_OPERATOR`.
#[derive(Clone, Copy, Debug)]
pub struct TsTypeOperator<'a> {
    syntax: SyntaxNode<'a>,
}

impl<'a> TsTypeOperator<'a> {
    #[verifier::type_invariant]
    spec fn inv(self) -> bool {
        self.syntax.kind_view() == SyntaxKind::TS_TYPE_OPERATOR
    }

    pub fn ty(&self) -> (r: SyntaxResult<TsType<'a>>)
        ensures
            required_node_field(self.syntax_view(), r),
    {
        support::required_node(&self.syntax)
    }
}

impl<'a> AstNode<'a> for TsTypeOperator<'a> {
    open spec fn kind_ok(kind: SyntaxKind) -> bool {
        kind == SyntaxKind::TS_TYPE_OPERATOR
    }

    closed spec fn syntax_view(&self) -> SyntaxNode<'a> {
        self.syntax
    }

    fn can_cast(kind: SyntaxKind) -> (r: bool) {
        kind == SyntaxKind::TS_TYPE_OPERATOR
    }

    fn cast(syntax: SyntaxNode<'a>) -> (r: Option<Self>) {
        if syntax.kind() == SyntaxKind::TS_TYPE_OPERATOR {
            Some(TsTypeOperator { syntax })
        } else {
            None
        }
    }

    fn syntax(&self) -> (r: &SyntaxNode<'a>) {
        proof {
            use_type_invariant(self);
        }
        &self.syntax
    }
}

/// A node of kind `TS_INTERSECTION`.
#[derive(Clone, Copy, Debug)]
pub struct TsIntersection<'a> {
    syntax: SyntaxNode<'a>,
}

impl<'a> TsIntersection<'a> {
    #[verifier::type_invariant]
    spec fn inv(self) -> bool {
        self.syntax.kind_view() == SyntaxKind::TS_INTERSECTION
    }

    pub fn types(&self) -> (r: AstNodeList<'a, TsType<'a>>)
        ensures
            list_field(self.syntax_view(), 0, r.list_view()),
    {
        support::node_list(&self.syntax, 0)
    }
}

impl<'a> AstNode<'a> for TsIntersection<'a> {
    open spec fn kind_ok(kind: SyntaxKind) -> bool {
        kind == SyntaxKind::TS_INTERSECTION
    }

    closed spec fn syntax_view(&self) -> SyntaxNode<'a> {
        self.syntax
    }

    fn can_cast(kind: SyntaxKind) -> (r: bool) {
        kind == SyntaxKind::TS_INTERSECTION
    }

    fn cast(syntax: SyntaxNode<'a>) -> (r: Option<Self>) {
        if syntax.kind() == SyntaxKind::TS_INTERSECTION {
            Some(TsIntersection { syntax })
        } else {
            None
        }
    }

    fn syntax(&self) -> (r: &SyntaxNode<'a>) {
        proof {
            use_type_invariant(self);
        }
        &self.syntax
    }
}

/// A node of kind `TS_UNION`.
#[derive(Clone, Copy, Debug)]
pub struct TsUnion<'a> {
    syntax: SyntaxNode<'a>,
}

impl<'a> TsUnion<'a> {
    #[verifier::type_invariant]
    spec fn inv(self) -> bool {
        self.syntax.kind_view() == SyntaxKind::TS_UNION
    }

    pub fn types(&self) -> (r: AstNodeList<'a, TsType<'a>>)
        ensures
            list_field(self.syntax_view(), 0, r.list_view()),
    {
        support::node_list(&self.syntax, 0)
    }
}

impl<'a> AstNode<'a> for TsUnion<'a> {
    open spec fn kind_ok(kind: SyntaxKind) -> bool {
        kind == SyntaxKind::TS_UNION
    }

    closed spec fn syntax_view(&self) -> SyntaxNode<'a> {
        self.syntax
    }

    fn can_cast(kind: SyntaxKind) -> (r: bool) {
        kind == SyntaxKind::TS_UNION
    }

    fn cast(syntax: SyntaxNode<'a>) -> (r: Option<Self>) {
        if syntax.kind() == SyntaxKind::TS_UNION {
            Some(TsUnion { syntax })
        } else {
            None
        }
    }

    fn syntax(&self) -> (r: &SyntaxNode<'a>) {
        proof {
            use_type_invariant(self);
        }
        &self.syntax
    }
}

/// A node of kind `TS_FN_TYPE`.
#[derive(Clone, Copy, Debug)]
pub struct TsFnType<'a> {
    syntax: SyntaxNode<'a>,
}

impl<'a> TsFnType<'a> {
    #[verifier::type_invariant]
    spec fn inv(self) -> bool {
        self.syntax.kind_view() == SyntaxKind::TS_FN_TYPE
    }

    pub fn params(&self) -> (r: SyntaxResult<JsParameterList<'a>>)
        ensures
            required_node_field(self.syntax_view(), r),
    {
        support::required_node(&self.syntax)
    }

    pub fn fat_arrow_token(&self) -> (r: SyntaxResult<SyntaxToken<'a>>)
        ensures
            required_token_field(self.syntax_view(), seq![SyntaxKind::FAT_ARROW], r),
    {
        support::required_token(&self.syntax, SyntaxKind::FAT_ARROW)
    }

    pub fn return_type(&self) -> (r: Option<TsType<'a>>)
        ensures
            node_field(self.syntax_view(), r),
    {
        support::node(&self.syntax)
    }
}

impl<'a> AstNode<'a> for TsFnType<'a> {
    open spec fn kind_ok(kind: SyntaxKind) -> bool {
        kind == SyntaxKind::TS_FN_TYPE
    }

    closed spec fn syntax_view(&self) -> SyntaxNode<'a> {
        self.syntax
    }

    fn can_cast(kind: SyntaxKind) -> (r: bool) {
        kind == SyntaxKind::TS_FN_TYPE
    }

    fn cast(syntax: SyntaxNode<'a>) -> (r: Option<Self>) {
        if syntax.kind() == SyntaxKind::TS_FN_TYPE {
            Some(TsFnType { syntax })
        } else {
            None
        }
    }

    fn syntax(&self) -> (r: &SyntaxNode<'a>) {
        proof {
            use_type_invariant(self);
        }
        &self.syntax
    }
}

/// A node of kind `TS_CONSTRUCTOR_TYPE`.
#[derive(Clone, Copy, Debug)]
pub struct TsConstructorType<'a> {
    syntax: SyntaxNode<'a>,
}

impl<'a> TsConstructorType<'a> {
    #[verifier::type_invariant]
    spec fn inv(self) -> bool {
        self.syntax.kind_view() == SyntaxKind::TS_CONSTRUCTOR_TYPE
    }

    pub fn new_token(&self) -> (r: SyntaxResult<SyntaxToken<'a>>)
        ensures
            required_token_field(self.syntax_view(), seq![SyntaxKind::NEW_KW], r),
    {
        support::required_token(&self.syntax, SyntaxKind::NEW_KW)
    }

    pub fn params(&self) -> (r: SyntaxResult<JsParameterList<'a>>)
        ensures
            required_node_field(self.syntax_view(), r),
    {
        support::required_node(&self.syntax)
    }

    pub fn colon_token(&self) -> (r: SyntaxResult<SyntaxToken<'a>>)
        ensures
            required_token_field(self.syntax_view(), seq![SyntaxKind::COLON], r),
    {
        support::required_token(&self.syntax, SyntaxKind::COLON)
    }

    pub fn return_type(&self) -> (r: Option<TsType<'a>>)
        ensures
            node_field(self.syntax_view(), r),
    {
        support::node(&self.syntax)
    }
}

impl<'a> AstNode<'a> for TsConstructorType<'a> {
    open spec fn kind_ok(kind: SyntaxKind) -> bool {
        kind == SyntaxKind::TS_CONSTRUCTOR_TYPE
    }

    closed spec fn syntax_view(&self) -> SyntaxNode<'a> {
        self.syntax
    }

    fn can_cast(kind: SyntaxKind) -> (r: bool) {
        kind == SyntaxKind::TS_CONSTRUCTOR_TYPE
    }

    fn cast(syntax: SyntaxNode<'a>) -> (r: Option<Self>) {
        if syntax.kind() == SyntaxKind::TS_CONSTRUCTOR_TYPE {
            Some(TsConstructorType { syntax })
        } else {
            None
        }
    }

    fn syntax(&self) -> (r: &SyntaxNode<'a>) {
        proof {
            use_type_invariant(self);
        }
        &self.syntax
    }
}

/// A node of kind `TS_CONDITIONAL_TYPE`.
#[derive(Clone, Copy, Debug)]
pub struct TsConditionalType<'a> {
    syntax: SyntaxNode<'a>,
}

impl<'a> TsConditionalType<'a> {
    #[verifier::type_invariant]
    spec fn inv(self) -> bool {
        self.syntax.kind_view() == SyntaxKind::TS_CONDITIONAL_TYPE
    }

    pub fn ty(&self) -> (r: SyntaxResult<TsType<'a>>)
        ensures
            required_node_field(self.syntax_view(), r),
    {
        support::required_node(&self.syntax)
    }

    pub fn question_mark_token(&self) -> (r: SyntaxResult<SyntaxToken<'a>>)
        ensures
            required_token_field(self.syntax_view(), seq![SyntaxKind::QUESTION], r),
    {
        support::required_token(&self.syntax, SyntaxKind::QUESTION)
    }

    pub fn colon_token(&self) -> (r: SyntaxResult<SyntaxToken<'a>>)
        ensures
            required_token_field(self.syntax_view(), seq![SyntaxKind::COLON], r),
    {
        support::required_token(&self.syntax, SyntaxKind::COLON)
    }

    pub fn extends(&self) -> (r: SyntaxResult<TsExtends<'a>>)
        ensures
            required_node_field(self.syntax_view(), r),
    {
        support::required_node(&self.syntax)
    }
}

impl<'a> AstNode<'a> for TsConditionalType<'a> {
    open spec fn kind_ok(kind: SyntaxKind) -> bool {
        kind == SyntaxKind::TS_CONDITIONAL_TYPE
    }

    closed spec fn syntax_view(&self) -> SyntaxNode<'a> {
        self.syntax
    }

    fn can_cast(kind: SyntaxKind) -> (r: bool) {
        kind == SyntaxKind::TS_CONDITIONAL_TYPE
    }

    fn cast(syntax: SyntaxNode<'a>) -> (r: Option<Self>) {
        if syntax.kind() == SyntaxKind::TS_CONDITIONAL_TYPE {
            Some(TsConditionalType { syntax })
        } else {
            None
        }
    }

    fn syntax(&self) -> (r: &SyntaxNode<'a>) {
        proof {
            use_type_invariant(self);
        }
        &self.syntax
    }
}

/// A node of kind `TS_OBJECT_TYPE`.
#[derive(Clone, Copy, Debug)]
pub struct TsObjectType<'a> {
    syntax: SyntaxNode<'a>,
}

impl<'a> TsObjectType<'a> {
    #[verifier::type_invariant]
    spec fn inv(self) -> bool {
        self.syntax.kind_view() == SyntaxKind::TS_OBJECT_TYPE
    }

    pub fn l_curly_token(&self) -> (r: SyntaxResult<SyntaxToken<'a>>)
        ensures
            required_token_field(self.syntax_view(), seq![SyntaxKind::L_CURLY], r),
    {
        support::required_token(&self.syntax, SyntaxKind::L_CURLY)
    }

    pub fn members(&self) -> (r: AstNodeList<'a, TsTypeElement<'a>>)
        ensures
            list_field(self.syntax_view(), 0, r.list_view()),
    {
        support::node_list(&self.syntax, 0)
    }

    pub fn r_curly_token(&self) -> (r: SyntaxResult<SyntaxToken<'a>>)
        ensures
            required_token_field(self.syntax_view(), seq![SyntaxKind::R_CURLY], r),
    {
        support::required_token(&self.syntax, SyntaxKind::R_CURLY)
    }
}

impl<'a> AstNode<'a> for TsObjectType<'a> {
    open spec fn kind_ok(kind: SyntaxKind) -> bool {
        kind == SyntaxKind::TS_OBJECT_TYPE
    }

    closed spec fn syntax_view(&self) -> SyntaxNode<'a> {
        self.syntax
    }

    fn can_cast(kind: SyntaxKind) -> (r: bool) {
        kind == SyntaxKind::TS_OBJECT_TYPE
    }

    fn cast(syntax: SyntaxNode<'a>) -> (r: Option<Self>) {
        if syntax.kind() == SyntaxKind::TS_OBJECT_TYPE {
            Some(TsObjectType { syntax })
        } else {
            None
        }
    }

    fn syntax(&self) -> (r: &SyntaxNode<'a>) {
        proof {
            use_type_invariant(self);
        }
        &self.syntax
    }
}

/// A node of kind `TS_INFER`.
#[derive(Clone, Copy, Debug)]
pub struct TsInfer<'a> {
    syntax: SyntaxNode<'a>,
}

impl<'a> TsInfer<'a> {
    #[verifier::type_invariant]
    spec fn inv(self) -> bool {
        self.syntax.kind_view() == SyntaxKind::TS_INFER
    }

    pub fn infer_token(&self) -> (r: SyntaxResult<SyntaxToken<'a>>)
        ensures
            required_token_field(self.syntax_view(), seq![SyntaxKind::INFER_KW], r),
    {
        support::required_token(&self.syntax, SyntaxKind::INFER_KW)
    }

    pub fn ident(&self) -> (r: SyntaxResult<Ident<'a>>)
        ensures
            required_node_field(self.syntax_view(), r),
    {
        support::required_node(&self.syntax)
    }
}

impl<'a> AstNode<'a> for TsInfer<'a> {
    open spec fn kind_ok(kind: SyntaxKind) -> bool {
        kind == SyntaxKind::TS_INFER
    }

    closed spec fn syntax_view(&self) -> SyntaxNode<'a> {
        self.syntax
    }

    fn can_cast(kind: SyntaxKind) -> (r: bool) {
        kind == SyntaxKind::TS_INFER
    }

    fn cast(syntax: SyntaxNode<'a>) -> (r: Option<Self>) {
        if syntax.kind() == SyntaxKind::TS_INFER {
            Some(TsInfer { syntax })
        } else {
            None
        }
    }

    fn syntax(&self) -> (r: &SyntaxNode<'a>) {
        proof {
            use_type_invariant(self);
        }
        &self.syntax
    }
}

/// A node of kind `TS_TUPLE_ELEMENT`.
#[derive(Clone, Copy, Debug)]
pub struct TsTupleElement<'a> {
    syntax: SyntaxNode<'a>,
}

impl<'a> TsTupleElement<'a> {
    #[verifier::type_invariant]
    spec fn inv(self) -> bool {
        self.syntax.kind_view() == SyntaxKind::TS_TUPLE_ELEMENT
    }

    pub fn ident(&self) -> (r: SyntaxResult<Ident<'a>>)
        ensures
            required_node_field(self.syntax_view(), r),
    {
        support::required_node(&self.syntax)
    }

    pub fn colon_token(&self) -> (r: SyntaxResult<SyntaxToken<'a>>)
        ensures
            required_token_field(self.syntax_view(), seq![SyntaxKind::COLON], r),
    {
        support::required_token(&self.syntax, SyntaxKind::COLON)
    }

    pub fn question_mark_token(&self) -> (r: SyntaxResult<SyntaxToken<'a>>)
        ensures
            required_token_field(self.syntax_view(), seq![SyntaxKind::QUESTION], r),
    {
        support::required_token(&self.syntax, SyntaxKind::QUESTION)
    }

    pub fn dotdotdot_token(&self) -> (r: Option<SyntaxToken<'a>>)
        ensures
            token_field(self.syntax_view(), seq![SyntaxKind::DOT3], r),
    {
        support::token(&self.syntax, SyntaxKind::DOT3)
    }

    pub fn ty(&self) -> (r: SyntaxResult<TsType<'a>>)
        ensures
            required_node_field(self.syntax_view(), r),
    {
        support::required_node(&self.syntax)
    }
}

impl<'a> AstNode<'a> for TsTupleElement<'a> {
    open spec fn kind_ok(kind: SyntaxKind) -> bool {
        kind == SyntaxKind::TS_TUPLE_ELEMENT
    }

    closed spec fn syntax_view(&self) -> SyntaxNode<'a> {
        self.syntax
    }

    fn can_cast(kind: SyntaxKind) -> (r: bool) {
        kind == SyntaxKind::TS_TUPLE_ELEMENT
    }

    fn cast(syntax: SyntaxNode<'a>) -> (r: Option<Self>) {
        if syntax.kind() == SyntaxKind::TS_TUPLE_ELEMENT {
            Some(TsTupleElement { syntax })
        } else {
            None
        }
    }

    fn syntax(&self) -> (r: &SyntaxNode<'a>) {
        proof {
            use_type_invariant(self);
        }
        &self.syntax
    }
}

/// A node of kind `TS_ENUM_MEMBER`.
#[derive(Clone, Copy, Debug)]
pub struct TsEnumMember<'a> {
    syntax: SyntaxNode<'a>,
}

impl<'a> TsEnumMember<'a> {
    #[verifier::type_invariant]
    spec fn inv(self) -> bool {
        self.syntax.kind_view() == SyntaxKind::TS_ENUM_MEMBER
    }

    pub fn ident(&self) -> (r: SyntaxResult<Ident<'a>>)
        ensures
            required_node_field(self.syntax_view(), r),
    {
        support::required_node(&self.syntax)
    }

    pub fn eq_token(&self) -> (r: SyntaxResult<SyntaxToken<'a>>)
        ensures
            required_token_field(self.syntax_view(), seq![SyntaxKind::EQ], r),
    {
        support::required_token(&self.syntax, SyntaxKind::EQ)
    }

    pub fn value(&self) -> (r: SyntaxResult<JsAnyExpression<'a>>)
        ensures
            required_node_field(self.syntax_view(), r),
    {
        support::required_node(&self.syntax)
    }
}

impl<'a> AstNode<'a> for TsEnumMember<'a> {
    open spec fn kind_ok(kind: SyntaxKind) -> bool {
        kind == SyntaxKind::TS_ENUM_MEMBER
    }

    closed spec fn syntax_view(&self) -> SyntaxNode<'a> {
        self.syntax
    }

    fn can_cast(kind: SyntaxKind) -> (r: bool) {
        kind == SyntaxKind::TS_ENUM_MEMBER
    }

    fn cast(syntax: SyntaxNode<'a>) -> (r: Option<Self>) {
        if syntax.kind() == SyntaxKind::TS_ENUM_MEMBER {
            Some(TsEnumMember { syntax })
        } else {
            None
        }
    }

    fn syntax(&self) -> (r: &SyntaxNode<'a>) {
        proof {
            use_type_invariant(self);
        }
        &self.syntax
    }
}

/// A node of kind `TS_TEMPLATE_ELEMENT`.
#[derive(Clone, Copy, Debug)]
pub struct TsTemplateElement<'a> {
    syntax: SyntaxNode<'a>,
}

impl<'a> TsTemplateElement<'a> {
    #[verifier::type_invariant]
    spec fn inv(self) -> bool {
        self.syntax.kind_view() == SyntaxKind::TS_TEMPLATE_ELEMENT
    }

    pub fn ty(&self) -> (r: SyntaxResult<TsType<'a>>)
        ensures
            required_node_field(self.syntax_view(), r),
    {
        support::required_node(&self.syntax)
    }

    pub fn r_curly_token(&self) -> (r: SyntaxResult<SyntaxToken<'a>>)
        ensures
            required_token_field(self.syntax_view(), seq![SyntaxKind::R_CURLY], r),
    {
        support::required_token(&self.syntax, SyntaxKind::R_CURLY)
    }
}

impl<'a> AstNode<'a> for TsTemplateElement<'a> {
    open spec fn kind_ok(kind: SyntaxKind) -> bool {
        kind == SyntaxKind::TS_TEMPLATE_ELEMENT
    }

    closed spec fn syntax_view(&self) -> SyntaxNode<'a> {
        self.syntax
    }

    fn can_cast(kind: SyntaxKind) -> (r: bool) {
        kind == SyntaxKind::TS_TEMPLATE_ELEMENT
    }

    fn cast(syntax: SyntaxNode<'a>) -> (r: Option<Self>) {
        if syntax.kind() == SyntaxKind::TS_TEMPLATE_ELEMENT {
            Some(TsTemplateElement { syntax })
        } else {
            None
        }
    }

    fn syntax(&self) -> (r: &SyntaxNode<'a>) {
        proof {
            use_type_invariant(self);
        }
        &self.syntax
    }
}

/// A node of kind `TS_MAPPED_TYPE_READONLY`.
#[derive(Clone, Copy, Debug)]
pub struct TsMappedTypeReadonly<'a> {
    syntax: SyntaxNode<'a>,
}

impl<'a> TsMappedTypeReadonly<'a> {
    #[verifier::type_invariant]
    spec fn inv(self) -> bool {
        self.syntax.kind_view() == SyntaxKind::TS_MAPPED_TYPE_READONLY
    }

    pub fn minus_token(&self) -> (r: Option<SyntaxToken<'a>>)
        ensures
            token_field(self.syntax_view(), seq![SyntaxKind::MINUS], r),
    {
        support::token(&self.syntax, SyntaxKind::MINUS)
    }

    pub fn plus_token(&self) -> (r: Option<SyntaxToken<'a>>)
        ensures
            token_field(self.syntax_view(), seq![SyntaxKind::PLUS], r),
    {
        support::token(&self.syntax, SyntaxKind::PLUS)
    }

    pub fn readonly_token(&self) -> (r: Option<SyntaxToken<'a>>)
        ensures
            token_field(self.syntax_view(), seq![SyntaxKind::READONLY_KW], r),
    {
        support::token(&self.syntax, SyntaxKind::READONLY_KW)
    }
}

impl<'a> AstNode<'a> for TsMappedTypeReadonly<'a> {
    open spec fn kind_ok(kind: SyntaxKind) -> bool {
        kind == SyntaxKind::TS_MAPPED_TYPE_READONLY
    }

    closed spec fn syntax_view(&self) -> SyntaxNode<'a> {
        self.syntax
    }

    fn can_cast(kind: SyntaxKind) -> (r: bool) {
        kind == SyntaxKind::TS_MAPPED_TYPE_READONLY
    }

    fn cast(syntax: SyntaxNode<'a>) -> (r: Option<Self>) {
        if syntax.kind() == SyntaxKind::TS_MAPPED_TYPE_READONLY {
            Some(TsMappedTypeReadonly { syntax })
        } else {
            None
        }
    }

    fn syntax(&self) -> (r: &SyntaxNode<'a>) {
        proof {
            use_type_invariant(self);
        }
        &self.syntax
    }
}

/// A node of kind `TS_MAPPED_TYPE_PARAM`.
#[derive(Clone, Copy, Debug)]
pub struct TsMappedTypeParam<'a> {
    syntax: SyntaxNode<'a>,
}

impl<'a> TsMappedTypeParam<'a> {
    #[verifier::type_invariant]
    spec fn inv(self) -> bool {
        self.syntax.kind_view() == SyntaxKind::TS_MAPPED_TYPE_PARAM
    }

    pub fn l_brack_token(&self) -> (r: Option<SyntaxToken<'a>>)
        ensures
            token_field(self.syntax_view(), seq![SyntaxKind::L_BRACK], r),
    {
        support::token(&self.syntax, SyntaxKind::L_BRACK)
    }

    pub fn name(&self) -> (r: Option<TsTypeName<'a>>)
        ensures
            node_field(self.syntax_view(), r),
    {
        support::node(&self.syntax)
    }

    pub fn r_brack_token(&self) -> (r: Option<SyntaxToken<'a>>)
        ensures
            token_field(self.syntax_view(), seq![SyntaxKind::R_BRACK], r),
    {
        support::token(&self.syntax, SyntaxKind::R_BRACK)
    }

    pub fn ident(&self) -> (r: Option<Ident<'a>>)
        ensures
            node_field(self.syntax_view(), r),
    {
        support::node(&self.syntax)
    }

    pub fn ty(&self) -> (r: SyntaxResult<TsType<'a>>)
        ensures
            required_node_field(self.syntax_view(), r),
    {
        support::required_node(&self.syntax)
    }
}

impl<'a> AstNode<'a> for TsMappedTypeParam<'a> {
    open spec fn kind_ok(kind: SyntaxKind) -> bool {
        kind == SyntaxKind::TS_MAPPED_TYPE_PARAM
    }

    closed spec fn syntax_view(&self) -> SyntaxNode<'a> {
        self.syntax
    }

    fn can_cast(kind: SyntaxKind) -> (r: bool) {
        kind == SyntaxKind::TS_MAPPED_TYPE_PARAM
    }

    fn cast(syntax: SyntaxNode<'a>) -> (r: Option<Self>) {
        if syntax.kind() == SyntaxKind::TS_MAPPED_TYPE_PARAM {
            Some(TsMappedTypeParam { syntax })
        } else {
            None
        }
    }

    fn syntax(&self) -> (r: &SyntaxNode<'a>) {
        proof {
            use_type_invariant(self);
        }
        &self.syntax
    }
}

/// A node of kind `TS_TYPE_NAME`.
#[derive(Clone, Copy, Debug)]
pub struct TsTypeName<'a> {
    syntax: SyntaxNode<'a>,
}

impl<'a> TsTypeName<'a> {
    #[verifier::type_invariant]
    spec fn inv(self) -> bool {
        self.syntax.kind_view() == SyntaxKind::TS_TYPE_NAME
    }

    pub fn ident(&self) -> (r: SyntaxResult<Ident<'a>>)
        ensures
            required_node_field(self.syntax_view(), r),
    {
        support::required_node(&self.syntax)
    }
}

impl<'a> AstNode<'a> for TsTypeName<'a> {
    open spec fn kind_ok(kind: SyntaxKind) -> bool {
        kind == SyntaxKind::TS_TYPE_NAME
    }

    closed spec fn syntax_view(&self) -> SyntaxNode<'a> {
        self.syntax
    }

    fn can_cast(kind: SyntaxKind) -> (r: bool) {
        kind == SyntaxKind::TS_TYPE_NAME
    }

    fn cast(syntax: SyntaxNode<'a>) -> (r: Option<Self>) {
        if syntax.kind() == SyntaxKind::TS_TYPE_NAME {
            Some(TsTypeName { syntax })
        } else {
            None
        }
    }

    fn syntax(&self) -> (r: &SyntaxNode<'a>) {
        proof {
            use_type_invariant(self);
        }
        &self.syntax
    }
}

/// A node of kind `TS_EXTENDS`.
#[derive(Clone, Copy, Debug)]
pub struct TsExtends<'a> {
    syntax: SyntaxNode<'a>,
}

impl<'a> TsExtends<'a> {
    #[verifier::type_invariant]
    spec fn inv(self) -> bool {
        self.syntax.kind_view() == SyntaxKind::TS_EXTENDS
    }

    pub fn extends_token(&self) -> (r: SyntaxResult<SyntaxToken<'a>>)
        ensures
            required_token_field(self.syntax_view(), seq![SyntaxKind::EXTENDS_KW], r),
    {
        support::required_token(&self.syntax, SyntaxKind::EXTENDS_KW)
    }

    pub fn ty(&self) -> (r: SyntaxResult<TsType<'a>>)
        ensures
            required_node_field(self.syntax_view(), r),
    {
        support::required_node(&self.syntax)
    }
}

impl<'a> AstNode<'a> for TsExtends<'a> {
    open spec fn kind_ok(kind: SyntaxKind) -> bool {
        kind == SyntaxKind::TS_EXTENDS
    }

    closed spec fn syntax_view(&self) -> SyntaxNode<'a> {
        self.syntax
    }

    fn can_cast(kind: SyntaxKind) -> (r: bool) {
        kind == SyntaxKind::TS_EXTENDS
    }

    fn cast(syntax: SyntaxNode<'a>) -> (r: Option<Self>) {
        if syntax.kind() == SyntaxKind::TS_EXTENDS {
            Some(TsExtends { syntax })
        } else {
            None
        }
    }

    fn syntax(&self) -> (r: &SyntaxNode<'a>) {
        proof {
            use_type_invariant(self);
        }
        &self.syntax
    }
}

/// A node of kind `TS_MODULE_BLOCK`.
#[derive(Clone, Copy, Debug)]
pub struct TsModuleBlock<'a> {
    syntax: SyntaxNode<'a>,
}

impl<'a> TsModuleBlock<'a> {
    #[verifier::type_invariant]
    spec fn inv(self) -> bool {
        self.syntax.kind_view() == SyntaxKind::TS_MODULE_BLOCK
    }

    pub fn l_curly_token(&self) -> (r: SyntaxResult<SyntaxToken<'a>>)
        ensures
            required_token_field(self.syntax_view(), seq![SyntaxKind::L_CURLY], r),
    {
        support::required_token(&self.syntax, SyntaxKind::L_CURLY)
    }

    pub fn items(&self) -> (r: SyntaxResult<JsAnyStatement<'a>>)
        ensures
            required_node_field(self.syntax_view(), r),
    {
        support::required_node(&self.syntax)
    }

    pub fn r_curly_token(&self) -> (r: SyntaxResult<SyntaxToken<'a>>)
        ensures
            required_token_field(self.syntax_view(), seq![SyntaxKind::R_CURLY], r),
    {
        support::required_token(&self.syntax, SyntaxKind::R_CURLY)
    }
}

impl<'a> AstNode<'a> for TsModuleBlock<'a> {
    open spec fn kind_ok(kind: SyntaxKind) -> bool {
        kind == SyntaxKind::TS_MODULE_BLOCK
    }

    closed spec fn syntax_view(&self) -> SyntaxNode<'a> {
        self.syntax
    }

    fn can_cast(kind: SyntaxKind) -> (r: bool) {
        kind == SyntaxKind::TS_MODULE_BLOCK
    }

    fn cast(syntax: SyntaxNode<'a>) -> (r: Option<Self>) {
        if syntax.kind() == SyntaxKind::TS_MODULE_BLOCK {
            Some(TsModuleBlock { syntax })
        } else {
            None
        }
    }

    fn syntax(&self) -> (r: &SyntaxNode<'a>) {
        proof {
            use_type_invariant(self);
        }
        &self.syntax
    }
}

/// A node of kind `TS_TYPE_PARAM`.
#[derive(Clone, Copy, Debug)]
pub struct TsTypeParam<'a> {
    syntax: SyntaxNode<'a>,
}

impl<'a> TsTypeParam<'a> {
    #[verifier::type_invariant]
    spec fn inv(self) -> bool {
        self.syntax.kind_view() == SyntaxKind::TS_TYPE_PARAM
    }

    pub fn ident(&self) -> (r: SyntaxResult<Ident<'a>>)
        ensures
            required_node_field(self.syntax_view(), r),
    {
        support::required_node(&self.syntax)
    }

    pub fn constraint(&self) -> (r: SyntaxResult<TsConstraint<'a>>)
        ensures
            required_node_field(self.syntax_view(), r),
    {
        support::required_node(&self.syntax)
    }

    pub fn default(&self) -> (r: SyntaxResult<TsDefault<'a>>)
        ensures
            required_node_field(self.syntax_view(), r),
    {
        support::required_node(&self.syntax)
    }
}

impl<'a> AstNode<'a> for TsTypeParam<'a> {
    open spec fn kind_ok(kind: SyntaxKind) -> bool {
        kind == SyntaxKind::TS_TYPE_PARAM
    }

    closed spec fn syntax_view(&self) -> SyntaxNode<'a> {
        self.syntax
    }

    fn can_cast(kind: SyntaxKind) -> (r: bool) {
        kind == SyntaxKind::TS_TYPE_PARAM
    }

    fn cast(syntax: SyntaxNode<'a>) -> (r: Option<Self>) {
        if syntax.kind() == SyntaxKind::TS_TYPE_PARAM {
            Some(TsTypeParam { syntax })
        } else {
            None
        }
    }

    fn syntax(&self) -> (r: &SyntaxNode<'a>) {
        proof {
            use_type_invariant(self);
        }
        &self.syntax
    }
}

/// A node of kind `TS_CONSTRAINT`.
#[derive(Clone, Copy, Debug)]
pub struct TsConstraint<'a> {
    syntax: SyntaxNode<'a>,
}

impl<'a> TsConstraint<'a> {
    #[verifier::type_invariant]
    spec fn inv(self) -> bool {
        self.syntax.kind_view() == SyntaxKind::TS_CONSTRAINT
    }

    pub fn extends_token(&self) -> (r: SyntaxResult<SyntaxToken<'a>>)
        ensures
            required_token_field(self.syntax_view(), seq![SyntaxKind::EXTENDS_KW], r),
    {
        support::required_token(&self.syntax, SyntaxKind::EXTENDS_KW)
    }

    pub fn ty(&self) -> (r: SyntaxResult<TsType<'a>>)
        ensures
            required_node_field(self.syntax_view(), r),
    {
        support::required_node(&self.syntax)
    }
}

impl<'a> AstNode<'a> for TsConstraint<'a> {
    open spec fn kind_ok(kind: SyntaxKind) -> bool {
        kind == SyntaxKind::TS_CONSTRAINT
    }

    closed spec fn syntax_view(&self) -> SyntaxNode<'a> {
        self.syntax
    }

    fn can_cast(kind: SyntaxKind) -> (r: bool) {
        kind == SyntaxKind::TS_CONSTRAINT
    }

    fn cast(syntax: SyntaxNode<'a>) -> (r: Option<Self>) {
        if syntax.kind() == SyntaxKind::TS_CONSTRAINT {
            Some(TsConstraint { syntax })
        } else {
            None
        }
    }

    fn syntax(&self) -> (r: &SyntaxNode<'a>) {
        proof {
            use_type_invariant(self);
        }
        &self.syntax
    }
}

/// A node of kind `TS_DEFAULT`.
#[derive(Clone, Copy, Debug)]
pub struct TsDefault<'a> {
    syntax: SyntaxNode<'a>,
}

impl<'a> TsDefault<'a> {
    #[verifier::type_invariant]
    spec fn inv(self) -> bool {
        self.syntax.kind_view() == SyntaxKind::TS_DEFAULT
    }

    pub fn eq_token(&self) -> (r: SyntaxResult<SyntaxToken<'a>>)
        ensures
            required_token_field(self.syntax_view(), seq![SyntaxKind::EQ], r),
    {
        support::required_token(&self.syntax, SyntaxKind::EQ)
    }

    pub fn ty(&self) -> (r: SyntaxResult<TsType<'a>>)
        ensures
            required_node_field(self.syntax_view(), r),
    {
        support::required_node(&self.syntax)
    }
}

impl<'a> AstNode<'a> for TsDefault<'a> {
    open spec fn kind_ok(kind: SyntaxKind) -> bool {
        kind == SyntaxKind::TS_DEFAULT
    }

    closed spec fn syntax_view(&self) -> SyntaxNode<'a> {
        self.syntax
    }

    fn can_cast(kind: SyntaxKind) -> (r: bool) {
        kind == SyntaxKind::TS_DEFAULT
    }

    fn cast(syntax: SyntaxNode<'a>) -> (r: Option<Self>) {
        if syntax.kind() == SyntaxKind::TS_DEFAULT {
            Some(TsDefault { syntax })
        } else {
            None
        }
    }

    fn syntax(&self) -> (r: &SyntaxNode<'a>) {
        proof {
            use_type_invariant(self);
        }
        &self.syntax
    }
}

/// A node of kind `TS_CALL_SIGNATURE_DECL`.
#[derive(Clone, Copy, Debug)]
pub struct TsCallSignatureDecl<'a> {
    syntax: SyntaxNode<'a>,
}

impl<'a> TsCallSignatureDecl<'a> {
    #[verifier::type_invariant]
    spec fn inv(self) -> bool {
        self.syntax.kind_view() == SyntaxKind::TS_CALL_SIGNATURE_DECL
    }

    pub fn type_params(&self) -> (r: SyntaxResult<TsTypeParams<'a>>)
        ensures
            required_node_field(self.syntax_view(), r),
    {
        support::required_node(&self.syntax)
    }

    pub fn parameters(&self) -> (r: SyntaxResult<JsParameterList<'a>>)
        ensures
            required_node_field(self.syntax_view(), r),
    {
        support::required_node(&self.syntax)
    }

    pub fn colon_token(&self) -> (r: SyntaxResult<SyntaxToken<'a>>)
        ensures
            required_token_field(self.syntax_view(), seq![SyntaxKind::COLON], r),
    {
        support::required_token(&self.syntax, SyntaxKind::COLON)
    }

    pub fn return_type(&self) -> (r: SyntaxResult<TsType<'a>>)
        ensures
            required_node_field(self.syntax_view(), r),
    {
        support::required_node(&self.syntax)
    }
}

impl<'a> AstNode<'a> for TsCallSignatureDecl<'a> {
    open spec fn kind_ok(kind: SyntaxKind) -> bool {
        kind == SyntaxKind::TS_CALL_SIGNATURE_DECL
    }

    closed spec fn syntax_view(&self) -> SyntaxNode<'a> {
        self.syntax
    }

    fn can_cast(kind: SyntaxKind) -> (r: bool) {
        kind == SyntaxKind::TS_CALL_SIGNATURE_DECL
    }

    fn cast(syntax: SyntaxNode<'a>) -> (r: Option<Self>) {
        if syntax.kind() == SyntaxKind::TS_CALL_SIGNATURE_DECL {
            Some(TsCallSignatureDecl { syntax })
        } else {
            None
        }
    }

    fn syntax(&self) -> (r: &SyntaxNode<'a>) {
        proof {
            use_type_invariant(self);
        }
        &self.syntax
    }
}

/// A node of kind `TS_CONSTRUCT_SIGNATURE_DECL`.
#[derive(Clone, Copy, Debug)]
pub struct TsConstructSignatureDecl<'a> {
    syntax: SyntaxNode<'a>,
}

impl<'a> TsConstructSignatureDecl<'a> {
    #[verifier::type_invariant]
    spec fn inv(self) -> bool {
        self.syntax.kind_view() == SyntaxKind::TS_CONSTRUCT_SIGNATURE_DECL
    }

    pub fn new_token(&self) -> (r: SyntaxResult<SyntaxToken<'a>>)
        ensures
            required_token_field(self.syntax_view(), seq![SyntaxKind::NEW_KW], r),
    {
        support::required_token(&self.syntax, SyntaxKind::NEW_KW)
    }

    pub fn type_params(&self) -> (r: SyntaxResult<TsTypeParams<'a>>)
        ensures
            required_node_field(self.syntax_view(), r),
    {
        support::required_node(&self.syntax)
    }

    pub fn parameters(&self) -> (r: SyntaxResult<JsParameterList<'a>>)
        ensures
            required_node_field(self.syntax_view(), r),
    {
        support::required_node(&self.syntax)
    }

    pub fn colon_token(&self) -> (r: Option<SyntaxToken<'a>>)
        ensures
            token_field(self.syntax_view(), seq![SyntaxKind::COLON], r),
    {
        support::token(&self.syntax, SyntaxKind::COLON)
    }

    pub fn return_type(&self) -> (r: SyntaxResult<TsType<'a>>)
        ensures
            required_node_field(self.syntax_view(), r),
    {
        support::required_node(&self.syntax)
    }
}

impl<'a> AstNode<'a> for TsConstructSignatureDecl<'a> {
    open spec fn kind_ok(kind: SyntaxKind) -> bool {
        kind == SyntaxKind::TS_CONSTRUCT_SIGNATURE_DECL
    }

    closed spec fn syntax_view(&self) -> SyntaxNode<'a> {
        self.syntax
    }

    fn can_cast(kind: SyntaxKind) -> (r: bool) {
        kind == SyntaxKind::TS_CONSTRUCT_SIGNATURE_DECL
    }

    fn cast(syntax: SyntaxNode<'a>) -> (r: Option<Self>) {
        if syntax.kind() == SyntaxKind::TS_CONSTRUCT_SIGNATURE_DECL {
            Some(TsConstructSignatureDecl { syntax })
        } else {
            None
        }
    }

    fn syntax(&self) -> (r: &SyntaxNode<'a>) {
        proof {
            use_type_invariant(self);
        }
        &self.syntax
    }
}

/// A node of kind `TS_PROPERTY_SIGNATURE`.
#[derive(Clone, Copy, Debug)]
pub struct TsPropertySignature<'a> {
    syntax: SyntaxNode<'a>,
}

impl<'a> TsPropertySignature<'a> {
    #[verifier::type_invariant]
    spec fn inv(self) -> bool {
        self.syntax.kind_view() == SyntaxKind::TS_PROPERTY_SIGNATURE
    }

    pub fn readonly_token(&self) -> (r: Option<SyntaxToken<'a>>)
        ensures
            token_field(self.syntax_view(), seq![SyntaxKind::READONLY_KW], r),
    {
        support::token(&self.syntax, SyntaxKind::READONLY_KW)
    }

    pub fn prop(&self) -> (r: SyntaxResult<JsAnyExpression<'a>>)
        ensures
            required_node_field(self.syntax_view(), r),
    {
        support::required_node(&self.syntax)
    }

    pub fn question_mark_token(&self) -> (r: SyntaxResult<SyntaxToken<'a>>)
        ensures
            required_token_field(self.syntax_view(), seq![SyntaxKind::QUESTION], r),
    {
        support::required_token(&self.syntax, SyntaxKind::QUESTION)
    }

    pub fn colon_token(&self) -> (r: SyntaxResult<SyntaxToken<'a>>)
        ensures
            required_token_field(self.syntax_view(), seq![SyntaxKind::COLON], r),
    {
        support::required_token(&self.syntax, SyntaxKind::COLON)
    }

    pub fn ty(&self) -> (r: SyntaxResult<TsType<'a>>)
        ensures
            required_node_field(self.syntax_view(), r),
    {
        support::required_node(&self.syntax)
    }
}

impl<'a> AstNode<'a> for TsPropertySignature<'a> {
    open spec fn kind_ok(kind: SyntaxKind) -> bool {
        kind == SyntaxKind::TS_PROPERTY_SIGNATURE
    }

    closed spec fn syntax_view(&self) -> SyntaxNode<'a> {
        self.syntax
    }

    fn can_cast(kind: SyntaxKind) -> (r: bool) {
        kind == SyntaxKind::TS_PROPERTY_SIGNATURE
    }

    fn cast(syntax: SyntaxNode<'a>) -> (r: Option<Self>) {
        if syntax.kind() == SyntaxKind::TS_PROPERTY_SIGNATURE {
            Some(TsPropertySignature { syntax })
        } else {
            None
        }
    }

    fn syntax(&self) -> (r: &SyntaxNode<'a>) {
        proof {
            use_type_invariant(self);
        }
        &self.syntax
    }
}

/// A node of kind `TS_METHOD_SIGNATURE`.
#[derive(Clone, Copy, Debug)]
pub struct TsMethodSignature<'a> {
    syntax: SyntaxNode<'a>,
}

impl<'a> TsMethodSignature<'a> {
    #[verifier::type_invariant]
    spec fn inv(self) -> bool {
        self.syntax.kind_view() == SyntaxKind::TS_METHOD_SIGNATURE
    }

    pub fn readonly_token(&self) -> (r: Option<SyntaxToken<'a>>)
        ensures
            token_field(self.syntax_view(), seq![SyntaxKind::READONLY_KW], r),
    {
        support::token(&self.syntax, SyntaxKind::READONLY_KW)
    }

    pub fn key(&self) -> (r: SyntaxResult<JsAnyExpression<'a>>)
        ensures
            required_node_field(self.syntax_view(), r),
    {
        support::required_node(&self.syntax)
    }

    pub fn type_params(&self) -> (r: SyntaxResult<TsTypeParams<'a>>)
        ensures
            required_node_field(self.syntax_view(), r),
    {
        support::required_node(&self.syntax)
    }

    pub fn parameters(&self) -> (r: SyntaxResult<JsParameterList<'a>>)
        ensures
            required_node_field(self.syntax_view(), r),
    {
        support::required_node(&self.syntax)
    }

    pub fn question_mark_token(&self) -> (r: Option<SyntaxToken<'a>>)
        ensures
            token_field(self.syntax_view(), seq![SyntaxKind::QUESTION], r),
    {
        support::token(&self.syntax, SyntaxKind::QUESTION)
    }

    pub fn colon_token(&self) -> (r: SyntaxResult<SyntaxToken<'a>>)
        ensures
            required_token_field(self.syntax_view(), seq![SyntaxKind::COLON], r),
    {
        support::required_token(&self.syntax, SyntaxKind::COLON)
    }

    pub fn return_type(&self) -> (r: SyntaxResult<TsType<'a>>)
        ensures
            required_node_field(self.syntax_view(), r),
    {
        support::required_node(&self.syntax)
    }
}

impl<'a> AstNode<'a> for TsMethodSignature<'a> {
    open spec fn kind_ok(kind: SyntaxKind) -> bool {
        kind == SyntaxKind::TS_METHOD_SIGNATURE
    }

    closed spec fn syntax_view(&self) -> SyntaxNode<'a> {
        self.syntax
    }

    fn can_cast(kind: SyntaxKind) -> (r: bool) {
        kind == SyntaxKind::TS_METHOD_SIGNATURE
    }

    fn cast(syntax: SyntaxNode<'a>) -> (r: Option<Self>) {
        if syntax.kind() == SyntaxKind::TS_METHOD_SIGNATURE {
            Some(TsMethodSignature { syntax })
        } else {
            None
        }
    }

    fn syntax(&self) -> (r: &SyntaxNode<'a>) {
        proof {
            use_type_invariant(self);
        }
        &self.syntax
    }
}

/// A node of kind `TS_QUALIFIED_PATH`.
#[derive(Clone, Copy, Debug)]
pub struct TsQualifiedPath<'a> {
    syntax: SyntaxNode<'a>,
}

impl<'a> TsQualifiedPath<'a> {
    #[verifier::type_invariant]
    spec fn inv(self) -> bool {
        self.syntax.kind_view() == SyntaxKind::TS_QUALIFIED_PATH
    }

    pub fn lhs(&self) -> (r: SyntaxResult<TsEntityName<'a>>)
        ensures
            required_node_field(self.syntax_view(), r),
    {
        support::required_node(&self.syntax)
    }

    pub fn dot_token(&self) -> (r: SyntaxResult<SyntaxToken<'a>>)
        ensures
            required_token_field(self.syntax_view(), seq![SyntaxKind::DOT], r),
    {
        support::required_token(&self.syntax, SyntaxKind::DOT)
    }

    pub fn rhs(&self) -> (r: SyntaxResult<TsTypeName<'a>>)
        ensures
            required_node_field(self.syntax_view(), r),
    {
        support::required_node(&self.syntax)
    }
}

impl<'a> AstNode<'a> for TsQualifiedPath<'a> {
    open spec fn kind_ok(kind: SyntaxKind) -> bool {
        kind == SyntaxKind::TS_QUALIFIED_PATH
    }

    closed spec fn syntax_view(&self) -> SyntaxNode<'a> {
        self.syntax
    }

    fn can_cast(kind: SyntaxKind) -> (r: bool) {
        kind == SyntaxKind::TS_QUALIFIED_PATH
    }

    fn cast(syntax: SyntaxNode<'a>) -> (r: Option<Self>) {
        if syntax.kind() == SyntaxKind::TS_QUALIFIED_PATH {
            Some(TsQualifiedPath { syntax })
        } else {
            None
        }
    }

    fn syntax(&self) -> (r: &SyntaxNode<'a>) {
        proof {
            use_type_invariant(self);
        }
        &self.syntax
    }
}

/// One of the nodes that may stand where the grammar expects `JsAnyRoot`.
#[derive(Clone, Copy, Debug)]
pub enum JsAnyRoot<'a> {
    JsScript(JsScript<'a>),
    JsModule(JsModule<'a>),
}

impl<'a> AstNode<'a> for JsAnyRoot<'a> {
    open spec fn kind_ok(kind: SyntaxKind) -> bool {
        ||| <JsScript<'a> as AstNode<'a>>::kind_ok(kind)
        ||| <JsModule<'a> as AstNode<'a>>::kind_ok(kind)
    }

    closed spec fn syntax_view(&self) -> SyntaxNode<'a> {
        match self {
            JsAnyRoot::JsScript(it) => it.syntax_view(),
            JsAnyRoot::JsModule(it) => it.syntax_view(),
        }
    }

    fn can_cast(kind: SyntaxKind) -> (r: bool) {
        matches!(
            kind,
            SyntaxKind::JS_SCRIPT
                | SyntaxKind::JS_MODULE
        )
    }

    fn cast(syntax: SyntaxNode<'a>) -> (r: Option<Self>) {
        match syntax.kind() {
            SyntaxKind::JS_SCRIPT => Some(JsAnyRoot::JsScript(JsScript { syntax })),
            SyntaxKind::JS_MODULE => Some(JsAnyRoot::JsModule(JsModule { syntax })),
            _ => {
                None
            },
        }
    }

    fn syntax(&self) -> (r: &SyntaxNode<'a>) {
        match self {
            JsAnyRoot::JsScript(it) => it.syntax(),
            JsAnyRoot::JsModule(it) => it.syntax(),
        }
    }
}

impl<'a> From<JsScript<'a>> for JsAnyRoot<'a> {
    fn from(node: JsScript<'a>) -> (r: JsAnyRoot<'a>)
        ensures
            r == JsAnyRoot::JsScript(node),
    {
        JsAnyRoot::JsScript(node)
    }
}

impl<'a> vstd::std_specs::convert::FromSpecImpl<JsScript<'a>> for JsAnyRoot<'a> {
    open spec fn obeys_from_spec() -> bool {
        true
    }

    open spec fn from_spec(node: JsScript<'a>) -> JsAnyRoot<'a> {
        JsAnyRoot::JsScript(node)
    }
}

impl<'a> From<JsModule<'a>> for JsAnyRoot<'a> {
    fn from(node: JsModule<'a>) -> (r: JsAnyRoot<'a>)
        ensures
            r == JsAnyRoot::JsModule(node),
    {
        JsAnyRoot::JsModule(node)
    }
}

impl<'a> vstd::std_specs::convert::FromSpecImpl<JsModule<'a>> for JsAnyRoot<'a> {
    open spec fn obeys_from_spec() -> bool {
        true
    }

    open spec fn from_spec(node: JsModule<'a>) -> JsAnyRoot<'a> {
        JsAnyRoot::JsModule(node)
    }
}

/// One of the nodes that may stand where the grammar expects `JsAnyStatement`.
#[derive(Clone, Copy, Debug)]
pub enum JsAnyStatement<'a> {
    JsBlockStatement(JsBlockStatement<'a>),
    JsEmptyStatement(JsEmptyStatement<'a>),
    JsExpressionStatement(JsExpressionStatement<'a>),
    JsIfStatement(JsIfStatement<'a>),
    JsDoWhileStatement(JsDoWhileStatement<'a>),
    JsWhileStatement(JsWhileStatement<'a>),
    ForStmt(ForStmt<'a>),
    ForInStmt(ForInStmt<'a>),
    ForOfStmt(ForOfStmt<'a>),
    JsContinueStatement(JsContinueStatement<'a>),
    JsBreakStatement(JsBreakStatement<'a>),
    JsReturnStatement(JsReturnStatement<'a>),
    JsWithStatement(JsWithStatement<'a>),
    JsLabeledStatement(JsLabeledStatement<'a>),
    JsSwitchStatement(JsSwitchStatement<'a>),
    JsThrowStatement(JsThrowStatement<'a>),
    JsTryStatement(JsTryStatement<'a>),
    JsTryFinallyStatement(JsTryFinallyStatement<'a>),
    JsDebuggerStatement(JsDebuggerStatement<'a>),
    JsFunctionDeclaration(JsFunctionDeclaration<'a>),
    JsClassDeclaration(JsClassDeclaration<'a>),
    JsVariableDeclarationStatement(JsVariableDeclarationStatement<'a>),
    TsEnum(TsEnum<'a>),
    TsTypeAliasDecl(TsTypeAliasDecl<'a>),
    TsNamespaceDecl(TsNamespaceDecl<'a>),
    TsModuleDecl(TsModuleDecl<'a>),
    TsInterfaceDecl(TsInterfaceDecl<'a>),
    JsUnknownStatement(JsUnknownStatement<'a>),
}

impl<'a> AstNode<'a> for JsAnyStatement<'a> {
    open spec fn kind_ok(kind: SyntaxKind) -> bool {
        ||| <JsBlockStatement<'a> as AstNode<'a>>::kind_ok(kind)
        ||| <JsEmptyStatement<'a> as AstNode<'a>>::kind_ok(kind)
        ||| <JsExpressionStatement<'a> as AstNode<'a>>::kind_ok(kind)
        ||| <JsIfStatement<'a> as AstNode<'a>>::kind_ok(kind)
        ||| <JsDoWhileStatement<'a> as AstNode<'a>>::kind_ok(kind)
        ||| <JsWhileStatement<'a> as AstNode<'a>>::kind_ok(kind)
        ||| <ForStmt<'a> as AstNode<'a>>::kind_ok(kind)
        ||| <ForInStmt<'a> as AstNode<'a>>::kind_ok(kind)
        ||| <ForOfStmt<'a> as AstNode<'a>>::kind_ok(kind)
        ||| <JsContinueStatement<'a> as AstNode<'a>>::kind_ok(kind)
        ||| <JsBreakStatement<'a> as AstNode<'a>>::kind_ok(kind)
        ||| <JsReturnStatement<'a> as AstNode<'a>>::kind_ok(kind)
        ||| <JsWithStatement<'a> as AstNode<'a>>::kind_ok(kind)
        ||| <JsLabeledStatement<'a> as AstNode<'a>>::kind_ok(kind)
        ||| <JsSwitchStatement<'a> as AstNode<'a>>::kind_ok(kind)
        ||| <JsThrowStatement<'a> as AstNode<'a>>::kind_ok(kind)
        ||| <JsTryStatement<'a> as AstNode<'a>>::kind_ok(kind)
        ||| <JsTryFinallyStatement<'a> as AstNode<'a>>::kind_ok(kind)
        ||| <JsDebuggerStatement<'a> as AstNode<'a>>::kind_ok(kind)
        ||| <JsFunctionDeclaration<'a> as AstNode<'a>>::kind_ok(kind)
        ||| <JsClassDeclaration<'a> as AstNode<'a>>::kind_ok(kind)
        ||| <JsVariableDeclarationStatement<'a> as AstNode<'a>>::kind_ok(kind)
        ||| <TsEnum<'a> as AstNode<'a>>::kind_ok(kind)
        ||| <TsTypeAliasDecl<'a> as AstNode<'a>>::kind_ok(kind)
        ||| <TsNamespaceDecl<'a> as AstNode<'a>>::kind_ok(kind)
        ||| <TsModuleDecl<'a> as AstNode<'a>>::kind_ok(kind)
        ||| <TsInterfaceDecl<'a> as AstNode<'a>>::kind_ok(kind)
        ||| <JsUnknownStatement<'a> as AstNode<'a>>::kind_ok(kind)
    }

    closed spec fn syntax_view(&self) -> SyntaxNode<'a> {
        match self {
            JsAnyStatement::JsBlockStatement(it) => it.syntax_view(),
            JsAnyStatement::JsEmptyStatement(it) => it.syntax_view(),
            JsAnyStatement::JsExpressionStatement(it) => it.syntax_view(),
            JsAnyStatement::JsIfStatement(it) => it.syntax_view(),
            JsAnyStatement::JsDoWhileStatement(it) => it.syntax_view(),
            JsAnyStatement::JsWhileStatement(it) => it.syntax_view(),
            JsAnyStatement::ForStmt(it) => it.syntax_view(),
            JsAnyStatement::ForInStmt(it) => it.syntax_view(),
            JsAnyStatement::ForOfStmt(it) => it.syntax_view(),
            JsAnyStatement::JsContinueStatement(it) => it.syntax_view(),
            JsAnyStatement::JsBreakStatement(it) => it.syntax_view(),
            JsAnyStatement::JsReturnStatement(it) => it.syntax_view(),
            JsAnyStatement::JsWithStatement(it) => it.syntax_view(),
            JsAnyStatement::JsLabeledStatement(it) => it.syntax_view(),
            JsAnyStatement::JsSwitchStatement(it) => it.syntax_view(),
            JsAnyStatement::JsThrowStatement(it) => it.syntax_view(),
            JsAnyStatement::JsTryStatement(it) => it.syntax_view(),
            JsAnyStatement::JsTryFinallyStatement(it) => it.syntax_view(),
            JsAnyStatement::JsDebuggerStatement(it) => it.syntax_view(),
            JsAnyStatement::JsFunctionDeclaration(it) => it.syntax_view(),
            JsAnyStatement::JsClassDeclaration(it) => it.syntax_view(),
            JsAnyStatement::JsVariableDeclarationStatement(it) => it.syntax_view(),
            JsAnyStatement::TsEnum(it) => it.syntax_view(),
            JsAnyStatement::TsTypeAliasDecl(it) => it.syntax_view(),
            JsAnyStatement::TsNamespaceDecl(it) => it.syntax_view(),
            JsAnyStatement::TsModuleDecl(it) => it.syntax_view(),
            JsAnyStatement::TsInterfaceDecl(it) => it.syntax_view(),
            JsAnyStatement::JsUnknownStatement(it) => it.syntax_view(),
        }
    }

    fn can_cast(kind: SyntaxKind) -> (r: bool) {
        matches!(
            kind,
            SyntaxKind::JS_BLOCK_STATEMENT
                | SyntaxKind::JS_EMPTY_STATEMENT
                | SyntaxKind::JS_EXPRESSION_STATEMENT
                | SyntaxKind::JS_IF_STATEMENT
                | SyntaxKind::JS_DO_WHILE_STATEMENT
                | SyntaxKind::JS_WHILE_STATEMENT
                | SyntaxKind::FOR_STMT
                | SyntaxKind::FOR_IN_STMT
                | SyntaxKind::FOR_OF_STMT
                | SyntaxKind::JS_CONTINUE_STATEMENT
                | SyntaxKind::JS_BREAK_STATEMENT
                | SyntaxKind::JS_RETURN_STATEMENT
                | SyntaxKind::JS_WITH_STATEMENT
                | SyntaxKind::JS_LABELED_STATEMENT
                | SyntaxKind::JS_SWITCH_STATEMENT
                | SyntaxKind::JS_THROW_STATEMENT
                | SyntaxKind::JS_TRY_STATEMENT
                | SyntaxKind::JS_TRY_FINALLY_STATEMENT
                | SyntaxKind::JS_DEBUGGER_STATEMENT
                | SyntaxKind::JS_FUNCTION_DECLARATION
                | SyntaxKind::JS_CLASS_DECLARATION
                | SyntaxKind::JS_VARIABLE_DECLARATION_STATEMENT
                | SyntaxKind::TS_ENUM
                | SyntaxKind::TS_TYPE_ALIAS_DECL
                | SyntaxKind::TS_NAMESPACE_DECL
                | SyntaxKind::TS_MODULE_DECL
                | SyntaxKind::TS_INTERFACE_DECL
                | SyntaxKind::JS_UNKNOWN_STATEMENT
        )
    }

    fn cast(syntax: SyntaxNode<'a>) -> (r: Option<Self>) {
        match syntax.kind() {
            SyntaxKind::JS_BLOCK_STATEMENT => Some(JsAnyStatement::JsBlockStatement(JsBlockStatement { syntax })),
            SyntaxKind::JS_EMPTY_STATEMENT => Some(JsAnyStatement::JsEmptyStatement(JsEmptyStatement { syntax })),
            SyntaxKind::JS_EXPRESSION_STATEMENT => Some(JsAnyStatement::JsExpressionStatement(JsExpressionStatement { syntax })),
            SyntaxKind::JS_IF_STATEMENT => Some(JsAnyStatement::JsIfStatement(JsIfStatement { syntax })),
            SyntaxKind::JS_DO_WHILE_STATEMENT => Some(JsAnyStatement::JsDoWhileStatement(JsDoWhileStatement { syntax })),
            SyntaxKind::JS_WHILE_STATEMENT => Some(JsAnyStatement::JsWhileStatement(JsWhileStatement { syntax })),
            SyntaxKind::FOR_STMT => Some(JsAnyStatement::ForStmt(ForStmt { syntax })),
            SyntaxKind::FOR_IN_STMT => Some(JsAnyStatement::ForInStmt(ForInStmt { syntax })),
            SyntaxKind::FOR_OF_STMT => Some(JsAnyStatement::ForOfStmt(ForOfStmt { syntax })),
            SyntaxKind::JS_CONTINUE_STATEMENT => Some(JsAnyStatement::JsContinueStatement(JsContinueStatement { syntax })),
            SyntaxKind::JS_BREAK_STATEMENT => Some(JsAnyStatement::JsBreakStatement(JsBreakStatement { syntax })),
            SyntaxKind::JS_RETURN_STATEMENT => Some(JsAnyStatement::JsReturnStatement(JsReturnStatement { syntax })),
            SyntaxKind::JS_WITH_STATEMENT => Some(JsAnyStatement::JsWithStatement(JsWithStatement { syntax })),
            SyntaxKind::JS_LABELED_STATEMENT => Some(JsAnyStatement::JsLabeledStatement(JsLabeledStatement { syntax })),
            SyntaxKind::JS_SWITCH_STATEMENT => Some(JsAnyStatement::JsSwitchStatement(JsSwitchStatement { syntax })),
            SyntaxKind::JS_THROW_STATEMENT => Some(JsAnyStatement::JsThrowStatement(JsThrowStatement { syntax })),
            SyntaxKind::JS_TRY_STATEMENT => Some(JsAnyStatement::JsTryStatement(JsTryStatement { syntax })),
            SyntaxKind::JS_TRY_FINALLY_STATEMENT => Some(JsAnyStatement::JsTryFinallyStatement(JsTryFinallyStatement { syntax })),
            SyntaxKind::JS_DEBUGGER_STATEMENT => Some(JsAnyStatement::JsDebuggerStatement(JsDebuggerStatement { syntax })),
            SyntaxKind::JS_FUNCTION_DECLARATION => Some(JsAnyStatement::JsFunctionDeclaration(JsFunctionDeclaration { syntax })),
            SyntaxKind::JS_CLASS_DECLARATION => Some(JsAnyStatement::JsClassDeclaration(JsClassDeclaration { syntax })),
            SyntaxKind::JS_VARIABLE_DECLARATION_STATEMENT => Some(JsAnyStatement::JsVariableDeclarationStatement(JsVariableDeclarationStatement { syntax })),
            SyntaxKind::TS_ENUM => Some(JsAnyStatement::TsEnum(TsEnum { syntax })),
            SyntaxKind::TS_TYPE_ALIAS_DECL => Some(JsAnyStatement::TsTypeAliasDecl(TsTypeAliasDecl { syntax })),
            SyntaxKind::TS_NAMESPACE_DECL => Some(JsAnyStatement::TsNamespaceDecl(TsNamespaceDecl { syntax })),
            SyntaxKind::TS_MODULE_DECL => Some(JsAnyStatement::TsModuleDecl(TsModuleDecl { syntax })),
            SyntaxKind::TS_INTERFACE_DECL => Some(JsAnyStatement::TsInterfaceDecl(TsInterfaceDecl { syntax })),
            SyntaxKind::JS_UNKNOWN_STATEMENT => Some(JsAnyStatement::JsUnknownStatement(JsUnknownStatement { syntax })),
            _ => {
                None
            },
        }
    }

    fn syntax(&self) -> (r: &SyntaxNode<'a>) {
        match self {
            JsAnyStatement::JsBlockStatement(it) => it.syntax(),
            JsAnyStatement::JsEmptyStatement(it) => it.syntax(),
            JsAnyStatement::JsExpressionStatement(it) => it.syntax(),
            JsAnyStatement::JsIfStatement(it) => it.syntax(),
            JsAnyStatement::JsDoWhileStatement(it) => it.syntax(),
            JsAnyStatement::JsWhileStatement(it) => it.syntax(),
            JsAnyStatement::ForStmt(it) => it.syntax(),
            JsAnyStatement::ForInStmt(it) => it.syntax(),
            JsAnyStatement::ForOfStmt(it) => it.syntax(),
            JsAnyStatement::JsContinueStatement(it) => it.syntax(),
            JsAnyStatement::JsBreakStatement(it) => it.syntax(),
            JsAnyStatement::JsReturnStatement(it) => it.syntax(),
            JsAnyStatement::JsWithStatement(it) => it.syntax(),
            JsAnyStatement::JsLabeledStatement(it) => it.syntax(),
            JsAnyStatement::JsSwitchStatement(it) => it.syntax(),
            JsAnyStatement::JsThrowStatement(it) => it.syntax(),
            JsAnyStatement::JsTryStatement(it) => it.syntax(),
            JsAnyStatement::JsTryFinallyStatement(it) => it.syntax(),
            JsAnyStatement::JsDebuggerStatement(it) => it.syntax(),
            JsAnyStatement::JsFunctionDeclaration(it) => it.syntax(),
            JsAnyStatement::JsClassDeclaration(it) => it.syntax(),
            JsAnyStatement::JsVariableDeclarationStatement(it) => it.syntax(),
            JsAnyStatement::TsEnum(it) => it.syntax(),
            JsAnyStatement::TsTypeAliasDecl(it) => it.syntax(),
            JsAnyStatement::TsNamespaceDecl(it) => it.syntax(),
            JsAnyStatement::TsModuleDecl(it) => it.syntax(),
            JsAnyStatement::TsInterfaceDecl(it) => it.syntax(),
            JsAnyStatement::JsUnknownStatement(it) => it.syntax(),
        }
    }
}

impl<'a> From<JsBlockStatement<'a>> for JsAnyStatement<'a> {
    fn from(node: JsBlockStatement<'a>) -> (r: JsAnyStatement<'a>)
        ensures
            r == JsAnyStatement::JsBlockStatement(node),
    {
        JsAnyStatement::JsBlockStatement(node)
    }
}

impl<'a> vstd::std_specs::convert::FromSpecImpl<JsBlockStatement<'a>> for JsAnyStatement<'a> {
    open spec fn obeys_from_spec() -> bool {
        true
    }

    open spec fn from_spec(node: JsBlockStatement<'a>) -> JsAnyStatement<'a> {
        JsAnyStatement::JsBlockStatement(node)
    }
}

impl<'a> From<JsEmptyStatement<'a>> for JsAnyStatement<'a> {
    fn from(node: JsEmptyStatement<'a>) -> (r: JsAnyStatement<'a>)
        ensures
            r == JsAnyStatement::JsEmptyStatement(node),
    {
        JsAnyStatement::JsEmptyStatement(node)
    }
}

impl<'a> vstd::std_specs::convert::FromSpecImpl<JsEmptyStatement<'a>> for JsAnyStatement<'a> {
    open spec fn obeys_from_spec() -> bool {
        true
    }

    open spec fn from_spec(node: JsEmptyStatement<'a>) -> JsAnyStatement<'a> {
        JsAnyStatement::JsEmptyStatement(node)
    }
}

impl<'a> From<JsExpressionStatement<'a>> for JsAnyStatement<'a> {
    fn from(node: JsExpressionStatement<'a>) -> (r: JsAnyStatement<'a>)
        ensures
            r == JsAnyStatement::JsExpressionStatement(node),
    {
        JsAnyStatement::JsExpressionStatement(node)
    }
}

impl<'a> vstd::std_specs::convert::FromSpecImpl<JsExpressionStatement<'a>> for JsAnyStatement<'a> {
    open spec fn obeys_from_spec() -> bool {
        true
    }

    open spec fn from_spec(node: JsExpressionStatement<'a>) -> JsAnyStatement<'a> {
        JsAnyStatement::JsExpressionStatement(node)
    }
}

impl<'a> From<JsIfStatement<'a>> for JsAnyStatement<'a> {
    fn from(node: JsIfStatement<'a>) -> (r: JsAnyStatement<'a>)
        ensures
            r == JsAnyStatement::JsIfStatement(node),
    {
        JsAnyStatement::JsIfStatement(node)
    }
}

impl<'a> vstd::std_specs::convert::FromSpecImpl<JsIfStatement<'a>> for JsAnyStatement<'a> {
    open spec fn obeys_from_spec() -> bool {
        true
    }

    open spec fn from_spec(node: JsIfStatement<'a>) -> JsAnyStatement<'a> {
        JsAnyStatement::JsIfStatement(node)
    }
}

impl<'a> From<JsDoWhileStatement<'a>> for JsAnyStatement<'a> {
    fn from(node: JsDoWhileStatement<'a>) -> (r: JsAnyStatement<'a>)
        ensures
            r == JsAnyStatement::JsDoWhileStatement(node),
    {
        JsAnyStatement::JsDoWhileStatement(node)
    }
}

impl<'a> vstd::std_specs::convert::FromSpecImpl<JsDoWhileStatement<'a>> for JsAnyStatement<'a> {
    open spec fn obeys_from_spec() -> bool {
        true
    }

    open spec fn from_spec(node: JsDoWhileStatement<'a>) -> JsAnyStatement<'a> {
        JsAnyStatement::JsDoWhileStatement(node)
    }
}

impl<'a> From<JsWhileStatement<'a>> for JsAnyStatement<'a> {
    fn from(node: JsWhileStatement<'a>) -> (r: JsAnyStatement<'a>)
        ensures
            r == JsAnyStatement::JsWhileStatement(node),
    {
        JsAnyStatement::JsWhileStatement(node)
    }
}

impl<'a> vstd::std_specs::convert::FromSpecImpl<JsWhileStatement<'a>> for JsAnyStatement<'a> {
    open spec fn obeys_from_spec() -> bool {
        true
    }

    open spec fn from_spec(node: JsWhileStatement<'a>) -> JsAnyStatement<'a> {
        JsAnyStatement::JsWhileStatement(node)
    }
}

impl<'a> From<ForStmt<'a>> for JsAnyStatement<'a> {
    fn from(node: ForStmt<'a>) -> (r: JsAnyStatement<'a>)
        ensures
            r == JsAnyStatement::ForStmt(node),
    {
        JsAnyStatement::ForStmt(node)
    }
}

impl<'a> vstd::std_specs::convert::FromSpecImpl<ForStmt<'a>> for JsAnyStatement<'a> {
    open spec fn obeys_from_spec() -> bool {
        true
    }

    open spec fn from_spec(node: ForStmt<'a>) -> JsAnyStatement<'a> {
        JsAnyStatement::ForStmt(node)
    }
}

impl<'a> From<ForInStmt<'a>> for JsAnyStatement<'a> {
    fn from(node: ForInStmt<'a>) -> (r: JsAnyStatement<'a>)
        ensures
            r == JsAnyStatement::ForInStmt(node),
    {
        JsAnyStatement::ForInStmt(node)
    }
}

impl<'a> vstd::std_specs::convert::FromSpecImpl<ForInStmt<'a>> for JsAnyStatement<'a> {
    open spec fn obeys_from_spec() -> bool {
        true
    }

    open spec fn from_spec(node: ForInStmt<'a>) -> JsAnyStatement<'a> {
        JsAnyStatement::ForInStmt(node)
    }
}

impl<'a> From<ForOfStmt<'a>> for JsAnyStatement<'a> {
    fn from(node: ForOfStmt<'a>) -> (r: JsAnyStatement<'a>)
        ensures
            r == JsAnyStatement::ForOfStmt(node),
    {
        JsAnyStatement::ForOfStmt(node)
    }
}

impl<'a> vstd::std_specs::convert::FromSpecImpl<ForOfStmt<'a>> for JsAnyStatement<'a> {
    open spec fn obeys_from_spec() -> bool {
        true
    }

    open spec fn from_spec(node: ForOfStmt<'a>) -> JsAnyStatement<'a> {
        JsAnyStatement::ForOfStmt(node)
    }
}

impl<'a> From<JsContinueStatement<'a>> for JsAnyStatement<'a> {
    fn from(node: JsContinueStatement<'a>) -> (r: JsAnyStatement<'a>)
        ensures
            r == JsAnyStatement::JsContinueStatement(node),
    {
        JsAnyStatement::JsContinueStatement(node)
    }
}

impl<'a> vstd::std_specs::convert::FromSpecImpl<JsContinueStatement<'a>> for JsAnyStatement<'a> {
    open spec fn obeys_from_spec() -> bool {
        true
    }

    open spec fn from_spec(node: JsContinueStatement<'a>) -> JsAnyStatement<'a> {
        JsAnyStatement::JsContinueStatement(node)
    }
}

impl<'a> From<JsBreakStatement<'a>> for JsAnyStatement<'a> {
    fn from(node: JsBreakStatement<'a>) -> (r: JsAnyStatement<'a>)
        ensures
            r == JsAnyStatement::JsBreakStatement(node),
    {
        JsAnyStatement::JsBreakStatement(node)
    }
}

impl<'a> vstd::std_specs::convert::FromSpecImpl<JsBreakStatement<'a>> for JsAnyStatement<'a> {
    open spec fn obeys_from_spec() -> bool {
        true
    }

    open spec fn from_spec(node: JsBreakStatement<'a>) -> JsAnyStatement<'a> {
        JsAnyStatement::JsBreakStatement(node)
    }
}

impl<'a> From<JsReturnStatement<'a>> for JsAnyStatement<'a> {
    fn from(node: JsReturnStatement<'a>) -> (r: JsAnyStatement<'a>)
        ensures
            r == JsAnyStatement::JsReturnStatement(node),
    {
        JsAnyStatement::JsReturnStatement(node)
    }
}

impl<'a> vstd::std_specs::convert::FromSpecImpl<JsReturnStatement<'a>> for JsAnyStatement<'a> {
    open spec fn obeys_from_spec() -> bool {
        true
    }

    open spec fn from_spec(node: JsReturnStatement<'a>) -> JsAnyStatement<'a> {
        JsAnyStatement::JsReturnStatement(node)
    }
}

impl<'a> From<JsWithStatement<'a>> for JsAnyStatement<'a> {
    fn from(node: JsWithStatement<'a>) -> (r: JsAnyStatement<'a>)
        ensures
            r == JsAnyStatement::JsWithStatement(node),
    {
        JsAnyStatement::JsWithStatement(node)
    }
}

impl<'a> vstd::std_specs::convert::FromSpecImpl<JsWithStatement<'a>> for JsAnyStatement<'a> {
    open spec fn obeys_from_spec() -> bool {
        true
    }

    open spec fn from_spec(node: JsWithStatement<'a>) -> JsAnyStatement<'a> {
        JsAnyStatement::JsWithStatement(node)
    }
}

impl<'a> From<JsLabeledStatement<'a>> for JsAnyStatement<'a> {
    fn from(node: JsLabeledStatement<'a>) -> (r: JsAnyStatement<'a>)
        ensures
            r == JsAnyStatement::JsLabeledStatement(node),
    {
        JsAnyStatement::JsLabeledStatement(node)
    }
}

impl<'a> vstd::std_specs::convert::FromSpecImpl<JsLabeledStatement<'a>> for JsAnyStatement<'a> {
    open spec fn obeys_from_spec() -> bool {
        true
    }

    open spec fn from_spec(node: JsLabeledStatement<'a>) -> JsAnyStatement<'a> {
        JsAnyStatement::JsLabeledStatement(node)
    }
}

impl<'a> From<JsSwitchStatement<'a>> for JsAnyStatement<'a> {
    fn from(node: JsSwitchStatement<'a>) -> (r: JsAnyStatement<'a>)
        ensures
            r == JsAnyStatement::JsSwitchStatement(node),
    {
        JsAnyStatement::JsSwitchStatement(node)
    }
}

impl<'a> vstd::std_specs::convert::FromSpecImpl<JsSwitchStatement<'a>> for JsAnyStatement<'a> {
    open spec fn obeys_from_spec() -> bool {
        true
    }

    open spec fn from_spec(node: JsSwitchStatement<'a>) -> JsAnyStatement<'a> {
        JsAnyStatement::JsSwitchStatement(node)
    }
}

impl<'a> From<JsThrowStatement<'a>> for JsAnyStatement<'a> {
    fn from(node: JsThrowStatement<'a>) -> (r: JsAnyStatement<'a>)
        ensures
            r == JsAnyStatement::JsThrowStatement(node),
    {
        JsAnyStatement::JsThrowStatement(node)
    }
}

impl<'a> vstd::std_specs::convert::FromSpecImpl<JsThrowStatement<'a>> for JsAnyStatement<'a> {
    open spec fn obeys_from_spec() -> bool {
        true
    }

    open spec fn from_spec(node: JsThrowStatement<'a>) -> JsAnyStatement<'a> {
        JsAnyStatement::JsThrowStatement(node)
    }
}

impl<'a> From<JsTryStatement<'a>> for JsAnyStatement<'a> {
    fn from(node: JsTryStatement<'a>) -> (r: JsAnyStatement<'a>)
        ensures
            r == JsAnyStatement::JsTryStatement(node),
    {
        JsAnyStatement::JsTryStatement(node)
    }
}

impl<'a> vstd::std_specs::convert::FromSpecImpl<JsTryStatement<'a>> for JsAnyStatement<'a> {
    open spec fn obeys_from_spec() -> bool {
        true
    }

    open spec fn from_spec(node: JsTryStatement<'a>) -> JsAnyStatement<'a> {
        JsAnyStatement::JsTryStatement(node)
    }
}

impl<'a> From<JsTryFinallyStatement<'a>> for JsAnyStatement<'a> {
    fn from(node: JsTryFinallyStatement<'a>) -> (r: JsAnyStatement<'a>)
        ensures
            r == JsAnyStatement::JsTryFinallyStatement(node),
    {
        JsAnyStatement::JsTryFinallyStatement(node)
    }
}

impl<'a> vstd::std_specs::convert::FromSpecImpl<JsTryFinallyStatement<'a>> for JsAnyStatement<'a> {
    open spec fn obeys_from_spec() -> bool {
        true
    }

    open spec fn from_spec(node: JsTryFinallyStatement<'a>) -> JsAnyStatement<'a> {
        JsAnyStatement::JsTryFinallyStatement(node)
    }
}

impl<'a> From<JsDebuggerStatement<'a>> for JsAnyStatement<'a> {
    fn from(node: JsDebuggerStatement<'a>) -> (r: JsAnyStatement<'a>)
        ensures
            r == JsAnyStatement::JsDebuggerStatement(node),
    {
        JsAnyStatement::JsDebuggerStatement(node)
    }
}

impl<'a> vstd::std_specs::convert::FromSpecImpl<JsDebuggerStatement<'a>> for JsAnyStatement<'a> {
    open spec fn obeys_from_spec() -> bool {
        true
    }

    open spec fn from_spec(node: JsDebuggerStatement<'a>) -> JsAnyStatement<'a> {
        JsAnyStatement::JsDebuggerStatement(node)
    }
}

impl<'a> From<JsFunctionDeclaration<'a>> for JsAnyStatement<'a> {
    fn from(node: JsFunctionDeclaration<'a>) -> (r: JsAnyStatement<'a>)
        ensures
            r == JsAnyStatement::JsFunctionDeclaration(node),
    {
        JsAnyStatement::JsFunctionDeclaration(node)
    }
}

impl<'a> vstd::std_specs::convert::FromSpecImpl<JsFunctionDeclaration<'a>> for JsAnyStatement<'a> {
    open spec fn obeys_from_spec() -> bool {
        true
    }

    open spec fn from_spec(node: JsFunctionDeclaration<'a>) -> JsAnyStatement<'a> {
        JsAnyStatement::JsFunctionDeclaration(node)
    }
}

impl<'a> From<JsClassDeclaration<'a>> for JsAnyStatement<'a> {
    fn from(node: JsClassDeclaration<'a>) -> (r: JsAnyStatement<'a>)
        ensures
            r == JsAnyStatement::JsClassDeclaration(node),
    {
        JsAnyStatement::JsClassDeclaration(node)
    }
}

impl<'a> vstd::std_specs::convert::FromSpecImpl<JsClassDeclaration<'a>> for JsAnyStatement<'a> {
    open spec fn obeys_from_spec() -> bool {
        true
    }

    open spec fn from_spec(node: JsClassDeclaration<'a>) -> JsAnyStatement<'a> {
        JsAnyStatement::JsClassDeclaration(node)
    }
}

impl<'a> From<JsVariableDeclarationStatement<'a>> for JsAnyStatement<'a> {
    fn from(node: JsVariableDeclarationStatement<'a>) -> (r: JsAnyStatement<'a>)
        ensures
            r == JsAnyStatement::JsVariableDeclarationStatement(node),
    {
        JsAnyStatement::JsVariableDeclarationStatement(node)
    }
}

impl<'a> vstd::std_specs::convert::FromSpecImpl<JsVariableDeclarationStatement<'a>> for JsAnyStatement<'a> {
    open spec fn obeys_from_spec() -> bool {
        true
    }

    open spec fn from_spec(node: JsVariableDeclarationStatement<'a>) -> JsAnyStatement<'a> {
        JsAnyStatement::JsVariableDeclarationStatement(node)
    }
}

impl<'a> From<TsEnum<'a>> for JsAnyStatement<'a> {
    fn from(node: TsEnum<'a>) -> (r: JsAnyStatement<'a>)
        ensures
            r == JsAnyStatement::TsEnum(node),
    {
        JsAnyStatement::TsEnum(node)
    }
}

impl<'a> vstd::std_specs::convert::FromSpecImpl<TsEnum<'a>> for JsAnyStatement<'a> {
    open spec fn obeys_from_spec() -> bool {
        true
    }

    open spec fn from_spec(node: TsEnum<'a>) -> JsAnyStatement<'a> {
        JsAnyStatement::TsEnum(node)
    }
}

impl<'a> From<TsTypeAliasDecl<'a>> for JsAnyStatement<'a> {
    fn from(node: TsTypeAliasDecl<'a>) -> (r: JsAnyStatement<'a>)
        ensures
            r == JsAnyStatement::TsTypeAliasDecl(node),
    {
        JsAnyStatement::TsTypeAliasDecl(node)
    }
}

impl<'a> vstd::std_specs::convert::FromSpecImpl<TsTypeAliasDecl<'a>> for JsAnyStatement<'a> {
    open spec fn obeys_from_spec() -> bool {
        true
    }

    open spec fn from_spec(node: TsTypeAliasDecl<'a>) -> JsAnyStatement<'a> {
        JsAnyStatement::TsTypeAliasDecl(node)
    }
}

impl<'a> From<TsNamespaceDecl<'a>> for JsAnyStatement<'a> {
    fn from(node: TsNamespaceDecl<'a>) -> (r: JsAnyStatement<'a>)
        ensures
            r == JsAnyStatement::TsNamespaceDecl(node),
    {
        JsAnyStatement::TsNamespaceDecl(node)
    }
}

impl<'a> vstd::std_specs::convert::FromSpecImpl<TsNamespaceDecl<'a>> for JsAnyStatement<'a> {
    open spec fn obeys_from_spec() -> bool {
        true
    }

    open spec fn from_spec(node: TsNamespaceDecl<'a>) -> JsAnyStatement<'a> {
        JsAnyStatement::TsNamespaceDecl(node)
    }
}

impl<'a> From<TsModuleDecl<'a>> for JsAnyStatement<'a> {
    fn from(node: TsModuleDecl<'a>) -> (r: JsAnyStatement<'a>)
        ensures
            r == JsAnyStatement::TsModuleDecl(node),
    {
        JsAnyStatement::TsModuleDecl(node)
    }
}

impl<'a> vstd::std_specs::convert::FromSpecImpl<TsModuleDecl<'a>> for JsAnyStatement<'a> {
    open spec fn obeys_from_spec() -> bool {
        true
    }

    open spec fn from_spec(node: TsModuleDecl<'a>) -> JsAnyStatement<'a> {
        JsAnyStatement::TsModuleDecl(node)
    }
}

impl<'a> From<TsInterfaceDecl<'a>> for JsAnyStatement<'a> {
    fn from(node: TsInterfaceDecl<'a>) -> (r: JsAnyStatement<'a>)
        ensures
            r == JsAnyStatement::TsInterfaceDecl(node),
    {
        JsAnyStatement::TsInterfaceDecl(node)
    }
}

impl<'a> vstd::std_specs::convert::FromSpecImpl<TsInterfaceDecl<'a>> for JsAnyStatement<'a> {
    open spec fn obeys_from_spec() -> bool {
        true
    }

    open spec fn from_spec(node: TsInterfaceDecl<'a>) -> JsAnyStatement<'a> {
        JsAnyStatement::TsInterfaceDecl(node)
    }
}

impl<'a> From<JsUnknownStatement<'a>> for JsAnyStatement<'a> {
    fn from(node: JsUnknownStatement<'a>) -> (r: JsAnyStatement<'a>)
        ensures
            r == JsAnyStatement::JsUnknownStatement(node),
    {
        JsAnyStatement::JsUnknownStatement(node)
    }
}

impl<'a> vstd::std_specs::convert::FromSpecImpl<JsUnknownStatement<'a>> for JsAnyStatement<'a> {
    open spec fn obeys_from_spec() -> bool {
        true
    }

    open spec fn from_spec(node: JsUnknownStatement<'a>) -> JsAnyStatement<'a> {
        JsAnyStatement::JsUnknownStatement(node)
    }
}

/// One of the nodes that may stand where the grammar expects `JsAnyModuleItem`.
#[derive(Clone, Copy, Debug)]
pub enum JsAnyModuleItem<'a> {
    JsAnyStatement(JsAnyStatement<'a>),
    JsImport(JsImport<'a>),
    ExportNamed(ExportNamed<'a>),
    ExportDefaultDecl(ExportDefaultDecl<'a>),
    ExportDefaultExpr(ExportDefaultExpr<'a>),
    ExportWildcard(ExportWildcard<'a>),
    ExportDecl(ExportDecl<'a>),
    TsImportEqualsDecl(TsImportEqualsDecl<'a>),
    TsExportAssignment(TsExportAssignment<'a>),
    TsNamespaceExportDecl(TsNamespaceExportDecl<'a>),
}

impl<'a> AstNode<'a> for JsAnyModuleItem<'a> {
    open spec fn kind_ok(kind: SyntaxKind) -> bool {
        ||| <JsAnyStatement<'a> as AstNode<'a>>::kind_ok(kind)
        ||| <JsImport<'a> as AstNode<'a>>::kind_ok(kind)
        ||| <ExportNamed<'a> as AstNode<'a>>::kind_ok(kind)
        ||| <ExportDefaultDecl<'a> as AstNode<'a>>::kind_ok(kind)
        ||| <ExportDefaultExpr<'a> as AstNode<'a>>::kind_ok(kind)
        ||| <ExportWildcard<'a> as AstNode<'a>>::kind_ok(kind)
        ||| <ExportDecl<'a> as AstNode<'a>>::kind_ok(kind)
        ||| <TsImportEqualsDecl<'a> as AstNode<'a>>::kind_ok(kind)
        ||| <TsExportAssignment<'a> as AstNode<'a>>::kind_ok(kind)
        ||| <TsNamespaceExportDecl<'a> as AstNode<'a>>::kind_ok(kind)
    }

    closed spec fn syntax_view(&self) -> SyntaxNode<'a> {
        match self {
            JsAnyModuleItem::JsAnyStatement(it) => it.syntax_view(),
            JsAnyModuleItem::JsImport(it) => it.syntax_view(),
            JsAnyModuleItem::ExportNamed(it) => it.syntax_view(),
            JsAnyModuleItem::ExportDefaultDecl(it) => it.syntax_view(),
            JsAnyModuleItem::ExportDefaultExpr(it) => it.syntax_view(),
            JsAnyModuleItem::ExportWildcard(it) => it.syntax_view(),
            JsAnyModuleItem::ExportDecl(it) => it.syntax_view(),
            JsAnyModuleItem::TsImportEqualsDecl(it) => it.syntax_view(),
            JsAnyModuleItem::TsExportAssignment(it) => it.syntax_view(),
            JsAnyModuleItem::TsNamespaceExportDecl(it) => it.syntax_view(),
        }
    }

    fn can_cast(kind: SyntaxKind) -> (r: bool) {
        matches!(
            kind,
            SyntaxKind::JS_IMPORT
                | SyntaxKind::EXPORT_NAMED
                | SyntaxKind::EXPORT_DEFAULT_DECL
                | SyntaxKind::EXPORT_DEFAULT_EXPR
                | SyntaxKind::EXPORT_WILDCARD
                | SyntaxKind::EXPORT_DECL
                | SyntaxKind::TS_IMPORT_EQUALS_DECL
                | SyntaxKind::TS_EXPORT_ASSIGNMENT
                | SyntaxKind::TS_NAMESPACE_EXPORT_DECL
        ) || JsAnyStatement::can_cast(kind)
    }

    fn cast(syntax: SyntaxNode<'a>) -> (r: Option<Self>) {
        match syntax.kind() {
            SyntaxKind::JS_IMPORT => Some(JsAnyModuleItem::JsImport(JsImport { syntax })),
            SyntaxKind::EXPORT_NAMED => Some(JsAnyModuleItem::ExportNamed(ExportNamed { syntax })),
            SyntaxKind::EXPORT_DEFAULT_DECL => Some(JsAnyModuleItem::ExportDefaultDecl(ExportDefaultDecl { syntax })),
            SyntaxKind::EXPORT_DEFAULT_EXPR => Some(JsAnyModuleItem::ExportDefaultExpr(ExportDefaultExpr { syntax })),
            SyntaxKind::EXPORT_WILDCARD => Some(JsAnyModuleItem::ExportWildcard(ExportWildcard { syntax })),
            SyntaxKind::EXPORT_DECL => Some(JsAnyModuleItem::ExportDecl(ExportDecl { syntax })),
            SyntaxKind::TS_IMPORT_EQUALS_DECL => Some(JsAnyModuleItem::TsImportEqualsDecl(TsImportEqualsDecl { syntax })),
            SyntaxKind::TS_EXPORT_ASSIGNMENT => Some(JsAnyModuleItem::TsExportAssignment(TsExportAssignment { syntax })),
            SyntaxKind::TS_NAMESPACE_EXPORT_DECL => Some(JsAnyModuleItem::TsNamespaceExportDecl(TsNamespaceExportDecl { syntax })),
            _ => {
                if let Some(it) = JsAnyStatement::cast(syntax) {
                    return Some(JsAnyModuleItem::JsAnyStatement(it));
                }
                None
            },
        }
    }

    fn syntax(&self) -> (r: &SyntaxNode<'a>) {
        match self {
            JsAnyModuleItem::JsAnyStatement(it) => it.syntax(),
            JsAnyModuleItem::JsImport(it) => it.syntax(),
            JsAnyModuleItem::ExportNamed(it) => it.syntax(),
            JsAnyModuleItem::ExportDefaultDecl(it) => it.syntax(),
            JsAnyModuleItem::ExportDefaultExpr(it) => it.syntax(),
            JsAnyModuleItem::ExportWildcard(it) => it.syntax(),
            JsAnyModuleItem::ExportDecl(it) => it.syntax(),
            JsAnyModuleItem::TsImportEqualsDecl(it) => it.syntax(),
            JsAnyModuleItem::TsExportAssignment(it) => it.syntax(),
            JsAnyModuleItem::TsNamespaceExportDecl(it) => it.syntax(),
        }
    }
}

impl<'a> From<JsAnyStatement<'a>> for JsAnyModuleItem<'a> {
    fn from(node: JsAnyStatement<'a>) -> (r: JsAnyModuleItem<'a>)
        ensures
            r == JsAnyModuleItem::JsAnyStatement(node),
    {
        JsAnyModuleItem::JsAnyStatement(node)
    }
}

impl<'a> vstd::std_specs::convert::FromSpecImpl<JsAnyStatement<'a>> for JsAnyModuleItem<'a> {
    open spec fn obeys_from_spec() -> bool {
        true
    }

    open spec fn from_spec(node: JsAnyStatement<'a>) -> JsAnyModuleItem<'a> {
        JsAnyModuleItem::JsAnyStatement(node)
    }
}

impl<'a> From<JsImport<'a>> for JsAnyModuleItem<'a> {
    fn from(node: JsImport<'a>) -> (r: JsAnyModuleItem<'a>)
        ensures
            r == JsAnyModuleItem::JsImport(node),
    {
        JsAnyModuleItem::JsImport(node)
    }
}

impl<'a> vstd::std_specs::convert::FromSpecImpl<JsImport<'a>> for JsAnyModuleItem<'a> {
    open spec fn obeys_from_spec() -> bool {
        true
    }

    open spec fn from_spec(node: JsImport<'a>) -> JsAnyModuleItem<'a> {
        JsAnyModuleItem::JsImport(node)
    }
}

impl<'a> From<ExportNamed<'a>> for JsAnyModuleItem<'a> {
    fn from(node: ExportNamed<'a>) -> (r: JsAnyModuleItem<'a>)
        ensures
            r == JsAnyModuleItem::ExportNamed(node),
    {
        JsAnyModuleItem::ExportNamed(node)
    }
}

impl<'a> vstd::std_specs::convert::FromSpecImpl<ExportNamed<'a>> for JsAnyModuleItem<'a> {
    open spec fn obeys_from_spec() -> bool {
        true
    }

    open spec fn from_spec(node: ExportNamed<'a>) -> JsAnyModuleItem<'a> {
        JsAnyModuleItem::ExportNamed(node)
    }
}

impl<'a> From<ExportDefaultDecl<'a>> for JsAnyModuleItem<'a> {
    fn from(node: ExportDefaultDecl<'a>) -> (r: JsAnyModuleItem<'a>)
        ensures
            r == JsAnyModuleItem::ExportDefaultDecl(node),
    {
        JsAnyModuleItem::ExportDefaultDecl(node)
    }
}

impl<'a> vstd::std_specs::convert::FromSpecImpl<ExportDefaultDecl<'a>> for JsAnyModuleItem<'a> {
    open spec fn obeys_from_spec() -> bool {
        true
    }

    open spec fn from_spec(node: ExportDefaultDecl<'a>) -> JsAnyModuleItem<'a> {
        JsAnyModuleItem::ExportDefaultDecl(node)
    }
}

impl<'a> From<ExportDefaultExpr<'a>> for JsAnyModuleItem<'a> {
    fn from(node: ExportDefaultExpr<'a>) -> (r: JsAnyModuleItem<'a>)
        ensures
            r == JsAnyModuleItem::ExportDefaultExpr(node),
    {
        JsAnyModuleItem::ExportDefaultExpr(node)
    }
}

impl<'a> vstd::std_specs::convert::FromSpecImpl<ExportDefaultExpr<'a>> for JsAnyModuleItem<'a> {
    open spec fn obeys_from_spec() -> bool {
        true
    }

    open spec fn from_spec(node: ExportDefaultExpr<'a>) -> JsAnyModuleItem<'a> {
        JsAnyModuleItem::ExportDefaultExpr(node)
    }
}

impl<'a> From<ExportWildcard<'a>> for JsAnyModuleItem<'a> {
    fn from(node: ExportWildcard<'a>) -> (r: JsAnyModuleItem<'a>)
        ensures
            r == JsAnyModuleItem::ExportWildcard(node),
    {
        JsAnyModuleItem::ExportWildcard(node)
    }
}

impl<'a> vstd::std_specs::convert::FromSpecImpl<ExportWildcard<'a>> for JsAnyModuleItem<'a> {
    open spec fn obeys_from_spec() -> bool {
        true
    }

    open spec fn from_spec(node: ExportWildcard<'a>) -> JsAnyModuleItem<'a> {
        JsAnyModuleItem::ExportWildcard(node)
    }
}

impl<'a> From<ExportDecl<'a>> for JsAnyModuleItem<'a> {
    fn from(node: ExportDecl<'a>) -> (r: JsAnyModuleItem<'a>)
        ensures
            r == JsAnyModuleItem::ExportDecl(node),
    {
        JsAnyModuleItem::ExportDecl(node)
    }
}

impl<'a> vstd::std_specs::convert::FromSpecImpl<ExportDecl<'a>> for JsAnyModuleItem<'a> {
    open spec fn obeys_from_spec() -> bool {
        true
    }

    open spec fn from_spec(node: ExportDecl<'a>) -> JsAnyModuleItem<'a> {
        JsAnyModuleItem::ExportDecl(node)
    }
}

impl<'a> From<TsImportEqualsDecl<'a>> for JsAnyModuleItem<'a> {
    fn from(node: TsImportEqualsDecl<'a>) -> (r: JsAnyModuleItem<'a>)
        ensures
            r == JsAnyModuleItem::TsImportEqualsDecl(node),
    {
        JsAnyModuleItem::TsImportEqualsDecl(node)
    }
}

impl<'a> vstd::std_specs::convert::FromSpecImpl<TsImportEqualsDecl<'a>> for JsAnyModuleItem<'a> {
    open spec fn obeys_from_spec() -> bool {
        true
    }

    open spec fn from_spec(node: TsImportEqualsDecl<'a>) -> JsAnyModuleItem<'a> {
        JsAnyModuleItem::TsImportEqualsDecl(node)
    }
}

impl<'a> From<TsExportAssignment<'a>> for JsAnyModuleItem<'a> {
    fn from(node: TsExportAssignment<'a>) -> (r: JsAnyModuleItem<'a>)
        ensures
            r == JsAnyModuleItem::TsExportAssignment(node),
    {
        JsAnyModuleItem::TsExportAssignment(node)
    }
}

impl<'a> vstd::std_specs::convert::FromSpecImpl<TsExportAssignment<'a>> for JsAnyModuleItem<'a> {
    open spec fn obeys_from_spec() -> bool {
        true
    }

    open spec fn from_spec(node: TsExportAssignment<'a>) -> JsAnyModuleItem<'a> {
        JsAnyModuleItem::TsExportAssignment(node)
    }
}

impl<'a> From<TsNamespaceExportDecl<'a>> for JsAnyModuleItem<'a> {
    fn from(node: TsNamespaceExportDecl<'a>) -> (r: JsAnyModuleItem<'a>)
        ensures
            r == JsAnyModuleItem::TsNamespaceExportDecl(node),
    {
        JsAnyModuleItem::TsNamespaceExportDecl(node)
    }
}

impl<'a> vstd::std_specs::convert::FromSpecImpl<TsNamespaceExportDecl<'a>> for JsAnyModuleItem<'a> {
    open spec fn obeys_from_spec() -> bool {
        true
    }

    open spec fn from_spec(node: TsNamespaceExportDecl<'a>) -> JsAnyModuleItem<'a> {
        JsAnyModuleItem::TsNamespaceExportDecl(node)
    }
}

/// One of the nodes that may stand where the grammar expects `JsAnyExpression`.
#[derive(Clone, Copy, Debug)]
pub enum JsAnyExpression<'a> {
    JsAnyLiteralExpression(JsAnyLiteralExpression<'a>),
    JsArrayExpression(JsArrayExpression<'a>),
    JsArrowFunctionExpression(JsArrowFunctionExpression<'a>),
    JsAssignmentExpression(JsAssignmentExpression<'a>),
    JsAwaitExpression(JsAwaitExpression<'a>),
    JsBinaryExpression(JsBinaryExpression<'a>),
    JsClassExpression(JsClassExpression<'a>),
    JsConditionalExpression(JsConditionalExpression<'a>),
    JsComputedMemberExpression(JsComputedMemberExpression<'a>),
    JsFunctionExpression(JsFunctionExpression<'a>),
    JsImportCallExpression(JsImportCallExpression<'a>),
    JsLogicalExpression(JsLogicalExpression<'a>),
    JsObjectExpression(JsObjectExpression<'a>),
    JsParenthesizedExpression(JsParenthesizedExpression<'a>),
    JsIdentifierExpression(JsIdentifierExpression<'a>),
    JsSequenceExpression(JsSequenceExpression<'a>),
    JsStaticMemberExpression(JsStaticMemberExpression<'a>),
    JsSuperExpression(JsSuperExpression<'a>),
    JsThisExpression(JsThisExpression<'a>),
    JsUnaryExpression(JsUnaryExpression<'a>),
    JsPreUpdateExpression(JsPreUpdateExpression<'a>),
    JsPostUpdateExpression(JsPostUpdateExpression<'a>),
    JsYieldExpression(JsYieldExpression<'a>),
    Template(Template<'a>),
    NewExpr(NewExpr<'a>),
    CallExpr(CallExpr<'a>),
    NewTarget(NewTarget<'a>),
    ImportMeta(ImportMeta<'a>),
    TsNonNull(TsNonNull<'a>),
    TsAssertion(TsAssertion<'a>),
    TsConstAssertion(TsConstAssertion<'a>),
    JsUnknownExpression(JsUnknownExpression<'a>),
}

impl<'a> AstNode<'a> for JsAnyExpression<'a> {
    open spec fn kind_ok(kind: SyntaxKind) -> bool {
        ||| <JsAnyLiteralExpression<'a> as AstNode<'a>>::kind_ok(kind)
        ||| <JsArrayExpression<'a> as AstNode<'a>>::kind_ok(kind)
        ||| <JsArrowFunctionExpression<'a> as AstNode<'a>>::kind_ok(kind)
        ||| <JsAssignmentExpression<'a> as AstNode<'a>>::kind_ok(kind)
        ||| <JsAwaitExpression<'a> as AstNode<'a>>::kind_ok(kind)
        ||| <JsBinaryExpression<'a> as AstNode<'a>>::kind_ok(kind)
        ||| <JsClassExpression<'a> as AstNode<'a>>::kind_ok(kind)
        ||| <JsConditionalExpression<'a> as AstNode<'a>>::kind_ok(kind)
        ||| <JsComputedMemberExpression<'a> as AstNode<'a>>::kind_ok(kind)
        ||| <JsFunctionExpression<'a> as AstNode<'a>>::kind_ok(kind)
        ||| <JsImportCallExpression<'a> as AstNode<'a>>::kind_ok(kind)
        ||| <JsLogicalExpression<'a> as AstNode<'a>>::kind_ok(kind)
        ||| <JsObjectExpression<'a> as AstNode<'a>>::kind_ok(kind)
        ||| <JsParenthesizedExpression<'a> as AstNode<'a>>::kind_ok(kind)
        ||| <JsIdentifierExpression<'a> as AstNode<'a>>::kind_ok(kind)
        ||| <JsSequenceExpression<'a> as AstNode<'a>>::kind_ok(kind)
        ||| <JsStaticMemberExpression<'a> as AstNode<'a>>::kind_ok(kind)
        ||| <JsSuperExpression<'a> as AstNode<'a>>::kind_ok(kind)
        ||| <JsThisExpression<'a> as AstNode<'a>>::kind_ok(kind)
        ||| <JsUnaryExpression<'a> as AstNode<'a>>::kind_ok(kind)
        ||| <JsPreUpdateExpression<'a> as AstNode<'a>>::kind_ok(kind)
        ||| <JsPostUpdateExpression<'a> as AstNode<'a>>::kind_ok(kind)
        ||| <JsYieldExpression<'a> as AstNode<'a>>::kind_ok(kind)
        ||| <Template<'a> as AstNode<'a>>::kind_ok(kind)
        ||| <NewExpr<'a> as AstNode<'a>>::kind_ok(kind)
        ||| <CallExpr<'a> as AstNode<'a>>::kind_ok(kind)
        ||| <NewTarget<'a> as AstNode<'a>>::kind_ok(kind)
        ||| <ImportMeta<'a> as AstNode<'a>>::kind_ok(kind)
        ||| <TsNonNull<'a> as AstNode<'a>>::kind_ok(kind)
        ||| <TsAssertion<'a> as AstNode<'a>>::kind_ok(kind)
        ||| <TsConstAssertion<'a> as AstNode<'a>>::kind_ok(kind)
        ||| <JsUnknownExpression<'a> as AstNode<'a>>::kind_ok(kind)
    }

    closed spec fn syntax_view(&self) -> SyntaxNode<'a> {
        match self {
            JsAnyExpression::JsAnyLiteralExpression(it) => it.syntax_view(),
            JsAnyExpression::JsArrayExpression(it) => it.syntax_view(),
            JsAnyExpression::JsArrowFunctionExpression(it) => it.syntax_view(),
            JsAnyExpression::JsAssignmentExpression(it) => it.syntax_view(),
            JsAnyExpression::JsAwaitExpression(it) => it.syntax_view(),
            JsAnyExpression::JsBinaryExpression(it) => it.syntax_view(),
            JsAnyExpression::JsClassExpression(it) => it.syntax_view(),
            JsAnyExpression::JsConditionalExpression(it) => it.syntax_view(),
            JsAnyExpression::JsComputedMemberExpression(it) => it.syntax_view(),
            JsAnyExpression::JsFunctionExpression(it) => it.syntax_view(),
            JsAnyExpression::JsImportCallExpression(it) => it.syntax_view(),
            JsAnyExpression::JsLogicalExpression(it) => it.syntax_view(),
            JsAnyExpression::JsObjectExpression(it) => it.syntax_view(),
            JsAnyExpression::JsParenthesizedExpression(it) => it.syntax_view(),
            JsAnyExpression::JsIdentifierExpression(it) => it.syntax_view(),
            JsAnyExpression::JsSequenceExpression(it) => it.syntax_view(),
            JsAnyExpression::JsStaticMemberExpression(it) => it.syntax_view(),
            JsAnyExpression::JsSuperExpression(it) => it.syntax_view(),
            JsAnyExpression::JsThisExpression(it) => it.syntax_view(),
            JsAnyExpression::JsUnaryExpression(it) => it.syntax_view(),
            JsAnyExpression::JsPreUpdateExpression(it) => it.syntax_view(),
            JsAnyExpression::JsPostUpdateExpression(it) => it.syntax_view(),
            JsAnyExpression::JsYieldExpression(it) => it.syntax_view(),
            JsAnyExpression::Template(it) => it.syntax_view(),
            JsAnyExpression::NewExpr(it) => it.syntax_view(),
            JsAnyExpression::CallExpr(it) => it.syntax_view(),
            JsAnyExpression::NewTarget(it) => it.syntax_view(),
            JsAnyExpression::ImportMeta(it) => it.syntax_view(),
            JsAnyExpression::TsNonNull(it) => it.syntax_view(),
            JsAnyExpression::TsAssertion(it) => it.syntax_view(),
            JsAnyExpression::TsConstAssertion(it) => it.syntax_view(),
            JsAnyExpression::JsUnknownExpression(it) => it.syntax_view(),
        }
    }

    fn can_cast(kind: SyntaxKind) -> (r: bool) {
        matches!(
            kind,
            SyntaxKind::JS_ARRAY_EXPRESSION
                | SyntaxKind::JS_ARROW_FUNCTION_EXPRESSION
                | SyntaxKind::JS_ASSIGNMENT_EXPRESSION
                | SyntaxKind::JS_AWAIT_EXPRESSION
                | SyntaxKind::JS_BINARY_EXPRESSION
                | SyntaxKind::JS_CLASS_EXPRESSION
                | SyntaxKind::JS_CONDITIONAL_EXPRESSION
                | SyntaxKind::JS_COMPUTED_MEMBER_EXPRESSION
                | SyntaxKind::JS_FUNCTION_EXPRESSION
                | SyntaxKind::JS_IMPORT_CALL_EXPRESSION
                | SyntaxKind::JS_LOGICAL_EXPRESSION
                | SyntaxKind::JS_OBJECT_EXPRESSION
                | SyntaxKind::JS_PARENTHESIZED_EXPRESSION
                | SyntaxKind::JS_IDENTIFIER_EXPRESSION
                | SyntaxKind::JS_SEQUENCE_EXPRESSION
                | SyntaxKind::JS_STATIC_MEMBER_EXPRESSION
                | SyntaxKind::JS_SUPER_EXPRESSION
                | SyntaxKind::JS_THIS_EXPRESSION
                | SyntaxKind::JS_UNARY_EXPRESSION
                | SyntaxKind::JS_PRE_UPDATE_EXPRESSION
                | SyntaxKind::JS_POST_UPDATE_EXPRESSION
                | SyntaxKind::JS_YIELD_EXPRESSION
                | SyntaxKind::TEMPLATE
                | SyntaxKind::NEW_EXPR
                | SyntaxKind::CALL_EXPR
                | SyntaxKind::NEW_TARGET
                | SyntaxKind::IMPORT_META
                | SyntaxKind::TS_NON_NULL
                | SyntaxKind::TS_ASSERTION
                | SyntaxKind::TS_CONST_ASSERTION
                | SyntaxKind::JS_UNKNOWN_EXPRESSION
        ) || JsAnyLiteralExpression::can_cast(kind)
    }

    fn cast(syntax: SyntaxNode<'a>) -> (r: Option<Self>) {
        match syntax.kind() {
            SyntaxKind::JS_ARRAY_EXPRESSION => Some(JsAnyExpression::JsArrayExpression(JsArrayExpression { syntax })),
            SyntaxKind::JS_ARROW_FUNCTION_EXPRESSION => Some(JsAnyExpression::JsArrowFunctionExpression(JsArrowFunctionExpression { syntax })),
            SyntaxKind::JS_ASSIGNMENT_EXPRESSION => Some(JsAnyExpression::JsAssignmentExpression(JsAssignmentExpression { syntax })),
            SyntaxKind::JS_AWAIT_EXPRESSION => Some(JsAnyExpression::JsAwaitExpression(JsAwaitExpression { syntax })),
            SyntaxKind::JS_BINARY_EXPRESSION => Some(JsAnyExpression::JsBinaryExpression(JsBinaryExpression { syntax })),
            SyntaxKind::JS_CLASS_EXPRESSION => Some(JsAnyExpression::JsClassExpression(JsClassExpression { syntax })),
            SyntaxKind::JS_CONDITIONAL_EXPRESSION => Some(JsAnyExpression::JsConditionalExpression(JsConditionalExpression { syntax })),
            SyntaxKind::JS_COMPUTED_MEMBER_EXPRESSION => Some(JsAnyExpression::JsComputedMemberExpression(JsComputedMemberExpression { syntax })),
            SyntaxKind::JS_FUNCTION_EXPRESSION => Some(JsAnyExpression::JsFunctionExpression(JsFunctionExpression { syntax })),
            SyntaxKind::JS_IMPORT_CALL_EXPRESSION => Some(JsAnyExpression::JsImportCallExpression(JsImportCallExpression { syntax })),
            SyntaxKind::JS_LOGICAL_EXPRESSION => Some(JsAnyExpression::JsLogicalExpression(JsLogicalExpression { syntax })),
            SyntaxKind::JS_OBJECT_EXPRESSION => Some(JsAnyExpression::JsObjectExpression(JsObjectExpression { syntax })),
            SyntaxKind::JS_PARENTHESIZED_EXPRESSION => Some(JsAnyExpression::JsParenthesizedExpression(JsParenthesizedExpression { syntax })),
            SyntaxKind::JS_IDENTIFIER_EXPRESSION => Some(JsAnyExpression::JsIdentifierExpression(JsIdentifierExpression { syntax })),
            SyntaxKind::JS_SEQUENCE_EXPRESSION => Some(JsAnyExpression::JsSequenceExpression(JsSequenceExpression { syntax })),
            SyntaxKind::JS_STATIC_MEMBER_EXPRESSION => Some(JsAnyExpression::JsStaticMemberExpression(JsStaticMemberExpression { syntax })),
            SyntaxKind::JS_SUPER_EXPRESSION => Some(JsAnyExpression::JsSuperExpression(JsSuperExpression { syntax })),
            SyntaxKind::JS_THIS_EXPRESSION => Some(JsAnyExpression::JsThisExpression(JsThisExpression { syntax })),
            SyntaxKind::JS_UNARY_EXPRESSION => Some(JsAnyExpression::JsUnaryExpression(JsUnaryExpression { syntax })),
            SyntaxKind::JS_PRE_UPDATE_EXPRESSION => Some(JsAnyExpression::JsPreUpdateExpression(JsPreUpdateExpression { syntax })),
            SyntaxKind::JS_POST_UPDATE_EXPRESSION => Some(JsAnyExpression::JsPostUpdateExpression(JsPostUpdateExpression { syntax })),
            SyntaxKind::JS_YIELD_EXPRESSION => Some(JsAnyExpression::JsYieldExpression(JsYieldExpression { syntax })),
            SyntaxKind::TEMPLATE => Some(JsAnyExpression::Template(Template { syntax })),
            SyntaxKind::NEW_EXPR => Some(JsAnyExpression::NewExpr(NewExpr { syntax })),
            SyntaxKind::CALL_EXPR => Some(JsAnyExpression::CallExpr(CallExpr { syntax })),
            SyntaxKind::NEW_TARGET => Some(JsAnyExpression::NewTarget(NewTarget { syntax })),
            SyntaxKind::IMPORT_META => Some(JsAnyExpression::ImportMeta(ImportMeta { syntax })),
            SyntaxKind::TS_NON_NULL => Some(JsAnyExpression::TsNonNull(TsNonNull { syntax })),
            SyntaxKind::TS_ASSERTION => Some(JsAnyExpression::TsAssertion(TsAssertion { syntax })),
            SyntaxKind::TS_CONST_ASSERTION => Some(JsAnyExpression::TsConstAssertion(TsConstAssertion { syntax })),
            SyntaxKind::JS_UNKNOWN_EXPRESSION => Some(JsAnyExpression::JsUnknownExpression(JsUnknownExpression { syntax })),
            _ => {
                if let Some(it) = JsAnyLiteralExpression::cast(syntax) {
                    return Some(JsAnyExpression::JsAnyLiteralExpression(it));
                }
                None
            },
        }
    }

    fn syntax(&self) -> (r: &SyntaxNode<'a>) {
        match self {
            JsAnyExpression::JsAnyLiteralExpression(it) => it.syntax(),
            JsAnyExpression::JsArrayExpression(it) => it.syntax(),
            JsAnyExpression::JsArrowFunctionExpression(it) => it.syntax(),
            JsAnyExpression::JsAssignmentExpression(it) => it.syntax(),
            JsAnyExpression::JsAwaitExpression(it) => it.syntax(),
            JsAnyExpression::JsBinaryExpression(it) => it.syntax(),
            JsAnyExpression::JsClassExpression(it) => it.syntax(),
            JsAnyExpression::JsConditionalExpression(it) => it.syntax(),
            JsAnyExpression::JsComputedMemberExpression(it) => it.syntax(),
            JsAnyExpression::JsFunctionExpression(it) => it.syntax(),
            JsAnyExpression::JsImportCallExpression(it) => it.syntax(),
            JsAnyExpression::JsLogicalExpression(it) => it.syntax(),
            JsAnyExpression::JsObjectExpression(it) => it.syntax(),
            JsAnyExpression::JsParenthesizedExpression(it) => it.syntax(),
            JsAnyExpression::JsIdentifierExpression(it) => it.syntax(),
            JsAnyExpression::JsSequenceExpression(it) => it.syntax(),
            JsAnyExpression::JsStaticMemberExpression(it) => it.syntax(),
            JsAnyExpression::JsSuperExpression(it) => it.syntax(),
            JsAnyExpression::JsThisExpression(it) => it.syntax(),
            JsAnyExpression::JsUnaryExpression(it) => it.syntax(),
            JsAnyExpression::JsPreUpdateExpression(it) => it.syntax(),
            JsAnyExpression::JsPostUpdateExpression(it) => it.syntax(),
            JsAnyExpression::JsYieldExpression(it) => it.syntax(),
            JsAnyExpression::Template(it) => it.syntax(),
            JsAnyExpression::NewExpr(it) => it.syntax(),
            JsAnyExpression::CallExpr(it) => it.syntax(),
            JsAnyExpression::NewTarget(it) => it.syntax(),
            JsAnyExpression::ImportMeta(it) => it.syntax(),
            JsAnyExpression::TsNonNull(it) => it.syntax(),
            JsAnyExpression::TsAssertion(it) => it.syntax(),
            JsAnyExpression::TsConstAssertion(it) => it.syntax(),
            JsAnyExpression::JsUnknownExpression(it) => it.syntax(),
        }
    }
}

impl<'a> From<JsAnyLiteralExpression<'a>> for JsAnyExpression<'a> {
    fn from(node: JsAnyLiteralExpression<'a>) -> (r: JsAnyExpression<'a>)
        ensures
            r == JsAnyExpression::JsAnyLiteralExpression(node),
    {
        JsAnyExpression::JsAnyLiteralExpression(node)
    }
}

impl<'a> vstd::std_specs::convert::FromSpecImpl<JsAnyLiteralExpression<'a>> for JsAnyExpression<'a> {
    open spec fn obeys_from_spec() -> bool {
        true
    }

    open spec fn from_spec(node: JsAnyLiteralExpression<'a>) -> JsAnyExpression<'a> {
        JsAnyExpression::JsAnyLiteralExpression(node)
    }
}

impl<'a> From<JsArrayExpression<'a>> for JsAnyExpression<'a> {
    fn from(node: JsArrayExpression<'a>) -> (r: JsAnyExpression<'a>)
        ensures
            r == JsAnyExpression::JsArrayExpression(node),
    {
        JsAnyExpression::JsArrayExpression(node)
    }
}

impl<'a> vstd::std_specs::convert::FromSpecImpl<JsArrayExpression<'a>> for JsAnyExpression<'a> {
    open spec fn obeys_from_spec() -> bool {
        true
    }

    open spec fn from_spec(node: JsArrayExpression<'a>) -> JsAnyExpression<'a> {
        JsAnyExpression::JsArrayExpression(node)
    }
}

impl<'a> From<JsArrowFunctionExpression<'a>> for JsAnyExpression<'a> {
    fn from(node: JsArrowFunctionExpression<'a>) -> (r: JsAnyExpression<'a>)
        ensures
            r == JsAnyExpression::JsArrowFunctionExpression(node),
    {
        JsAnyExpression::JsArrowFunctionExpression(node)
    }
}

impl<'a> vstd::std_specs::convert::FromSpecImpl<JsArrowFunctionExpression<'a>> for JsAnyExpression<'a> {
    open spec fn obeys_from_spec() -> bool {
        true
    }

    open spec fn from_spec(node: JsArrowFunctionExpression<'a>) -> JsAnyExpression<'a> {
        JsAnyExpression::JsArrowFunctionExpression(node)
    }
}

impl<'a> From<JsAssignmentExpression<'a>> for JsAnyExpression<'a> {
    fn from(node: JsAssignmentExpression<'a>) -> (r: JsAnyExpression<'a>)
        ensures
            r == JsAnyExpression::JsAssignmentExpression(node),
    {
        JsAnyExpression::JsAssignmentExpression(node)
    }
}

impl<'a> vstd::std_specs::convert::FromSpecImpl<JsAssignmentExpression<'a>> for JsAnyExpression<'a> {
    open spec fn obeys_from_spec() -> bool {
        true
    }

    open spec fn from_spec(node: JsAssignmentExpression<'a>) -> JsAnyExpression<'a> {
        JsAnyExpression::JsAssignmentExpression(node)
    }
}

impl<'a> From<JsAwaitExpression<'a>> for JsAnyExpression<'a> {
    fn from(node: JsAwaitExpression<'a>) -> (r: JsAnyExpression<'a>)
        ensures
            r == JsAnyExpression::JsAwaitExpression(node),
    {
        JsAnyExpression::JsAwaitExpression(node)
    }
}

impl<'a> vstd::std_specs::convert::FromSpecImpl<JsAwaitExpression<'a>> for JsAnyExpression<'a> {
    open spec fn obeys_from_spec() -> bool {
        true
    }

    open spec fn from_spec(node: JsAwaitExpression<'a>) -> JsAnyExpression<'a> {
        JsAnyExpression::JsAwaitExpression(node)
    }
}

impl<'a> From<JsBinaryExpression<'a>> for JsAnyExpression<'a> {
    fn from(node: JsBinaryExpression<'a>) -> (r: JsAnyExpression<'a>)
        ensures
            r == JsAnyExpression::JsBinaryExpression(node),
    {
        JsAnyExpression::JsBinaryExpression(node)
    }
}

impl<'a> vstd::std_specs::convert::FromSpecImpl<JsBinaryExpression<'a>> for JsAnyExpression<'a> {
    open spec fn obeys_from_spec() -> bool {
        true
    }

    open spec fn from_spec(node: JsBinaryExpression<'a>) -> JsAnyExpression<'a> {
        JsAnyExpression::JsBinaryExpression(node)
    }
}

impl<'a> From<JsClassExpression<'a>> for JsAnyExpression<'a> {
    fn from(node: JsClassExpression<'a>) -> (r: JsAnyExpression<'a>)
        ensures
            r == JsAnyExpression::JsClassExpression(node),
    {
        JsAnyExpression::JsClassExpression(node)
    }
}

impl<'a> vstd::std_specs::convert::FromSpecImpl<JsClassExpression<'a>> for JsAnyExpression<'a> {
    open spec fn obeys_from_spec() -> bool {
        true
    }

    open spec fn from_spec(node: JsClassExpression<'a>) -> JsAnyExpression<'a> {
        JsAnyExpression::JsClassExpression(node)
    }
}

impl<'a> From<JsConditionalExpression<'a>> for JsAnyExpression<'a> {
    fn from(node: JsConditionalExpression<'a>) -> (r: JsAnyExpression<'a>)
        ensures
            r == JsAnyExpression::JsConditionalExpression(node),
    {
        JsAnyExpression::JsConditionalExpression(node)
    }
}

impl<'a> vstd::std_specs::convert::FromSpecImpl<JsConditionalExpression<'a>> for JsAnyExpression<'a> {
    open spec fn obeys_from_spec() -> bool {
        true
    }

    open spec fn from_spec(node: JsConditionalExpression<'a>) -> JsAnyExpression<'a> {
        JsAnyExpression::JsConditionalExpression(node)
    }
}

impl<'a> From<JsComputedMemberExpression<'a>> for JsAnyExpression<'a> {
    fn from(node: JsComputedMemberExpression<'a>) -> (r: JsAnyExpression<'a>)
        ensures
            r == JsAnyExpression::JsComputedMemberExpression(node),
    {
        JsAnyExpression::JsComputedMemberExpression(node)
    }
}

impl<'a> vstd::std_specs::convert::FromSpecImpl<JsComputedMemberExpression<'a>> for JsAnyExpression<'a> {
    open spec fn obeys_from_spec() -> bool {
        true
    }

    open spec fn from_spec(node: JsComputedMemberExpression<'a>) -> JsAnyExpression<'a> {
        JsAnyExpression::JsComputedMemberExpression(node)
    }
}

impl<'a> From<JsFunctionExpression<'a>> for JsAnyExpression<'a> {
    fn from(node: JsFunctionExpression<'a>) -> (r: JsAnyExpression<'a>)
        ensures
            r == JsAnyExpression::JsFunctionExpression(node),
    {
        JsAnyExpression::JsFunctionExpression(node)
    }
}

impl<'a> vstd::std_specs::convert::FromSpecImpl<JsFunctionExpression<'a>> for JsAnyExpression<'a> {
    open spec fn obeys_from_spec() -> bool {
        true
    }

    open spec fn from_spec(node: JsFunctionExpression<'a>) -> JsAnyExpression<'a> {
        JsAnyExpression::JsFunctionExpression(node)
    }
}

impl<'a> From<JsImportCallExpression<'a>> for JsAnyExpression<'a> {
    fn from(node: JsImportCallExpression<'a>) -> (r: JsAnyExpression<'a>)
        ensures
            r == JsAnyExpression::JsImportCallExpression(node),
    {
        JsAnyExpression::JsImportCallExpression(node)
    }
}

impl<'a> vstd::std_specs::convert::FromSpecImpl<JsImportCallExpression<'a>> for JsAnyExpression<'a> {
    open spec fn obeys_from_spec() -> bool {
        true
    }

    open spec fn from_spec(node: JsImportCallExpression<'a>) -> JsAnyExpression<'a> {
        JsAnyExpression::JsImportCallExpression(node)
    }
}

impl<'a> From<JsLogicalExpression<'a>> for JsAnyExpression<'a> {
    fn from(node: JsLogicalExpression<'a>) -> (r: JsAnyExpression<'a>)
        ensures
            r == JsAnyExpression::JsLogicalExpression(node),
    {
        JsAnyExpression::JsLogicalExpression(node)
    }
}

impl<'a> vstd::std_specs::convert::FromSpecImpl<JsLogicalExpression<'a>> for JsAnyExpression<'a> {
    open spec fn obeys_from_spec() -> bool {
        true
    }

    open spec fn from_spec(node: JsLogicalExpression<'a>) -> JsAnyExpression<'a> {
        JsAnyExpression::JsLogicalExpression(node)
    }
}

impl<'a> From<JsObjectExpression<'a>> for JsAnyExpression<'a> {
    fn from(node: JsObjectExpression<'a>) -> (r: JsAnyExpression<'a>)
        ensures
            r == JsAnyExpression::JsObjectExpression(node),
    {
        JsAnyExpression::JsObjectExpression(node)
    }
}

impl<'a> vstd::std_specs::convert::FromSpecImpl<JsObjectExpression<'a>> for JsAnyExpression<'a> {
    open spec fn obeys_from_spec() -> bool {
        true
    }

    open spec fn from_spec(node: JsObjectExpression<'a>) -> JsAnyExpression<'a> {
        JsAnyExpression::JsObjectExpression(node)
    }
}

impl<'a> From<JsParenthesizedExpression<'a>> for JsAnyExpression<'a> {
    fn from(node: JsParenthesizedExpression<'a>) -> (r: JsAnyExpression<'a>)
        ensures
            r == JsAnyExpression::JsParenthesizedExpression(node),
    {
        JsAnyExpression::JsParenthesizedExpression(node)
    }
}

impl<'a> vstd::std_specs::convert::FromSpecImpl<JsParenthesizedExpression<'a>> for JsAnyExpression<'a> {
    open spec fn obeys_from_spec() -> bool {
        true
    }

    open spec fn from_spec(node: JsParenthesizedExpression<'a>) -> JsAnyExpression<'a> {
        JsAnyExpression::JsParenthesizedExpression(node)
    }
}

impl<'a> From<JsIdentifierExpression<'a>> for JsAnyExpression<'a> {
    fn from(node: JsIdentifierExpression<'a>) -> (r: JsAnyExpression<'a>)
        ensures
            r == JsAnyExpression::JsIdentifierExpression(node),
    {
        JsAnyExpression::JsIdentifierExpression(node)
    }
}

impl<'a> vstd::std_specs::convert::FromSpecImpl<JsIdentifierExpression<'a>> for JsAnyExpression<'a> {
    open spec fn obeys_from_spec() -> bool {
        true
    }

    open spec fn from_spec(node: JsIdentifierExpression<'a>) -> JsAnyExpression<'a> {
        JsAnyExpression::JsIdentifierExpression(node)
    }
}

impl<'a> From<JsSequenceExpression<'a>> for JsAnyExpression<'a> {
    fn from(node: JsSequenceExpression<'a>) -> (r: JsAnyExpression<'a>)
        ensures
            r == JsAnyExpression::JsSequenceExpression(node),
    {
        JsAnyExpression::JsSequenceExpression(node)
    }
}

impl<'a> vstd::std_specs::convert::FromSpecImpl<JsSequenceExpression<'a>> for JsAnyExpression<'a> {
    open spec fn obeys_from_spec() -> bool {
        true
    }

    open spec fn from_spec(node: JsSequenceExpression<'a>) -> JsAnyExpression<'a> {
        JsAnyExpression::JsSequenceExpression(node)
    }
}

impl<'a> From<JsStaticMemberExpression<'a>> for JsAnyExpression<'a> {
    fn from(node: JsStaticMemberExpression<'a>) -> (r: JsAnyExpression<'a>)
        ensures
            r == JsAnyExpression::JsStaticMemberExpression(node),
    {
        JsAnyExpression::JsStaticMemberExpression(node)
    }
}

impl<'a> vstd::std_specs::convert::FromSpecImpl<JsStaticMemberExpression<'a>> for JsAnyExpression<'a> {
    open spec fn obeys_from_spec() -> bool {
        true
    }

    open spec fn from_spec(node: JsStaticMemberExpression<'a>) -> JsAnyExpression<'a> {
        JsAnyExpression::JsStaticMemberExpression(node)
    }
}

impl<'a> From<JsSuperExpression<'a>> for JsAnyExpression<'a> {
    fn from(node: JsSuperExpression<'a>) -> (r: JsAnyExpression<'a>)
        ensures
            r == JsAnyExpression::JsSuperExpression(node),
    {
        JsAnyExpression::JsSuperExpression(node)
    }
}

impl<'a> vstd::std_specs::convert::FromSpecImpl<JsSuperExpression<'a>> for JsAnyExpression<'a> {
    open spec fn obeys_from_spec() -> bool {
        true
    }

    open spec fn from_spec(node: JsSuperExpression<'a>) -> JsAnyExpression<'a> {
        JsAnyExpression::JsSuperExpression(node)
    }
}

impl<'a> From<JsThisExpression<'a>> for JsAnyExpression<'a> {
    fn from(node: JsThisExpression<'a>) -> (r: JsAnyExpression<'a>)
        ensures
            r == JsAnyExpression::JsThisExpression(node),
    {
        JsAnyExpression::JsThisExpression(node)
    }
}

impl<'a> vstd::std_specs::convert::FromSpecImpl<JsThisExpression<'a>> for JsAnyExpression<'a> {
    open spec fn obeys_from_spec() -> bool {
        true
    }

    open spec fn from_spec(node: JsThisExpression<'a>) -> JsAnyExpression<'a> {
        JsAnyExpression::JsThisExpression(node)
    }
}

impl<'a> From<JsUnaryExpression<'a>> for JsAnyExpression<'a> {
    fn from(node: JsUnaryExpression<'a>) -> (r: JsAnyExpression<'a>)
        ensures
            r == JsAnyExpression::JsUnaryExpression(node),
    {
        JsAnyExpression::JsUnaryExpression(node)
    }
}

impl<'a> vstd::std_specs::convert::FromSpecImpl<JsUnaryExpression<'a>> for JsAnyExpression<'a> {
    open spec fn obeys_from_spec() -> bool {
        true
    }

    open spec fn from_spec(node: JsUnaryExpression<'a>) -> JsAnyExpression<'a> {
        JsAnyExpression::JsUnaryExpression(node)
    }
}

impl<'a> From<JsPreUpdateExpression<'a>> for JsAnyExpression<'a> {
    fn from(node: JsPreUpdateExpression<'a>) -> (r: JsAnyExpression<'a>)
        ensures
            r == JsAnyExpression::JsPreUpdateExpression(node),
    {
        JsAnyExpression::JsPreUpdateExpression(node)
    }
}

impl<'a> vstd::std_specs::convert::FromSpecImpl<JsPreUpdateExpression<'a>> for JsAnyExpression<'a> {
    open spec fn obeys_from_spec() -> bool {
        true
    }

    open spec fn from_spec(node: JsPreUpdateExpression<'a>) -> JsAnyExpression<'a> {
        JsAnyExpression::JsPreUpdateExpression(node)
    }
}

impl<'a> From<JsPostUpdateExpression<'a>> for JsAnyExpression<'a> {
    fn from(node: JsPostUpdateExpression<'a>) -> (r: JsAnyExpression<'a>)
        ensures
            r == JsAnyExpression::JsPostUpdateExpression(node),
    {
        JsAnyExpression::JsPostUpdateExpression(node)
    }
}

impl<'a> vstd::std_specs::convert::FromSpecImpl<JsPostUpdateExpression<'a>> for JsAnyExpression<'a> {
    open spec fn obeys_from_spec() -> bool {
        true
    }

    open spec fn from_spec(node: JsPostUpdateExpression<'a>) -> JsAnyExpression<'a> {
        JsAnyExpression::JsPostUpdateExpression(node)
    }
}

impl<'a> From<JsYieldExpression<'a>> for JsAnyExpression<'a> {
    fn from(node: JsYieldExpression<'a>) -> (r: JsAnyExpression<'a>)
        ensures
            r == JsAnyExpression::JsYieldExpression(node),
    {
        JsAnyExpression::JsYieldExpression(node)
    }
}

impl<'a> vstd::std_specs::convert::FromSpecImpl<JsYieldExpression<'a>> for JsAnyExpression<'a> {
    open spec fn obeys_from_spec() -> bool {
        true
    }

    open spec fn from_spec(node: JsYieldExpression<'a>) -> JsAnyExpression<'a> {
        JsAnyExpression::JsYieldExpression(node)
    }
}

impl<'a> From<Template<'a>> for JsAnyExpression<'a> {
    fn from(node: Template<'a>) -> (r: JsAnyExpression<'a>)
        ensures
            r == JsAnyExpression::Template(node),
    {
        JsAnyExpression::Template(node)
    }
}

impl<'a> vstd::std_specs::convert::FromSpecImpl<Template<'a>> for JsAnyExpression<'a> {
    open spec fn obeys_from_spec() -> bool {
        true
    }

    open spec fn from_spec(node: Template<'a>) -> JsAnyExpression<'a> {
        JsAnyExpression::Template(node)
    }
}

impl<'a> From<NewExpr<'a>> for JsAnyExpression<'a> {
    fn from(node: NewExpr<'a>) -> (r: JsAnyExpression<'a>)
        ensures
            r == JsAnyExpression::NewExpr(node),
    {
        JsAnyExpression::NewExpr(node)
    }
}

impl<'a> vstd::std_specs::convert::FromSpecImpl<NewExpr<'a>> for JsAnyExpression<'a> {
    open spec fn obeys_from_spec() -> bool {
        true
    }

    open spec fn from_spec(node: NewExpr<'a>) -> JsAnyExpression<'a> {
        JsAnyExpression::NewExpr(node)
    }
}

impl<'a> From<CallExpr<'a>> for JsAnyExpression<'a> {
    fn from(node: CallExpr<'a>) -> (r: JsAnyExpression<'a>)
        ensures
            r == JsAnyExpression::CallExpr(node),
    {
        JsAnyExpression::CallExpr(node)
    }
}

impl<'a> vstd::std_specs::convert::FromSpecImpl<CallExpr<'a>> for JsAnyExpression<'a> {
    open spec fn obeys_from_spec() -> bool {
        true
    }

    open spec fn from_spec(node: CallExpr<'a>) -> JsAnyExpression<'a> {
        JsAnyExpression::CallExpr(node)
    }
}

impl<'a> From<NewTarget<'a>> for JsAnyExpression<'a> {
    fn from(node: NewTarget<'a>) -> (r: JsAnyExpression<'a>)
        ensures
            r == JsAnyExpression::NewTarget(node),
    {
        JsAnyExpression::NewTarget(node)
    }
}

impl<'a> vstd::std_specs::convert::FromSpecImpl<NewTarget<'a>> for JsAnyExpression<'a> {
    open spec fn obeys_from_spec() -> bool {
        true
    }

    open spec fn from_spec(node: NewTarget<'a>) -> JsAnyExpression<'a> {
        JsAnyExpression::NewTarget(node)
    }
}

impl<'a> From<ImportMeta<'a>> for JsAnyExpression<'a> {
    fn from(node: ImportMeta<'a>) -> (r: JsAnyExpression<'a>)
        ensures
            r == JsAnyExpression::ImportMeta(node),
    {
        JsAnyExpression::ImportMeta(node)
    }
}

impl<'a> vstd::std_specs::convert::FromSpecImpl<ImportMeta<'a>> for JsAnyExpression<'a> {
    open spec fn obeys_from_spec() -> bool {
        true
    }

    open spec fn from_spec(node: ImportMeta<'a>) -> JsAnyExpression<'a> {
        JsAnyExpression::ImportMeta(node)
    }
}

impl<'a> From<TsNonNull<'a>> for JsAnyExpression<'a> {
    fn from(node: TsNonNull<'a>) -> (r: JsAnyExpression<'a>)
        ensures
            r == JsAnyExpression::TsNonNull(node),
    {
        JsAnyExpression::TsNonNull(node)
    }
}

impl<'a> vstd::std_specs::convert::FromSpecImpl<TsNonNull<'a>> for JsAnyExpression<'a> {
    open spec fn obeys_from_spec() -> bool {
        true
    }

    open spec fn from_spec(node: TsNonNull<'a>) -> JsAnyExpression<'a> {
        JsAnyExpression::TsNonNull(node)
    }
}

impl<'a> From<TsAssertion<'a>> for JsAnyExpression<'a> {
    fn from(node: TsAssertion<'a>) -> (r: JsAnyExpression<'a>)
        ensures
            r == JsAnyExpression::TsAssertion(node),
    {
        JsAnyExpression::TsAssertion(node)
    }
}

impl<'a> vstd::std_specs::convert::FromSpecImpl<TsAssertion<'a>> for JsAnyExpression<'a> {
    open spec fn obeys_from_spec() -> bool {
        true
    }

    open spec fn from_spec(node: TsAssertion<'a>) -> JsAnyExpression<'a> {
        JsAnyExpression::TsAssertion(node)
    }
}

impl<'a> From<TsConstAssertion<'a>> for JsAnyExpression<'a> {
    fn from(node: TsConstAssertion<'a>) -> (r: JsAnyExpression<'a>)
        ensures
            r == JsAnyExpression::TsConstAssertion(node),
    {
        JsAnyExpression::TsConstAssertion(node)
    }
}

impl<'a> vstd::std_specs::convert::FromSpecImpl<TsConstAssertion<'a>> for JsAnyExpression<'a> {
    open spec fn obeys_from_spec() -> bool {
        true
    }

    open spec fn from_spec(node: TsConstAssertion<'a>) -> JsAnyExpression<'a> {
        JsAnyExpression::TsConstAssertion(node)
    }
}

impl<'a> From<JsUnknownExpression<'a>> for JsAnyExpression<'a> {
    fn from(node: JsUnknownExpression<'a>) -> (r: JsAnyExpression<'a>)
        ensures
            r == JsAnyExpression::JsUnknownExpression(node),
    {
        JsAnyExpression::JsUnknownExpression(node)
    }
}

impl<'a> vstd::std_specs::convert::FromSpecImpl<JsUnknownExpression<'a>> for JsAnyExpression<'a> {
    open spec fn obeys_from_spec() -> bool {
        true
    }

    open spec fn from_spec(node: JsUnknownExpression<'a>) -> JsAnyExpression<'a> {
        JsAnyExpression::JsUnknownExpression(node)
    }
}

/// One of the nodes that may stand where the grammar expects `ForHead`.
#[derive(Clone, Copy, Debug)]
pub enum ForHead<'a> {
    JsVariableDeclaration(JsVariableDeclaration<'a>),
    JsAnyExpression(JsAnyExpression<'a>),
}

impl<'a> AstNode<'a> for ForHead<'a> {
    open spec fn kind_ok(kind: SyntaxKind) -> bool {
        ||| <JsVariableDeclaration<'a> as AstNode<'a>>::kind_ok(kind)
        ||| <JsAnyExpression<'a> as AstNode<'a>>::kind_ok(kind)
    }

    closed spec fn syntax_view(&self) -> SyntaxNode<'a> {
        match self {
            ForHead::JsVariableDeclaration(it) => it.syntax_view(),
            ForHead::JsAnyExpression(it) => it.syntax_view(),
        }
    }

    fn can_cast(kind: SyntaxKind) -> (r: bool) {
        matches!(
            kind,
            SyntaxKind::JS_VARIABLE_DECLARATION
        ) || JsAnyExpression::can_cast(kind)
    }

    fn cast(syntax: SyntaxNode<'a>) -> (r: Option<Self>) {
        match syntax.kind() {
            SyntaxKind::JS_VARIABLE_DECLARATION => Some(ForHead::JsVariableDeclaration(JsVariableDeclaration { syntax })),
            _ => {
                if let Some(it) = JsAnyExpression::cast(syntax) {
                    return Some(ForHead::JsAnyExpression(it));
                }
                None
            },
        }
    }

    fn syntax(&self) -> (r: &SyntaxNode<'a>) {
        match self {
            ForHead::JsVariableDeclaration(it) => it.syntax(),
            ForHead::JsAnyExpression(it) => it.syntax(),
        }
    }
}

impl<'a> From<JsVariableDeclaration<'a>> for ForHead<'a> {
    fn from(node: JsVariableDeclaration<'a>) -> (r: ForHead<'a>)
        ensures
            r == ForHead::JsVariableDeclaration(node),
    {
        ForHead::JsVariableDeclaration(node)
    }
}

impl<'a> vstd::std_specs::convert::FromSpecImpl<JsVariableDeclaration<'a>> for ForHead<'a> {
    open spec fn obeys_from_spec() -> bool {
        true
    }

    open spec fn from_spec(node: JsVariableDeclaration<'a>) -> ForHead<'a> {
        ForHead::JsVariableDeclaration(node)
    }
}

impl<'a> From<JsAnyExpression<'a>> for ForHead<'a> {
    fn from(node: JsAnyExpression<'a>) -> (r: ForHead<'a>)
        ensures
            r == ForHead::JsAnyExpression(node),
    {
        ForHead::JsAnyExpression(node)
    }
}

impl<'a> vstd::std_specs::convert::FromSpecImpl<JsAnyExpression<'a>> for ForHead<'a> {
    open spec fn obeys_from_spec() -> bool {
        true
    }

    open spec fn from_spec(node: JsAnyExpression<'a>) -> ForHead<'a> {
        ForHead::JsAnyExpression(node)
    }
}

/// One of the nodes that may stand where the grammar expects `ForLeft`.
#[derive(Clone, Copy, Debug)]
pub enum ForLeft<'a> {
    JsAnyAssignment(JsAnyAssignment<'a>),
    JsVariableDeclaration(JsVariableDeclaration<'a>),
}

impl<'a> AstNode<'a> for ForLeft<'a> {
    open spec fn kind_ok(kind: SyntaxKind) -> bool {
        ||| <JsAnyAssignment<'a> as AstNode<'a>>::kind_ok(kind)
        ||| <JsVariableDeclaration<'a> as AstNode<'a>>::kind_ok(kind)
    }

    closed spec fn syntax_view(&self) -> SyntaxNode<'a> {
        match self {
            ForLeft::JsAnyAssignment(it) => it.syntax_view(),
            ForLeft::JsVariableDeclaration(it) => it.syntax_view(),
        }
    }

    fn can_cast(kind: SyntaxKind) -> (r: bool) {
        matches!(
            kind,
            SyntaxKind::JS_VARIABLE_DECLARATION
        ) || JsAnyAssignment::can_cast(kind)
    }

    fn cast(syntax: SyntaxNode<'a>) -> (r: Option<Self>) {
        match syntax.kind() {
            SyntaxKind::JS_VARIABLE_DECLARATION => Some(ForLeft::JsVariableDeclaration(JsVariableDeclaration { syntax })),
            _ => {
                if let Some(it) = JsAnyAssignment::cast(syntax) {
                    return Some(ForLeft::JsAnyAssignment(it));
                }
                None
            },
        }
    }

    fn syntax(&self) -> (r: &SyntaxNode<'a>) {
        match self {
            ForLeft::JsAnyAssignment(it) => it.syntax(),
            ForLeft::JsVariableDeclaration(it) => it.syntax(),
        }
    }
}

impl<'a> From<JsAnyAssignment<'a>> for ForLeft<'a> {
    fn from(node: JsAnyAssignment<'a>) -> (r: ForLeft<'a>)
        ensures
            r == ForLeft::JsAnyAssignment(node),
    {
        ForLeft::JsAnyAssignment(node)
    }
}

impl<'a> vstd::std_specs::convert::FromSpecImpl<JsAnyAssignment<'a>> for ForLeft<'a> {
    open spec fn obeys_from_spec() -> bool {
        true
    }

    open spec fn from_spec(node: JsAnyAssignment<'a>) -> ForLeft<'a> {
        ForLeft::JsAnyAssignment(node)
    }
}

impl<'a> From<JsVariableDeclaration<'a>> for ForLeft<'a> {
    fn from(node: JsVariableDeclaration<'a>) -> (r: ForLeft<'a>)
        ensures
            r == ForLeft::JsVariableDeclaration(node),
    {
        ForLeft::JsVariableDeclaration(node)
    }
}

impl<'a> vstd::std_specs::convert::FromSpecImpl<JsVariableDeclaration<'a>> for ForLeft<'a> {
    open spec fn obeys_from_spec() -> bool {
        true
    }

    open spec fn from_spec(node: JsVariableDeclaration<'a>) -> ForLeft<'a> {
        ForLeft::JsVariableDeclaration(node)
    }
}

/// One of the nodes that may stand where the grammar expects `JsAnyAssignment`.
#[derive(Clone, Copy, Debug)]
pub enum JsAnyAssignment<'a> {
    JsIdentifierAssignment(JsIdentifierAssignment<'a>),
    JsStaticMemberAssignment(JsStaticMemberAssignment<'a>),
    JsComputedMemberAssignment(JsComputedMemberAssignment<'a>),
    JsParenthesizedAssignment(JsParenthesizedAssignment<'a>),
    JsUnknownAssignment(JsUnknownAssignment<'a>),
}

impl<'a> AstNode<'a> for JsAnyAssignment<'a> {
    open spec fn kind_ok(kind: SyntaxKind) -> bool {
        ||| <JsIdentifierAssignment<'a> as AstNode<'a>>::kind_ok(kind)
        ||| <JsStaticMemberAssignment<'a> as AstNode<'a>>::kind_ok(kind)
        ||| <JsComputedMemberAssignment<'a> as AstNode<'a>>::kind_ok(kind)
        ||| <JsParenthesizedAssignment<'a> as AstNode<'a>>::kind_ok(kind)
        ||| <JsUnknownAssignment<'a> as AstNode<'a>>::kind_ok(kind)
    }

    closed spec fn syntax_view(&self) -> SyntaxNode<'a> {
        match self {
            JsAnyAssignment::JsIdentifierAssignment(it) => it.syntax_view(),
            JsAnyAssignment::JsStaticMemberAssignment(it) => it.syntax_view(),
            JsAnyAssignment::JsComputedMemberAssignment(it) => it.syntax_view(),
            JsAnyAssignment::JsParenthesizedAssignment(it) => it.syntax_view(),
            JsAnyAssignment::JsUnknownAssignment(it) => it.syntax_view(),
        }
    }

    fn can_cast(kind: SyntaxKind) -> (r: bool) {
        matches!(
            kind,
            SyntaxKind::JS_IDENTIFIER_ASSIGNMENT
                | SyntaxKind::JS_STATIC_MEMBER_ASSIGNMENT
                | SyntaxKind::JS_COMPUTED_MEMBER_ASSIGNMENT
                | SyntaxKind::JS_PARENTHESIZED_ASSIGNMENT
                | SyntaxKind::JS_UNKNOWN_ASSIGNMENT
        )
    }

    fn cast(syntax: SyntaxNode<'a>) -> (r: Option<Self>) {
        match syntax.kind() {
            SyntaxKind::JS_IDENTIFIER_ASSIGNMENT => Some(JsAnyAssignment::JsIdentifierAssignment(JsIdentifierAssignment { syntax })),
            SyntaxKind::JS_STATIC_MEMBER_ASSIGNMENT => Some(JsAnyAssignment::JsStaticMemberAssignment(JsStaticMemberAssignment { syntax })),
            SyntaxKind::JS_COMPUTED_MEMBER_ASSIGNMENT => Some(JsAnyAssignment::JsComputedMemberAssignment(JsComputedMemberAssignment { syntax })),
            SyntaxKind::JS_PARENTHESIZED_ASSIGNMENT => Some(JsAnyAssignment::JsParenthesizedAssignment(JsParenthesizedAssignment { syntax })),
            SyntaxKind::JS_UNKNOWN_ASSIGNMENT => Some(JsAnyAssignment::JsUnknownAssignment(JsUnknownAssignment { syntax })),
            _ => {
                None
            },
        }
    }

    fn syntax(&self) -> (r: &SyntaxNode<'a>) {
        match self {
            JsAnyAssignment::JsIdentifierAssignment(it) => it.syntax(),
            JsAnyAssignment::JsStaticMemberAssignment(it) => it.syntax(),
            JsAnyAssignment::JsComputedMemberAssignment(it) => it.syntax(),
            JsAnyAssignment::JsParenthesizedAssignment(it) => it.syntax(),
            JsAnyAssignment::JsUnknownAssignment(it) => it.syntax(),
        }
    }
}

impl<'a> From<JsIdentifierAssignment<'a>> for JsAnyAssignment<'a> {
    fn from(node: JsIdentifierAssignment<'a>) -> (r: JsAnyAssignment<'a>)
        ensures
            r == JsAnyAssignment::JsIdentifierAssignment(node),
    {
        JsAnyAssignment::JsIdentifierAssignment(node)
    }
}

impl<'a> vstd::std_specs::convert::FromSpecImpl<JsIdentifierAssignment<'a>> for JsAnyAssignment<'a> {
    open spec fn obeys_from_spec() -> bool {
        true
    }

    open spec fn from_spec(node: JsIdentifierAssignment<'a>) -> JsAnyAssignment<'a> {
        JsAnyAssignment::JsIdentifierAssignment(node)
    }
}

impl<'a> From<JsStaticMemberAssignment<'a>> for JsAnyAssignment<'a> {
    fn from(node: JsStaticMemberAssignment<'a>) -> (r: JsAnyAssignment<'a>)
        ensures
            r == JsAnyAssignment::JsStaticMemberAssignment(node),
    {
        JsAnyAssignment::JsStaticMemberAssignment(node)
    }
}

impl<'a> vstd::std_specs::convert::FromSpecImpl<JsStaticMemberAssignment<'a>> for JsAnyAssignment<'a> {
    open spec fn obeys_from_spec() -> bool {
        true
    }

    open spec fn from_spec(node: JsStaticMemberAssignment<'a>) -> JsAnyAssignment<'a> {
        JsAnyAssignment::JsStaticMemberAssignment(node)
    }
}

impl<'a> From<JsComputedMemberAssignment<'a>> for JsAnyAssignment<'a> {
    fn from(node: JsComputedMemberAssignment<'a>) -> (r: JsAnyAssignment<'a>)
        ensures
            r == JsAnyAssignment::JsComputedMemberAssignment(node),
    {
        JsAnyAssignment::JsComputedMemberAssignment(node)
    }
}

impl<'a> vstd::std_specs::convert::FromSpecImpl<JsComputedMemberAssignment<'a>> for JsAnyAssignment<'a> {
    open spec fn obeys_from_spec() -> bool {
        true
    }

    open spec fn from_spec(node: JsComputedMemberAssignment<'a>) -> JsAnyAssignment<'a> {
        JsAnyAssignment::JsComputedMemberAssignment(node)
    }
}

impl<'a> From<JsParenthesizedAssignment<'a>> for JsAnyAssignment<'a> {
    fn from(node: JsParenthesizedAssignment<'a>) -> (r: JsAnyAssignment<'a>)
        ensures
            r == JsAnyAssignment::JsParenthesizedAssignment(node),
    {
        JsAnyAssignment::JsParenthesizedAssignment(node)
    }
}

impl<'a> vstd::std_specs::convert::FromSpecImpl<JsParenthesizedAssignment<'a>> for JsAnyAssignment<'a> {
    open spec fn obeys_from_spec() -> bool {
        true
    }

    open spec fn from_spec(node: JsParenthesizedAssignment<'a>) -> JsAnyAssignment<'a> {
        JsAnyAssignment::JsParenthesizedAssignment(node)
    }
}

impl<'a> From<JsUnknownAssignment<'a>> for JsAnyAssignment<'a> {
    fn from(node: JsUnknownAssignment<'a>) -> (r: JsAnyAssignment<'a>)
        ensures
            r == JsAnyAssignment::JsUnknownAssignment(node),
    {
        JsAnyAssignment::JsUnknownAssignment(node)
    }
}

impl<'a> vstd::std_specs::convert::FromSpecImpl<JsUnknownAssignment<'a>> for JsAnyAssignment<'a> {
    open spec fn obeys_from_spec() -> bool {
        true
    }

    open spec fn from_spec(node: JsUnknownAssignment<'a>) -> JsAnyAssignment<'a> {
        JsAnyAssignment::JsUnknownAssignment(node)
    }
}

/// One of the nodes that may stand where the grammar expects `JsAnySwitchClause`.
#[derive(Clone, Copy, Debug)]
pub enum JsAnySwitchClause<'a> {
    JsCaseClause(JsCaseClause<'a>),
    JsDefaultClause(JsDefaultClause<'a>),
}

impl<'a> AstNode<'a> for JsAnySwitchClause<'a> {
    open spec fn kind_ok(kind: SyntaxKind) -> bool {
        ||| <JsCaseClause<'a> as AstNode<'a>>::kind_ok(kind)
        ||| <JsDefaultClause<'a> as AstNode<'a>>::kind_ok(kind)
    }

    closed spec fn syntax_view(&self) -> SyntaxNode<'a> {
        match self {
            JsAnySwitchClause::JsCaseClause(it) => it.syntax_view(),
            JsAnySwitchClause::JsDefaultClause(it) => it.syntax_view(),
        }
    }

    fn can_cast(kind: SyntaxKind) -> (r: bool) {
        matches!(
            kind,
            SyntaxKind::JS_CASE_CLAUSE
                | SyntaxKind::JS_DEFAULT_CLAUSE
        )
    }

    fn cast(syntax: SyntaxNode<'a>) -> (r: Option<Self>) {
        match syntax.kind() {
            SyntaxKind::JS_CASE_CLAUSE => Some(JsAnySwitchClause::JsCaseClause(JsCaseClause { syntax })),
            SyntaxKind::JS_DEFAULT_CLAUSE => Some(JsAnySwitchClause::JsDefaultClause(JsDefaultClause { syntax })),
            _ => {
                None
            },
        }
    }

    fn syntax(&self) -> (r: &SyntaxNode<'a>) {
        match self {
            JsAnySwitchClause::JsCaseClause(it) => it.syntax(),
            JsAnySwitchClause::JsDefaultClause(it) => it.syntax(),
        }
    }
}

impl<'a> From<JsCaseClause<'a>> for JsAnySwitchClause<'a> {
    fn from(node: JsCaseClause<'a>) -> (r: JsAnySwitchClause<'a>)
        ensures
            r == JsAnySwitchClause::JsCaseClause(node),
    {
        JsAnySwitchClause::JsCaseClause(node)
    }
}

impl<'a> vstd::std_specs::convert::FromSpecImpl<JsCaseClause<'a>> for JsAnySwitchClause<'a> {
    open spec fn obeys_from_spec() -> bool {
        true
    }

    open spec fn from_spec(node: JsCaseClause<'a>) -> JsAnySwitchClause<'a> {
        JsAnySwitchClause::JsCaseClause(node)
    }
}

impl<'a> From<JsDefaultClause<'a>> for JsAnySwitchClause<'a> {
    fn from(node: JsDefaultClause<'a>) -> (r: JsAnySwitchClause<'a>)
        ensures
            r == JsAnySwitchClause::JsDefaultClause(node),
    {
        JsAnySwitchClause::JsDefaultClause(node)
    }
}

impl<'a> vstd::std_specs::convert::FromSpecImpl<JsDefaultClause<'a>> for JsAnySwitchClause<'a> {
    open spec fn obeys_from_spec() -> bool {
        true
    }

    open spec fn from_spec(node: JsDefaultClause<'a>) -> JsAnySwitchClause<'a> {
        JsAnySwitchClause::JsDefaultClause(node)
    }
}

/// One of the nodes that may stand where the grammar expects `JsAnyBindingPattern`.
#[derive(Clone, Copy, Debug)]
pub enum JsAnyBindingPattern<'a> {
    JsAnyBinding(JsAnyBinding<'a>),
    JsArrayBindingPattern(JsArrayBindingPattern<'a>),
    JsObjectBindingPattern(JsObjectBindingPattern<'a>),
}

impl<'a> AstNode<'a> for JsAnyBindingPattern<'a> {
    open spec fn kind_ok(kind: SyntaxKind) -> bool {
        ||| <JsAnyBinding<'a> as AstNode<'a>>::kind_ok(kind)
        ||| <JsArrayBindingPattern<'a> as AstNode<'a>>::kind_ok(kind)
        ||| <JsObjectBindingPattern<'a> as AstNode<'a>>::kind_ok(kind)
    }

    closed spec fn syntax_view(&self) -> SyntaxNode<'a> {
        match self {
            JsAnyBindingPattern::JsAnyBinding(it) => it.syntax_view(),
            JsAnyBindingPattern::JsArrayBindingPattern(it) => it.syntax_view(),
            JsAnyBindingPattern::JsObjectBindingPattern(it) => it.syntax_view(),
        }
    }

    fn can_cast(kind: SyntaxKind) -> (r: bool) {
        matches!(
            kind,
            SyntaxKind::JS_ARRAY_BINDING_PATTERN
                | SyntaxKind::JS_OBJECT_BINDING_PATTERN
        ) || JsAnyBinding::can_cast(kind)
    }

    fn cast(syntax: SyntaxNode<'a>) -> (r: Option<Self>) {
        match syntax.kind() {
            SyntaxKind::JS_ARRAY_BINDING_PATTERN => Some(JsAnyBindingPattern::JsArrayBindingPattern(JsArrayBindingPattern { syntax })),
            SyntaxKind::JS_OBJECT_BINDING_PATTERN => Some(JsAnyBindingPattern::JsObjectBindingPattern(JsObjectBindingPattern { syntax })),
            _ => {
                if let Some(it) = JsAnyBinding::cast(syntax) {
                    return Some(JsAnyBindingPattern::JsAnyBinding(it));
                }
                None
            },
        }
    }

    fn syntax(&self) -> (r: &SyntaxNode<'a>) {
        match self {
            JsAnyBindingPattern::JsAnyBinding(it) => it.syntax(),
            JsAnyBindingPattern::JsArrayBindingPattern(it) => it.syntax(),
            JsAnyBindingPattern::JsObjectBindingPattern(it) => it.syntax(),
        }
    }
}

impl<'a> From<JsAnyBinding<'a>> for JsAnyBindingPattern<'a> {
    fn from(node: JsAnyBinding<'a>) -> (r: JsAnyBindingPattern<'a>)
        ensures
            r == JsAnyBindingPattern::JsAnyBinding(node),
    {
        JsAnyBindingPattern::JsAnyBinding(node)
    }
}

impl<'a> vstd::std_specs::convert::FromSpecImpl<JsAnyBinding<'a>> for JsAnyBindingPattern<'a> {
    open spec fn obeys_from_spec() -> bool {
        true
    }

    open spec fn from_spec(node: JsAnyBinding<'a>) -> JsAnyBindingPattern<'a> {
        JsAnyBindingPattern::JsAnyBinding(node)
    }
}

impl<'a> From<JsArrayBindingPattern<'a>> for JsAnyBindingPattern<'a> {
    fn from(node: JsArrayBindingPattern<'a>) -> (r: JsAnyBindingPattern<'a>)
        ensures
            r == JsAnyBindingPattern::JsArrayBindingPattern(node),
    {
        JsAnyBindingPattern::JsArrayBindingPattern(node)
    }
}

impl<'a> vstd::std_specs::convert::FromSpecImpl<JsArrayBindingPattern<'a>> for JsAnyBindingPattern<'a> {
    open spec fn obeys_from_spec() -> bool {
        true
    }

    open spec fn from_spec(node: JsArrayBindingPattern<'a>) -> JsAnyBindingPattern<'a> {
        JsAnyBindingPattern::JsArrayBindingPattern(node)
    }
}

impl<'a> From<JsObjectBindingPattern<'a>> for JsAnyBindingPattern<'a> {
    fn from(node: JsObjectBindingPattern<'a>) -> (r: JsAnyBindingPattern<'a>)
        ensures
            r == JsAnyBindingPattern::JsObjectBindingPattern(node),
    {
        JsAnyBindingPattern::JsObjectBindingPattern(node)
    }
}

impl<'a> vstd::std_specs::convert::FromSpecImpl<JsObjectBindingPattern<'a>> for JsAnyBindingPattern<'a> {
    open spec fn obeys_from_spec() -> bool {
        true
    }

    open spec fn from_spec(node: JsObjectBindingPattern<'a>) -> JsAnyBindingPattern<'a> {
        JsAnyBindingPattern::JsObjectBindingPattern(node)
    }
}

/// One of the nodes that may stand where the grammar expects `JsAnyLiteralExpression`.
#[derive(Clone, Copy, Debug)]
pub enum JsAnyLiteralExpression<'a> {
    JsStringLiteralExpression(JsStringLiteralExpression<'a>),
    JsNumberLiteralExpression(JsNumberLiteralExpression<'a>),
    JsBigIntLiteralExpression(JsBigIntLiteralExpression<'a>),
    JsBooleanLiteralExpression(JsBooleanLiteralExpression<'a>),
    JsNullLiteralExpression(JsNullLiteralExpression<'a>),
    JsRegexLiteralExpression(JsRegexLiteralExpression<'a>),
}

impl<'a> AstNode<'a> for JsAnyLiteralExpression<'a> {
    open spec fn kind_ok(kind: SyntaxKind) -> bool {
        ||| <JsStringLiteralExpression<'a> as AstNode<'a>>::kind_ok(kind)
        ||| <JsNumberLiteralExpression<'a> as AstNode<'a>>::kind_ok(kind)
        ||| <JsBigIntLiteralExpression<'a> as AstNode<'a>>::kind_ok(kind)
        ||| <JsBooleanLiteralExpression<'a> as AstNode<'a>>::kind_ok(kind)
        ||| <JsNullLiteralExpression<'a> as AstNode<'a>>::kind_ok(kind)
        ||| <JsRegexLiteralExpression<'a> as AstNode<'a>>::kind_ok(kind)
    }

    closed spec fn syntax_view(&self) -> SyntaxNode<'a> {
        match self {
            JsAnyLiteralExpression::JsStringLiteralExpression(it) => it.syntax_view(),
            JsAnyLiteralExpression::JsNumberLiteralExpression(it) => it.syntax_view(),
            JsAnyLiteralExpression::JsBigIntLiteralExpression(it) => it.syntax_view(),
            JsAnyLiteralExpression::JsBooleanLiteralExpression(it) => it.syntax_view(),
            JsAnyLiteralExpression::JsNullLiteralExpression(it) => it.syntax_view(),
            JsAnyLiteralExpression::JsRegexLiteralExpression(it) => it.syntax_view(),
        }
    }

    fn can_cast(kind: SyntaxKind) -> (r: bool) {
        matches!(
            kind,
            SyntaxKind::JS_STRING_LITERAL_EXPRESSION
                | SyntaxKind::JS_NUMBER_LITERAL_EXPRESSION
                | SyntaxKind::JS_BIG_INT_LITERAL_EXPRESSION
                | SyntaxKind::JS_BOOLEAN_LITERAL_EXPRESSION
                | SyntaxKind::JS_NULL_LITERAL_EXPRESSION
                | SyntaxKind::JS_REGEX_LITERAL_EXPRESSION
        )
    }

    fn cast(syntax: SyntaxNode<'a>) -> (r: Option<Self>) {
        match syntax.kind() {
            SyntaxKind::JS_STRING_LITERAL_EXPRESSION => Some(JsAnyLiteralExpression::JsStringLiteralExpression(JsStringLiteralExpression { syntax })),
            SyntaxKind::JS_NUMBER_LITERAL_EXPRESSION => Some(JsAnyLiteralExpression::JsNumberLiteralExpression(JsNumberLiteralExpression { syntax })),
            SyntaxKind::JS_BIG_INT_LITERAL_EXPRESSION => Some(JsAnyLiteralExpression::JsBigIntLiteralExpression(JsBigIntLiteralExpression { syntax })),
            SyntaxKind::JS_BOOLEAN_LITERAL_EXPRESSION => Some(JsAnyLiteralExpression::JsBooleanLiteralExpression(JsBooleanLiteralExpression { syntax })),
            SyntaxKind::JS_NULL_LITERAL_EXPRESSION => Some(JsAnyLiteralExpression::JsNullLiteralExpression(JsNullLiteralExpression { syntax })),
            SyntaxKind::JS_REGEX_LITERAL_EXPRESSION => Some(JsAnyLiteralExpression::JsRegexLiteralExpression(JsRegexLiteralExpression { syntax })),
            _ => {
                None
            },
        }
    }

    fn syntax(&self) -> (r: &SyntaxNode<'a>) {
        match self {
            JsAnyLiteralExpression::JsStringLiteralExpression(it) => it.syntax(),
            JsAnyLiteralExpression::JsNumberLiteralExpression(it) => it.syntax(),
            JsAnyLiteralExpression::JsBigIntLiteralExpression(it) => it.syntax(),
            JsAnyLiteralExpression::JsBooleanLiteralExpression(it) => it.syntax(),
            JsAnyLiteralExpression::JsNullLiteralExpression(it) => it.syntax(),
            JsAnyLiteralExpression::JsRegexLiteralExpression(it) => it.syntax(),
        }
    }
}

impl<'a> From<JsStringLiteralExpression<'a>> for JsAnyLiteralExpression<'a> {
    fn from(node: JsStringLiteralExpression<'a>) -> (r: JsAnyLiteralExpression<'a>)
        ensures
            r == JsAnyLiteralExpression::JsStringLiteralExpression(node),
    {
        JsAnyLiteralExpression::JsStringLiteralExpression(node)
    }
}

impl<'a> vstd::std_specs::convert::FromSpecImpl<JsStringLiteralExpression<'a>> for JsAnyLiteralExpression<'a> {
    open spec fn obeys_from_spec() -> bool {
        true
    }

    open spec fn from_spec(node: JsStringLiteralExpression<'a>) -> JsAnyLiteralExpression<'a> {
        JsAnyLiteralExpression::JsStringLiteralExpression(node)
    }
}

impl<'a> From<JsNumberLiteralExpression<'a>> for JsAnyLiteralExpression<'a> {
    fn from(node: JsNumberLiteralExpression<'a>) -> (r: JsAnyLiteralExpression<'a>)
        ensures
            r == JsAnyLiteralExpression::JsNumberLiteralExpression(node),
    {
        JsAnyLiteralExpression::JsNumberLiteralExpression(node)
    }
}

impl<'a> vstd::std_specs::convert::FromSpecImpl<JsNumberLiteralExpression<'a>> for JsAnyLiteralExpression<'a> {
    open spec fn obeys_from_spec() -> bool {
        true
    }

    open spec fn from_spec(node: JsNumberLiteralExpression<'a>) -> JsAnyLiteralExpression<'a> {
        JsAnyLiteralExpression::JsNumberLiteralExpression(node)
    }
}

impl<'a> From<JsBigIntLiteralExpression<'a>> for JsAnyLiteralExpression<'a> {
    fn from(node: JsBigIntLiteralExpression<'a>) -> (r: JsAnyLiteralExpression<'a>)
        ensures
            r == JsAnyLiteralExpression::JsBigIntLiteralExpression(node),
    {
        JsAnyLiteralExpression::JsBigIntLiteralExpression(node)
    }
}

impl<'a> vstd::std_specs::convert::FromSpecImpl<JsBigIntLiteralExpression<'a>> for JsAnyLiteralExpression<'a> {
    open spec fn obeys_from_spec() -> bool {
        true
    }

    open spec fn from_spec(node: JsBigIntLiteralExpression<'a>) -> JsAnyLiteralExpression<'a> {
        JsAnyLiteralExpression::JsBigIntLiteralExpression(node)
    }
}

impl<'a> From<JsBooleanLiteralExpression<'a>> for JsAnyLiteralExpression<'a> {
    fn from(node: JsBooleanLiteralExpression<'a>) -> (r: JsAnyLiteralExpression<'a>)
        ensures
            r == JsAnyLiteralExpression::JsBooleanLiteralExpression(node),
    {
        JsAnyLiteralExpression::JsBooleanLiteralExpression(node)
    }
}

impl<'a> vstd::std_specs::convert::FromSpecImpl<JsBooleanLiteralExpression<'a>> for JsAnyLiteralExpression<'a> {
    open spec fn obeys_from_spec() -> bool {
        true
    }

    open spec fn from_spec(node: JsBooleanLiteralExpression<'a>) -> JsAnyLiteralExpression<'a> {
        JsAnyLiteralExpression::JsBooleanLiteralExpression(node)
    }
}

impl<'a> From<JsNullLiteralExpression<'a>> for JsAnyLiteralExpression<'a> {
    fn from(node: JsNullLiteralExpression<'a>) -> (r: JsAnyLiteralExpression<'a>)
        ensures
            r == JsAnyLiteralExpression::JsNullLiteralExpression(node),
    {
        JsAnyLiteralExpression::JsNullLiteralExpression(node)
    }
}

impl<'a> vstd::std_specs::convert::FromSpecImpl<JsNullLiteralExpression<'a>> for JsAnyLiteralExpression<'a> {
    open spec fn obeys_from_spec() -> bool {
        true
    }

    open spec fn from_spec(node: JsNullLiteralExpression<'a>) -> JsAnyLiteralExpression<'a> {
        JsAnyLiteralExpression::JsNullLiteralExpression(node)
    }
}

impl<'a> From<JsRegexLiteralExpression<'a>> for JsAnyLiteralExpression<'a> {
    fn from(node: JsRegexLiteralExpression<'a>) -> (r: JsAnyLiteralExpression<'a>)
        ensures
            r == JsAnyLiteralExpression::JsRegexLiteralExpression(node),
    {
        JsAnyLiteralExpression::JsRegexLiteralExpression(node)
    }
}

impl<'a> vstd::std_specs::convert::FromSpecImpl<JsRegexLiteralExpression<'a>> for JsAnyLiteralExpression<'a> {
    open spec fn obeys_from_spec() -> bool {
        true
    }

    open spec fn from_spec(node: JsRegexLiteralExpression<'a>) -> JsAnyLiteralExpression<'a> {
        JsAnyLiteralExpression::JsRegexLiteralExpression(node)
    }
}

/// One of the nodes that may stand where the grammar expects `JsAnyBinding`.
#[derive(Clone, Copy, Debug)]
pub enum JsAnyBinding<'a> {
    JsIdentifierBinding(JsIdentifierBinding<'a>),
    JsUnknownBinding(JsUnknownBinding<'a>),
}

impl<'a> AstNode<'a> for JsAnyBinding<'a> {
    open spec fn kind_ok(kind: SyntaxKind) -> bool {
        ||| <JsIdentifierBinding<'a> as AstNode<'a>>::kind_ok(kind)
        ||| <JsUnknownBinding<'a> as AstNode<'a>>::kind_ok(kind)
    }

    closed spec fn syntax_view(&self) -> SyntaxNode<'a> {
        match self {
            JsAnyBinding::JsIdentifierBinding(it) => it.syntax_view(),
            JsAnyBinding::JsUnknownBinding(it) => it.syntax_view(),
        }
    }

    fn can_cast(kind: SyntaxKind) -> (r: bool) {
        matches!(
            kind,
            SyntaxKind::JS_IDENTIFIER_BINDING
                | SyntaxKind::JS_UNKNOWN_BINDING
        )
    }

    fn cast(syntax: SyntaxNode<'a>) -> (r: Option<Self>) {
        match syntax.kind() {
            SyntaxKind::JS_IDENTIFIER_BINDING => Some(JsAnyBinding::JsIdentifierBinding(JsIdentifierBinding { syntax })),
            SyntaxKind::JS_UNKNOWN_BINDING => Some(JsAnyBinding::JsUnknownBinding(JsUnknownBinding { syntax })),
            _ => {
                None
            },
        }
    }

    fn syntax(&self) -> (r: &SyntaxNode<'a>) {
        match self {
            JsAnyBinding::JsIdentifierBinding(it) => it.syntax(),
            JsAnyBinding::JsUnknownBinding(it) => it.syntax(),
        }
    }
}

impl<'a> From<JsIdentifierBinding<'a>> for JsAnyBinding<'a> {
    fn from(node: JsIdentifierBinding<'a>) -> (r: JsAnyBinding<'a>)
        ensures
            r == JsAnyBinding::JsIdentifierBinding(node),
    {
        JsAnyBinding::JsIdentifierBinding(node)
    }
}

impl<'a> vstd::std_specs::convert::FromSpecImpl<JsIdentifierBinding<'a>> for JsAnyBinding<'a> {
    open spec fn obeys_from_spec() -> bool {
        true
    }

    open spec fn from_spec(node: JsIdentifierBinding<'a>) -> JsAnyBinding<'a> {
        JsAnyBinding::JsIdentifierBinding(node)
    }
}

impl<'a> From<JsUnknownBinding<'a>> for JsAnyBinding<'a> {
    fn from(node: JsUnknownBinding<'a>) -> (r: JsAnyBinding<'a>)
        ensures
            r == JsAnyBinding::JsUnknownBinding(node),
    {
        JsAnyBinding::JsUnknownBinding(node)
    }
}

impl<'a> vstd::std_specs::convert::FromSpecImpl<JsUnknownBinding<'a>> for JsAnyBinding<'a> {
    open spec fn obeys_from_spec() -> bool {
        true
    }

    open spec fn from_spec(node: JsUnknownBinding<'a>) -> JsAnyBinding<'a> {
        JsAnyBinding::JsUnknownBinding(node)
    }
}

/// One of the nodes that may stand where the grammar expects `JsAnyArrowFunctionParameters`.
#[derive(Clone, Copy, Debug)]
pub enum JsAnyArrowFunctionParameters<'a> {
    JsParameterList(JsParameterList<'a>),
    JsAnyBinding(JsAnyBinding<'a>),
}

impl<'a> AstNode<'a> for JsAnyArrowFunctionParameters<'a> {
    open spec fn kind_ok(kind: SyntaxKind) -> bool {
        ||| <JsParameterList<'a> as AstNode<'a>>::kind_ok(kind)
        ||| <JsAnyBinding<'a> as AstNode<'a>>::kind_ok(kind)
    }

    closed spec fn syntax_view(&self) -> SyntaxNode<'a> {
        match self {
            JsAnyArrowFunctionParameters::JsParameterList(it) => it.syntax_view(),
            JsAnyArrowFunctionParameters::JsAnyBinding(it) => it.syntax_view(),
        }
    }

    fn can_cast(kind: SyntaxKind) -> (r: bool) {
        matches!(
            kind,
            SyntaxKind::JS_PARAMETER_LIST
        ) || JsAnyBinding::can_cast(kind)
    }

    fn cast(syntax: SyntaxNode<'a>) -> (r: Option<Self>) {
        match syntax.kind() {
            SyntaxKind::JS_PARAMETER_LIST => Some(JsAnyArrowFunctionParameters::JsParameterList(JsParameterList { syntax })),
            _ => {
                if let Some(it) = JsAnyBinding::cast(syntax) {
                    return Some(JsAnyArrowFunctionParameters::JsAnyBinding(it));
                }
                None
            },
        }
    }

    fn syntax(&self) -> (r: &SyntaxNode<'a>) {
        match self {
            JsAnyArrowFunctionParameters::JsParameterList(it) => it.syntax(),
            JsAnyArrowFunctionParameters::JsAnyBinding(it) => it.syntax(),
        }
    }
}

impl<'a> From<JsParameterList<'a>> for JsAnyArrowFunctionParameters<'a> {
    fn from(node: JsParameterList<'a>) -> (r: JsAnyArrowFunctionParameters<'a>)
        ensures
            r == JsAnyArrowFunctionParameters::JsParameterList(node),
    {
        JsAnyArrowFunctionParameters::JsParameterList(node)
    }
}

impl<'a> vstd::std_specs::convert::FromSpecImpl<JsParameterList<'a>> for JsAnyArrowFunctionParameters<'a> {
    open spec fn obeys_from_spec() -> bool {
        true
    }

    open spec fn from_spec(node: JsParameterList<'a>) -> JsAnyArrowFunctionParameters<'a> {
        JsAnyArrowFunctionParameters::JsParameterList(node)
    }
}

impl<'a> From<JsAnyBinding<'a>> for JsAnyArrowFunctionParameters<'a> {
    fn from(node: JsAnyBinding<'a>) -> (r: JsAnyArrowFunctionParameters<'a>)
        ensures
            r == JsAnyArrowFunctionParameters::JsAnyBinding(node),
    {
        JsAnyArrowFunctionParameters::JsAnyBinding(node)
    }
}

impl<'a> vstd::std_specs::convert::FromSpecImpl<JsAnyBinding<'a>> for JsAnyArrowFunctionParameters<'a> {
    open spec fn obeys_from_spec() -> bool {
        true
    }

    open spec fn from_spec(node: JsAnyBinding<'a>) -> JsAnyArrowFunctionParameters<'a> {
        JsAnyArrowFunctionParameters::JsAnyBinding(node)
    }
}

/// One of the nodes that may stand where the grammar expects `JsAnyArrowFunctionBody`.
#[derive(Clone, Copy, Debug)]
pub enum JsAnyArrowFunctionBody<'a> {
    JsAnyExpression(JsAnyExpression<'a>),
    JsFunctionBody(JsFunctionBody<'a>),
}

impl<'a> AstNode<'a> for JsAnyArrowFunctionBody<'a> {
    open spec fn kind_ok(kind: SyntaxKind) -> bool {
        ||| <JsAnyExpression<'a> as AstNode<'a>>::kind_ok(kind)
        ||| <JsFunctionBody<'a> as AstNode<'a>>::kind_ok(kind)
    }

    closed spec fn syntax_view(&self) -> SyntaxNode<'a> {
        match self {
            JsAnyArrowFunctionBody::JsAnyExpression(it) => it.syntax_view(),
            JsAnyArrowFunctionBody::JsFunctionBody(it) => it.syntax_view(),
        }
    }

    fn can_cast(kind: SyntaxKind) -> (r: bool) {
        matches!(
            kind,
            SyntaxKind::JS_FUNCTION_BODY
        ) || JsAnyExpression::can_cast(kind)
    }

    fn cast(syntax: SyntaxNode<'a>) -> (r: Option<Self>) {
        match syntax.kind() {
            SyntaxKind::JS_FUNCTION_BODY => Some(JsAnyArrowFunctionBody::JsFunctionBody(JsFunctionBody { syntax })),
            _ => {
                if let Some(it) = JsAnyExpression::cast(syntax) {
                    return Some(JsAnyArrowFunctionBody::JsAnyExpression(it));
                }
                None
            },
        }
    }

    fn syntax(&self) -> (r: &SyntaxNode<'a>) {
        match self {
            JsAnyArrowFunctionBody::JsAnyExpression(it) => it.syntax(),
            JsAnyArrowFunctionBody::JsFunctionBody(it) => it.syntax(),
        }
    }
}

impl<'a> From<JsAnyExpression<'a>> for JsAnyArrowFunctionBody<'a> {
    fn from(node: JsAnyExpression<'a>) -> (r: JsAnyArrowFunctionBody<'a>)
        ensures
            r == JsAnyArrowFunctionBody::JsAnyExpression(node),
    {
        JsAnyArrowFunctionBody::JsAnyExpression(node)
    }
}

impl<'a> vstd::std_specs::convert::FromSpecImpl<JsAnyExpression<'a>> for JsAnyArrowFunctionBody<'a> {
    open spec fn obeys_from_spec() -> bool {
        true
    }

    open spec fn from_spec(node: JsAnyExpression<'a>) -> JsAnyArrowFunctionBody<'a> {
        JsAnyArrowFunctionBody::JsAnyExpression(node)
    }
}

impl<'a> From<JsFunctionBody<'a>> for JsAnyArrowFunctionBody<'a> {
    fn from(node: JsFunctionBody<'a>) -> (r: JsAnyArrowFunctionBody<'a>)
        ensures
            r == JsAnyArrowFunctionBody::JsFunctionBody(node),
    {
        JsAnyArrowFunctionBody::JsFunctionBody(node)
    }
}

impl<'a> vstd::std_specs::convert::FromSpecImpl<JsFunctionBody<'a>> for JsAnyArrowFunctionBody<'a> {
    open spec fn obeys_from_spec() -> bool {
        true
    }

    open spec fn from_spec(node: JsFunctionBody<'a>) -> JsAnyArrowFunctionBody<'a> {
        JsAnyArrowFunctionBody::JsFunctionBody(node)
    }
}

/// One of the nodes that may stand where the grammar expects `JsAnyArrayElement`.
#[derive(Clone, Copy, Debug)]
pub enum JsAnyArrayElement<'a> {
    JsAnyExpression(JsAnyExpression<'a>),
    JsSpread(JsSpread<'a>),
    JsArrayHole(JsArrayHole<'a>),
}

impl<'a> AstNode<'a> for JsAnyArrayElement<'a> {
    open spec fn kind_ok(kind: SyntaxKind) -> bool {
        ||| <JsAnyExpression<'a> as AstNode<'a>>::kind_ok(kind)
        ||| <JsSpread<'a> as AstNode<'a>>::kind_ok(kind)
        ||| <JsArrayHole<'a> as AstNode<'a>>::kind_ok(kind)
    }

    closed spec fn syntax_view(&self) -> SyntaxNode<'a> {
        match self {
            JsAnyArrayElement::JsAnyExpression(it) => it.syntax_view(),
            JsAnyArrayElement::JsSpread(it) => it.syntax_view(),
            JsAnyArrayElement::JsArrayHole(it) => it.syntax_view(),
        }
    }

    fn can_cast(kind: SyntaxKind) -> (r: bool) {
        matches!(
            kind,
            SyntaxKind::JS_SPREAD
                | SyntaxKind::JS_ARRAY_HOLE
        ) || JsAnyExpression::can_cast(kind)
    }

    fn cast(syntax: SyntaxNode<'a>) -> (r: Option<Self>) {
        match syntax.kind() {
            SyntaxKind::JS_SPREAD => Some(JsAnyArrayElement::JsSpread(JsSpread { syntax })),
            SyntaxKind::JS_ARRAY_HOLE => Some(JsAnyArrayElement::JsArrayHole(JsArrayHole { syntax })),
            _ => {
                if let Some(it) = JsAnyExpression::cast(syntax) {
                    return Some(JsAnyArrayElement::JsAnyExpression(it));
                }
                None
            },
        }
    }

    fn syntax(&self) -> (r: &SyntaxNode<'a>) {
        match self {
            JsAnyArrayElement::JsAnyExpression(it) => it.syntax(),
            JsAnyArrayElement::JsSpread(it) => it.syntax(),
            JsAnyArrayElement::JsArrayHole(it) => it.syntax(),
        }
    }
}

impl<'a> From<JsAnyExpression<'a>> for JsAnyArrayElement<'a> {
    fn from(node: JsAnyExpression<'a>) -> (r: JsAnyArrayElement<'a>)
        ensures
            r == JsAnyArrayElement::JsAnyExpression(node),
    {
        JsAnyArrayElement::JsAnyExpression(node)
    }
}

impl<'a> vstd::std_specs::convert::FromSpecImpl<JsAnyExpression<'a>> for JsAnyArrayElement<'a> {
    open spec fn obeys_from_spec() -> bool {
        true
    }

    open spec fn from_spec(node: JsAnyExpression<'a>) -> JsAnyArrayElement<'a> {
        JsAnyArrayElement::JsAnyExpression(node)
    }
}

impl<'a> From<JsSpread<'a>> for JsAnyArrayElement<'a> {
    fn from(node: JsSpread<'a>) -> (r: JsAnyArrayElement<'a>)
        ensures
            r == JsAnyArrayElement::JsSpread(node),
    {
        JsAnyArrayElement::JsSpread(node)
    }
}

impl<'a> vstd::std_specs::convert::FromSpecImpl<JsSpread<'a>> for JsAnyArrayElement<'a> {
    open spec fn obeys_from_spec() -> bool {
        true
    }

    open spec fn from_spec(node: JsSpread<'a>) -> JsAnyArrayElement<'a> {
        JsAnyArrayElement::JsSpread(node)
    }
}

impl<'a> From<JsArrayHole<'a>> for JsAnyArrayElement<'a> {
    fn from(node: JsArrayHole<'a>) -> (r: JsAnyArrayElement<'a>)
        ensures
            r == JsAnyArrayElement::JsArrayHole(node),
    {
        JsAnyArrayElement::JsArrayHole(node)
    }
}

impl<'a> vstd::std_specs::convert::FromSpecImpl<JsArrayHole<'a>> for JsAnyArrayElement<'a> {
    open spec fn obeys_from_spec() -> bool {
        true
    }

    open spec fn from_spec(node: JsArrayHole<'a>) -> JsAnyArrayElement<'a> {
        JsAnyArrayElement::JsArrayHole(node)
    }
}

/// One of the nodes that may stand where the grammar expects `JsAnyAssignmentPattern`.
#[derive(Clone, Copy, Debug)]
pub enum JsAnyAssignmentPattern<'a> {
    JsAnyAssignment(JsAnyAssignment<'a>),
    JsArrayAssignmentPattern(JsArrayAssignmentPattern<'a>),
    JsObjectAssignmentPattern(JsObjectAssignmentPattern<'a>),
}

impl<'a> AstNode<'a> for JsAnyAssignmentPattern<'a> {
    open spec fn kind_ok(kind: SyntaxKind) -> bool {
        ||| <JsAnyAssignment<'a> as AstNode<'a>>::kind_ok(kind)
        ||| <JsArrayAssignmentPattern<'a> as AstNode<'a>>::kind_ok(kind)
        ||| <JsObjectAssignmentPattern<'a> as AstNode<'a>>::kind_ok(kind)
    }

    closed spec fn syntax_view(&self) -> SyntaxNode<'a> {
        match self {
            JsAnyAssignmentPattern::JsAnyAssignment(it) => it.syntax_view(),
            JsAnyAssignmentPattern::JsArrayAssignmentPattern(it) => it.syntax_view(),
            JsAnyAssignmentPattern::JsObjectAssignmentPattern(it) => it.syntax_view(),
        }
    }

    fn can_cast(kind: SyntaxKind) -> (r: bool) {
        matches!(
            kind,
            SyntaxKind::JS_ARRAY_ASSIGNMENT_PATTERN
                | SyntaxKind::JS_OBJECT_ASSIGNMENT_PATTERN
        ) || JsAnyAssignment::can_cast(kind)
    }

    fn cast(syntax: SyntaxNode<'a>) -> (r: Option<Self>) {
        match syntax.kind() {
            SyntaxKind::JS_ARRAY_ASSIGNMENT_PATTERN => Some(JsAnyAssignmentPattern::JsArrayAssignmentPattern(JsArrayAssignmentPattern { syntax })),
            SyntaxKind::JS_OBJECT_ASSIGNMENT_PATTERN => Some(JsAnyAssignmentPattern::JsObjectAssignmentPattern(JsObjectAssignmentPattern { syntax })),
            _ => {
                if let Some(it) = JsAnyAssignment::cast(syntax) {
                    return Some(JsAnyAssignmentPattern::JsAnyAssignment(it));
                }
                None
            },
        }
    }

    fn syntax(&self) -> (r: &SyntaxNode<'a>) {
        match self {
            JsAnyAssignmentPattern::JsAnyAssignment(it) => it.syntax(),
            JsAnyAssignmentPattern::JsArrayAssignmentPattern(it) => it.syntax(),
            JsAnyAssignmentPattern::JsObjectAssignmentPattern(it) => it.syntax(),
        }
    }
}

impl<'a> From<JsAnyAssignment<'a>> for JsAnyAssignmentPattern<'a> {
    fn from(node: JsAnyAssignment<'a>) -> (r: JsAnyAssignmentPattern<'a>)
        ensures
            r == JsAnyAssignmentPattern::JsAnyAssignment(node),
    {
        JsAnyAssignmentPattern::JsAnyAssignment(node)
    }
}

impl<'a> vstd::std_specs::convert::FromSpecImpl<JsAnyAssignment<'a>> for JsAnyAssignmentPattern<'a> {
    open spec fn obeys_from_spec() -> bool {
        true
    }

    open spec fn from_spec(node: JsAnyAssignment<'a>) -> JsAnyAssignmentPattern<'a> {
        JsAnyAssignmentPattern::JsAnyAssignment(node)
    }
}

impl<'a> From<JsArrayAssignmentPattern<'a>> for JsAnyAssignmentPattern<'a> {
    fn from(node: JsArrayAssignmentPattern<'a>) -> (r: JsAnyAssignmentPattern<'a>)
        ensures
            r == JsAnyAssignmentPattern::JsArrayAssignmentPattern(node),
    {
        JsAnyAssignmentPattern::JsArrayAssignmentPattern(node)
    }
}

impl<'a> vstd::std_specs::convert::FromSpecImpl<JsArrayAssignmentPattern<'a>> for JsAnyAssignmentPattern<'a> {
    open spec fn obeys_from_spec() -> bool {
        true
    }

    open spec fn from_spec(node: JsArrayAssignmentPattern<'a>) -> JsAnyAssignmentPattern<'a> {
        JsAnyAssignmentPattern::JsArrayAssignmentPattern(node)
    }
}

impl<'a> From<JsObjectAssignmentPattern<'a>> for JsAnyAssignmentPattern<'a> {
    fn from(node: JsObjectAssignmentPattern<'a>) -> (r: JsAnyAssignmentPattern<'a>)
        ensures
            r == JsAnyAssignmentPattern::JsObjectAssignmentPattern(node),
    {
        JsAnyAssignmentPattern::JsObjectAssignmentPattern(node)
    }
}

impl<'a> vstd::std_specs::convert::FromSpecImpl<JsObjectAssignmentPattern<'a>> for JsAnyAssignmentPattern<'a> {
    open spec fn obeys_from_spec() -> bool {
        true
    }

    open spec fn from_spec(node: JsObjectAssignmentPattern<'a>) -> JsAnyAssignmentPattern<'a> {
        JsAnyAssignmentPattern::JsObjectAssignmentPattern(node)
    }
}

/// One of the nodes that may stand where the grammar expects `JsAnyName`.
#[derive(Clone, Copy, Debug)]
pub enum JsAnyName<'a> {
    JsName(JsName<'a>),
    JsPrivateName(JsPrivateName<'a>),
}

impl<'a> AstNode<'a> for JsAnyName<'a> {
    open spec fn kind_ok(kind: SyntaxKind) -> bool {
        ||| <JsName<'a> as AstNode<'a>>::kind_ok(kind)
        ||| <JsPrivateName<'a> as AstNode<'a>>::kind_ok(kind)
    }

    closed spec fn syntax_view(&self) -> SyntaxNode<'a> {
        match self {
            JsAnyName::JsName(it) => it.syntax_view(),
            JsAnyName::JsPrivateName(it) => it.syntax_view(),
        }
    }

    fn can_cast(kind: SyntaxKind) -> (r: bool) {
        matches!(
            kind,
            SyntaxKind::JS_NAME
                | SyntaxKind::JS_PRIVATE_NAME
        )
    }

    fn cast(syntax: SyntaxNode<'a>) -> (r: Option<Self>) {
        match syntax.kind() {
            SyntaxKind::JS_NAME => Some(JsAnyName::JsName(JsName { syntax })),
            SyntaxKind::JS_PRIVATE_NAME => Some(JsAnyName::JsPrivateName(JsPrivateName { syntax })),
            _ => {
                None
            },
        }
    }

    fn syntax(&self) -> (r: &SyntaxNode<'a>) {
        match self {
            JsAnyName::JsName(it) => it.syntax(),
            JsAnyName::JsPrivateName(it) => it.syntax(),
        }
    }
}

impl<'a> From<JsName<'a>> for JsAnyName<'a> {
    fn from(node: JsName<'a>) -> (r: JsAnyName<'a>)
        ensures
            r == JsAnyName::JsName(node),
    {
        JsAnyName::JsName(node)
    }
}

impl<'a> vstd::std_specs::convert::FromSpecImpl<JsName<'a>> for JsAnyName<'a> {
    open spec fn obeys_from_spec() -> bool {
        true
    }

    open spec fn from_spec(node: JsName<'a>) -> JsAnyName<'a> {
        JsAnyName::JsName(node)
    }
}

impl<'a> From<JsPrivateName<'a>> for JsAnyName<'a> {
    fn from(node: JsPrivateName<'a>) -> (r: JsAnyName<'a>)
        ensures
            r == JsAnyName::JsPrivateName(node),
    {
        JsAnyName::JsPrivateName(node)
    }
}

impl<'a> vstd::std_specs::convert::FromSpecImpl<JsPrivateName<'a>> for JsAnyName<'a> {
    open spec fn obeys_from_spec() -> bool {
        true
    }

    open spec fn from_spec(node: JsPrivateName<'a>) -> JsAnyName<'a> {
        JsAnyName::JsPrivateName(node)
    }
}

/// One of the nodes that may stand where the grammar expects `JsAnyObjectMemberName`.
#[derive(Clone, Copy, Debug)]
pub enum JsAnyObjectMemberName<'a> {
    JsLiteralMemberName(JsLiteralMemberName<'a>),
    JsComputedMemberName(JsComputedMemberName<'a>),
}

impl<'a> AstNode<'a> for JsAnyObjectMemberName<'a> {
    open spec fn kind_ok(kind: SyntaxKind) -> bool {
        ||| <JsLiteralMemberName<'a> as AstNode<'a>>::kind_ok(kind)
        ||| <JsComputedMemberName<'a> as AstNode<'a>>::kind_ok(kind)
    }

    closed spec fn syntax_view(&self) -> SyntaxNode<'a> {
        match self {
            JsAnyObjectMemberName::JsLiteralMemberName(it) => it.syntax_view(),
            JsAnyObjectMemberName::JsComputedMemberName(it) => it.syntax_view(),
        }
    }

    fn can_cast(kind: SyntaxKind) -> (r: bool) {
        matches!(
            kind,
            SyntaxKind::JS_LITERAL_MEMBER_NAME
                | SyntaxKind::JS_COMPUTED_MEMBER_NAME
        )
    }

    fn cast(syntax: SyntaxNode<'a>) -> (r: Option<Self>) {
        match syntax.kind() {
            SyntaxKind::JS_LITERAL_MEMBER_NAME => Some(JsAnyObjectMemberName::JsLiteralMemberName(JsLiteralMemberName { syntax })),
            SyntaxKind::JS_COMPUTED_MEMBER_NAME => Some(JsAnyObjectMemberName::JsComputedMemberName(JsComputedMemberName { syntax })),
            _ => {
                None
            },
        }
    }

    fn syntax(&self) -> (r: &SyntaxNode<'a>) {
        match self {
            JsAnyObjectMemberName::JsLiteralMemberName(it) => it.syntax(),
            JsAnyObjectMemberName::JsComputedMemberName(it) => it.syntax(),
        }
    }
}

impl<'a> From<JsLiteralMemberName<'a>> for JsAnyObjectMemberName<'a> {
    fn from(node: JsLiteralMemberName<'a>) -> (r: JsAnyObjectMemberName<'a>)
        ensures
            r == JsAnyObjectMemberName::JsLiteralMemberName(node),
    {
        JsAnyObjectMemberName::JsLiteralMemberName(node)
    }
}

impl<'a> vstd::std_specs::convert::FromSpecImpl<JsLiteralMemberName<'a>> for JsAnyObjectMemberName<'a> {
    open spec fn obeys_from_spec() -> bool {
        true
    }

    open spec fn from_spec(node: JsLiteralMemberName<'a>) -> JsAnyObjectMemberName<'a> {
        JsAnyObjectMemberName::JsLiteralMemberName(node)
    }
}

impl<'a> From<JsComputedMemberName<'a>> for JsAnyObjectMemberName<'a> {
    fn from(node: JsComputedMemberName<'a>) -> (r: JsAnyObjectMemberName<'a>)
        ensures
            r == JsAnyObjectMemberName::JsComputedMemberName(node),
    {
        JsAnyObjectMemberName::JsComputedMemberName(node)
    }
}

impl<'a> vstd::std_specs::convert::FromSpecImpl<JsComputedMemberName<'a>> for JsAnyObjectMemberName<'a> {
    open spec fn obeys_from_spec() -> bool {
        true
    }

    open spec fn from_spec(node: JsComputedMemberName<'a>) -> JsAnyObjectMemberName<'a> {
        JsAnyObjectMemberName::JsComputedMemberName(node)
    }
}

/// One of the nodes that may stand where the grammar expects `JsAnyObjectMember`.
#[derive(Clone, Copy, Debug)]
pub enum JsAnyObjectMember<'a> {
    JsPropertyObjectMember(JsPropertyObjectMember<'a>),
    JsMethodObjectMember(JsMethodObjectMember<'a>),
    JsGetterObjectMember(JsGetterObjectMember<'a>),
    JsSetterObjectMember(JsSetterObjectMember<'a>),
    JsShorthandPropertyObjectMember(JsShorthandPropertyObjectMember<'a>),
    JsSpread(JsSpread<'a>),
    JsUnknownMember(JsUnknownMember<'a>),
}

impl<'a> AstNode<'a> for JsAnyObjectMember<'a> {
    open spec fn kind_ok(kind: SyntaxKind) -> bool {
        ||| <JsPropertyObjectMember<'a> as AstNode<'a>>::kind_ok(kind)
        ||| <JsMethodObjectMember<'a> as AstNode<'a>>::kind_ok(kind)
        ||| <JsGetterObjectMember<'a> as AstNode<'a>>::kind_ok(kind)
        ||| <JsSetterObjectMember<'a> as AstNode<'a>>::kind_ok(kind)
        ||| <JsShorthandPropertyObjectMember<'a> as AstNode<'a>>::kind_ok(kind)
        ||| <JsSpread<'a> as AstNode<'a>>::kind_ok(kind)
        ||| <JsUnknownMember<'a> as AstNode<'a>>::kind_ok(kind)
    }

    closed spec fn syntax_view(&self) -> SyntaxNode<'a> {
        match self {
            JsAnyObjectMember::JsPropertyObjectMember(it) => it.syntax_view(),
            JsAnyObjectMember::JsMethodObjectMember(it) => it.syntax_view(),
            JsAnyObjectMember::JsGetterObjectMember(it) => it.syntax_view(),
            JsAnyObjectMember::JsSetterObjectMember(it) => it.syntax_view(),
            JsAnyObjectMember::JsShorthandPropertyObjectMember(it) => it.syntax_view(),
            JsAnyObjectMember::JsSpread(it) => it.syntax_view(),
            JsAnyObjectMember::JsUnknownMember(it) => it.syntax_view(),
        }
    }

    fn can_cast(kind: SyntaxKind) -> (r: bool) {
        matches!(
            kind,
            SyntaxKind::JS_PROPERTY_OBJECT_MEMBER
                | SyntaxKind::JS_METHOD_OBJECT_MEMBER
                | SyntaxKind::JS_GETTER_OBJECT_MEMBER
                | SyntaxKind::JS_SETTER_OBJECT_MEMBER
                | SyntaxKind::JS_SHORTHAND_PROPERTY_OBJECT_MEMBER
                | SyntaxKind::JS_SPREAD
                | SyntaxKind::JS_UNKNOWN_MEMBER
        )
    }

    fn cast(syntax: SyntaxNode<'a>) -> (r: Option<Self>) {
        match syntax.kind() {
            SyntaxKind::JS_PROPERTY_OBJECT_MEMBER => Some(JsAnyObjectMember::JsPropertyObjectMember(JsPropertyObjectMember { syntax })),
            SyntaxKind::JS_METHOD_OBJECT_MEMBER => Some(JsAnyObjectMember::JsMethodObjectMember(JsMethodObjectMember { syntax })),
            SyntaxKind::JS_GETTER_OBJECT_MEMBER => Some(JsAnyObjectMember::JsGetterObjectMember(JsGetterObjectMember { syntax })),
            SyntaxKind::JS_SETTER_OBJECT_MEMBER => Some(JsAnyObjectMember::JsSetterObjectMember(JsSetterObjectMember { syntax })),
            SyntaxKind::JS_SHORTHAND_PROPERTY_OBJECT_MEMBER => Some(JsAnyObjectMember::JsShorthandPropertyObjectMember(JsShorthandPropertyObjectMember { syntax })),
            SyntaxKind::JS_SPREAD => Some(JsAnyObjectMember::JsSpread(JsSpread { syntax })),
            SyntaxKind::JS_UNKNOWN_MEMBER => Some(JsAnyObjectMember::JsUnknownMember(JsUnknownMember { syntax })),
            _ => {
                None
            },
        }
    }

    fn syntax(&self) -> (r: &SyntaxNode<'a>) {
        match self {
            JsAnyObjectMember::JsPropertyObjectMember(it) => it.syntax(),
            JsAnyObjectMember::JsMethodObjectMember(it) => it.syntax(),
            JsAnyObjectMember::JsGetterObjectMember(it) => it.syntax(),
            JsAnyObjectMember::JsSetterObjectMember(it) => it.syntax(),
            JsAnyObjectMember::JsShorthandPropertyObjectMember(it) => it.syntax(),
            JsAnyObjectMember::JsSpread(it) => it.syntax(),
            JsAnyObjectMember::JsUnknownMember(it) => it.syntax(),
        }
    }
}

impl<'a> From<JsPropertyObjectMember<'a>> for JsAnyObjectMember<'a> {
    fn from(node: JsPropertyObjectMember<'a>) -> (r: JsAnyObjectMember<'a>)
        ensures
            r == JsAnyObjectMember::JsPropertyObjectMember(node),
    {
        JsAnyObjectMember::JsPropertyObjectMember(node)
    }
}

impl<'a> vstd::std_specs::convert::FromSpecImpl<JsPropertyObjectMember<'a>> for JsAnyObjectMember<'a> {
    open spec fn obeys_from_spec() -> bool {
        true
    }

    open spec fn from_spec(node: JsPropertyObjectMember<'a>) -> JsAnyObjectMember<'a> {
        JsAnyObjectMember::JsPropertyObjectMember(node)
    }
}

impl<'a> From<JsMethodObjectMember<'a>> for JsAnyObjectMember<'a> {
    fn from(node: JsMethodObjectMember<'a>) -> (r: JsAnyObjectMember<'a>)
        ensures
            r == JsAnyObjectMember::JsMethodObjectMember(node),
    {
        JsAnyObjectMember::JsMethodObjectMember(node)
    }
}

impl<'a> vstd::std_specs::convert::FromSpecImpl<JsMethodObjectMember<'a>> for JsAnyObjectMember<'a> {
    open spec fn obeys_from_spec() -> bool {
        true
    }

    open spec fn from_spec(node: JsMethodObjectMember<'a>) -> JsAnyObjectMember<'a> {
        JsAnyObjectMember::JsMethodObjectMember(node)
    }
}

impl<'a> From<JsGetterObjectMember<'a>> for JsAnyObjectMember<'a> {
    fn from(node: JsGetterObjectMember<'a>) -> (r: JsAnyObjectMember<'a>)
        ensures
            r == JsAnyObjectMember::JsGetterObjectMember(node),
    {
        JsAnyObjectMember::JsGetterObjectMember(node)
    }
}

impl<'a> vstd::std_specs::convert::FromSpecImpl<JsGetterObjectMember<'a>> for JsAnyObjectMember<'a> {
    open spec fn obeys_from_spec() -> bool {
        true
    }

    open spec fn from_spec(node: JsGetterObjectMember<'a>) -> JsAnyObjectMember<'a> {
        JsAnyObjectMember::JsGetterObjectMember(node)
    }
}

impl<'a> From<JsSetterObjectMember<'a>> for JsAnyObjectMember<'a> {
    fn from(node: JsSetterObjectMember<'a>) -> (r: JsAnyObjectMember<'a>)
        ensures
            r == JsAnyObjectMember::JsSetterObjectMember(node),
    {
        JsAnyObjectMember::JsSetterObjectMember(node)
    }
}

impl<'a> vstd::std_specs::convert::FromSpecImpl<JsSetterObjectMember<'a>> for JsAnyObjectMember<'a> {
    open spec fn obeys_from_spec() -> bool {
        true
    }

    open spec fn from_spec(node: JsSetterObjectMember<'a>) -> JsAnyObjectMember<'a> {
        JsAnyObjectMember::JsSetterObjectMember(node)
    }
}

impl<'a> From<JsShorthandPropertyObjectMember<'a>> for JsAnyObjectMember<'a> {
    fn from(node: JsShorthandPropertyObjectMember<'a>) -> (r: JsAnyObjectMember<'a>)
        ensures
            r == JsAnyObjectMember::JsShorthandPropertyObjectMember(node),
    {
        JsAnyObjectMember::JsShorthandPropertyObjectMember(node)
    }
}

impl<'a> vstd::std_specs::convert::FromSpecImpl<JsShorthandPropertyObjectMember<'a>> for JsAnyObjectMember<'a> {
    open spec fn obeys_from_spec() -> bool {
        true
    }

    open spec fn from_spec(node: JsShorthandPropertyObjectMember<'a>) -> JsAnyObjectMember<'a> {
        JsAnyObjectMember::JsShorthandPropertyObjectMember(node)
    }
}

impl<'a> From<JsSpread<'a>> for JsAnyObjectMember<'a> {
    fn from(node: JsSpread<'a>) -> (r: JsAnyObjectMember<'a>)
        ensures
            r == JsAnyObjectMember::JsSpread(node),
    {
        JsAnyObjectMember::JsSpread(node)
    }
}

impl<'a> vstd::std_specs::convert::FromSpecImpl<JsSpread<'a>> for JsAnyObjectMember<'a> {
    open spec fn obeys_from_spec() -> bool {
        true
    }

    open spec fn from_spec(node: JsSpread<'a>) -> JsAnyObjectMember<'a> {
        JsAnyObjectMember::JsSpread(node)
    }
}

impl<'a> From<JsUnknownMember<'a>> for JsAnyObjectMember<'a> {
    fn from(node: JsUnknownMember<'a>) -> (r: JsAnyObjectMember<'a>)
        ensures
            r == JsAnyObjectMember::JsUnknownMember(node),
    {
        JsAnyObjectMember::JsUnknownMember(node)
    }
}

impl<'a> vstd::std_specs::convert::FromSpecImpl<JsUnknownMember<'a>> for JsAnyObjectMember<'a> {
    open spec fn obeys_from_spec() -> bool {
        true
    }

    open spec fn from_spec(node: JsUnknownMember<'a>) -> JsAnyObjectMember<'a> {
        JsAnyObjectMember::JsUnknownMember(node)
    }
}

/// One of the nodes that may stand where the grammar expects `JsAnyClassMember`.
#[derive(Clone, Copy, Debug)]
pub enum JsAnyClassMember<'a> {
    JsConstructorClassMember(JsConstructorClassMember<'a>),
    JsPropertyClassMember(JsPropertyClassMember<'a>),
    JsMethodClassMember(JsMethodClassMember<'a>),
    JsGetterClassMember(JsGetterClassMember<'a>),
    JsSetterClassMember(JsSetterClassMember<'a>),
    JsEmptyClassMember(JsEmptyClassMember<'a>),
    TsIndexSignature(TsIndexSignature<'a>),
    JsUnknownMember(JsUnknownMember<'a>),
}

impl<'a> AstNode<'a> for JsAnyClassMember<'a> {
    open spec fn kind_ok(kind: SyntaxKind) -> bool {
        ||| <JsConstructorClassMember<'a> as AstNode<'a>>::kind_ok(kind)
        ||| <JsPropertyClassMember<'a> as AstNode<'a>>::kind_ok(kind)
        ||| <JsMethodClassMember<'a> as AstNode<'a>>::kind_ok(kind)
        ||| <JsGetterClassMember<'a> as AstNode<'a>>::kind_ok(kind)
        ||| <JsSetterClassMember<'a> as AstNode<'a>>::kind_ok(kind)
        ||| <JsEmptyClassMember<'a> as AstNode<'a>>::kind_ok(kind)
        ||| <TsIndexSignature<'a> as AstNode<'a>>::kind_ok(kind)
        ||| <JsUnknownMember<'a> as AstNode<'a>>::kind_ok(kind)
    }

    closed spec fn syntax_view(&self) -> SyntaxNode<'a> {
        match self {
            JsAnyClassMember::JsConstructorClassMember(it) => it.syntax_view(),
            JsAnyClassMember::JsPropertyClassMember(it) => it.syntax_view(),
            JsAnyClassMember::JsMethodClassMember(it) => it.syntax_view(),
            JsAnyClassMember::JsGetterClassMember(it) => it.syntax_view(),
            JsAnyClassMember::JsSetterClassMember(it) => it.syntax_view(),
            JsAnyClassMember::JsEmptyClassMember(it) => it.syntax_view(),
            JsAnyClassMember::TsIndexSignature(it) => it.syntax_view(),
            JsAnyClassMember::JsUnknownMember(it) => it.syntax_view(),
        }
    }

    fn can_cast(kind: SyntaxKind) -> (r: bool) {
        matches!(
            kind,
            SyntaxKind::JS_CONSTRUCTOR_CLASS_MEMBER
                | SyntaxKind::JS_PROPERTY_CLASS_MEMBER
                | SyntaxKind::JS_METHOD_CLASS_MEMBER
                | SyntaxKind::JS_GETTER_CLASS_MEMBER
                | SyntaxKind::JS_SETTER_CLASS_MEMBER
                | SyntaxKind::JS_EMPTY_CLASS_MEMBER
                | SyntaxKind::TS_INDEX_SIGNATURE
                | SyntaxKind::JS_UNKNOWN_MEMBER
        )
    }

    fn cast(syntax: SyntaxNode<'a>) -> (r: Option<Self>) {
        match syntax.kind() {
            SyntaxKind::JS_CONSTRUCTOR_CLASS_MEMBER => Some(JsAnyClassMember::JsConstructorClassMember(JsConstructorClassMember { syntax })),
            SyntaxKind::JS_PROPERTY_CLASS_MEMBER => Some(JsAnyClassMember::JsPropertyClassMember(JsPropertyClassMember { syntax })),
            SyntaxKind::JS_METHOD_CLASS_MEMBER => Some(JsAnyClassMember::JsMethodClassMember(JsMethodClassMember { syntax })),
            SyntaxKind::JS_GETTER_CLASS_MEMBER => Some(JsAnyClassMember::JsGetterClassMember(JsGetterClassMember { syntax })),
            SyntaxKind::JS_SETTER_CLASS_MEMBER => Some(JsAnyClassMember::JsSetterClassMember(JsSetterClassMember { syntax })),
            SyntaxKind::JS_EMPTY_CLASS_MEMBER => Some(JsAnyClassMember::JsEmptyClassMember(JsEmptyClassMember { syntax })),
            SyntaxKind::TS_INDEX_SIGNATURE => Some(JsAnyClassMember::TsIndexSignature(TsIndexSignature { syntax })),
            SyntaxKind::JS_UNKNOWN_MEMBER => Some(JsAnyClassMember::JsUnknownMember(JsUnknownMember { syntax })),
            _ => {
                None
            },
        }
    }

    fn syntax(&self) -> (r: &SyntaxNode<'a>) {
        match self {
            JsAnyClassMember::JsConstructorClassMember(it) => it.syntax(),
            JsAnyClassMember::JsPropertyClassMember(it) => it.syntax(),
            JsAnyClassMember::JsMethodClassMember(it) => it.syntax(),
            JsAnyClassMember::JsGetterClassMember(it) => it.syntax(),
            JsAnyClassMember::JsSetterClassMember(it) => it.syntax(),
            JsAnyClassMember::JsEmptyClassMember(it) => it.syntax(),
            JsAnyClassMember::TsIndexSignature(it) => it.syntax(),
            JsAnyClassMember::JsUnknownMember(it) => it.syntax(),
        }
    }
}

impl<'a> From<JsConstructorClassMember<'a>> for JsAnyClassMember<'a> {
    fn from(node: JsConstructorClassMember<'a>) -> (r: JsAnyClassMember<'a>)
        ensures
            r == JsAnyClassMember::JsConstructorClassMember(node),
    {
        JsAnyClassMember::JsConstructorClassMember(node)
    }
}

impl<'a> vstd::std_specs::convert::FromSpecImpl<JsConstructorClassMember<'a>> for JsAnyClassMember<'a> {
    open spec fn obeys_from_spec() -> bool {
        true
    }

    open spec fn from_spec(node: JsConstructorClassMember<'a>) -> JsAnyClassMember<'a> {
        JsAnyClassMember::JsConstructorClassMember(node)
    }
}

impl<'a> From<JsPropertyClassMember<'a>> for JsAnyClassMember<'a> {
    fn from(node: JsPropertyClassMember<'a>) -> (r: JsAnyClassMember<'a>)
        ensures
            r == JsAnyClassMember::JsPropertyClassMember(node),
    {
        JsAnyClassMember::JsPropertyClassMember(node)
    }
}

impl<'a> vstd::std_specs::convert::FromSpecImpl<JsPropertyClassMember<'a>> for JsAnyClassMember<'a> {
    open spec fn obeys_from_spec() -> bool {
        true
    }

    open spec fn from_spec(node: JsPropertyClassMember<'a>) -> JsAnyClassMember<'a> {
        JsAnyClassMember::JsPropertyClassMember(node)
    }
}

impl<'a> From<JsMethodClassMember<'a>> for JsAnyClassMember<'a> {
    fn from(node: JsMethodClassMember<'a>) -> (r: JsAnyClassMember<'a>)
        ensures
            r == JsAnyClassMember::JsMethodClassMember(node),
    {
        JsAnyClassMember::JsMethodClassMember(node)
    }
}

impl<'a> vstd::std_specs::convert::FromSpecImpl<JsMethodClassMember<'a>> for JsAnyClassMember<'a> {
    open spec fn obeys_from_spec() -> bool {
        true
    }

    open spec fn from_spec(node: JsMethodClassMember<'a>) -> JsAnyClassMember<'a> {
        JsAnyClassMember::JsMethodClassMember(node)
    }
}

impl<'a> From<JsGetterClassMember<'a>> for JsAnyClassMember<'a> {
    fn from(node: JsGetterClassMember<'a>) -> (r: JsAnyClassMember<'a>)
        ensures
            r == JsAnyClassMember::JsGetterClassMember(node),
    {
        JsAnyClassMember::JsGetterClassMember(node)
    }
}

impl<'a> vstd::std_specs::convert::FromSpecImpl<JsGetterClassMember<'a>> for JsAnyClassMember<'a> {
    open spec fn obeys_from_spec() -> bool {
        true
    }

    open spec fn from_spec(node: JsGetterClassMember<'a>) -> JsAnyClassMember<'a> {
        JsAnyClassMember::JsGetterClassMember(node)
    }
}

impl<'a> From<JsSetterClassMember<'a>> for JsAnyClassMember<'a> {
    fn from(node: JsSetterClassMember<'a>) -> (r: JsAnyClassMember<'a>)
        ensures
            r == JsAnyClassMember::JsSetterClassMember(node),
    {
        JsAnyClassMember::JsSetterClassMember(node)
    }
}

impl<'a> vstd::std_specs::convert::FromSpecImpl<JsSetterClassMember<'a>> for JsAnyClassMember<'a> {
    open spec fn obeys_from_spec() -> bool {
        true
    }

    open spec fn from_spec(node: JsSetterClassMember<'a>) -> JsAnyClassMember<'a> {
        JsAnyClassMember::JsSetterClassMember(node)
    }
}

impl<'a> From<JsEmptyClassMember<'a>> for JsAnyClassMember<'a> {
    fn from(node: JsEmptyClassMember<'a>) -> (r: JsAnyClassMember<'a>)
        ensures
            r == JsAnyClassMember::JsEmptyClassMember(node),
    {
        JsAnyClassMember::JsEmptyClassMember(node)
    }
}

impl<'a> vstd::std_specs::convert::FromSpecImpl<JsEmptyClassMember<'a>> for JsAnyClassMember<'a> {
    open spec fn obeys_from_spec() -> bool {
        true
    }

    open spec fn from_spec(node: JsEmptyClassMember<'a>) -> JsAnyClassMember<'a> {
        JsAnyClassMember::JsEmptyClassMember(node)
    }
}

impl<'a> From<TsIndexSignature<'a>> for JsAnyClassMember<'a> {
    fn from(node: TsIndexSignature<'a>) -> (r: JsAnyClassMember<'a>)
        ensures
            r == JsAnyClassMember::TsIndexSignature(node),
    {
        JsAnyClassMember::TsIndexSignature(node)
    }
}

impl<'a> vstd::std_specs::convert::FromSpecImpl<TsIndexSignature<'a>> for JsAnyClassMember<'a> {
    open spec fn obeys_from_spec() -> bool {
        true
    }

    open spec fn from_spec(node: TsIndexSignature<'a>) -> JsAnyClassMember<'a> {
        JsAnyClassMember::TsIndexSignature(node)
    }
}

impl<'a> From<JsUnknownMember<'a>> for JsAnyClassMember<'a> {
    fn from(node: JsUnknownMember<'a>) -> (r: JsAnyClassMember<'a>)
        ensures
            r == JsAnyClassMember::JsUnknownMember(node),
    {
        JsAnyClassMember::JsUnknownMember(node)
    }
}

impl<'a> vstd::std_specs::convert::FromSpecImpl<JsUnknownMember<'a>> for JsAnyClassMember<'a> {
    open spec fn obeys_from_spec() -> bool {
        true
    }

    open spec fn from_spec(node: JsUnknownMember<'a>) -> JsAnyClassMember<'a> {
        JsAnyClassMember::JsUnknownMember(node)
    }
}

/// One of the nodes that may stand where the grammar expects `JsAnyClassMemberName`.
#[derive(Clone, Copy, Debug)]
pub enum JsAnyClassMemberName<'a> {
    JsLiteralMemberName(JsLiteralMemberName<'a>),
    JsComputedMemberName(JsComputedMemberName<'a>),
    JsPrivateClassMemberName(JsPrivateClassMemberName<'a>),
}

impl<'a> AstNode<'a> for JsAnyClassMemberName<'a> {
    open spec fn kind_ok(kind: SyntaxKind) -> bool {
        ||| <JsLiteralMemberName<'a> as AstNode<'a>>::kind_ok(kind)
        ||| <JsComputedMemberName<'a> as AstNode<'a>>::kind_ok(kind)
        ||| <JsPrivateClassMemberName<'a> as AstNode<'a>>::kind_ok(kind)
    }

    closed spec fn syntax_view(&self) -> SyntaxNode<'a> {
        match self {
            JsAnyClassMemberName::JsLiteralMemberName(it) => it.syntax_view(),
            JsAnyClassMemberName::JsComputedMemberName(it) => it.syntax_view(),
            JsAnyClassMemberName::JsPrivateClassMemberName(it) => it.syntax_view(),
        }
    }

    fn can_cast(kind: SyntaxKind) -> (r: bool) {
        matches!(
            kind,
            SyntaxKind::JS_LITERAL_MEMBER_NAME
                | SyntaxKind::JS_COMPUTED_MEMBER_NAME
                | SyntaxKind::JS_PRIVATE_CLASS_MEMBER_NAME
        )
    }

    fn cast(syntax: SyntaxNode<'a>) -> (r: Option<Self>) {
        match syntax.kind() {
            SyntaxKind::JS_LITERAL_MEMBER_NAME => Some(JsAnyClassMemberName::JsLiteralMemberName(JsLiteralMemberName { syntax })),
            SyntaxKind::JS_COMPUTED_MEMBER_NAME => Some(JsAnyClassMemberName::JsComputedMemberName(JsComputedMemberName { syntax })),
            SyntaxKind::JS_PRIVATE_CLASS_MEMBER_NAME => Some(JsAnyClassMemberName::JsPrivateClassMemberName(JsPrivateClassMemberName { syntax })),
            _ => {
                None
            },
        }
    }

    fn syntax(&self) -> (r: &SyntaxNode<'a>) {
        match self {
            JsAnyClassMemberName::JsLiteralMemberName(it) => it.syntax(),
            JsAnyClassMemberName::JsComputedMemberName(it) => it.syntax(),
            JsAnyClassMemberName::JsPrivateClassMemberName(it) => it.syntax(),
        }
    }
}

impl<'a> From<JsLiteralMemberName<'a>> for JsAnyClassMemberName<'a> {
    fn from(node: JsLiteralMemberName<'a>) -> (r: JsAnyClassMemberName<'a>)
        ensures
            r == JsAnyClassMemberName::JsLiteralMemberName(node),
    {
        JsAnyClassMemberName::JsLiteralMemberName(node)
    }
}

impl<'a> vstd::std_specs::convert::FromSpecImpl<JsLiteralMemberName<'a>> for JsAnyClassMemberName<'a> {
    open spec fn obeys_from_spec() -> bool {
        true
    }

    open spec fn from_spec(node: JsLiteralMemberName<'a>) -> JsAnyClassMemberName<'a> {
        JsAnyClassMemberName::JsLiteralMemberName(node)
    }
}

impl<'a> From<JsComputedMemberName<'a>> for JsAnyClassMemberName<'a> {
    fn from(node: JsComputedMemberName<'a>) -> (r: JsAnyClassMemberName<'a>)
        ensures
            r == JsAnyClassMemberName::JsComputedMemberName(node),
    {
        JsAnyClassMemberName::JsComputedMemberName(node)
    }
}

impl<'a> vstd::std_specs::convert::FromSpecImpl<JsComputedMemberName<'a>> for JsAnyClassMemberName<'a> {
    open spec fn obeys_from_spec() -> bool {
        true
    }

    open spec fn from_spec(node: JsComputedMemberName<'a>) -> JsAnyClassMemberName<'a> {
        JsAnyClassMemberName::JsComputedMemberName(node)
    }
}

impl<'a> From<JsPrivateClassMemberName<'a>> for JsAnyClassMemberName<'a> {
    fn from(node: JsPrivateClassMemberName<'a>) -> (r: JsAnyClassMemberName<'a>)
        ensures
            r == JsAnyClassMemberName::JsPrivateClassMemberName(node),
    {
        JsAnyClassMemberName::JsPrivateClassMemberName(node)
    }
}

impl<'a> vstd::std_specs::convert::FromSpecImpl<JsPrivateClassMemberName<'a>> for JsAnyClassMemberName<'a> {
    open spec fn obeys_from_spec() -> bool {
        true
    }

    open spec fn from_spec(node: JsPrivateClassMemberName<'a>) -> JsAnyClassMemberName<'a> {
        JsAnyClassMemberName::JsPrivateClassMemberName(node)
    }
}

/// One of the nodes that may stand where the grammar expects `JsAnyConstructorParameter`.
#[derive(Clone, Copy, Debug)]
pub enum JsAnyConstructorParameter<'a> {
    TsConstructorParam(TsConstructorParam<'a>),
    JsAnyBindingPattern(JsAnyBindingPattern<'a>),
    JsBindingPatternWithDefault(JsBindingPatternWithDefault<'a>),
}

impl<'a> AstNode<'a> for JsAnyConstructorParameter<'a> {
    open spec fn kind_ok(kind: SyntaxKind) -> bool {
        ||| <TsConstructorParam<'a> as AstNode<'a>>::kind_ok(kind)
        ||| <JsAnyBindingPattern<'a> as AstNode<'a>>::kind_ok(kind)
        ||| <JsBindingPatternWithDefault<'a> as AstNode<'a>>::kind_ok(kind)
    }

    closed spec fn syntax_view(&self) -> SyntaxNode<'a> {
        match self {
            JsAnyConstructorParameter::TsConstructorParam(it) => it.syntax_view(),
            JsAnyConstructorParameter::JsAnyBindingPattern(it) => it.syntax_view(),
            JsAnyConstructorParameter::JsBindingPatternWithDefault(it) => it.syntax_view(),
        }
    }

    fn can_cast(kind: SyntaxKind) -> (r: bool) {
        matches!(
            kind,
            SyntaxKind::TS_CONSTRUCTOR_PARAM
                | SyntaxKind::JS_BINDING_PATTERN_WITH_DEFAULT
        ) || JsAnyBindingPattern::can_cast(kind)
    }

    fn cast(syntax: SyntaxNode<'a>) -> (r: Option<Self>) {
        match syntax.kind() {
            SyntaxKind::TS_CONSTRUCTOR_PARAM => Some(JsAnyConstructorParameter::TsConstructorParam(TsConstructorParam { syntax })),
            SyntaxKind::JS_BINDING_PATTERN_WITH_DEFAULT => Some(JsAnyConstructorParameter::JsBindingPatternWithDefault(JsBindingPatternWithDefault { syntax })),
            _ => {
                if let Some(it) = JsAnyBindingPattern::cast(syntax) {
                    return Some(JsAnyConstructorParameter::JsAnyBindingPattern(it));
                }
                None
            },
        }
    }

    fn syntax(&self) -> (r: &SyntaxNode<'a>) {
        match self {
            JsAnyConstructorParameter::TsConstructorParam(it) => it.syntax(),
            JsAnyConstructorParameter::JsAnyBindingPattern(it) => it.syntax(),
            JsAnyConstructorParameter::JsBindingPatternWithDefault(it) => it.syntax(),
        }
    }
}

impl<'a> From<TsConstructorParam<'a>> for JsAnyConstructorParameter<'a> {
    fn from(node: TsConstructorParam<'a>) -> (r: JsAnyConstructorParameter<'a>)
        ensures
            r == JsAnyConstructorParameter::TsConstructorParam(node),
    {
        JsAnyConstructorParameter::TsConstructorParam(node)
    }
}

impl<'a> vstd::std_specs::convert::FromSpecImpl<TsConstructorParam<'a>> for JsAnyConstructorParameter<'a> {
    open spec fn obeys_from_spec() -> bool {
        true
    }

    open spec fn from_spec(node: TsConstructorParam<'a>) -> JsAnyConstructorParameter<'a> {
        JsAnyConstructorParameter::TsConstructorParam(node)
    }
}

impl<'a> From<JsAnyBindingPattern<'a>> for JsAnyConstructorParameter<'a> {
    fn from(node: JsAnyBindingPattern<'a>) -> (r: JsAnyConstructorParameter<'a>)
        ensures
            r == JsAnyConstructorParameter::JsAnyBindingPattern(node),
    {
        JsAnyConstructorParameter::JsAnyBindingPattern(node)
    }
}

impl<'a> vstd::std_specs::convert::FromSpecImpl<JsAnyBindingPattern<'a>> for JsAnyConstructorParameter<'a> {
    open spec fn obeys_from_spec() -> bool {
        true
    }

    open spec fn from_spec(node: JsAnyBindingPattern<'a>) -> JsAnyConstructorParameter<'a> {
        JsAnyConstructorParameter::JsAnyBindingPattern(node)
    }
}

impl<'a> From<JsBindingPatternWithDefault<'a>> for JsAnyConstructorParameter<'a> {
    fn from(node: JsBindingPatternWithDefault<'a>) -> (r: JsAnyConstructorParameter<'a>)
        ensures
            r == JsAnyConstructorParameter::JsBindingPatternWithDefault(node),
    {
        JsAnyConstructorParameter::JsBindingPatternWithDefault(node)
    }
}

impl<'a> vstd::std_specs::convert::FromSpecImpl<JsBindingPatternWithDefault<'a>> for JsAnyConstructorParameter<'a> {
    open spec fn obeys_from_spec() -> bool {
        true
    }

    open spec fn from_spec(node: JsBindingPatternWithDefault<'a>) -> JsAnyConstructorParameter<'a> {
        JsAnyConstructorParameter::JsBindingPatternWithDefault(node)
    }
}

/// One of the nodes that may stand where the grammar expects `JsAnyModifier`.
#[derive(Clone, Copy, Debug)]
pub enum JsAnyModifier<'a> {
    JsModifier(JsModifier<'a>),
    JsUnknownModifier(JsUnknownModifier<'a>),
}

impl<'a> AstNode<'a> for JsAnyModifier<'a> {
    open spec fn kind_ok(kind: SyntaxKind) -> bool {
        ||| <JsModifier<'a> as AstNode<'a>>::kind_ok(kind)
        ||| <JsUnknownModifier<'a> as AstNode<'a>>::kind_ok(kind)
    }

    closed spec fn syntax_view(&self) -> SyntaxNode<'a> {
        match self {
            JsAnyModifier::JsModifier(it) => it.syntax_view(),
            JsAnyModifier::JsUnknownModifier(it) => it.syntax_view(),
        }
    }

    fn can_cast(kind: SyntaxKind) -> (r: bool) {
        matches!(
            kind,
            SyntaxKind::JS_MODIFIER
                | SyntaxKind::JS_UNKNOWN_MODIFIER
        )
    }

    fn cast(syntax: SyntaxNode<'a>) -> (r: Option<Self>) {
        match syntax.kind() {
            SyntaxKind::JS_MODIFIER => Some(JsAnyModifier::JsModifier(JsModifier { syntax })),
            SyntaxKind::JS_UNKNOWN_MODIFIER => Some(JsAnyModifier::JsUnknownModifier(JsUnknownModifier { syntax })),
            _ => {
                None
            },
        }
    }

    fn syntax(&self) -> (r: &SyntaxNode<'a>) {
        match self {
            JsAnyModifier::JsModifier(it) => it.syntax(),
            JsAnyModifier::JsUnknownModifier(it) => it.syntax(),
        }
    }
}

impl<'a> From<JsModifier<'a>> for JsAnyModifier<'a> {
    fn from(node: JsModifier<'a>) -> (r: JsAnyModifier<'a>)
        ensures
            r == JsAnyModifier::JsModifier(node),
    {
        JsAnyModifier::JsModifier(node)
    }
}

impl<'a> vstd::std_specs::convert::FromSpecImpl<JsModifier<'a>> for JsAnyModifier<'a> {
    open spec fn obeys_from_spec() -> bool {
        true
    }

    open spec fn from_spec(node: JsModifier<'a>) -> JsAnyModifier<'a> {
        JsAnyModifier::JsModifier(node)
    }
}

impl<'a> From<JsUnknownModifier<'a>> for JsAnyModifier<'a> {
    fn from(node: JsUnknownModifier<'a>) -> (r: JsAnyModifier<'a>)
        ensures
            r == JsAnyModifier::JsUnknownModifier(node),
    {
        JsAnyModifier::JsUnknownModifier(node)
    }
}

impl<'a> vstd::std_specs::convert::FromSpecImpl<JsUnknownModifier<'a>> for JsAnyModifier<'a> {
    open spec fn obeys_from_spec() -> bool {
        true
    }

    open spec fn from_spec(node: JsUnknownModifier<'a>) -> JsAnyModifier<'a> {
        JsAnyModifier::JsUnknownModifier(node)
    }
}

/// One of the nodes that may stand where the grammar expects `JsAnyArrayAssignmentPatternElement`.
#[derive(Clone, Copy, Debug)]
pub enum JsAnyArrayAssignmentPatternElement<'a> {
    JsAssignmentWithDefault(JsAssignmentWithDefault<'a>),
    JsAnyAssignmentPattern(JsAnyAssignmentPattern<'a>),
    JsArrayAssignmentPatternRestElement(JsArrayAssignmentPatternRestElement<'a>),
    JsArrayHole(JsArrayHole<'a>),
    JsUnknownAssignment(JsUnknownAssignment<'a>),
}

impl<'a> AstNode<'a> for JsAnyArrayAssignmentPatternElement<'a> {
    open spec fn kind_ok(kind: SyntaxKind) -> bool {
        ||| <JsAssignmentWithDefault<'a> as AstNode<'a>>::kind_ok(kind)
        ||| <JsAnyAssignmentPattern<'a> as AstNode<'a>>::kind_ok(kind)
        ||| <JsArrayAssignmentPatternRestElement<'a> as AstNode<'a>>::kind_ok(kind)
        ||| <JsArrayHole<'a> as AstNode<'a>>::kind_ok(kind)
        ||| <JsUnknownAssignment<'a> as AstNode<'a>>::kind_ok(kind)
    }

    closed spec fn syntax_view(&self) -> SyntaxNode<'a> {
        match self {
            JsAnyArrayAssignmentPatternElement::JsAssignmentWithDefault(it) => it.syntax_view(),
            JsAnyArrayAssignmentPatternElement::JsAnyAssignmentPattern(it) => it.syntax_view(),
            JsAnyArrayAssignmentPatternElement::JsArrayAssignmentPatternRestElement(it) => it.syntax_view(),
            JsAnyArrayAssignmentPatternElement::JsArrayHole(it) => it.syntax_view(),
            JsAnyArrayAssignmentPatternElement::JsUnknownAssignment(it) => it.syntax_view(),
        }
    }

    fn can_cast(kind: SyntaxKind) -> (r: bool) {
        matches!(
            kind,
            SyntaxKind::JS_ASSIGNMENT_WITH_DEFAULT
                | SyntaxKind::JS_ARRAY_ASSIGNMENT_PATTERN_REST_ELEMENT
                | SyntaxKind::JS_ARRAY_HOLE
                | SyntaxKind::JS_UNKNOWN_ASSIGNMENT
        ) || JsAnyAssignmentPattern::can_cast(kind)
    }

    fn cast(syntax: SyntaxNode<'a>) -> (r: Option<Self>) {
        match syntax.kind() {
            SyntaxKind::JS_ASSIGNMENT_WITH_DEFAULT => Some(JsAnyArrayAssignmentPatternElement::JsAssignmentWithDefault(JsAssignmentWithDefault { syntax })),
            SyntaxKind::JS_ARRAY_ASSIGNMENT_PATTERN_REST_ELEMENT => Some(JsAnyArrayAssignmentPatternElement::JsArrayAssignmentPatternRestElement(JsArrayAssignmentPatternRestElement { syntax })),
            SyntaxKind::JS_ARRAY_HOLE => Some(JsAnyArrayAssignmentPatternElement::JsArrayHole(JsArrayHole { syntax })),
            SyntaxKind::JS_UNKNOWN_ASSIGNMENT => Some(JsAnyArrayAssignmentPatternElement::JsUnknownAssignment(JsUnknownAssignment { syntax })),
            _ => {
                if let Some(it) = JsAnyAssignmentPattern::cast(syntax) {
                    return Some(JsAnyArrayAssignmentPatternElement::JsAnyAssignmentPattern(it));
                }
                None
            },
        }
    }

    fn syntax(&self) -> (r: &SyntaxNode<'a>) {
        match self {
            JsAnyArrayAssignmentPatternElement::JsAssignmentWithDefault(it) => it.syntax(),
            JsAnyArrayAssignmentPatternElement::JsAnyAssignmentPattern(it) => it.syntax(),
            JsAnyArrayAssignmentPatternElement::JsArrayAssignmentPatternRestElement(it) => it.syntax(),
            JsAnyArrayAssignmentPatternElement::JsArrayHole(it) => it.syntax(),
            JsAnyArrayAssignmentPatternElement::JsUnknownAssignment(it) => it.syntax(),
        }
    }
}

impl<'a> From<JsAssignmentWithDefault<'a>> for JsAnyArrayAssignmentPatternElement<'a> {
    fn from(node: JsAssignmentWithDefault<'a>) -> (r: JsAnyArrayAssignmentPatternElement<'a>)
        ensures
            r == JsAnyArrayAssignmentPatternElement::JsAssignmentWithDefault(node),
    {
        JsAnyArrayAssignmentPatternElement::JsAssignmentWithDefault(node)
    }
}

impl<'a> vstd::std_specs::convert::FromSpecImpl<JsAssignmentWithDefault<'a>> for JsAnyArrayAssignmentPatternElement<'a> {
    open spec fn obeys_from_spec() -> bool {
        true
    }

    open spec fn from_spec(node: JsAssignmentWithDefault<'a>) -> JsAnyArrayAssignmentPatternElement<'a> {
        JsAnyArrayAssignmentPatternElement::JsAssignmentWithDefault(node)
    }
}

impl<'a> From<JsAnyAssignmentPattern<'a>> for JsAnyArrayAssignmentPatternElement<'a> {
    fn from(node: JsAnyAssignmentPattern<'a>) -> (r: JsAnyArrayAssignmentPatternElement<'a>)
        ensures
            r == JsAnyArrayAssignmentPatternElement::JsAnyAssignmentPattern(node),
    {
        JsAnyArrayAssignmentPatternElement::JsAnyAssignmentPattern(node)
    }
}

impl<'a> vstd::std_specs::convert::FromSpecImpl<JsAnyAssignmentPattern<'a>> for JsAnyArrayAssignmentPatternElement<'a> {
    open spec fn obeys_from_spec() -> bool {
        true
    }

    open spec fn from_spec(node: JsAnyAssignmentPattern<'a>) -> JsAnyArrayAssignmentPatternElement<'a> {
        JsAnyArrayAssignmentPatternElement::JsAnyAssignmentPattern(node)
    }
}

impl<'a> From<JsArrayAssignmentPatternRestElement<'a>> for JsAnyArrayAssignmentPatternElement<'a> {
    fn from(node: JsArrayAssignmentPatternRestElement<'a>) -> (r: JsAnyArrayAssignmentPatternElement<'a>)
        ensures
            r == JsAnyArrayAssignmentPatternElement::JsArrayAssignmentPatternRestElement(node),
    {
        JsAnyArrayAssignmentPatternElement::JsArrayAssignmentPatternRestElement(node)
    }
}

impl<'a> vstd::std_specs::convert::FromSpecImpl<JsArrayAssignmentPatternRestElement<'a>> for JsAnyArrayAssignmentPatternElement<'a> {
    open spec fn obeys_from_spec() -> bool {
        true
    }

    open spec fn from_spec(node: JsArrayAssignmentPatternRestElement<'a>) -> JsAnyArrayAssignmentPatternElement<'a> {
        JsAnyArrayAssignmentPatternElement::JsArrayAssignmentPatternRestElement(node)
    }
}

impl<'a> From<JsArrayHole<'a>> for JsAnyArrayAssignmentPatternElement<'a> {
    fn from(node: JsArrayHole<'a>) -> (r: JsAnyArrayAssignmentPatternElement<'a>)
        ensures
            r == JsAnyArrayAssignmentPatternElement::JsArrayHole(node),
    {
        JsAnyArrayAssignmentPatternElement::JsArrayHole(node)
    }
}

impl<'a> vstd::std_specs::convert::FromSpecImpl<JsArrayHole<'a>> for JsAnyArrayAssignmentPatternElement<'a> {
    open spec fn obeys_from_spec() -> bool {
        true
    }

    open spec fn from_spec(node: JsArrayHole<'a>) -> JsAnyArrayAssignmentPatternElement<'a> {
        JsAnyArrayAssignmentPatternElement::JsArrayHole(node)
    }
}

impl<'a> From<JsUnknownAssignment<'a>> for JsAnyArrayAssignmentPatternElement<'a> {
    fn from(node: JsUnknownAssignment<'a>) -> (r: JsAnyArrayAssignmentPatternElement<'a>)
        ensures
            r == JsAnyArrayAssignmentPatternElement::JsUnknownAssignment(node),
    {
        JsAnyArrayAssignmentPatternElement::JsUnknownAssignment(node)
    }
}

impl<'a> vstd::std_specs::convert::FromSpecImpl<JsUnknownAssignment<'a>> for JsAnyArrayAssignmentPatternElement<'a> {
    open spec fn obeys_from_spec() -> bool {
        true
    }

    open spec fn from_spec(node: JsUnknownAssignment<'a>) -> JsAnyArrayAssignmentPatternElement<'a> {
        JsAnyArrayAssignmentPatternElement::JsUnknownAssignment(node)
    }
}

/// One of the nodes that may stand where the grammar expects `JsAnyObjectAssignmentPatternMember`.
#[derive(Clone, Copy, Debug)]
pub enum JsAnyObjectAssignmentPatternMember<'a> {
    JsObjectAssignmentPatternShorthandProperty(JsObjectAssignmentPatternShorthandProperty<'a>),
    JsObjectAssignmentPatternProperty(JsObjectAssignmentPatternProperty<'a>),
    JsObjectAssignmentPatternRest(JsObjectAssignmentPatternRest<'a>),
    JsUnknownAssignment(JsUnknownAssignment<'a>),
}

impl<'a> AstNode<'a> for JsAnyObjectAssignmentPatternMember<'a> {
    open spec fn kind_ok(kind: SyntaxKind) -> bool {
        ||| <JsObjectAssignmentPatternShorthandProperty<'a> as AstNode<'a>>::kind_ok(kind)
        ||| <JsObjectAssignmentPatternProperty<'a> as AstNode<'a>>::kind_ok(kind)
        ||| <JsObjectAssignmentPatternRest<'a> as AstNode<'a>>::kind_ok(kind)
        ||| <JsUnknownAssignment<'a> as AstNode<'a>>::kind_ok(kind)
    }

    closed spec fn syntax_view(&self) -> SyntaxNode<'a> {
        match self {
            JsAnyObjectAssignmentPatternMember::JsObjectAssignmentPatternShorthandProperty(it) => it.syntax_view(),
            JsAnyObjectAssignmentPatternMember::JsObjectAssignmentPatternProperty(it) => it.syntax_view(),
            JsAnyObjectAssignmentPatternMember::JsObjectAssignmentPatternRest(it) => it.syntax_view(),
            JsAnyObjectAssignmentPatternMember::JsUnknownAssignment(it) => it.syntax_view(),
        }
    }

    fn can_cast(kind: SyntaxKind) -> (r: bool) {
        matches!(
            kind,
            SyntaxKind::JS_OBJECT_ASSIGNMENT_PATTERN_SHORTHAND_PROPERTY
                | SyntaxKind::JS_OBJECT_ASSIGNMENT_PATTERN_PROPERTY
                | SyntaxKind::JS_OBJECT_ASSIGNMENT_PATTERN_REST
                | SyntaxKind::JS_UNKNOWN_ASSIGNMENT
        )
    }

    fn cast(syntax: SyntaxNode<'a>) -> (r: Option<Self>) {
        match syntax.kind() {
            SyntaxKind::JS_OBJECT_ASSIGNMENT_PATTERN_SHORTHAND_PROPERTY => Some(JsAnyObjectAssignmentPatternMember::JsObjectAssignmentPatternShorthandProperty(JsObjectAssignmentPatternShorthandProperty { syntax })),
            SyntaxKind::JS_OBJECT_ASSIGNMENT_PATTERN_PROPERTY => Some(JsAnyObjectAssignmentPatternMember::JsObjectAssignmentPatternProperty(JsObjectAssignmentPatternProperty { syntax })),
            SyntaxKind::JS_OBJECT_ASSIGNMENT_PATTERN_REST => Some(JsAnyObjectAssignmentPatternMember::JsObjectAssignmentPatternRest(JsObjectAssignmentPatternRest { syntax })),
            SyntaxKind::JS_UNKNOWN_ASSIGNMENT => Some(JsAnyObjectAssignmentPatternMember::JsUnknownAssignment(JsUnknownAssignment { syntax })),
            _ => {
                None
            },
        }
    }

    fn syntax(&self) -> (r: &SyntaxNode<'a>) {
        match self {
            JsAnyObjectAssignmentPatternMember::JsObjectAssignmentPatternShorthandProperty(it) => it.syntax(),
            JsAnyObjectAssignmentPatternMember::JsObjectAssignmentPatternProperty(it) => it.syntax(),
            JsAnyObjectAssignmentPatternMember::JsObjectAssignmentPatternRest(it) => it.syntax(),
            JsAnyObjectAssignmentPatternMember::JsUnknownAssignment(it) => it.syntax(),
        }
    }
}

impl<'a> From<JsObjectAssignmentPatternShorthandProperty<'a>> for JsAnyObjectAssignmentPatternMember<'a> {
    fn from(node: JsObjectAssignmentPatternShorthandProperty<'a>) -> (r: JsAnyObjectAssignmentPatternMember<'a>)
        ensures
            r == JsAnyObjectAssignmentPatternMember::JsObjectAssignmentPatternShorthandProperty(node),
    {
        JsAnyObjectAssignmentPatternMember::JsObjectAssignmentPatternShorthandProperty(node)
    }
}

impl<'a> vstd::std_specs::convert::FromSpecImpl<JsObjectAssignmentPatternShorthandProperty<'a>> for JsAnyObjectAssignmentPatternMember<'a> {
    open spec fn obeys_from_spec() -> bool {
        true
    }

    open spec fn from_spec(node: JsObjectAssignmentPatternShorthandProperty<'a>) -> JsAnyObjectAssignmentPatternMember<'a> {
        JsAnyObjectAssignmentPatternMember::JsObjectAssignmentPatternShorthandProperty(node)
    }
}

impl<'a> From<JsObjectAssignmentPatternProperty<'a>> for JsAnyObjectAssignmentPatternMember<'a> {
    fn from(node: JsObjectAssignmentPatternProperty<'a>) -> (r: JsAnyObjectAssignmentPatternMember<'a>)
        ensures
            r == JsAnyObjectAssignmentPatternMember::JsObjectAssignmentPatternProperty(node),
    {
        JsAnyObjectAssignmentPatternMember::JsObjectAssignmentPatternProperty(node)
    }
}

impl<'a> vstd::std_specs::convert::FromSpecImpl<JsObjectAssignmentPatternProperty<'a>> for JsAnyObjectAssignmentPatternMember<'a> {
    open spec fn obeys_from_spec() -> bool {
        true
    }

    open spec fn from_spec(node: JsObjectAssignmentPatternProperty<'a>) -> JsAnyObjectAssignmentPatternMember<'a> {
        JsAnyObjectAssignmentPatternMember::JsObjectAssignmentPatternProperty(node)
    }
}

impl<'a> From<JsObjectAssignmentPatternRest<'a>> for JsAnyObjectAssignmentPatternMember<'a> {
    fn from(node: JsObjectAssignmentPatternRest<'a>) -> (r: JsAnyObjectAssignmentPatternMember<'a>)
        ensures
            r == JsAnyObjectAssignmentPatternMember::JsObjectAssignmentPatternRest(node),
    {
        JsAnyObjectAssignmentPatternMember::JsObjectAssignmentPatternRest(node)
    }
}

impl<'a> vstd::std_specs::convert::FromSpecImpl<JsObjectAssignmentPatternRest<'a>> for JsAnyObjectAssignmentPatternMember<'a> {
    open spec fn obeys_from_spec() -> bool {
        true
    }

    open spec fn from_spec(node: JsObjectAssignmentPatternRest<'a>) -> JsAnyObjectAssignmentPatternMember<'a> {
        JsAnyObjectAssignmentPatternMember::JsObjectAssignmentPatternRest(node)
    }
}

impl<'a> From<JsUnknownAssignment<'a>> for JsAnyObjectAssignmentPatternMember<'a> {
    fn from(node: JsUnknownAssignment<'a>) -> (r: JsAnyObjectAssignmentPatternMember<'a>)
        ensures
            r == JsAnyObjectAssignmentPatternMember::JsUnknownAssignment(node),
    {
        JsAnyObjectAssignmentPatternMember::JsUnknownAssignment(node)
    }
}

impl<'a> vstd::std_specs::convert::FromSpecImpl<JsUnknownAssignment<'a>> for JsAnyObjectAssignmentPatternMember<'a> {
    open spec fn obeys_from_spec() -> bool {
        true
    }

    open spec fn from_spec(node: JsUnknownAssignment<'a>) -> JsAnyObjectAssignmentPatternMember<'a> {
        JsAnyObjectAssignmentPatternMember::JsUnknownAssignment(node)
    }
}

/// One of the nodes that may stand where the grammar expects `JsAnyArrayBindingPatternElement`.
#[derive(Clone, Copy, Debug)]
pub enum JsAnyArrayBindingPatternElement<'a> {
    JsArrayHole(JsArrayHole<'a>),
    JsAnyBindingPattern(JsAnyBindingPattern<'a>),
    JsBindingPatternWithDefault(JsBindingPatternWithDefault<'a>),
    JsArrayBindingPatternRestElement(JsArrayBindingPatternRestElement<'a>),
}

impl<'a> AstNode<'a> for JsAnyArrayBindingPatternElement<'a> {
    open spec fn kind_ok(kind: SyntaxKind) -> bool {
        ||| <JsArrayHole<'a> as AstNode<'a>>::kind_ok(kind)
        ||| <JsAnyBindingPattern<'a> as AstNode<'a>>::kind_ok(kind)
        ||| <JsBindingPatternWithDefault<'a> as AstNode<'a>>::kind_ok(kind)
        ||| <JsArrayBindingPatternRestElement<'a> as AstNode<'a>>::kind_ok(kind)
    }

    closed spec fn syntax_view(&self) -> SyntaxNode<'a> {
        match self {
            JsAnyArrayBindingPatternElement::JsArrayHole(it) => it.syntax_view(),
            JsAnyArrayBindingPatternElement::JsAnyBindingPattern(it) => it.syntax_view(),
            JsAnyArrayBindingPatternElement::JsBindingPatternWithDefault(it) => it.syntax_view(),
            JsAnyArrayBindingPatternElement::JsArrayBindingPatternRestElement(it) => it.syntax_view(),
        }
    }

    fn can_cast(kind: SyntaxKind) -> (r: bool) {
        matches!(
            kind,
            SyntaxKind::JS_ARRAY_HOLE
                | SyntaxKind::JS_BINDING_PATTERN_WITH_DEFAULT
                | SyntaxKind::JS_ARRAY_BINDING_PATTERN_REST_ELEMENT
        ) || JsAnyBindingPattern::can_cast(kind)
    }

    fn cast(syntax: SyntaxNode<'a>) -> (r: Option<Self>) {
        match syntax.kind() {
            SyntaxKind::JS_ARRAY_HOLE => Some(JsAnyArrayBindingPatternElement::JsArrayHole(JsArrayHole { syntax })),
            SyntaxKind::JS_BINDING_PATTERN_WITH_DEFAULT => Some(JsAnyArrayBindingPatternElement::JsBindingPatternWithDefault(JsBindingPatternWithDefault { syntax })),
            SyntaxKind::JS_ARRAY_BINDING_PATTERN_REST_ELEMENT => Some(JsAnyArrayBindingPatternElement::JsArrayBindingPatternRestElement(JsArrayBindingPatternRestElement { syntax })),
            _ => {
                if let Some(it) = JsAnyBindingPattern::cast(syntax) {
                    return Some(JsAnyArrayBindingPatternElement::JsAnyBindingPattern(it));
                }
                None
            },
        }
    }

    fn syntax(&self) -> (r: &SyntaxNode<'a>) {
        match self {
            JsAnyArrayBindingPatternElement::JsArrayHole(it) => it.syntax(),
            JsAnyArrayBindingPatternElement::JsAnyBindingPattern(it) => it.syntax(),
            JsAnyArrayBindingPatternElement::JsBindingPatternWithDefault(it) => it.syntax(),
            JsAnyArrayBindingPatternElement::JsArrayBindingPatternRestElement(it) => it.syntax(),
        }
    }
}

impl<'a> From<JsArrayHole<'a>> for JsAnyArrayBindingPatternElement<'a> {
    fn from(node: JsArrayHole<'a>) -> (r: JsAnyArrayBindingPatternElement<'a>)
        ensures
            r == JsAnyArrayBindingPatternElement::JsArrayHole(node),
    {
        JsAnyArrayBindingPatternElement::JsArrayHole(node)
    }
}

impl<'a> vstd::std_specs::convert::FromSpecImpl<JsArrayHole<'a>> for JsAnyArrayBindingPatternElement<'a> {
    open spec fn obeys_from_spec() -> bool {
        true
    }

    open spec fn from_spec(node: JsArrayHole<'a>) -> JsAnyArrayBindingPatternElement<'a> {
        JsAnyArrayBindingPatternElement::JsArrayHole(node)
    }
}

impl<'a> From<JsAnyBindingPattern<'a>> for JsAnyArrayBindingPatternElement<'a> {
    fn from(node: JsAnyBindingPattern<'a>) -> (r: JsAnyArrayBindingPatternElement<'a>)
        ensures
            r == JsAnyArrayBindingPatternElement::JsAnyBindingPattern(node),
    {
        JsAnyArrayBindingPatternElement::JsAnyBindingPattern(node)
    }
}

impl<'a> vstd::std_specs::convert::FromSpecImpl<JsAnyBindingPattern<'a>> for JsAnyArrayBindingPatternElement<'a> {
    open spec fn obeys_from_spec() -> bool {
        true
    }

    open spec fn from_spec(node: JsAnyBindingPattern<'a>) -> JsAnyArrayBindingPatternElement<'a> {
        JsAnyArrayBindingPatternElement::JsAnyBindingPattern(node)
    }
}

impl<'a> From<JsBindingPatternWithDefault<'a>> for JsAnyArrayBindingPatternElement<'a> {
    fn from(node: JsBindingPatternWithDefault<'a>) -> (r: JsAnyArrayBindingPatternElement<'a>)
        ensures
            r == JsAnyArrayBindingPatternElement::JsBindingPatternWithDefault(node),
    {
        JsAnyArrayBindingPatternElement::JsBindingPatternWithDefault(node)
    }
}

impl<'a> vstd::std_specs::convert::FromSpecImpl<JsBindingPatternWithDefault<'a>> for JsAnyArrayBindingPatternElement<'a> {
    open spec fn obeys_from_spec() -> bool {
        true
    }

    open spec fn from_spec(node: JsBindingPatternWithDefault<'a>) -> JsAnyArrayBindingPatternElement<'a> {
        JsAnyArrayBindingPatternElement::JsBindingPatternWithDefault(node)
    }
}

impl<'a> From<JsArrayBindingPatternRestElement<'a>> for JsAnyArrayBindingPatternElement<'a> {
    fn from(node: JsArrayBindingPatternRestElement<'a>) -> (r: JsAnyArrayBindingPatternElement<'a>)
        ensures
            r == JsAnyArrayBindingPatternElement::JsArrayBindingPatternRestElement(node),
    {
        JsAnyArrayBindingPatternElement::JsArrayBindingPatternRestElement(node)
    }
}

impl<'a> vstd::std_specs::convert::FromSpecImpl<JsArrayBindingPatternRestElement<'a>> for JsAnyArrayBindingPatternElement<'a> {
    open spec fn obeys_from_spec() -> bool {
        true
    }

    open spec fn from_spec(node: JsArrayBindingPatternRestElement<'a>) -> JsAnyArrayBindingPatternElement<'a> {
        JsAnyArrayBindingPatternElement::JsArrayBindingPatternRestElement(node)
    }
}

/// One of the nodes that may stand where the grammar expects `JsAnyObjectBindingPatternMember`.
#[derive(Clone, Copy, Debug)]
pub enum JsAnyObjectBindingPatternMember<'a> {
    JsObjectBindingPatternProperty(JsObjectBindingPatternProperty<'a>),
    JsObjectBindingPatternRest(JsObjectBindingPatternRest<'a>),
    JsObjectBindingPatternShorthandProperty(JsObjectBindingPatternShorthandProperty<'a>),
    JsIdentifierBinding(JsIdentifierBinding<'a>),
    JsUnknownBinding(JsUnknownBinding<'a>),
}

impl<'a> AstNode<'a> for JsAnyObjectBindingPatternMember<'a> {
    open spec fn kind_ok(kind: SyntaxKind) -> bool {
        ||| <JsObjectBindingPatternProperty<'a> as AstNode<'a>>::kind_ok(kind)
        ||| <JsObjectBindingPatternRest<'a> as AstNode<'a>>::kind_ok(kind)
        ||| <JsObjectBindingPatternShorthandProperty<'a> as AstNode<'a>>::kind_ok(kind)
        ||| <JsIdentifierBinding<'a> as AstNode<'a>>::kind_ok(kind)
        ||| <JsUnknownBinding<'a> as AstNode<'a>>::kind_ok(kind)
    }

    closed spec fn syntax_view(&self) -> SyntaxNode<'a> {
        match self {
            JsAnyObjectBindingPatternMember::JsObjectBindingPatternProperty(it) => it.syntax_view(),
            JsAnyObjectBindingPatternMember::JsObjectBindingPatternRest(it) => it.syntax_view(),
            JsAnyObjectBindingPatternMember::JsObjectBindingPatternShorthandProperty(it) => it.syntax_view(),
            JsAnyObjectBindingPatternMember::JsIdentifierBinding(it) => it.syntax_view(),
            JsAnyObjectBindingPatternMember::JsUnknownBinding(it) => it.syntax_view(),
        }
    }

    fn can_cast(kind: SyntaxKind) -> (r: bool) {
        matches!(
            kind,
            SyntaxKind::JS_OBJECT_BINDING_PATTERN_PROPERTY
                | SyntaxKind::JS_OBJECT_BINDING_PATTERN_REST
                | SyntaxKind::JS_OBJECT_BINDING_PATTERN_SHORTHAND_PROPERTY
                | SyntaxKind::JS_IDENTIFIER_BINDING
                | SyntaxKind::JS_UNKNOWN_BINDING
        )
    }

    fn cast(syntax: SyntaxNode<'a>) -> (r: Option<Self>) {
        match syntax.kind() {
            SyntaxKind::JS_OBJECT_BINDING_PATTERN_PROPERTY => Some(JsAnyObjectBindingPatternMember::JsObjectBindingPatternProperty(JsObjectBindingPatternProperty { syntax })),
            SyntaxKind::JS_OBJECT_BINDING_PATTERN_REST => Some(JsAnyObjectBindingPatternMember::JsObjectBindingPatternRest(JsObjectBindingPatternRest { syntax })),
            SyntaxKind::JS_OBJECT_BINDING_PATTERN_SHORTHAND_PROPERTY => Some(JsAnyObjectBindingPatternMember::JsObjectBindingPatternShorthandProperty(JsObjectBindingPatternShorthandProperty { syntax })),
            SyntaxKind::JS_IDENTIFIER_BINDING => Some(JsAnyObjectBindingPatternMember::JsIdentifierBinding(JsIdentifierBinding { syntax })),
            SyntaxKind::JS_UNKNOWN_BINDING => Some(JsAnyObjectBindingPatternMember::JsUnknownBinding(JsUnknownBinding { syntax })),
            _ => {
                None
            },
        }
    }

    fn syntax(&self) -> (r: &SyntaxNode<'a>) {
        match self {
            JsAnyObjectBindingPatternMember::JsObjectBindingPatternProperty(it) => it.syntax(),
            JsAnyObjectBindingPatternMember::JsObjectBindingPatternRest(it) => it.syntax(),
            JsAnyObjectBindingPatternMember::JsObjectBindingPatternShorthandProperty(it) => it.syntax(),
            JsAnyObjectBindingPatternMember::JsIdentifierBinding(it) => it.syntax(),
            JsAnyObjectBindingPatternMember::JsUnknownBinding(it) => it.syntax(),
        }
    }
}

impl<'a> From<JsObjectBindingPatternProperty<'a>> for JsAnyObjectBindingPatternMember<'a> {
    fn from(node: JsObjectBindingPatternProperty<'a>) -> (r: JsAnyObjectBindingPatternMember<'a>)
        ensures
            r == JsAnyObjectBindingPatternMember::JsObjectBindingPatternProperty(node),
    {
        JsAnyObjectBindingPatternMember::JsObjectBindingPatternProperty(node)
    }
}

impl<'a> vstd::std_specs::convert::FromSpecImpl<JsObjectBindingPatternProperty<'a>> for JsAnyObjectBindingPatternMember<'a> {
    open spec fn obeys_from_spec() -> bool {
        true
    }

    open spec fn from_spec(node: JsObjectBindingPatternProperty<'a>) -> JsAnyObjectBindingPatternMember<'a> {
        JsAnyObjectBindingPatternMember::JsObjectBindingPatternProperty(node)
    }
}

impl<'a> From<JsObjectBindingPatternRest<'a>> for JsAnyObjectBindingPatternMember<'a> {
    fn from(node: JsObjectBindingPatternRest<'a>) -> (r: JsAnyObjectBindingPatternMember<'a>)
        ensures
            r == JsAnyObjectBindingPatternMember::JsObjectBindingPatternRest(node),
    {
        JsAnyObjectBindingPatternMember::JsObjectBindingPatternRest(node)
    }
}

impl<'a> vstd::std_specs::convert::FromSpecImpl<JsObjectBindingPatternRest<'a>> for JsAnyObjectBindingPatternMember<'a> {
    open spec fn obeys_from_spec() -> bool {
        true
    }

    open spec fn from_spec(node: JsObjectBindingPatternRest<'a>) -> JsAnyObjectBindingPatternMember<'a> {
        JsAnyObjectBindingPatternMember::JsObjectBindingPatternRest(node)
    }
}

impl<'a> From<JsObjectBindingPatternShorthandProperty<'a>> for JsAnyObjectBindingPatternMember<'a> {
    fn from(node: JsObjectBindingPatternShorthandProperty<'a>) -> (r: JsAnyObjectBindingPatternMember<'a>)
        ensures
            r == JsAnyObjectBindingPatternMember::JsObjectBindingPatternShorthandProperty(node),
    {
        JsAnyObjectBindingPatternMember::JsObjectBindingPatternShorthandProperty(node)
    }
}

impl<'a> vstd::std_specs::convert::FromSpecImpl<JsObjectBindingPatternShorthandProperty<'a>> for JsAnyObjectBindingPatternMember<'a> {
    open spec fn obeys_from_spec() -> bool {
        true
    }

    open spec fn from_spec(node: JsObjectBindingPatternShorthandProperty<'a>) -> JsAnyObjectBindingPatternMember<'a> {
        JsAnyObjectBindingPatternMember::JsObjectBindingPatternShorthandProperty(node)
    }
}

impl<'a> From<JsIdentifierBinding<'a>> for JsAnyObjectBindingPatternMember<'a> {
    fn from(node: JsIdentifierBinding<'a>) -> (r: JsAnyObjectBindingPatternMember<'a>)
        ensures
            r == JsAnyObjectBindingPatternMember::JsIdentifierBinding(node),
    {
        JsAnyObjectBindingPatternMember::JsIdentifierBinding(node)
    }
}

impl<'a> vstd::std_specs::convert::FromSpecImpl<JsIdentifierBinding<'a>> for JsAnyObjectBindingPatternMember<'a> {
    open spec fn obeys_from_spec() -> bool {
        true
    }

    open spec fn from_spec(node: JsIdentifierBinding<'a>) -> JsAnyObjectBindingPatternMember<'a> {
        JsAnyObjectBindingPatternMember::JsIdentifierBinding(node)
    }
}

impl<'a> From<JsUnknownBinding<'a>> for JsAnyObjectBindingPatternMember<'a> {
    fn from(node: JsUnknownBinding<'a>) -> (r: JsAnyObjectBindingPatternMember<'a>)
        ensures
            r == JsAnyObjectBindingPatternMember::JsUnknownBinding(node),
    {
        JsAnyObjectBindingPatternMember::JsUnknownBinding(node)
    }
}

impl<'a> vstd::std_specs::convert::FromSpecImpl<JsUnknownBinding<'a>> for JsAnyObjectBindingPatternMember<'a> {
    open spec fn obeys_from_spec() -> bool {
        true
    }

    open spec fn from_spec(node: JsUnknownBinding<'a>) -> JsAnyObjectBindingPatternMember<'a> {
        JsAnyObjectBindingPatternMember::JsUnknownBinding(node)
    }
}

/// One of the nodes that may stand where the grammar expects `TsType`.
#[derive(Clone, Copy, Debug)]
pub enum TsType<'a> {
    TsAny(TsAny<'a>),
    TsUnknown(TsUnknown<'a>),
    TsNumber(TsNumber<'a>),
    TsObject(TsObject<'a>),
    TsBoolean(TsBoolean<'a>),
    TsBigint(TsBigint<'a>),
    TsString(TsString<'a>),
    TsSymbol(TsSymbol<'a>),
    TsVoid(TsVoid<'a>),
    TsUndefined(TsUndefined<'a>),
    TsNull(TsNull<'a>),
    TsNever(TsNever<'a>),
    TsThis(TsThis<'a>),
    TsLiteral(TsLiteral<'a>),
    TsPredicate(TsPredicate<'a>),
    TsTuple(TsTuple<'a>),
    TsParen(TsParen<'a>),
    TsTypeRef(TsTypeRef<'a>),
    TsTemplate(TsTemplate<'a>),
    TsMappedType(TsMappedType<'a>),
    TsImport(TsImport<'a>),
    TsArray(TsArray<'a>),
    TsIndexedArray(TsIndexedArray<'a>),
    TsTypeOperator(TsTypeOperator<'a>),
    TsIntersection(TsIntersection<'a>),
    TsUnion(TsUnion<'a>),
    TsFnType(TsFnType<'a>),
    TsConstructorType(TsConstructorType<'a>),
    TsConditionalType(TsConditionalType<'a>),
    TsObjectType(TsObjectType<'a>),
    TsInfer(TsInfer<'a>),
}

impl<'a> AstNode<'a> for TsType<'a> {
    open spec fn kind_ok(kind: SyntaxKind) -> bool {
        ||| <TsAny<'a> as AstNode<'a>>::kind_ok(kind)
        ||| <TsUnknown<'a> as AstNode<'a>>::kind_ok(kind)
        ||| <TsNumber<'a> as AstNode<'a>>::kind_ok(kind)
        ||| <TsObject<'a> as AstNode<'a>>::kind_ok(kind)
        ||| <TsBoolean<'a> as AstNode<'a>>::kind_ok(kind)
        ||| <TsBigint<'a> as AstNode<'a>>::kind_ok(kind)
        ||| <TsString<'a> as AstNode<'a>>::kind_ok(kind)
        ||| <TsSymbol<'a> as AstNode<'a>>::kind_ok(kind)
        ||| <TsVoid<'a> as AstNode<'a>>::kind_ok(kind)
        ||| <TsUndefined<'a> as AstNode<'a>>::kind_ok(kind)
        ||| <TsNull<'a> as AstNode<'a>>::kind_ok(kind)
        ||| <TsNever<'a> as AstNode<'a>>::kind_ok(kind)
        ||| <TsThis<'a> as AstNode<'a>>::kind_ok(kind)
        ||| <TsLiteral<'a> as AstNode<'a>>::kind_ok(kind)
        ||| <TsPredicate<'a> as AstNode<'a>>::kind_ok(kind)
        ||| <TsTuple<'a> as AstNode<'a>>::kind_ok(kind)
        ||| <TsParen<'a> as AstNode<'a>>::kind_ok(kind)
        ||| <TsTypeRef<'a> as AstNode<'a>>::kind_ok(kind)
        ||| <TsTemplate<'a> as AstNode<'a>>::kind_ok(kind)
        ||| <TsMappedType<'a> as AstNode<'a>>::kind_ok(kind)
        ||| <TsImport<'a> as AstNode<'a>>::kind_ok(kind)
        ||| <TsArray<'a> as AstNode<'a>>::kind_ok(kind)
        ||| <TsIndexedArray<'a> as AstNode<'a>>::kind_ok(kind)
        ||| <TsTypeOperator<'a> as AstNode<'a>>::kind_ok(kind)
        ||| <TsIntersection<'a> as AstNode<'a>>::kind_ok(kind)
        ||| <TsUnion<'a> as AstNode<'a>>::kind_ok(kind)
        ||| <TsFnType<'a> as AstNode<'a>>::kind_ok(kind)
        ||| <TsConstructorType<'a> as AstNode<'a>>::kind_ok(kind)
        ||| <TsConditionalType<'a> as AstNode<'a>>::kind_ok(kind)
        ||| <TsObjectType<'a> as AstNode<'a>>::kind_ok(kind)
        ||| <TsInfer<'a> as AstNode<'a>>::kind_ok(kind)
    }

    closed spec fn syntax_view(&self) -> SyntaxNode<'a> {
        match self {
            TsType::TsAny(it) => it.syntax_view(),
            TsType::TsUnknown(it) => it.syntax_view(),
            TsType::TsNumber(it) => it.syntax_view(),
            TsType::TsObject(it) => it.syntax_view(),
            TsType::TsBoolean(it) => it.syntax_view(),
            TsType::TsBigint(it) => it.syntax_view(),
            TsType::TsString(it) => it.syntax_view(),
            TsType::TsSymbol(it) => it.syntax_view(),
            TsType::TsVoid(it) => it.syntax_view(),
            TsType::TsUndefined(it) => it.syntax_view(),
            TsType::TsNull(it) => it.syntax_view(),
            TsType::TsNever(it) => it.syntax_view(),
            TsType::TsThis(it) => it.syntax_view(),
            TsType::TsLiteral(it) => it.syntax_view(),
            TsType::TsPredicate(it) => it.syntax_view(),
            TsType::TsTuple(it) => it.syntax_view(),
            TsType::TsParen(it) => it.syntax_view(),
            TsType::TsTypeRef(it) => it.syntax_view(),
            TsType::TsTemplate(it) => it.syntax_view(),
            TsType::TsMappedType(it) => it.syntax_view(),
            TsType::TsImport(it) => it.syntax_view(),
            TsType::TsArray(it) => it.syntax_view(),
            TsType::TsIndexedArray(it) => it.syntax_view(),
            TsType::TsTypeOperator(it) => it.syntax_view(),
            TsType::TsIntersection(it) => it.syntax_view(),
            TsType::TsUnion(it) => it.syntax_view(),
            TsType::TsFnType(it) => it.syntax_view(),
            TsType::TsConstructorType(it) => it.syntax_view(),
            TsType::TsConditionalType(it) => it.syntax_view(),
            TsType::TsObjectType(it) => it.syntax_view(),
            TsType::TsInfer(it) => it.syntax_view(),
        }
    }

    fn can_cast(kind: SyntaxKind) -> (r: bool) {
        matches!(
            kind,
            SyntaxKind::TS_ANY
                | SyntaxKind::TS_UNKNOWN
                | SyntaxKind::TS_NUMBER
                | SyntaxKind::TS_OBJECT
                | SyntaxKind::TS_BOOLEAN
                | SyntaxKind::TS_BIGINT
                | SyntaxKind::TS_STRING
                | SyntaxKind::TS_SYMBOL
                | SyntaxKind::TS_VOID
                | SyntaxKind::TS_UNDEFINED
                | SyntaxKind::TS_NULL
                | SyntaxKind::TS_NEVER
                | SyntaxKind::TS_THIS
                | SyntaxKind::TS_LITERAL
                | SyntaxKind::TS_PREDICATE
                | SyntaxKind::TS_TUPLE
                | SyntaxKind::TS_PAREN
                | SyntaxKind::TS_TYPE_REF
                | SyntaxKind::TS_TEMPLATE
                | SyntaxKind::TS_MAPPED_TYPE
                | SyntaxKind::TS_IMPORT
                | SyntaxKind::TS_ARRAY
                | SyntaxKind::TS_INDEXED_ARRAY
                | SyntaxKind::TS_TYPE_OPERATOR
                | SyntaxKind::TS_INTERSECTION
                | SyntaxKind::TS_UNION
                | SyntaxKind::TS_FN_TYPE
                | SyntaxKind::TS_CONSTRUCTOR_TYPE
                | SyntaxKind::TS_CONDITIONAL_TYPE
                | SyntaxKind::TS_OBJECT_TYPE
                | SyntaxKind::TS_INFER
        )
    }

    fn cast(syntax: SyntaxNode<'a>) -> (r: Option<Self>) {
        match syntax.kind() {
            SyntaxKind::TS_ANY => Some(TsType::TsAny(TsAny { syntax })),
            SyntaxKind::TS_UNKNOWN => Some(TsType::TsUnknown(TsUnknown { syntax })),
            SyntaxKind::TS_NUMBER => Some(TsType::TsNumber(TsNumber { syntax })),
            SyntaxKind::TS_OBJECT => Some(TsType::TsObject(TsObject { syntax })),
            SyntaxKind::TS_BOOLEAN => Some(TsType::TsBoolean(TsBoolean { syntax })),
            SyntaxKind::TS_BIGINT => Some(TsType::TsBigint(TsBigint { syntax })),
            SyntaxKind::TS_STRING => Some(TsType::TsString(TsString { syntax })),
            SyntaxKind::TS_SYMBOL => Some(TsType::TsSymbol(TsSymbol { syntax })),
            SyntaxKind::TS_VOID => Some(TsType::TsVoid(TsVoid { syntax })),
            SyntaxKind::TS_UNDEFINED => Some(TsType::TsUndefined(TsUndefined { syntax })),
            SyntaxKind::TS_NULL => Some(TsType::TsNull(TsNull { syntax })),
            SyntaxKind::TS_NEVER => Some(TsType::TsNever(TsNever { syntax })),
            SyntaxKind::TS_THIS => Some(TsType::TsThis(TsThis { syntax })),
            SyntaxKind::TS_LITERAL => Some(TsType::TsLiteral(TsLiteral { syntax })),
            SyntaxKind::TS_PREDICATE => Some(TsType::TsPredicate(TsPredicate { syntax })),
            SyntaxKind::TS_TUPLE => Some(TsType::TsTuple(TsTuple { syntax })),
            SyntaxKind::TS_PAREN => Some(TsType::TsParen(TsParen { syntax })),
            SyntaxKind::TS_TYPE_REF => Some(TsType::TsTypeRef(TsTypeRef { syntax })),
            SyntaxKind::TS_TEMPLATE => Some(TsType::TsTemplate(TsTemplate { syntax })),
            SyntaxKind::TS_MAPPED_TYPE => Some(TsType::TsMappedType(TsMappedType { syntax })),
            SyntaxKind::TS_IMPORT => Some(TsType::TsImport(TsImport { syntax })),
            SyntaxKind::TS_ARRAY => Some(TsType::TsArray(TsArray { syntax })),
            SyntaxKind::TS_INDEXED_ARRAY => Some(TsType::TsIndexedArray(TsIndexedArray { syntax })),
            SyntaxKind::TS_TYPE_OPERATOR => Some(TsType::TsTypeOperator(TsTypeOperator { syntax })),
            SyntaxKind::TS_INTERSECTION => Some(TsType::TsIntersection(TsIntersection { syntax })),
            SyntaxKind::TS_UNION => Some(TsType::TsUnion(TsUnion { syntax })),
            SyntaxKind::TS_FN_TYPE => Some(TsType::TsFnType(TsFnType { syntax })),
            SyntaxKind::TS_CONSTRUCTOR_TYPE => Some(TsType::TsConstructorType(TsConstructorType { syntax })),
            SyntaxKind::TS_CONDITIONAL_TYPE => Some(TsType::TsConditionalType(TsConditionalType { syntax })),
            SyntaxKind::TS_OBJECT_TYPE => Some(TsType::TsObjectType(TsObjectType { syntax })),
            SyntaxKind::TS_INFER => Some(TsType::TsInfer(TsInfer { syntax })),
            _ => {
                None
            },
        }
    }

    fn syntax(&self) -> (r: &SyntaxNode<'a>) {
        match self {
            TsType::TsAny(it) => it.syntax(),
            TsType::TsUnknown(it) => it.syntax(),
            TsType::TsNumber(it) => it.syntax(),
            TsType::TsObject(it) => it.syntax(),
            TsType::TsBoolean(it) => it.syntax(),
            TsType::TsBigint(it) => it.syntax(),
            TsType::TsString(it) => it.syntax(),
            TsType::TsSymbol(it) => it.syntax(),
            TsType::TsVoid(it) => it.syntax(),
            TsType::TsUndefined(it) => it.syntax(),
            TsType::TsNull(it) => it.syntax(),
            TsType::TsNever(it) => it.syntax(),
            TsType::TsThis(it) => it.syntax(),
            TsType::TsLiteral(it) => it.syntax(),
            TsType::TsPredicate(it) => it.syntax(),
            TsType::TsTuple(it) => it.syntax(),
            TsType::TsParen(it) => it.syntax(),
            TsType::TsTypeRef(it) => it.syntax(),
            TsType::TsTemplate(it) => it.syntax(),
            TsType::TsMappedType(it) => it.syntax(),
            TsType::TsImport(it) => it.syntax(),
            TsType::TsArray(it) => it.syntax(),
            TsType::TsIndexedArray(it) => it.syntax(),
            TsType::TsTypeOperator(it) => it.syntax(),
            TsType::TsIntersection(it) => it.syntax(),
            TsType::TsUnion(it) => it.syntax(),
            TsType::TsFnType(it) => it.syntax(),
            TsType::TsConstructorType(it) => it.syntax(),
            TsType::TsConditionalType(it) => it.syntax(),
            TsType::TsObjectType(it) => it.syntax(),
            TsType::TsInfer(it) => it.syntax(),
        }
    }
}

impl<'a> From<TsAny<'a>> for TsType<'a> {
    fn from(node: TsAny<'a>) -> (r: TsType<'a>)
        ensures
            r == TsType::TsAny(node),
    {
        TsType::TsAny(node)
    }
}

impl<'a> vstd::std_specs::convert::FromSpecImpl<TsAny<'a>> for TsType<'a> {
    open spec fn obeys_from_spec() -> bool {
        true
    }

    open spec fn from_spec(node: TsAny<'a>) -> TsType<'a> {
        TsType::TsAny(node)
    }
}

impl<'a> From<TsUnknown<'a>> for TsType<'a> {
    fn from(node: TsUnknown<'a>) -> (r: TsType<'a>)
        ensures
            r == TsType::TsUnknown(node),
    {
        TsType::TsUnknown(node)
    }
}

impl<'a> vstd::std_specs::convert::FromSpecImpl<TsUnknown<'a>> for TsType<'a> {
    open spec fn obeys_from_spec() -> bool {
        true
    }

    open spec fn from_spec(node: TsUnknown<'a>) -> TsType<'a> {
        TsType::TsUnknown(node)
    }
}

impl<'a> From<TsNumber<'a>> for TsType<'a> {
    fn from(node: TsNumber<'a>) -> (r: TsType<'a>)
        ensures
            r == TsType::TsNumber(node),
    {
        TsType::TsNumber(node)
    }
}

impl<'a> vstd::std_specs::convert::FromSpecImpl<TsNumber<'a>> for TsType<'a> {
    open spec fn obeys_from_spec() -> bool {
        true
    }

    open spec fn from_spec(node: TsNumber<'a>) -> TsType<'a> {
        TsType::TsNumber(node)
    }
}

impl<'a> From<TsObject<'a>> for TsType<'a> {
    fn from(node: TsObject<'a>) -> (r: TsType<'a>)
        ensures
            r == TsType::TsObject(node),
    {
        TsType::TsObject(node)
    }
}

impl<'a> vstd::std_specs::convert::FromSpecImpl<TsObject<'a>> for TsType<'a> {
    open spec fn obeys_from_spec() -> bool {
        true
    }

    open spec fn from_spec(node: TsObject<'a>) -> TsType<'a> {
        TsType::TsObject(node)
    }
}

impl<'a> From<TsBoolean<'a>> for TsType<'a> {
    fn from(node: TsBoolean<'a>) -> (r: TsType<'a>)
        ensures
            r == TsType::TsBoolean(node),
    {
        TsType::TsBoolean(node)
    }
}

impl<'a> vstd::std_specs::convert::FromSpecImpl<TsBoolean<'a>> for TsType<'a> {
    open spec fn obeys_from_spec() -> bool {
        true
    }

    open spec fn from_spec(node: TsBoolean<'a>) -> TsType<'a> {
        TsType::TsBoolean(node)
    }
}

impl<'a> From<TsBigint<'a>> for TsType<'a> {
    fn from(node: TsBigint<'a>) -> (r: TsType<'a>)
        ensures
            r == TsType::TsBigint(node),
    {
        TsType::TsBigint(node)
    }
}

impl<'a> vstd::std_specs::convert::FromSpecImpl<TsBigint<'a>> for TsType<'a> {
    open spec fn obeys_from_spec() -> bool {
        true
    }

    open spec fn from_spec(node: TsBigint<'a>) -> TsType<'a> {
        TsType::TsBigint(node)
    }
}

impl<'a> From<TsString<'a>> for TsType<'a> {
    fn from(node: TsString<'a>) -> (r: TsType<'a>)
        ensures
            r == TsType::TsString(node),
    {
        TsType::TsString(node)
    }
}

impl<'a> vstd::std_specs::convert::FromSpecImpl<TsString<'a>> for TsType<'a> {
    open spec fn obeys_from_spec() -> bool {
        true
    }

    open spec fn from_spec(node: TsString<'a>) -> TsType<'a> {
        TsType::TsString(node)
    }
}

impl<'a> From<TsSymbol<'a>> for TsType<'a> {
    fn from(node: TsSymbol<'a>) -> (r: TsType<'a>)
        ensures
            r == TsType::TsSymbol(node),
    {
        TsType::TsSymbol(node)
    }
}

impl<'a> vstd::std_specs::convert::FromSpecImpl<TsSymbol<'a>> for TsType<'a> {
    open spec fn obeys_from_spec() -> bool {
        true
    }

    open spec fn from_spec(node: TsSymbol<'a>) -> TsType<'a> {
        TsType::TsSymbol(node)
    }
}

impl<'a> From<TsVoid<'a>> for TsType<'a> {
    fn from(node: TsVoid<'a>) -> (r: TsType<'a>)
        ensures
            r == TsType::TsVoid(node),
    {
        TsType::TsVoid(node)
    }
}

impl<'a> vstd::std_specs::convert::FromSpecImpl<TsVoid<'a>> for TsType<'a> {
    open spec fn obeys_from_spec() -> bool {
        true
    }

    open spec fn from_spec(node: TsVoid<'a>) -> TsType<'a> {
        TsType::TsVoid(node)
    }
}

impl<'a> From<TsUndefined<'a>> for TsType<'a> {
    fn from(node: TsUndefined<'a>) -> (r: TsType<'a>)
        ensures
            r == TsType::TsUndefined(node),
    {
        TsType::TsUndefined(node)
    }
}

impl<'a> vstd::std_specs::convert::FromSpecImpl<TsUndefined<'a>> for TsType<'a> {
    open spec fn obeys_from_spec() -> bool {
        true
    }

    open spec fn from_spec(node: TsUndefined<'a>) -> TsType<'a> {
        TsType::TsUndefined(node)
    }
}

impl<'a> From<TsNull<'a>> for TsType<'a> {
    fn from(node: TsNull<'a>) -> (r: TsType<'a>)
        ensures
            r == TsType::TsNull(node),
    {
        TsType::TsNull(node)
    }
}

impl<'a> vstd::std_specs::convert::FromSpecImpl<TsNull<'a>> for TsType<'a> {
    open spec fn obeys_from_spec() -> bool {
        true
    }

    open spec fn from_spec(node: TsNull<'a>) -> TsType<'a> {
        TsType::TsNull(node)
    }
}

impl<'a> From<TsNever<'a>> for TsType<'a> {
    fn from(node: TsNever<'a>) -> (r: TsType<'a>)
        ensures
            r == TsType::TsNever(node),
    {
        TsType::TsNever(node)
    }
}

impl<'a> vstd::std_specs::convert::FromSpecImpl<TsNever<'a>> for TsType<'a> {
    open spec fn obeys_from_spec() -> bool {
        true
    }

    open spec fn from_spec(node: TsNever<'a>) -> TsType<'a> {
        TsType::TsNever(node)
    }
}

impl<'a> From<TsThis<'a>> for TsType<'a> {
    fn from(node: TsThis<'a>) -> (r: TsType<'a>)
        ensures
            r == TsType::TsThis(node),
    {
        TsType::TsThis(node)
    }
}

impl<'a> vstd::std_specs::convert::FromSpecImpl<TsThis<'a>> for TsType<'a> {
    open spec fn obeys_from_spec() -> bool {
        true
    }

    open spec fn from_spec(node: TsThis<'a>) -> TsType<'a> {
        TsType::TsThis(node)
    }
}

impl<'a> From<TsLiteral<'a>> for TsType<'a> {
    fn from(node: TsLiteral<'a>) -> (r: TsType<'a>)
        ensures
            r == TsType::TsLiteral(node),
    {
        TsType::TsLiteral(node)
    }
}

impl<'a> vstd::std_specs::convert::FromSpecImpl<TsLiteral<'a>> for TsType<'a> {
    open spec fn obeys_from_spec() -> bool {
        true
    }

    open spec fn from_spec(node: TsLiteral<'a>) -> TsType<'a> {
        TsType::TsLiteral(node)
    }
}

impl<'a> From<TsPredicate<'a>> for TsType<'a> {
    fn from(node: TsPredicate<'a>) -> (r: TsType<'a>)
        ensures
            r == TsType::TsPredicate(node),
    {
        TsType::TsPredicate(node)
    }
}

impl<'a> vstd::std_specs::convert::FromSpecImpl<TsPredicate<'a>> for TsType<'a> {
    open spec fn obeys_from_spec() -> bool {
        true
    }

    open spec fn from_spec(node: TsPredicate<'a>) -> TsType<'a> {
        TsType::TsPredicate(node)
    }
}

impl<'a> From<TsTuple<'a>> for TsType<'a> {
    fn from(node: TsTuple<'a>) -> (r: TsType<'a>)
        ensures
            r == TsType::TsTuple(node),
    {
        TsType::TsTuple(node)
    }
}

impl<'a> vstd::std_specs::convert::FromSpecImpl<TsTuple<'a>> for TsType<'a> {
    open spec fn obeys_from_spec() -> bool {
        true
    }

    open spec fn from_spec(node: TsTuple<'a>) -> TsType<'a> {
        TsType::TsTuple(node)
    }
}

impl<'a> From<TsParen<'a>> for TsType<'a> {
    fn from(node: TsParen<'a>) -> (r: TsType<'a>)
        ensures
            r == TsType::TsParen(node),
    {
        TsType::TsParen(node)
    }
}

impl<'a> vstd::std_specs::convert::FromSpecImpl<TsParen<'a>> for TsType<'a> {
    open spec fn obeys_from_spec() -> bool {
        true
    }

    open spec fn from_spec(node: TsParen<'a>) -> TsType<'a> {
        TsType::TsParen(node)
    }
}

impl<'a> From<TsTypeRef<'a>> for TsType<'a> {
    fn from(node: TsTypeRef<'a>) -> (r: TsType<'a>)
        ensures
            r == TsType::TsTypeRef(node),
    {
        TsType::TsTypeRef(node)
    }
}

impl<'a> vstd::std_specs::convert::FromSpecImpl<TsTypeRef<'a>> for TsType<'a> {
    open spec fn obeys_from_spec() -> bool {
        true
    }

    open spec fn from_spec(node: TsTypeRef<'a>) -> TsType<'a> {
        TsType::TsTypeRef(node)
    }
}

impl<'a> From<TsTemplate<'a>> for TsType<'a> {
    fn from(node: TsTemplate<'a>) -> (r: TsType<'a>)
        ensures
            r == TsType::TsTemplate(node),
    {
        TsType::TsTemplate(node)
    }
}

impl<'a> vstd::std_specs::convert::FromSpecImpl<TsTemplate<'a>> for TsType<'a> {
    open spec fn obeys_from_spec() -> bool {
        true
    }

    open spec fn from_spec(node: TsTemplate<'a>) -> TsType<'a> {
        TsType::TsTemplate(node)
    }
}

impl<'a> From<TsMappedType<'a>> for TsType<'a> {
    fn from(node: TsMappedType<'a>) -> (r: TsType<'a>)
        ensures
            r == TsType::TsMappedType(node),
    {
        TsType::TsMappedType(node)
    }
}

impl<'a> vstd::std_specs::convert::FromSpecImpl<TsMappedType<'a>> for TsType<'a> {
    open spec fn obeys_from_spec() -> bool {
        true
    }

    open spec fn from_spec(node: TsMappedType<'a>) -> TsType<'a> {
        TsType::TsMappedType(node)
    }
}

impl<'a> From<TsImport<'a>> for TsType<'a> {
    fn from(node: TsImport<'a>) -> (r: TsType<'a>)
        ensures
            r == TsType::TsImport(node),
    {
        TsType::TsImport(node)
    }
}

impl<'a> vstd::std_specs::convert::FromSpecImpl<TsImport<'a>> for TsType<'a> {
    open spec fn obeys_from_spec() -> bool {
        true
    }

    open spec fn from_spec(node: TsImport<'a>) -> TsType<'a> {
        TsType::TsImport(node)
    }
}

impl<'a> From<TsArray<'a>> for TsType<'a> {
    fn from(node: TsArray<'a>) -> (r: TsType<'a>)
        ensures
            r == TsType::TsArray(node),
    {
        TsType::TsArray(node)
    }
}

impl<'a> vstd::std_specs::convert::FromSpecImpl<TsArray<'a>> for TsType<'a> {
    open spec fn obeys_from_spec() -> bool {
        true
    }

    open spec fn from_spec(node: TsArray<'a>) -> TsType<'a> {
        TsType::TsArray(node)
    }
}

impl<'a> From<TsIndexedArray<'a>> for TsType<'a> {
    fn from(node: TsIndexedArray<'a>) -> (r: TsType<'a>)
        ensures
            r == TsType::TsIndexedArray(node),
    {
        TsType::TsIndexedArray(node)
    }
}

impl<'a> vstd::std_specs::convert::FromSpecImpl<TsIndexedArray<'a>> for TsType<'a> {
    open spec fn obeys_from_spec() -> bool {
        true
    }

    open spec fn from_spec(node: TsIndexedArray<'a>) -> TsType<'a> {
        TsType::TsIndexedArray(node)
    }
}

impl<'a> From<TsTypeOperator<'a>> for TsType<'a> {
    fn from(node: TsTypeOperator<'a>) -> (r: TsType<'a>)
        ensures
            r == TsType::TsTypeOperator(node),
    {
        TsType::TsTypeOperator(node)
    }
}

impl<'a> vstd::std_specs::convert::FromSpecImpl<TsTypeOperator<'a>> for TsType<'a> {
    open spec fn obeys_from_spec() -> bool {
        true
    }

    open spec fn from_spec(node: TsTypeOperator<'a>) -> TsType<'a> {
        TsType::TsTypeOperator(node)
    }
}

impl<'a> From<TsIntersection<'a>> for TsType<'a> {
    fn from(node: TsIntersection<'a>) -> (r: TsType<'a>)
        ensures
            r == TsType::TsIntersection(node),
    {
        TsType::TsIntersection(node)
    }
}

impl<'a> vstd::std_specs::convert::FromSpecImpl<TsIntersection<'a>> for TsType<'a> {
    open spec fn obeys_from_spec() -> bool {
        true
    }

    open spec fn from_spec(node: TsIntersection<'a>) -> TsType<'a> {
        TsType::TsIntersection(node)
    }
}

impl<'a> From<TsUnion<'a>> for TsType<'a> {
    fn from(node: TsUnion<'a>) -> (r: TsType<'a>)
        ensures
            r == TsType::TsUnion(node),
    {
        TsType::TsUnion(node)
    }
}

impl<'a> vstd::std_specs::convert::FromSpecImpl<TsUnion<'a>> for TsType<'a> {
    open spec fn obeys_from_spec() -> bool {
        true
    }

    open spec fn from_spec(node: TsUnion<'a>) -> TsType<'a> {
        TsType::TsUnion(node)
    }
}

impl<'a> From<TsFnType<'a>> for TsType<'a> {
    fn from(node: TsFnType<'a>) -> (r: TsType<'a>)
        ensures
            r == TsType::TsFnType(node),
    {
        TsType::TsFnType(node)
    }
}

impl<'a> vstd::std_specs::convert::FromSpecImpl<TsFnType<'a>> for TsType<'a> {
    open spec fn obeys_from_spec() -> bool {
        true
    }

    open spec fn from_spec(node: TsFnType<'a>) -> TsType<'a> {
        TsType::TsFnType(node)
    }
}

impl<'a> From<TsConstructorType<'a>> for TsType<'a> {
    fn from(node: TsConstructorType<'a>) -> (r: TsType<'a>)
        ensures
            r == TsType::TsConstructorType(node),
    {
        TsType::TsConstructorType(node)
    }
}

impl<'a> vstd::std_specs::convert::FromSpecImpl<TsConstructorType<'a>> for TsType<'a> {
    open spec fn obeys_from_spec() -> bool {
        true
    }

    open spec fn from_spec(node: TsConstructorType<'a>) -> TsType<'a> {
        TsType::TsConstructorType(node)
    }
}

impl<'a> From<TsConditionalType<'a>> for TsType<'a> {
    fn from(node: TsConditionalType<'a>) -> (r: TsType<'a>)
        ensures
            r == TsType::TsConditionalType(node),
    {
        TsType::TsConditionalType(node)
    }
}

impl<'a> vstd::std_specs::convert::FromSpecImpl<TsConditionalType<'a>> for TsType<'a> {
    open spec fn obeys_from_spec() -> bool {
        true
    }

    open spec fn from_spec(node: TsConditionalType<'a>) -> TsType<'a> {
        TsType::TsConditionalType(node)
    }
}

impl<'a> From<TsObjectType<'a>> for TsType<'a> {
    fn from(node: TsObjectType<'a>) -> (r: TsType<'a>)
        ensures
            r == TsType::TsObjectType(node),
    {
        TsType::TsObjectType(node)
    }
}

impl<'a> vstd::std_specs::convert::FromSpecImpl<TsObjectType<'a>> for TsType<'a> {
    open spec fn obeys_from_spec() -> bool {
        true
    }

    open spec fn from_spec(node: TsObjectType<'a>) -> TsType<'a> {
        TsType::TsObjectType(node)
    }
}

impl<'a> From<TsInfer<'a>> for TsType<'a> {
    fn from(node: TsInfer<'a>) -> (r: TsType<'a>)
        ensures
            r == TsType::TsInfer(node),
    {
        TsType::TsInfer(node)
    }
}

impl<'a> vstd::std_specs::convert::FromSpecImpl<TsInfer<'a>> for TsType<'a> {
    open spec fn obeys_from_spec() -> bool {
        true
    }

    open spec fn from_spec(node: TsInfer<'a>) -> TsType<'a> {
        TsType::TsInfer(node)
    }
}

/// One of the nodes that may stand where the grammar expects `AnyJsImportClause`.
#[derive(Clone, Copy, Debug)]
pub enum AnyJsImportClause<'a> {
    JsImportBareClause(JsImportBareClause<'a>),
    JsName(JsName<'a>),
    JsImportNamedClause(JsImportNamedClause<'a>),
    JsImportDefaultClause(JsImportDefaultClause<'a>),
    JsImportNamespaceClause(JsImportNamespaceClause<'a>),
}

impl<'a> AstNode<'a> for AnyJsImportClause<'a> {
    open spec fn kind_ok(kind: SyntaxKind) -> bool {
        ||| <JsImportBareClause<'a> as AstNode<'a>>::kind_ok(kind)
        ||| <JsName<'a> as AstNode<'a>>::kind_ok(kind)
        ||| <JsImportNamedClause<'a> as AstNode<'a>>::kind_ok(kind)
        ||| <JsImportDefaultClause<'a> as AstNode<'a>>::kind_ok(kind)
        ||| <JsImportNamespaceClause<'a> as AstNode<'a>>::kind_ok(kind)
    }

    closed spec fn syntax_view(&self) -> SyntaxNode<'a> {
        match self {
            AnyJsImportClause::JsImportBareClause(it) => it.syntax_view(),
            AnyJsImportClause::JsName(it) => it.syntax_view(),
            AnyJsImportClause::JsImportNamedClause(it) => it.syntax_view(),
            AnyJsImportClause::JsImportDefaultClause(it) => it.syntax_view(),
            AnyJsImportClause::JsImportNamespaceClause(it) => it.syntax_view(),
        }
    }

    fn can_cast(kind: SyntaxKind) -> (r: bool) {
        matches!(
            kind,
            SyntaxKind::JS_IMPORT_BARE_CLAUSE
                | SyntaxKind::JS_NAME
                | SyntaxKind::JS_IMPORT_NAMED_CLAUSE
                | SyntaxKind::JS_IMPORT_DEFAULT_CLAUSE
                | SyntaxKind::JS_IMPORT_NAMESPACE_CLAUSE
        )
    }

    fn cast(syntax: SyntaxNode<'a>) -> (r: Option<Self>) {
        match syntax.kind() {
            SyntaxKind::JS_IMPORT_BARE_CLAUSE => Some(AnyJsImportClause::JsImportBareClause(JsImportBareClause { syntax })),
            SyntaxKind::JS_NAME => Some(AnyJsImportClause::JsName(JsName { syntax })),
            SyntaxKind::JS_IMPORT_NAMED_CLAUSE => Some(AnyJsImportClause::JsImportNamedClause(JsImportNamedClause { syntax })),
            SyntaxKind::JS_IMPORT_DEFAULT_CLAUSE => Some(AnyJsImportClause::JsImportDefaultClause(JsImportDefaultClause { syntax })),
            SyntaxKind::JS_IMPORT_NAMESPACE_CLAUSE => Some(AnyJsImportClause::JsImportNamespaceClause(JsImportNamespaceClause { syntax })),
            _ => {
                None
            },
        }
    }

    fn syntax(&self) -> (r: &SyntaxNode<'a>) {
        match self {
            AnyJsImportClause::JsImportBareClause(it) => it.syntax(),
            AnyJsImportClause::JsName(it) => it.syntax(),
            AnyJsImportClause::JsImportNamedClause(it) => it.syntax(),
            AnyJsImportClause::JsImportDefaultClause(it) => it.syntax(),
            AnyJsImportClause::JsImportNamespaceClause(it) => it.syntax(),
        }
    }
}

impl<'a> From<JsImportBareClause<'a>> for AnyJsImportClause<'a> {
    fn from(node: JsImportBareClause<'a>) -> (r: AnyJsImportClause<'a>)
        ensures
            r == AnyJsImportClause::JsImportBareClause(node),
    {
        AnyJsImportClause::JsImportBareClause(node)
    }
}

impl<'a> vstd::std_specs::convert::FromSpecImpl<JsImportBareClause<'a>> for AnyJsImportClause<'a> {
    open spec fn obeys_from_spec() -> bool {
        true
    }

    open spec fn from_spec(node: JsImportBareClause<'a>) -> AnyJsImportClause<'a> {
        AnyJsImportClause::JsImportBareClause(node)
    }
}

impl<'a> From<JsName<'a>> for AnyJsImportClause<'a> {
    fn from(node: JsName<'a>) -> (r: AnyJsImportClause<'a>)
        ensures
            r == AnyJsImportClause::JsName(node),
    {
        AnyJsImportClause::JsName(node)
    }
}

impl<'a> vstd::std_specs::convert::FromSpecImpl<JsName<'a>> for AnyJsImportClause<'a> {
    open spec fn obeys_from_spec() -> bool {
        true
    }

    open spec fn from_spec(node: JsName<'a>) -> AnyJsImportClause<'a> {
        AnyJsImportClause::JsName(node)
    }
}

impl<'a> From<JsImportNamedClause<'a>> for AnyJsImportClause<'a> {
    fn from(node: JsImportNamedClause<'a>) -> (r: AnyJsImportClause<'a>)
        ensures
            r == AnyJsImportClause::JsImportNamedClause(node),
    {
        AnyJsImportClause::JsImportNamedClause(node)
    }
}

impl<'a> vstd::std_specs::convert::FromSpecImpl<JsImportNamedClause<'a>> for AnyJsImportClause<'a> {
    open spec fn obeys_from_spec() -> bool {
        true
    }

    open spec fn from_spec(node: JsImportNamedClause<'a>) -> AnyJsImportClause<'a> {
        AnyJsImportClause::JsImportNamedClause(node)
    }
}

impl<'a> From<JsImportDefaultClause<'a>> for AnyJsImportClause<'a> {
    fn from(node: JsImportDefaultClause<'a>) -> (r: AnyJsImportClause<'a>)
        ensures
            r == AnyJsImportClause::JsImportDefaultClause(node),
    {
        AnyJsImportClause::JsImportDefaultClause(node)
    }
}

impl<'a> vstd::std_specs::convert::FromSpecImpl<JsImportDefaultClause<'a>> for AnyJsImportClause<'a> {
    open spec fn obeys_from_spec() -> bool {
        true
    }

    open spec fn from_spec(node: JsImportDefaultClause<'a>) -> AnyJsImportClause<'a> {
        AnyJsImportClause::JsImportDefaultClause(node)
    }
}

impl<'a> From<JsImportNamespaceClause<'a>> for AnyJsImportClause<'a> {
    fn from(node: JsImportNamespaceClause<'a>) -> (r: AnyJsImportClause<'a>)
        ensures
            r == AnyJsImportClause::JsImportNamespaceClause(node),
    {
        AnyJsImportClause::JsImportNamespaceClause(node)
    }
}

impl<'a> vstd::std_specs::convert::FromSpecImpl<JsImportNamespaceClause<'a>> for AnyJsImportClause<'a> {
    open spec fn obeys_from_spec() -> bool {
        true
    }

    open spec fn from_spec(node: JsImportNamespaceClause<'a>) -> AnyJsImportClause<'a> {
        AnyJsImportClause::JsImportNamespaceClause(node)
    }
}

/// One of the nodes that may stand where the grammar expects `JsAnyNamedImport`.
#[derive(Clone, Copy, Debug)]
pub enum JsAnyNamedImport<'a> {
    JsNamedImportSpecifierList(JsNamedImportSpecifierList<'a>),
    JsNamespaceImportSpecifier(JsNamespaceImportSpecifier<'a>),
}

impl<'a> AstNode<'a> for JsAnyNamedImport<'a> {
    open spec fn kind_ok(kind: SyntaxKind) -> bool {
        ||| <JsNamedImportSpecifierList<'a> as AstNode<'a>>::kind_ok(kind)
        ||| <JsNamespaceImportSpecifier<'a> as AstNode<'a>>::kind_ok(kind)
    }

    closed spec fn syntax_view(&self) -> SyntaxNode<'a> {
        match self {
            JsAnyNamedImport::JsNamedImportSpecifierList(it) => it.syntax_view(),
            JsAnyNamedImport::JsNamespaceImportSpecifier(it) => it.syntax_view(),
        }
    }

    fn can_cast(kind: SyntaxKind) -> (r: bool) {
        matches!(
            kind,
            SyntaxKind::JS_NAMED_IMPORT_SPECIFIER_LIST
                | SyntaxKind::JS_NAMESPACE_IMPORT_SPECIFIER
        )
    }

    fn cast(syntax: SyntaxNode<'a>) -> (r: Option<Self>) {
        match syntax.kind() {
            SyntaxKind::JS_NAMED_IMPORT_SPECIFIER_LIST => Some(JsAnyNamedImport::JsNamedImportSpecifierList(JsNamedImportSpecifierList { syntax })),
            SyntaxKind::JS_NAMESPACE_IMPORT_SPECIFIER => Some(JsAnyNamedImport::JsNamespaceImportSpecifier(JsNamespaceImportSpecifier { syntax })),
            _ => {
                None
            },
        }
    }

    fn syntax(&self) -> (r: &SyntaxNode<'a>) {
        match self {
            JsAnyNamedImport::JsNamedImportSpecifierList(it) => it.syntax(),
            JsAnyNamedImport::JsNamespaceImportSpecifier(it) => it.syntax(),
        }
    }
}

impl<'a> From<JsNamedImportSpecifierList<'a>> for JsAnyNamedImport<'a> {
    fn from(node: JsNamedImportSpecifierList<'a>) -> (r: JsAnyNamedImport<'a>)
        ensures
            r == JsAnyNamedImport::JsNamedImportSpecifierList(node),
    {
        JsAnyNamedImport::JsNamedImportSpecifierList(node)
    }
}

impl<'a> vstd::std_specs::convert::FromSpecImpl<JsNamedImportSpecifierList<'a>> for JsAnyNamedImport<'a> {
    open spec fn obeys_from_spec() -> bool {
        true
    }

    open spec fn from_spec(node: JsNamedImportSpecifierList<'a>) -> JsAnyNamedImport<'a> {
        JsAnyNamedImport::JsNamedImportSpecifierList(node)
    }
}

impl<'a> From<JsNamespaceImportSpecifier<'a>> for JsAnyNamedImport<'a> {
    fn from(node: JsNamespaceImportSpecifier<'a>) -> (r: JsAnyNamedImport<'a>)
        ensures
            r == JsAnyNamedImport::JsNamespaceImportSpecifier(node),
    {
        JsAnyNamedImport::JsNamespaceImportSpecifier(node)
    }
}

impl<'a> vstd::std_specs::convert::FromSpecImpl<JsNamespaceImportSpecifier<'a>> for JsAnyNamedImport<'a> {
    open spec fn obeys_from_spec() -> bool {
        true
    }

    open spec fn from_spec(node: JsNamespaceImportSpecifier<'a>) -> JsAnyNamedImport<'a> {
        JsAnyNamedImport::JsNamespaceImportSpecifier(node)
    }
}

/// One of the nodes that may stand where the grammar expects `JsAnyNamedImportSpecifier`.
#[derive(Clone, Copy, Debug)]
pub enum JsAnyNamedImportSpecifier<'a> {
    JsShorthandNamedImportSpecifier(JsShorthandNamedImportSpecifier<'a>),
    JsNamedImportSpecifier(JsNamedImportSpecifier<'a>),
    JsUnknownNamedImportSpecifier(JsUnknownNamedImportSpecifier<'a>),
}

impl<'a> AstNode<'a> for JsAnyNamedImportSpecifier<'a> {
    open spec fn kind_ok(kind: SyntaxKind) -> bool {
        ||| <JsShorthandNamedImportSpecifier<'a> as AstNode<'a>>::kind_ok(kind)
        ||| <JsNamedImportSpecifier<'a> as AstNode<'a>>::kind_ok(kind)
        ||| <JsUnknownNamedImportSpecifier<'a> as AstNode<'a>>::kind_ok(kind)
    }

    closed spec fn syntax_view(&self) -> SyntaxNode<'a> {
        match self {
            JsAnyNamedImportSpecifier::JsShorthandNamedImportSpecifier(it) => it.syntax_view(),
            JsAnyNamedImportSpecifier::JsNamedImportSpecifier(it) => it.syntax_view(),
            JsAnyNamedImportSpecifier::JsUnknownNamedImportSpecifier(it) => it.syntax_view(),
        }
    }

    fn can_cast(kind: SyntaxKind) -> (r: bool) {
        matches!(
            kind,
            SyntaxKind::JS_SHORTHAND_NAMED_IMPORT_SPECIFIER
                | SyntaxKind::JS_NAMED_IMPORT_SPECIFIER
                | SyntaxKind::JS_UNKNOWN_NAMED_IMPORT_SPECIFIER
        )
    }

    fn cast(syntax: SyntaxNode<'a>) -> (r: Option<Self>) {
        match syntax.kind() {
            SyntaxKind::JS_SHORTHAND_NAMED_IMPORT_SPECIFIER => Some(JsAnyNamedImportSpecifier::JsShorthandNamedImportSpecifier(JsShorthandNamedImportSpecifier { syntax })),
            SyntaxKind::JS_NAMED_IMPORT_SPECIFIER => Some(JsAnyNamedImportSpecifier::JsNamedImportSpecifier(JsNamedImportSpecifier { syntax })),
            SyntaxKind::JS_UNKNOWN_NAMED_IMPORT_SPECIFIER => Some(JsAnyNamedImportSpecifier::JsUnknownNamedImportSpecifier(JsUnknownNamedImportSpecifier { syntax })),
            _ => {
                None
            },
        }
    }

    fn syntax(&self) -> (r: &SyntaxNode<'a>) {
        match self {
            JsAnyNamedImportSpecifier::JsShorthandNamedImportSpecifier(it) => it.syntax(),
            JsAnyNamedImportSpecifier::JsNamedImportSpecifier(it) => it.syntax(),
            JsAnyNamedImportSpecifier::JsUnknownNamedImportSpecifier(it) => it.syntax(),
        }
    }
}

impl<'a> From<JsShorthandNamedImportSpecifier<'a>> for JsAnyNamedImportSpecifier<'a> {
    fn from(node: JsShorthandNamedImportSpecifier<'a>) -> (r: JsAnyNamedImportSpecifier<'a>)
        ensures
            r == JsAnyNamedImportSpecifier::JsShorthandNamedImportSpecifier(node),
    {
        JsAnyNamedImportSpecifier::JsShorthandNamedImportSpecifier(node)
    }
}

impl<'a> vstd::std_specs::convert::FromSpecImpl<JsShorthandNamedImportSpecifier<'a>> for JsAnyNamedImportSpecifier<'a> {
    open spec fn obeys_from_spec() -> bool {
        true
    }

    open spec fn from_spec(node: JsShorthandNamedImportSpecifier<'a>) -> JsAnyNamedImportSpecifier<'a> {
        JsAnyNamedImportSpecifier::JsShorthandNamedImportSpecifier(node)
    }
}

impl<'a> From<JsNamedImportSpecifier<'a>> for JsAnyNamedImportSpecifier<'a> {
    fn from(node: JsNamedImportSpecifier<'a>) -> (r: JsAnyNamedImportSpecifier<'a>)
        ensures
            r == JsAnyNamedImportSpecifier::JsNamedImportSpecifier(node),
    {
        JsAnyNamedImportSpecifier::JsNamedImportSpecifier(node)
    }
}

impl<'a> vstd::std_specs::convert::FromSpecImpl<JsNamedImportSpecifier<'a>> for JsAnyNamedImportSpecifier<'a> {
    open spec fn obeys_from_spec() -> bool {
        true
    }

    open spec fn from_spec(node: JsNamedImportSpecifier<'a>) -> JsAnyNamedImportSpecifier<'a> {
        JsAnyNamedImportSpecifier::JsNamedImportSpecifier(node)
    }
}

impl<'a> From<JsUnknownNamedImportSpecifier<'a>> for JsAnyNamedImportSpecifier<'a> {
    fn from(node: JsUnknownNamedImportSpecifier<'a>) -> (r: JsAnyNamedImportSpecifier<'a>)
        ensures
            r == JsAnyNamedImportSpecifier::JsUnknownNamedImportSpecifier(node),
    {
        JsAnyNamedImportSpecifier::JsUnknownNamedImportSpecifier(node)
    }
}

impl<'a> vstd::std_specs::convert::FromSpecImpl<JsUnknownNamedImportSpecifier<'a>> for JsAnyNamedImportSpecifier<'a> {
    open spec fn obeys_from_spec() -> bool {
        true
    }

    open spec fn from_spec(node: JsUnknownNamedImportSpecifier<'a>) -> JsAnyNamedImportSpecifier<'a> {
        JsAnyNamedImportSpecifier::JsUnknownNamedImportSpecifier(node)
    }
}

/// One of the nodes that may stand where the grammar expects `JsAnyImportAssertionEntry`.
#[derive(Clone, Copy, Debug)]
pub enum JsAnyImportAssertionEntry<'a> {
    JsImportAssertionEntry(JsImportAssertionEntry<'a>),
    JsUnknownImportAssertionEntry(JsUnknownImportAssertionEntry<'a>),
}

impl<'a> AstNode<'a> for JsAnyImportAssertionEntry<'a> {
    open spec fn kind_ok(kind: SyntaxKind) -> bool {
        ||| <JsImportAssertionEntry<'a> as AstNode<'a>>::kind_ok(kind)
        ||| <JsUnknownImportAssertionEntry<'a> as AstNode<'a>>::kind_ok(kind)
    }

    closed spec fn syntax_view(&self) -> SyntaxNode<'a> {
        match self {
            JsAnyImportAssertionEntry::JsImportAssertionEntry(it) => it.syntax_view(),
            JsAnyImportAssertionEntry::JsUnknownImportAssertionEntry(it) => it.syntax_view(),
        }
    }

    fn can_cast(kind: SyntaxKind) -> (r: bool) {
        matches!(
            kind,
            SyntaxKind::JS_IMPORT_ASSERTION_ENTRY
                | SyntaxKind::JS_UNKNOWN_IMPORT_ASSERTION_ENTRY
        )
    }

    fn cast(syntax: SyntaxNode<'a>) -> (r: Option<Self>) {
        match syntax.kind() {
            SyntaxKind::JS_IMPORT_ASSERTION_ENTRY => Some(JsAnyImportAssertionEntry::JsImportAssertionEntry(JsImportAssertionEntry { syntax })),
            SyntaxKind::JS_UNKNOWN_IMPORT_ASSERTION_ENTRY => Some(JsAnyImportAssertionEntry::JsUnknownImportAssertionEntry(JsUnknownImportAssertionEntry { syntax })),
            _ => {
                None
            },
        }
    }

    fn syntax(&self) -> (r: &SyntaxNode<'a>) {
        match self {
            JsAnyImportAssertionEntry::JsImportAssertionEntry(it) => it.syntax(),
            JsAnyImportAssertionEntry::JsUnknownImportAssertionEntry(it) => it.syntax(),
        }
    }
}

impl<'a> From<JsImportAssertionEntry<'a>> for JsAnyImportAssertionEntry<'a> {
    fn from(node: JsImportAssertionEntry<'a>) -> (r: JsAnyImportAssertionEntry<'a>)
        ensures
            r == JsAnyImportAssertionEntry::JsImportAssertionEntry(node),
    {
        JsAnyImportAssertionEntry::JsImportAssertionEntry(node)
    }
}

impl<'a> vstd::std_specs::convert::FromSpecImpl<JsImportAssertionEntry<'a>> for JsAnyImportAssertionEntry<'a> {
    open spec fn obeys_from_spec() -> bool {
        true
    }

    open spec fn from_spec(node: JsImportAssertionEntry<'a>) -> JsAnyImportAssertionEntry<'a> {
        JsAnyImportAssertionEntry::JsImportAssertionEntry(node)
    }
}

impl<'a> From<JsUnknownImportAssertionEntry<'a>> for JsAnyImportAssertionEntry<'a> {
    fn from(node: JsUnknownImportAssertionEntry<'a>) -> (r: JsAnyImportAssertionEntry<'a>)
        ensures
            r == JsAnyImportAssertionEntry::JsUnknownImportAssertionEntry(node),
    {
        JsAnyImportAssertionEntry::JsUnknownImportAssertionEntry(node)
    }
}

impl<'a> vstd::std_specs::convert::FromSpecImpl<JsUnknownImportAssertionEntry<'a>> for JsAnyImportAssertionEntry<'a> {
    open spec fn obeys_from_spec() -> bool {
        true
    }

    open spec fn from_spec(node: JsUnknownImportAssertionEntry<'a>) -> JsAnyImportAssertionEntry<'a> {
        JsAnyImportAssertionEntry::JsUnknownImportAssertionEntry(node)
    }
}

/// One of the nodes that may stand where the grammar expects `DefaultDecl`.
#[derive(Clone, Copy, Debug)]
pub enum DefaultDecl<'a> {
    JsFunctionDeclaration(JsFunctionDeclaration<'a>),
    JsClassDeclaration(JsClassDeclaration<'a>),
}

impl<'a> AstNode<'a> for DefaultDecl<'a> {
    open spec fn kind_ok(kind: SyntaxKind) -> bool {
        ||| <JsFunctionDeclaration<'a> as AstNode<'a>>::kind_ok(kind)
        ||| <JsClassDeclaration<'a> as AstNode<'a>>::kind_ok(kind)
    }

    closed spec fn syntax_view(&self) -> SyntaxNode<'a> {
        match self {
            DefaultDecl::JsFunctionDeclaration(it) => it.syntax_view(),
            DefaultDecl::JsClassDeclaration(it) => it.syntax_view(),
        }
    }

    fn can_cast(kind: SyntaxKind) -> (r: bool) {
        matches!(
            kind,
            SyntaxKind::JS_FUNCTION_DECLARATION
                | SyntaxKind::JS_CLASS_DECLARATION
        )
    }

    fn cast(syntax: SyntaxNode<'a>) -> (r: Option<Self>) {
        match syntax.kind() {
            SyntaxKind::JS_FUNCTION_DECLARATION => Some(DefaultDecl::JsFunctionDeclaration(JsFunctionDeclaration { syntax })),
            SyntaxKind::JS_CLASS_DECLARATION => Some(DefaultDecl::JsClassDeclaration(JsClassDeclaration { syntax })),
            _ => {
                None
            },
        }
    }

    fn syntax(&self) -> (r: &SyntaxNode<'a>) {
        match self {
            DefaultDecl::JsFunctionDeclaration(it) => it.syntax(),
            DefaultDecl::JsClassDeclaration(it) => it.syntax(),
        }
    }
}

impl<'a> From<JsFunctionDeclaration<'a>> for DefaultDecl<'a> {
    fn from(node: JsFunctionDeclaration<'a>) -> (r: DefaultDecl<'a>)
        ensures
            r == DefaultDecl::JsFunctionDeclaration(node),
    {
        DefaultDecl::JsFunctionDeclaration(node)
    }
}

impl<'a> vstd::std_specs::convert::FromSpecImpl<JsFunctionDeclaration<'a>> for DefaultDecl<'a> {
    open spec fn obeys_from_spec() -> bool {
        true
    }

    open spec fn from_spec(node: JsFunctionDeclaration<'a>) -> DefaultDecl<'a> {
        DefaultDecl::JsFunctionDeclaration(node)
    }
}

impl<'a> From<JsClassDeclaration<'a>> for DefaultDecl<'a> {
    fn from(node: JsClassDeclaration<'a>) -> (r: DefaultDecl<'a>)
        ensures
            r == DefaultDecl::JsClassDeclaration(node),
    {
        DefaultDecl::JsClassDeclaration(node)
    }
}

impl<'a> vstd::std_specs::convert::FromSpecImpl<JsClassDeclaration<'a>> for DefaultDecl<'a> {
    open spec fn obeys_from_spec() -> bool {
        true
    }

    open spec fn from_spec(node: JsClassDeclaration<'a>) -> DefaultDecl<'a> {
        DefaultDecl::JsClassDeclaration(node)
    }
}

/// One of the nodes that may stand where the grammar expects `JsAnyExportDeclaration`.
#[derive(Clone, Copy, Debug)]
pub enum JsAnyExportDeclaration<'a> {
    JsFunctionDeclaration(JsFunctionDeclaration<'a>),
    JsClassDeclaration(JsClassDeclaration<'a>),
    JsVariableDeclarationStatement(JsVariableDeclarationStatement<'a>),
    TsEnum(TsEnum<'a>),
    TsTypeAliasDecl(TsTypeAliasDecl<'a>),
    TsNamespaceDecl(TsNamespaceDecl<'a>),
    TsModuleDecl(TsModuleDecl<'a>),
    TsInterfaceDecl(TsInterfaceDecl<'a>),
}

impl<'a> AstNode<'a> for JsAnyExportDeclaration<'a> {
    open spec fn kind_ok(kind: SyntaxKind) -> bool {
        ||| <JsFunctionDeclaration<'a> as AstNode<'a>>::kind_ok(kind)
        ||| <JsClassDeclaration<'a> as AstNode<'a>>::kind_ok(kind)
        ||| <JsVariableDeclarationStatement<'a> as AstNode<'a>>::kind_ok(kind)
        ||| <TsEnum<'a> as AstNode<'a>>::kind_ok(kind)
        ||| <TsTypeAliasDecl<'a> as AstNode<'a>>::kind_ok(kind)
        ||| <TsNamespaceDecl<'a> as AstNode<'a>>::kind_ok(kind)
        ||| <TsModuleDecl<'a> as AstNode<'a>>::kind_ok(kind)
        ||| <TsInterfaceDecl<'a> as AstNode<'a>>::kind_ok(kind)
    }

    closed spec fn syntax_view(&self) -> SyntaxNode<'a> {
        match self {
            JsAnyExportDeclaration::JsFunctionDeclaration(it) => it.syntax_view(),
            JsAnyExportDeclaration::JsClassDeclaration(it) => it.syntax_view(),
            JsAnyExportDeclaration::JsVariableDeclarationStatement(it) => it.syntax_view(),
            JsAnyExportDeclaration::TsEnum(it) => it.syntax_view(),
            JsAnyExportDeclaration::TsTypeAliasDecl(it) => it.syntax_view(),
            JsAnyExportDeclaration::TsNamespaceDecl(it) => it.syntax_view(),
            JsAnyExportDeclaration::TsModuleDecl(it) => it.syntax_view(),
            JsAnyExportDeclaration::TsInterfaceDecl(it) => it.syntax_view(),
        }
    }

    fn can_cast(kind: SyntaxKind) -> (r: bool) {
        matches!(
            kind,
            SyntaxKind::JS_FUNCTION_DECLARATION
                | SyntaxKind::JS_CLASS_DECLARATION
                | SyntaxKind::JS_VARIABLE_DECLARATION_STATEMENT
                | SyntaxKind::TS_ENUM
                | SyntaxKind::TS_TYPE_ALIAS_DECL
                | SyntaxKind::TS_NAMESPACE_DECL
                | SyntaxKind::TS_MODULE_DECL
                | SyntaxKind::TS_INTERFACE_DECL
        )
    }

    fn cast(syntax: SyntaxNode<'a>) -> (r: Option<Self>) {
        match syntax.kind() {
            SyntaxKind::JS_FUNCTION_DECLARATION => Some(JsAnyExportDeclaration::JsFunctionDeclaration(JsFunctionDeclaration { syntax })),
            SyntaxKind::JS_CLASS_DECLARATION => Some(JsAnyExportDeclaration::JsClassDeclaration(JsClassDeclaration { syntax })),
            SyntaxKind::JS_VARIABLE_DECLARATION_STATEMENT => Some(JsAnyExportDeclaration::JsVariableDeclarationStatement(JsVariableDeclarationStatement { syntax })),
            SyntaxKind::TS_ENUM => Some(JsAnyExportDeclaration::TsEnum(TsEnum { syntax })),
            SyntaxKind::TS_TYPE_ALIAS_DECL => Some(JsAnyExportDeclaration::TsTypeAliasDecl(TsTypeAliasDecl { syntax })),
            SyntaxKind::TS_NAMESPACE_DECL => Some(JsAnyExportDeclaration::TsNamespaceDecl(TsNamespaceDecl { syntax })),
            SyntaxKind::TS_MODULE_DECL => Some(JsAnyExportDeclaration::TsModuleDecl(TsModuleDecl { syntax })),
            SyntaxKind::TS_INTERFACE_DECL => Some(JsAnyExportDeclaration::TsInterfaceDecl(TsInterfaceDecl { syntax })),
            _ => {
                None
            },
        }
    }

    fn syntax(&self) -> (r: &SyntaxNode<'a>) {
        match self {
            JsAnyExportDeclaration::JsFunctionDeclaration(it) => it.syntax(),
            JsAnyExportDeclaration::JsClassDeclaration(it) => it.syntax(),
            JsAnyExportDeclaration::JsVariableDeclarationStatement(it) => it.syntax(),
            JsAnyExportDeclaration::TsEnum(it) => it.syntax(),
            JsAnyExportDeclaration::TsTypeAliasDecl(it) => it.syntax(),
            JsAnyExportDeclaration::TsNamespaceDecl(it) => it.syntax(),
            JsAnyExportDeclaration::TsModuleDecl(it) => it.syntax(),
            JsAnyExportDeclaration::TsInterfaceDecl(it) => it.syntax(),
        }
    }
}

impl<'a> From<JsFunctionDeclaration<'a>> for JsAnyExportDeclaration<'a> {
    fn from(node: JsFunctionDeclaration<'a>) -> (r: JsAnyExportDeclaration<'a>)
        ensures
            r == JsAnyExportDeclaration::JsFunctionDeclaration(node),
    {
        JsAnyExportDeclaration::JsFunctionDeclaration(node)
    }
}

impl<'a> vstd::std_specs::convert::FromSpecImpl<JsFunctionDeclaration<'a>> for JsAnyExportDeclaration<'a> {
    open spec fn obeys_from_spec() -> bool {
        true
    }

    open spec fn from_spec(node: JsFunctionDeclaration<'a>) -> JsAnyExportDeclaration<'a> {
        JsAnyExportDeclaration::JsFunctionDeclaration(node)
    }
}

impl<'a> From<JsClassDeclaration<'a>> for JsAnyExportDeclaration<'a> {
    fn from(node: JsClassDeclaration<'a>) -> (r: JsAnyExportDeclaration<'a>)
        ensures
            r == JsAnyExportDeclaration::JsClassDeclaration(node),
    {
        JsAnyExportDeclaration::JsClassDeclaration(node)
    }
}

impl<'a> vstd::std_specs::convert::FromSpecImpl<JsClassDeclaration<'a>> for JsAnyExportDeclaration<'a> {
    open spec fn obeys_from_spec() -> bool {
        true
    }

    open spec fn from_spec(node: JsClassDeclaration<'a>) -> JsAnyExportDeclaration<'a> {
        JsAnyExportDeclaration::JsClassDeclaration(node)
    }
}

impl<'a> From<JsVariableDeclarationStatement<'a>> for JsAnyExportDeclaration<'a> {
    fn from(node: JsVariableDeclarationStatement<'a>) -> (r: JsAnyExportDeclaration<'a>)
        ensures
            r == JsAnyExportDeclaration::JsVariableDeclarationStatement(node),
    {
        JsAnyExportDeclaration::JsVariableDeclarationStatement(node)
    }
}

impl<'a> vstd::std_specs::convert::FromSpecImpl<JsVariableDeclarationStatement<'a>> for JsAnyExportDeclaration<'a> {
    open spec fn obeys_from_spec() -> bool {
        true
    }

    open spec fn from_spec(node: JsVariableDeclarationStatement<'a>) -> JsAnyExportDeclaration<'a> {
        JsAnyExportDeclaration::JsVariableDeclarationStatement(node)
    }
}

impl<'a> From<TsEnum<'a>> for JsAnyExportDeclaration<'a> {
    fn from(node: TsEnum<'a>) -> (r: JsAnyExportDeclaration<'a>)
        ensures
            r == JsAnyExportDeclaration::TsEnum(node),
    {
        JsAnyExportDeclaration::TsEnum(node)
    }
}

impl<'a> vstd::std_specs::convert::FromSpecImpl<TsEnum<'a>> for JsAnyExportDeclaration<'a> {
    open spec fn obeys_from_spec() -> bool {
        true
    }

    open spec fn from_spec(node: TsEnum<'a>) -> JsAnyExportDeclaration<'a> {
        JsAnyExportDeclaration::TsEnum(node)
    }
}

impl<'a> From<TsTypeAliasDecl<'a>> for JsAnyExportDeclaration<'a> {
    fn from(node: TsTypeAliasDecl<'a>) -> (r: JsAnyExportDeclaration<'a>)
        ensures
            r == JsAnyExportDeclaration::TsTypeAliasDecl(node),
    {
        JsAnyExportDeclaration::TsTypeAliasDecl(node)
    }
}

impl<'a> vstd::std_specs::convert::FromSpecImpl<TsTypeAliasDecl<'a>> for JsAnyExportDeclaration<'a> {
    open spec fn obeys_from_spec() -> bool {
        true
    }

    open spec fn from_spec(node: TsTypeAliasDecl<'a>) -> JsAnyExportDeclaration<'a> {
        JsAnyExportDeclaration::TsTypeAliasDecl(node)
    }
}

impl<'a> From<TsNamespaceDecl<'a>> for JsAnyExportDeclaration<'a> {
    fn from(node: TsNamespaceDecl<'a>) -> (r: JsAnyExportDeclaration<'a>)
        ensures
            r == JsAnyExportDeclaration::TsNamespaceDecl(node),
    {
        JsAnyExportDeclaration::TsNamespaceDecl(node)
    }
}

impl<'a> vstd::std_specs::convert::FromSpecImpl<TsNamespaceDecl<'a>> for JsAnyExportDeclaration<'a> {
    open spec fn obeys_from_spec() -> bool {
        true
    }

    open spec fn from_spec(node: TsNamespaceDecl<'a>) -> JsAnyExportDeclaration<'a> {
        JsAnyExportDeclaration::TsNamespaceDecl(node)
    }
}

impl<'a> From<TsModuleDecl<'a>> for JsAnyExportDeclaration<'a> {
    fn from(node: TsModuleDecl<'a>) -> (r: JsAnyExportDeclaration<'a>)
        ensures
            r == JsAnyExportDeclaration::TsModuleDecl(node),
    {
        JsAnyExportDeclaration::TsModuleDecl(node)
    }
}

impl<'a> vstd::std_specs::convert::FromSpecImpl<TsModuleDecl<'a>> for JsAnyExportDeclaration<'a> {
    open spec fn obeys_from_spec() -> bool {
        true
    }

    open spec fn from_spec(node: TsModuleDecl<'a>) -> JsAnyExportDeclaration<'a> {
        JsAnyExportDeclaration::TsModuleDecl(node)
    }
}

impl<'a> From<TsInterfaceDecl<'a>> for JsAnyExportDeclaration<'a> {
    fn from(node: TsInterfaceDecl<'a>) -> (r: JsAnyExportDeclaration<'a>)
        ensures
            r == JsAnyExportDeclaration::TsInterfaceDecl(node),
    {
        JsAnyExportDeclaration::TsInterfaceDecl(node)
    }
}

impl<'a> vstd::std_specs::convert::FromSpecImpl<TsInterfaceDecl<'a>> for JsAnyExportDeclaration<'a> {
    open spec fn obeys_from_spec() -> bool {
        true
    }

    open spec fn from_spec(node: TsInterfaceDecl<'a>) -> JsAnyExportDeclaration<'a> {
        JsAnyExportDeclaration::TsInterfaceDecl(node)
    }
}

/// One of the nodes that may stand where the grammar expects `JsAnyParameter`.
#[derive(Clone, Copy, Debug)]
pub enum JsAnyParameter<'a> {
    JsAnyBindingPattern(JsAnyBindingPattern<'a>),
    JsBindingPatternWithDefault(JsBindingPatternWithDefault<'a>),
    JsRestParameter(JsRestParameter<'a>),
}

impl<'a> AstNode<'a> for JsAnyParameter<'a> {
    open spec fn kind_ok(kind: SyntaxKind) -> bool {
        ||| <JsAnyBindingPattern<'a> as AstNode<'a>>::kind_ok(kind)
        ||| <JsBindingPatternWithDefault<'a> as AstNode<'a>>::kind_ok(kind)
        ||| <JsRestParameter<'a> as AstNode<'a>>::kind_ok(kind)
    }

    closed spec fn syntax_view(&self) -> SyntaxNode<'a> {
        match self {
            JsAnyParameter::JsAnyBindingPattern(it) => it.syntax_view(),
            JsAnyParameter::JsBindingPatternWithDefault(it) => it.syntax_view(),
            JsAnyParameter::JsRestParameter(it) => it.syntax_view(),
        }
    }

    fn can_cast(kind: SyntaxKind) -> (r: bool) {
        matches!(
            kind,
            SyntaxKind::JS_BINDING_PATTERN_WITH_DEFAULT
                | SyntaxKind::JS_REST_PARAMETER
        ) || JsAnyBindingPattern::can_cast(kind)
    }

    fn cast(syntax: SyntaxNode<'a>) -> (r: Option<Self>) {
        match syntax.kind() {
            SyntaxKind::JS_BINDING_PATTERN_WITH_DEFAULT => Some(JsAnyParameter::JsBindingPatternWithDefault(JsBindingPatternWithDefault { syntax })),
            SyntaxKind::JS_REST_PARAMETER => Some(JsAnyParameter::JsRestParameter(JsRestParameter { syntax })),
            _ => {
                if let Some(it) = JsAnyBindingPattern::cast(syntax) {
                    return Some(JsAnyParameter::JsAnyBindingPattern(it));
                }
                None
            },
        }
    }

    fn syntax(&self) -> (r: &SyntaxNode<'a>) {
        match self {
            JsAnyParameter::JsAnyBindingPattern(it) => it.syntax(),
            JsAnyParameter::JsBindingPatternWithDefault(it) => it.syntax(),
            JsAnyParameter::JsRestParameter(it) => it.syntax(),
        }
    }
}

impl<'a> From<JsAnyBindingPattern<'a>> for JsAnyParameter<'a> {
    fn from(node: JsAnyBindingPattern<'a>) -> (r: JsAnyParameter<'a>)
        ensures
            r == JsAnyParameter::JsAnyBindingPattern(node),
    {
        JsAnyParameter::JsAnyBindingPattern(node)
    }
}

impl<'a> vstd::std_specs::convert::FromSpecImpl<JsAnyBindingPattern<'a>> for JsAnyParameter<'a> {
    open spec fn obeys_from_spec() -> bool {
        true
    }

    open spec fn from_spec(node: JsAnyBindingPattern<'a>) -> JsAnyParameter<'a> {
        JsAnyParameter::JsAnyBindingPattern(node)
    }
}

impl<'a> From<JsBindingPatternWithDefault<'a>> for JsAnyParameter<'a> {
    fn from(node: JsBindingPatternWithDefault<'a>) -> (r: JsAnyParameter<'a>)
        ensures
            r == JsAnyParameter::JsBindingPatternWithDefault(node),
    {
        JsAnyParameter::JsBindingPatternWithDefault(node)
    }
}

impl<'a> vstd::std_specs::convert::FromSpecImpl<JsBindingPatternWithDefault<'a>> for JsAnyParameter<'a> {
    open spec fn obeys_from_spec() -> bool {
        true
    }

    open spec fn from_spec(node: JsBindingPatternWithDefault<'a>) -> JsAnyParameter<'a> {
        JsAnyParameter::JsBindingPatternWithDefault(node)
    }
}

impl<'a> From<JsRestParameter<'a>> for JsAnyParameter<'a> {
    fn from(node: JsRestParameter<'a>) -> (r: JsAnyParameter<'a>)
        ensures
            r == JsAnyParameter::JsRestParameter(node),
    {
        JsAnyParameter::JsRestParameter(node)
    }
}

impl<'a> vstd::std_specs::convert::FromSpecImpl<JsRestParameter<'a>> for JsAnyParameter<'a> {
    open spec fn obeys_from_spec() -> bool {
        true
    }

    open spec fn from_spec(node: JsRestParameter<'a>) -> JsAnyParameter<'a> {
        JsAnyParameter::JsRestParameter(node)
    }
}

/// One of the nodes that may stand where the grammar expects `TsModuleRef`.
#[derive(Clone, Copy, Debug)]
pub enum TsModuleRef<'a> {
    TsExternalModuleRef(TsExternalModuleRef<'a>),
    TsEntityName(TsEntityName<'a>),
}

impl<'a> AstNode<'a> for TsModuleRef<'a> {
    open spec fn kind_ok(kind: SyntaxKind) -> bool {
        ||| <TsExternalModuleRef<'a> as AstNode<'a>>::kind_ok(kind)
        ||| <TsEntityName<'a> as AstNode<'a>>::kind_ok(kind)
    }

    closed spec fn syntax_view(&self) -> SyntaxNode<'a> {
        match self {
            TsModuleRef::TsExternalModuleRef(it) => it.syntax_view(),
            TsModuleRef::TsEntityName(it) => it.syntax_view(),
        }
    }

    fn can_cast(kind: SyntaxKind) -> (r: bool) {
        matches!(
            kind,
            SyntaxKind::TS_EXTERNAL_MODULE_REF
        ) || TsEntityName::can_cast(kind)
    }

    fn cast(syntax: SyntaxNode<'a>) -> (r: Option<Self>) {
        match syntax.kind() {
            SyntaxKind::TS_EXTERNAL_MODULE_REF => Some(TsModuleRef::TsExternalModuleRef(TsExternalModuleRef { syntax })),
            _ => {
                if let Some(it) = TsEntityName::cast(syntax) {
                    return Some(TsModuleRef::TsEntityName(it));
                }
                None
            },
        }
    }

    fn syntax(&self) -> (r: &SyntaxNode<'a>) {
        match self {
            TsModuleRef::TsExternalModuleRef(it) => it.syntax(),
            TsModuleRef::TsEntityName(it) => it.syntax(),
        }
    }
}

impl<'a> From<TsExternalModuleRef<'a>> for TsModuleRef<'a> {
    fn from(node: TsExternalModuleRef<'a>) -> (r: TsModuleRef<'a>)
        ensures
            r == TsModuleRef::TsExternalModuleRef(node),
    {
        TsModuleRef::TsExternalModuleRef(node)
    }
}

impl<'a> vstd::std_specs::convert::FromSpecImpl<TsExternalModuleRef<'a>> for TsModuleRef<'a> {
    open spec fn obeys_from_spec() -> bool {
        true
    }

    open spec fn from_spec(node: TsExternalModuleRef<'a>) -> TsModuleRef<'a> {
        TsModuleRef::TsExternalModuleRef(node)
    }
}

impl<'a> From<TsEntityName<'a>> for TsModuleRef<'a> {
    fn from(node: TsEntityName<'a>) -> (r: TsModuleRef<'a>)
        ensures
            r == TsModuleRef::TsEntityName(node),
    {
        TsModuleRef::TsEntityName(node)
    }
}

impl<'a> vstd::std_specs::convert::FromSpecImpl<TsEntityName<'a>> for TsModuleRef<'a> {
    open spec fn obeys_from_spec() -> bool {
        true
    }

    open spec fn from_spec(node: TsEntityName<'a>) -> TsModuleRef<'a> {
        TsModuleRef::TsEntityName(node)
    }
}

/// One of the nodes that may stand where the grammar expects `TsEntityName`.
#[derive(Clone, Copy, Debug)]
pub enum TsEntityName<'a> {
    TsTypeName(TsTypeName<'a>),
    TsQualifiedPath(TsQualifiedPath<'a>),
}

impl<'a> AstNode<'a> for TsEntityName<'a> {
    open spec fn kind_ok(kind: SyntaxKind) -> bool {
        ||| <TsTypeName<'a> as AstNode<'a>>::kind_ok(kind)
        ||| <TsQualifiedPath<'a> as AstNode<'a>>::kind_ok(kind)
    }

    closed spec fn syntax_view(&self) -> SyntaxNode<'a> {
        match self {
            TsEntityName::TsTypeName(it) => it.syntax_view(),
            TsEntityName::TsQualifiedPath(it) => it.syntax_view(),
        }
    }

    fn can_cast(kind: SyntaxKind) -> (r: bool) {
        matches!(
            kind,
            SyntaxKind::TS_TYPE_NAME
                | SyntaxKind::TS_QUALIFIED_PATH
        )
    }

    fn cast(syntax: SyntaxNode<'a>) -> (r: Option<Self>) {
        match syntax.kind() {
            SyntaxKind::TS_TYPE_NAME => Some(TsEntityName::TsTypeName(TsTypeName { syntax })),
            SyntaxKind::TS_QUALIFIED_PATH => Some(TsEntityName::TsQualifiedPath(TsQualifiedPath { syntax })),
            _ => {
                None
            },
        }
    }

    fn syntax(&self) -> (r: &SyntaxNode<'a>) {
        match self {
            TsEntityName::TsTypeName(it) => it.syntax(),
            TsEntityName::TsQualifiedPath(it) => it.syntax(),
        }
    }
}

impl<'a> From<TsTypeName<'a>> for TsEntityName<'a> {
    fn from(node: TsTypeName<'a>) -> (r: TsEntityName<'a>)
        ensures
            r == TsEntityName::TsTypeName(node),
    {
        TsEntityName::TsTypeName(node)
    }
}

impl<'a> vstd::std_specs::convert::FromSpecImpl<TsTypeName<'a>> for TsEntityName<'a> {
    open spec fn obeys_from_spec() -> bool {
        true
    }

    open spec fn from_spec(node: TsTypeName<'a>) -> TsEntityName<'a> {
        TsEntityName::TsTypeName(node)
    }
}

impl<'a> From<TsQualifiedPath<'a>> for TsEntityName<'a> {
    fn from(node: TsQualifiedPath<'a>) -> (r: TsEntityName<'a>)
        ensures
            r == TsEntityName::TsQualifiedPath(node),
    {
        TsEntityName::TsQualifiedPath(node)
    }
}

impl<'a> vstd::std_specs::convert::FromSpecImpl<TsQualifiedPath<'a>> for TsEntityName<'a> {
    open spec fn obeys_from_spec() -> bool {
        true
    }

    open spec fn from_spec(node: TsQualifiedPath<'a>) -> TsEntityName<'a> {
        TsEntityName::TsQualifiedPath(node)
    }
}

/// One of the nodes that may stand where the grammar expects `TsThisOrMore`.
#[derive(Clone, Copy, Debug)]
pub enum TsThisOrMore<'a> {
    TsThis(TsThis<'a>),
    TsTypeName(TsTypeName<'a>),
}

impl<'a> AstNode<'a> for TsThisOrMore<'a> {
    open spec fn kind_ok(kind: SyntaxKind) -> bool {
        ||| <TsThis<'a> as AstNode<'a>>::kind_ok(kind)
        ||| <TsTypeName<'a> as AstNode<'a>>::kind_ok(kind)
    }

    closed spec fn syntax_view(&self) -> SyntaxNode<'a> {
        match self {
            TsThisOrMore::TsThis(it) => it.syntax_view(),
            TsThisOrMore::TsTypeName(it) => it.syntax_view(),
        }
    }

    fn can_cast(kind: SyntaxKind) -> (r: bool) {
        matches!(
            kind,
            SyntaxKind::TS_THIS
                | SyntaxKind::TS_TYPE_NAME
        )
    }

    fn cast(syntax: SyntaxNode<'a>) -> (r: Option<Self>) {
        match syntax.kind() {
            SyntaxKind::TS_THIS => Some(TsThisOrMore::TsThis(TsThis { syntax })),
            SyntaxKind::TS_TYPE_NAME => Some(TsThisOrMore::TsTypeName(TsTypeName { syntax })),
            _ => {
                None
            },
        }
    }

    fn syntax(&self) -> (r: &SyntaxNode<'a>) {
        match self {
            TsThisOrMore::TsThis(it) => it.syntax(),
            TsThisOrMore::TsTypeName(it) => it.syntax(),
        }
    }
}

impl<'a> From<TsThis<'a>> for TsThisOrMore<'a> {
    fn from(node: TsThis<'a>) -> (r: TsThisOrMore<'a>)
        ensures
            r == TsThisOrMore::TsThis(node),
    {
        TsThisOrMore::TsThis(node)
    }
}

impl<'a> vstd::std_specs::convert::FromSpecImpl<TsThis<'a>> for TsThisOrMore<'a> {
    open spec fn obeys_from_spec() -> bool {
        true
    }

    open spec fn from_spec(node: TsThis<'a>) -> TsThisOrMore<'a> {
        TsThisOrMore::TsThis(node)
    }
}

impl<'a> From<TsTypeName<'a>> for TsThisOrMore<'a> {
    fn from(node: TsTypeName<'a>) -> (r: TsThisOrMore<'a>)
        ensures
            r == TsThisOrMore::TsTypeName(node),
    {
        TsThisOrMore::TsTypeName(node)
    }
}

impl<'a> vstd::std_specs::convert::FromSpecImpl<TsTypeName<'a>> for TsThisOrMore<'a> {
    open spec fn obeys_from_spec() -> bool {
        true
    }

    open spec fn from_spec(node: TsTypeName<'a>) -> TsThisOrMore<'a> {
        TsThisOrMore::TsTypeName(node)
    }
}

/// One of the nodes that may stand where the grammar expects `TsTypeElement`.
#[derive(Clone, Copy, Debug)]
pub enum TsTypeElement<'a> {
    TsCallSignatureDecl(TsCallSignatureDecl<'a>),
    TsConstructSignatureDecl(TsConstructSignatureDecl<'a>),
    TsPropertySignature(TsPropertySignature<'a>),
    TsMethodSignature(TsMethodSignature<'a>),
    TsIndexSignature(TsIndexSignature<'a>),
}

impl<'a> AstNode<'a> for TsTypeElement<'a> {
    open spec fn kind_ok(kind: SyntaxKind) -> bool {
        ||| <TsCallSignatureDecl<'a> as AstNode<'a>>::kind_ok(kind)
        ||| <TsConstructSignatureDecl<'a> as AstNode<'a>>::kind_ok(kind)
        ||| <TsPropertySignature<'a> as AstNode<'a>>::kind_ok(kind)
        ||| <TsMethodSignature<'a> as AstNode<'a>>::kind_ok(kind)
        ||| <TsIndexSignature<'a> as AstNode<'a>>::kind_ok(kind)
    }

    closed spec fn syntax_view(&self) -> SyntaxNode<'a> {
        match self {
            TsTypeElement::TsCallSignatureDecl(it) => it.syntax_view(),
            TsTypeElement::TsConstructSignatureDecl(it) => it.syntax_view(),
            TsTypeElement::TsPropertySignature(it) => it.syntax_view(),
            TsTypeElement::TsMethodSignature(it) => it.syntax_view(),
            TsTypeElement::TsIndexSignature(it) => it.syntax_view(),
        }
    }

    fn can_cast(kind: SyntaxKind) -> (r: bool) {
        matches!(
            kind,
            SyntaxKind::TS_CALL_SIGNATURE_DECL
                | SyntaxKind::TS_CONSTRUCT_SIGNATURE_DECL
                | SyntaxKind::TS_PROPERTY_SIGNATURE
                | SyntaxKind::TS_METHOD_SIGNATURE
                | SyntaxKind::TS_INDEX_SIGNATURE
        )
    }

    fn cast(syntax: SyntaxNode<'a>) -> (r: Option<Self>) {
        match syntax.kind() {
            SyntaxKind::TS_CALL_SIGNATURE_DECL => Some(TsTypeElement::TsCallSignatureDecl(TsCallSignatureDecl { syntax })),
            SyntaxKind::TS_CONSTRUCT_SIGNATURE_DECL => Some(TsTypeElement::TsConstructSignatureDecl(TsConstructSignatureDecl { syntax })),
            SyntaxKind::TS_PROPERTY_SIGNATURE => Some(TsTypeElement::TsPropertySignature(TsPropertySignature { syntax })),
            SyntaxKind::TS_METHOD_SIGNATURE => Some(TsTypeElement::TsMethodSignature(TsMethodSignature { syntax })),
            SyntaxKind::TS_INDEX_SIGNATURE => Some(TsTypeElement::TsIndexSignature(TsIndexSignature { syntax })),
            _ => {
                None
            },
        }
    }

    fn syntax(&self) -> (r: &SyntaxNode<'a>) {
        match self {
            TsTypeElement::TsCallSignatureDecl(it) => it.syntax(),
            TsTypeElement::TsConstructSignatureDecl(it) => it.syntax(),
            TsTypeElement::TsPropertySignature(it) => it.syntax(),
            TsTypeElement::TsMethodSignature(it) => it.syntax(),
            TsTypeElement::TsIndexSignature(it) => it.syntax(),
        }
    }
}

impl<'a> From<TsCallSignatureDecl<'a>> for TsTypeElement<'a> {
    fn from(node: TsCallSignatureDecl<'a>) -> (r: TsTypeElement<'a>)
        ensures
            r == TsTypeElement::TsCallSignatureDecl(node),
    {
        TsTypeElement::TsCallSignatureDecl(node)
    }
}

impl<'a> vstd::std_specs::convert::FromSpecImpl<TsCallSignatureDecl<'a>> for TsTypeElement<'a> {
    open spec fn obeys_from_spec() -> bool {
        true
    }

    open spec fn from_spec(node: TsCallSignatureDecl<'a>) -> TsTypeElement<'a> {
        TsTypeElement::TsCallSignatureDecl(node)
    }
}

impl<'a> From<TsConstructSignatureDecl<'a>> for TsTypeElement<'a> {
    fn from(node: TsConstructSignatureDecl<'a>) -> (r: TsTypeElement<'a>)
        ensures
            r == TsTypeElement::TsConstructSignatureDecl(node),
    {
        TsTypeElement::TsConstructSignatureDecl(node)
    }
}

impl<'a> vstd::std_specs::convert::FromSpecImpl<TsConstructSignatureDecl<'a>> for TsTypeElement<'a> {
    open spec fn obeys_from_spec() -> bool {
        true
    }

    open spec fn from_spec(node: TsConstructSignatureDecl<'a>) -> TsTypeElement<'a> {
        TsTypeElement::TsConstructSignatureDecl(node)
    }
}

impl<'a> From<TsPropertySignature<'a>> for TsTypeElement<'a> {
    fn from(node: TsPropertySignature<'a>) -> (r: TsTypeElement<'a>)
        ensures
            r == TsTypeElement::TsPropertySignature(node),
    {
        TsTypeElement::TsPropertySignature(node)
    }
}

impl<'a> vstd::std_specs::convert::FromSpecImpl<TsPropertySignature<'a>> for TsTypeElement<'a> {
    open spec fn obeys_from_spec() -> bool {
        true
    }

    open spec fn from_spec(node: TsPropertySignature<'a>) -> TsTypeElement<'a> {
        TsTypeElement::TsPropertySignature(node)
    }
}

impl<'a> From<TsMethodSignature<'a>> for TsTypeElement<'a> {
    fn from(node: TsMethodSignature<'a>) -> (r: TsTypeElement<'a>)
        ensures
            r == TsTypeElement::TsMethodSignature(node),
    {
        TsTypeElement::TsMethodSignature(node)
    }
}

impl<'a> vstd::std_specs::convert::FromSpecImpl<TsMethodSignature<'a>> for TsTypeElement<'a> {
    open spec fn obeys_from_spec() -> bool {
        true
    }

    open spec fn from_spec(node: TsMethodSignature<'a>) -> TsTypeElement<'a> {
        TsTypeElement::TsMethodSignature(node)
    }
}

impl<'a> From<TsIndexSignature<'a>> for TsTypeElement<'a> {
    fn from(node: TsIndexSignature<'a>) -> (r: TsTypeElement<'a>)
        ensures
            r == TsTypeElement::TsIndexSignature(node),
    {
        TsTypeElement::TsIndexSignature(node)
    }
}

impl<'a> vstd::std_specs::convert::FromSpecImpl<TsIndexSignature<'a>> for TsTypeElement<'a> {
    open spec fn obeys_from_spec() -> bool {
        true
    }

    open spec fn from_spec(node: TsIndexSignature<'a>) -> TsTypeElement<'a> {
        TsTypeElement::TsIndexSignature(node)
    }
}

/// One of the nodes that may stand where the grammar expects `TsNamespaceBody`.
#[derive(Clone, Copy, Debug)]
pub enum TsNamespaceBody<'a> {
    TsModuleBlock(TsModuleBlock<'a>),
    TsNamespaceDecl(TsNamespaceDecl<'a>),
}

impl<'a> AstNode<'a> for TsNamespaceBody<'a> {
    open spec fn kind_ok(kind: SyntaxKind) -> bool {
        ||| <TsModuleBlock<'a> as AstNode<'a>>::kind_ok(kind)
        ||| <TsNamespaceDecl<'a> as AstNode<'a>>::kind_ok(kind)
    }

    closed spec fn syntax_view(&self) -> SyntaxNode<'a> {
        match self {
            TsNamespaceBody::TsModuleBlock(it) => it.syntax_view(),
            TsNamespaceBody::TsNamespaceDecl(it) => it.syntax_view(),
        }
    }

    fn can_cast(kind: SyntaxKind) -> (r: bool) {
        matches!(
            kind,
            SyntaxKind::TS_MODULE_BLOCK
                | SyntaxKind::TS_NAMESPACE_DECL
        )
    }

    fn cast(syntax: SyntaxNode<'a>) -> (r: Option<Self>) {
        match syntax.kind() {
            SyntaxKind::TS_MODULE_BLOCK => Some(TsNamespaceBody::TsModuleBlock(TsModuleBlock { syntax })),
            SyntaxKind::TS_NAMESPACE_DECL => Some(TsNamespaceBody::TsNamespaceDecl(TsNamespaceDecl { syntax })),
            _ => {
                None
            },
        }
    }

    fn syntax(&self) -> (r: &SyntaxNode<'a>) {
        match self {
            TsNamespaceBody::TsModuleBlock(it) => it.syntax(),
            TsNamespaceBody::TsNamespaceDecl(it) => it.syntax(),
        }
    }
}

impl<'a> From<TsModuleBlock<'a>> for TsNamespaceBody<'a> {
    fn from(node: TsModuleBlock<'a>) -> (r: TsNamespaceBody<'a>)
        ensures
            r == TsNamespaceBody::TsModuleBlock(node),
    {
        TsNamespaceBody::TsModuleBlock(node)
    }
}

impl<'a> vstd::std_specs::convert::FromSpecImpl<TsModuleBlock<'a>> for TsNamespaceBody<'a> {
    open spec fn obeys_from_spec() -> bool {
        true
    }

    open spec fn from_spec(node: TsModuleBlock<'a>) -> TsNamespaceBody<'a> {
        TsNamespaceBody::TsModuleBlock(node)
    }
}

impl<'a> From<TsNamespaceDecl<'a>> for TsNamespaceBody<'a> {
    fn from(node: TsNamespaceDecl<'a>) -> (r: TsNamespaceBody<'a>)
        ensures
            r == TsNamespaceBody::TsNamespaceDecl(node),
    {
        TsNamespaceBody::TsNamespaceDecl(node)
    }
}

impl<'a> vstd::std_specs::convert::FromSpecImpl<TsNamespaceDecl<'a>> for TsNamespaceBody<'a> {
    open spec fn obeys_from_spec() -> bool {
        true
    }

    open spec fn from_spec(node: TsNamespaceDecl<'a>) -> TsNamespaceBody<'a> {
        TsNamespaceBody::TsNamespaceDecl(node)
    }
}

/// One of the nodes that may stand where the grammar expects `AnyNode`.
#[derive(Clone, Copy, Debug)]
pub enum AnyNode<'a> {
    JsUnknownStatement(JsUnknownStatement<'a>),
    JsUnknownExpression(JsUnknownExpression<'a>),
    JsUnknownMember(JsUnknownMember<'a>),
    JsUnknownBinding(JsUnknownBinding<'a>),
    JsUnknownAssignment(JsUnknownAssignment<'a>),
    JsUnknownModifier(JsUnknownModifier<'a>),
    JsUnknownImportAssertionEntry(JsUnknownImportAssertionEntry<'a>),
    JsUnknownNamedImportSpecifier(JsUnknownNamedImportSpecifier<'a>),
    List(List<'a>),
    Ident(Ident<'a>),
    JsScript(JsScript<'a>),
    JsModule(JsModule<'a>),
    JsDirective(JsDirective<'a>),
    JsBlockStatement(JsBlockStatement<'a>),
    JsEmptyStatement(JsEmptyStatement<'a>),
    JsExpressionStatement(JsExpressionStatement<'a>),
    JsIfStatement(JsIfStatement<'a>),
    JsDoWhileStatement(JsDoWhileStatement<'a>),
    JsWhileStatement(JsWhileStatement<'a>),
    ForStmt(ForStmt<'a>),
    ForInStmt(ForInStmt<'a>),
    ForOfStmt(ForOfStmt<'a>),
    JsContinueStatement(JsContinueStatement<'a>),
    JsBreakStatement(JsBreakStatement<'a>),
    JsReturnStatement(JsReturnStatement<'a>),
    JsWithStatement(JsWithStatement<'a>),
    JsLabeledStatement(JsLabeledStatement<'a>),
    JsSwitchStatement(JsSwitchStatement<'a>),
    JsThrowStatement(JsThrowStatement<'a>),
    JsTryStatement(JsTryStatement<'a>),
    JsTryFinallyStatement(JsTryFinallyStatement<'a>),
    JsDebuggerStatement(JsDebuggerStatement<'a>),
    JsFunctionDeclaration(JsFunctionDeclaration<'a>),
    JsClassDeclaration(JsClassDeclaration<'a>),
    JsVariableDeclarationStatement(JsVariableDeclarationStatement<'a>),
    TsEnum(TsEnum<'a>),
    TsTypeAliasDecl(TsTypeAliasDecl<'a>),
    TsNamespaceDecl(TsNamespaceDecl<'a>),
    TsModuleDecl(TsModuleDecl<'a>),
    TsInterfaceDecl(TsInterfaceDecl<'a>),
    JsElseClause(JsElseClause<'a>),
    ForStmtInit(ForStmtInit<'a>),
    ForStmtTest(ForStmtTest<'a>),
    ForStmtUpdate(ForStmtUpdate<'a>),
    JsVariableDeclaration(JsVariableDeclaration<'a>),
    JsCaseClause(JsCaseClause<'a>),
    JsDefaultClause(JsDefaultClause<'a>),
    JsCatchClause(JsCatchClause<'a>),
    JsFinallyClause(JsFinallyClause<'a>),
    JsCatchDeclaration(JsCatchDeclaration<'a>),
    JsArrayExpression(JsArrayExpression<'a>),
    JsArrowFunctionExpression(JsArrowFunctionExpression<'a>),
    JsAssignmentExpression(JsAssignmentExpression<'a>),
    JsAwaitExpression(JsAwaitExpression<'a>),
    JsBinaryExpression(JsBinaryExpression<'a>),
    JsClassExpression(JsClassExpression<'a>),
    JsConditionalExpression(JsConditionalExpression<'a>),
    JsComputedMemberExpression(JsComputedMemberExpression<'a>),
    JsFunctionExpression(JsFunctionExpression<'a>),
    JsImportCallExpression(JsImportCallExpression<'a>),
    JsLogicalExpression(JsLogicalExpression<'a>),
    JsObjectExpression(JsObjectExpression<'a>),
    JsParenthesizedExpression(JsParenthesizedExpression<'a>),
    JsIdentifierExpression(JsIdentifierExpression<'a>),
    JsSequenceExpression(JsSequenceExpression<'a>),
    JsStaticMemberExpression(JsStaticMemberExpression<'a>),
    JsSuperExpression(JsSuperExpression<'a>),
    JsThisExpression(JsThisExpression<'a>),
    JsUnaryExpression(JsUnaryExpression<'a>),
    JsPreUpdateExpression(JsPreUpdateExpression<'a>),
    JsPostUpdateExpression(JsPostUpdateExpression<'a>),
    JsYieldExpression(JsYieldExpression<'a>),
    Template(Template<'a>),
    NewExpr(NewExpr<'a>),
    CallExpr(CallExpr<'a>),
    NewTarget(NewTarget<'a>),
    ImportMeta(ImportMeta<'a>),
    TsNonNull(TsNonNull<'a>),
    TsAssertion(TsAssertion<'a>),
    TsConstAssertion(TsConstAssertion<'a>),
    TsTypeArgs(TsTypeArgs<'a>),
    ArgList(ArgList<'a>),
    TsTypeParams(TsTypeParams<'a>),
    JsParameterList(JsParameterList<'a>),
    TsTypeAnnotation(TsTypeAnnotation<'a>),
    JsFunctionBody(JsFunctionBody<'a>),
    JsSpread(JsSpread<'a>),
    JsArrayHole(JsArrayHole<'a>),
    JsReferenceIdentifier(JsReferenceIdentifier<'a>),
    JsLiteralMemberName(JsLiteralMemberName<'a>),
    JsComputedMemberName(JsComputedMemberName<'a>),
    JsPropertyObjectMember(JsPropertyObjectMember<'a>),
    JsMethodObjectMember(JsMethodObjectMember<'a>),
    JsGetterObjectMember(JsGetterObjectMember<'a>),
    JsSetterObjectMember(JsSetterObjectMember<'a>),
    JsShorthandPropertyObjectMember(JsShorthandPropertyObjectMember<'a>),
    TsImplementsClause(TsImplementsClause<'a>),
    JsExtendsClause(JsExtendsClause<'a>),
    TsExprWithTypeArgs(TsExprWithTypeArgs<'a>),
    JsPrivateClassMemberName(JsPrivateClassMemberName<'a>),
    JsConstructorClassMember(JsConstructorClassMember<'a>),
    JsPropertyClassMember(JsPropertyClassMember<'a>),
    JsMethodClassMember(JsMethodClassMember<'a>),
    JsGetterClassMember(JsGetterClassMember<'a>),
    JsSetterClassMember(JsSetterClassMember<'a>),
    JsEmptyClassMember(JsEmptyClassMember<'a>),
    TsIndexSignature(TsIndexSignature<'a>),
    TsAccessibility(TsAccessibility<'a>),
    JsConstructorParameterList(JsConstructorParameterList<'a>),
    TsConstructorParam(TsConstructorParam<'a>),
    JsBindingPatternWithDefault(JsBindingPatternWithDefault<'a>),
    JsEqualValueClause(JsEqualValueClause<'a>),
    JsModifier(JsModifier<'a>),
    JsIdentifierAssignment(JsIdentifierAssignment<'a>),
    JsStaticMemberAssignment(JsStaticMemberAssignment<'a>),
    JsComputedMemberAssignment(JsComputedMemberAssignment<'a>),
    JsParenthesizedAssignment(JsParenthesizedAssignment<'a>),
    JsAssignmentWithDefault(JsAssignmentWithDefault<'a>),
    JsArrayAssignmentPattern(JsArrayAssignmentPattern<'a>),
    JsObjectAssignmentPattern(JsObjectAssignmentPattern<'a>),
    JsArrayAssignmentPatternRestElement(JsArrayAssignmentPatternRestElement<'a>),
    JsObjectAssignmentPatternShorthandProperty(JsObjectAssignmentPatternShorthandProperty<'a>),
    JsObjectAssignmentPatternProperty(JsObjectAssignmentPatternProperty<'a>),
    JsObjectAssignmentPatternRest(JsObjectAssignmentPatternRest<'a>),
    JsName(JsName<'a>),
    JsIdentifierBinding(JsIdentifierBinding<'a>),
    JsArrayBindingPattern(JsArrayBindingPattern<'a>),
    JsObjectBindingPattern(JsObjectBindingPattern<'a>),
    JsArrayBindingPatternRestElement(JsArrayBindingPatternRestElement<'a>),
    JsObjectBindingPatternProperty(JsObjectBindingPatternProperty<'a>),
    JsObjectBindingPatternRest(JsObjectBindingPatternRest<'a>),
    JsObjectBindingPatternShorthandProperty(JsObjectBindingPatternShorthandProperty<'a>),
    JsStringLiteralExpression(JsStringLiteralExpression<'a>),
    JsNumberLiteralExpression(JsNumberLiteralExpression<'a>),
    JsBigIntLiteralExpression(JsBigIntLiteralExpression<'a>),
    JsBooleanLiteralExpression(JsBooleanLiteralExpression<'a>),
    JsNullLiteralExpression(JsNullLiteralExpression<'a>),
    JsRegexLiteralExpression(JsRegexLiteralExpression<'a>),
    JsVariableDeclarator(JsVariableDeclarator<'a>),
    JsImport(JsImport<'a>),
    ExportNamed(ExportNamed<'a>),
    ExportDefaultDecl(ExportDefaultDecl<'a>),
    ExportDefaultExpr(ExportDefaultExpr<'a>),
    ExportWildcard(ExportWildcard<'a>),
    ExportDecl(ExportDecl<'a>),
    TsImportEqualsDecl(TsImportEqualsDecl<'a>),
    TsExportAssignment(TsExportAssignment<'a>),
    TsNamespaceExportDecl(TsNamespaceExportDecl<'a>),
    JsImportBareClause(JsImportBareClause<'a>),
    JsImportNamedClause(JsImportNamedClause<'a>),
    JsImportDefaultClause(JsImportDefaultClause<'a>),
    JsImportNamespaceClause(JsImportNamespaceClause<'a>),
    JsModuleSource(JsModuleSource<'a>),
    JsImportAssertion(JsImportAssertion<'a>),
    JsDefaultImportSpecifier(JsDefaultImportSpecifier<'a>),
    JsNamedImportSpecifierList(JsNamedImportSpecifierList<'a>),
    JsNamespaceImportSpecifier(JsNamespaceImportSpecifier<'a>),
    JsShorthandNamedImportSpecifier(JsShorthandNamedImportSpecifier<'a>),
    JsNamedImportSpecifier(JsNamedImportSpecifier<'a>),
    JsLiteralExportName(JsLiteralExportName<'a>),
    JsImportAssertionEntry(JsImportAssertionEntry<'a>),
    Specifier(Specifier<'a>),
    JsPrivateName(JsPrivateName<'a>),
    JsRestParameter(JsRestParameter<'a>),
    TsExternalModuleRef(TsExternalModuleRef<'a>),
    TsAny(TsAny<'a>),
    TsUnknown(TsUnknown<'a>),
    TsNumber(TsNumber<'a>),
    TsObject(TsObject<'a>),
    TsBoolean(TsBoolean<'a>),
    TsBigint(TsBigint<'a>),
    TsString(TsString<'a>),
    TsSymbol(TsSymbol<'a>),
    TsVoid(TsVoid<'a>),
    TsUndefined(TsUndefined<'a>),
    TsNull(TsNull<'a>),
    TsNever(TsNever<'a>),
    TsThis(TsThis<'a>),
    TsLiteral(TsLiteral<'a>),
    TsPredicate(TsPredicate<'a>),
    TsTuple(TsTuple<'a>),
    TsParen(TsParen<'a>),
    TsTypeRef(TsTypeRef<'a>),
    TsTemplate(TsTemplate<'a>),
    TsMappedType(TsMappedType<'a>),
    TsImport(TsImport<'a>),
    TsArray(TsArray<'a>),
    TsIndexedArray(TsIndexedArray<'a>),
    TsTypeOperator(TsTypeOperator<'a>),
    TsIntersection(TsIntersection<'a>),
    TsUnion(TsUnion<'a>),
    TsFnType(TsFnType<'a>),
    TsConstructorType(TsConstructorType<'a>),
    TsConditionalType(TsConditionalType<'a>),
    TsObjectType(TsObjectType<'a>),
    TsInfer(TsInfer<'a>),
    TsTupleElement(TsTupleElement<'a>),
    TsEnumMember(TsEnumMember<'a>),
    TsTemplateElement(TsTemplateElement<'a>),
    TsMappedTypeReadonly(TsMappedTypeReadonly<'a>),
    TsMappedTypeParam(TsMappedTypeParam<'a>),
    TsTypeName(TsTypeName<'a>),
    TsExtends(TsExtends<'a>),
    TsModuleBlock(TsModuleBlock<'a>),
    TsTypeParam(TsTypeParam<'a>),
    TsConstraint(TsConstraint<'a>),
    TsDefault(TsDefault<'a>),
    TsCallSignatureDecl(TsCallSignatureDecl<'a>),
    TsConstructSignatureDecl(TsConstructSignatureDecl<'a>),
    TsPropertySignature(TsPropertySignature<'a>),
    TsMethodSignature(TsMethodSignature<'a>),
    TsQualifiedPath(TsQualifiedPath<'a>),
}

impl<'a> AstNode<'a> for AnyNode<'a> {
    open spec fn kind_ok(kind: SyntaxKind) -> bool {
        ||| <JsUnknownStatement<'a> as AstNode<'a>>::kind_ok(kind)
        ||| <JsUnknownExpression<'a> as AstNode<'a>>::kind_ok(kind)
        ||| <JsUnknownMember<'a> as AstNode<'a>>::kind_ok(kind)
        ||| <JsUnknownBinding<'a> as AstNode<'a>>::kind_ok(kind)
        ||| <JsUnknownAssignment<'a> as AstNode<'a>>::kind_ok(kind)
        ||| <JsUnknownModifier<'a> as AstNode<'a>>::kind_ok(kind)
        ||| <JsUnknownImportAssertionEntry<'a> as AstNode<'a>>::kind_ok(kind)
        ||| <JsUnknownNamedImportSpecifier<'a> as AstNode<'a>>::kind_ok(kind)
        ||| <List<'a> as AstNode<'a>>::kind_ok(kind)
        ||| <Ident<'a> as AstNode<'a>>::kind_ok(kind)
        ||| <JsScript<'a> as AstNode<'a>>::kind_ok(kind)
        ||| <JsModule<'a> as AstNode<'a>>::kind_ok(kind)
        ||| <JsDirective<'a> as AstNode<'a>>::kind_ok(kind)
        ||| <JsBlockStatement<'a> as AstNode<'a>>::kind_ok(kind)
        ||| <JsEmptyStatement<'a> as AstNode<'a>>::kind_ok(kind)
        ||| <JsExpressionStatement<'a> as AstNode<'a>>::kind_ok(kind)
        ||| <JsIfStatement<'a> as AstNode<'a>>::kind_ok(kind)
        ||| <JsDoWhileStatement<'a> as AstNode<'a>>::kind_ok(kind)
        ||| <JsWhileStatement<'a> as AstNode<'a>>::kind_ok(kind)
        ||| <ForStmt<'a> as AstNode<'a>>::kind_ok(kind)
        ||| <ForInStmt<'a> as AstNode<'a>>::kind_ok(kind)
        ||| <ForOfStmt<'a> as AstNode<'a>>::kind_ok(kind)
        ||| <JsContinueStatement<'a> as AstNode<'a>>::kind_ok(kind)
        ||| <JsBreakStatement<'a> as AstNode<'a>>::kind_ok(kind)
        ||| <JsReturnStatement<'a> as AstNode<'a>>::kind_ok(kind)
        ||| <JsWithStatement<'a> as AstNode<'a>>::kind_ok(kind)
        ||| <JsLabeledStatement<'a> as AstNode<'a>>::kind_ok(kind)
        ||| <JsSwitchStatement<'a> as AstNode<'a>>::kind_ok(kind)
        ||| <JsThrowStatement<'a> as AstNode<'a>>::kind_ok(kind)
        ||| <JsTryStatement<'a> as AstNode<'a>>::kind_ok(kind)
        ||| <JsTryFinallyStatement<'a> as AstNode<'a>>::kind_ok(kind)
        ||| <JsDebuggerStatement<'a> as AstNode<'a>>::kind_ok(kind)
        ||| <JsFunctionDeclaration<'a> as AstNode<'a>>::kind_ok(kind)
        ||| <JsClassDeclaration<'a> as AstNode<'a>>::kind_ok(kind)
        ||| <JsVariableDeclarationStatement<'a> as AstNode<'a>>::kind_ok(kind)
        ||| <TsEnum<'a> as AstNode<'a>>::kind_ok(kind)
        ||| <TsTypeAliasDecl<'a> as AstNode<'a>>::kind_ok(kind)
        ||| <TsNamespaceDecl<'a> as AstNode<'a>>::kind_ok(kind)
        ||| <TsModuleDecl<'a> as AstNode<'a>>::kind_ok(kind)
        ||| <TsInterfaceDecl<'a> as AstNode<'a>>::kind_ok(kind)
        ||| <JsElseClause<'a> as AstNode<'a>>::kind_ok(kind)
        ||| <ForStmtInit<'a> as AstNode<'a>>::kind_ok(kind)
        ||| <ForStmtTest<'a> as AstNode<'a>>::kind_ok(kind)
        ||| <ForStmtUpdate<'a> as AstNode<'a>>::kind_ok(kind)
        ||| <JsVariableDeclaration<'a> as AstNode<'a>>::kind_ok(kind)
        ||| <JsCaseClause<'a> as AstNode<'a>>::kind_ok(kind)
        ||| <JsDefaultClause<'a> as AstNode<'a>>::kind_ok(kind)
        ||| <JsCatchClause<'a> as AstNode<'a>>::kind_ok(kind)
        ||| <JsFinallyClause<'a> as AstNode<'a>>::kind_ok(kind)
        ||| <JsCatchDeclaration<'a> as AstNode<'a>>::kind_ok(kind)
        ||| <JsArrayExpression<'a> as AstNode<'a>>::kind_ok(kind)
        ||| <JsArrowFunctionExpression<'a> as AstNode<'a>>::kind_ok(kind)
        ||| <JsAssignmentExpression<'a> as AstNode<'a>>::kind_ok(kind)
        ||| <JsAwaitExpression<'a> as AstNode<'a>>::kind_ok(kind)
        ||| <JsBinaryExpression<'a> as AstNode<'a>>::kind_ok(kind)
        ||| <JsClassExpression<'a> as AstNode<'a>>::kind_ok(kind)
        ||| <JsConditionalExpression<'a> as AstNode<'a>>::kind_ok(kind)
        ||| <JsComputedMemberExpression<'a> as AstNode<'a>>::kind_ok(kind)
        ||| <JsFunctionExpression<'a> as AstNode<'a>>::kind_ok(kind)
        ||| <JsImportCallExpression<'a> as AstNode<'a>>::kind_ok(kind)
        ||| <JsLogicalExpression<'a> as AstNode<'a>>::kind_ok(kind)
        ||| <JsObjectExpression<'a> as AstNode<'a>>::kind_ok(kind)
        ||| <JsParenthesizedExpression<'a> as AstNode<'a>>::kind_ok(kind)
        ||| <JsIdentifierExpression<'a> as AstNode<'a>>::kind_ok(kind)
        ||| <JsSequenceExpression<'a> as AstNode<'a>>::kind_ok(kind)
        ||| <JsStaticMemberExpression<'a> as AstNode<'a>>::kind_ok(kind)
        ||| <JsSuperExpression<'a> as AstNode<'a>>::kind_ok(kind)
        ||| <JsThisExpression<'a> as AstNode<'a>>::kind_ok(kind)
        ||| <JsUnaryExpression<'a> as AstNode<'a>>::kind_ok(kind)
        ||| <JsPreUpdateExpression<'a> as AstNode<'a>>::kind_ok(kind)
        ||| <JsPostUpdateExpression<'a> as AstNode<'a>>::kind_ok(kind)
        ||| <JsYieldExpression<'a> as AstNode<'a>>::kind_ok(kind)
        ||| <Template<'a> as AstNode<'a>>::kind_ok(kind)
        ||| <NewExpr<'a> as AstNode<'a>>::kind_ok(kind)
        ||| <CallExpr<'a> as AstNode<'a>>::kind_ok(kind)
        ||| <NewTarget<'a> as AstNode<'a>>::kind_ok(kind)
        ||| <ImportMeta<'a> as AstNode<'a>>::kind_ok(kind)
        ||| <TsNonNull<'a> as AstNode<'a>>::kind_ok(kind)
        ||| <TsAssertion<'a> as AstNode<'a>>::kind_ok(kind)
        ||| <TsConstAssertion<'a> as AstNode<'a>>::kind_ok(kind)
        ||| <TsTypeArgs<'a> as AstNode<'a>>::kind_ok(kind)
        ||| <ArgList<'a> as AstNode<'a>>::kind_ok(kind)
        ||| <TsTypeParams<'a> as AstNode<'a>>::kind_ok(kind)
        ||| <JsParameterList<'a> as AstNode<'a>>::kind_ok(kind)
        ||| <TsTypeAnnotation<'a> as AstNode<'a>>::kind_ok(kind)
        ||| <JsFunctionBody<'a> as AstNode<'a>>::kind_ok(kind)
        ||| <JsSpread<'a> as AstNode<'a>>::kind_ok(kind)
        ||| <JsArrayHole<'a> as AstNode<'a>>::kind_ok(kind)
        ||| <JsReferenceIdentifier<'a> as AstNode<'a>>::kind_ok(kind)
        ||| <JsLiteralMemberName<'a> as AstNode<'a>>::kind_ok(kind)
        ||| <JsComputedMemberName<'a> as AstNode<'a>>::kind_ok(kind)
        ||| <JsPropertyObjectMember<'a> as AstNode<'a>>::kind_ok(kind)
        ||| <JsMethodObjectMember<'a> as AstNode<'a>>::kind_ok(kind)
        ||| <JsGetterObjectMember<'a> as AstNode<'a>>::kind_ok(kind)
        ||| <JsSetterObjectMember<'a> as AstNode<'a>>::kind_ok(kind)
        ||| <JsShorthandPropertyObjectMember<'a> as AstNode<'a>>::kind_ok(kind)
        ||| <TsImplementsClause<'a> as AstNode<'a>>::kind_ok(kind)
        ||| <JsExtendsClause<'a> as AstNode<'a>>::kind_ok(kind)
        ||| <TsExprWithTypeArgs<'a> as AstNode<'a>>::kind_ok(kind)
        ||| <JsPrivateClassMemberName<'a> as AstNode<'a>>::kind_ok(kind)
        ||| <JsConstructorClassMember<'a> as AstNode<'a>>::kind_ok(kind)
        ||| <JsPropertyClassMember<'a> as AstNode<'a>>::kind_ok(kind)
        ||| <JsMethodClassMember<'a> as AstNode<'a>>::kind_ok(kind)
        ||| <JsGetterClassMember<'a> as AstNode<'a>>::kind_ok(kind)
        ||| <JsSetterClassMember<'a> as AstNode<'a>>::kind_ok(kind)
        ||| <JsEmptyClassMember<'a> as AstNode<'a>>::kind_ok(kind)
        ||| <TsIndexSignature<'a> as AstNode<'a>>::kind_ok(kind)
        ||| <TsAccessibility<'a> as AstNode<'a>>::kind_ok(kind)
        ||| <JsConstructorParameterList<'a> as AstNode<'a>>::kind_ok(kind)
        ||| <TsConstructorParam<'a> as AstNode<'a>>::kind_ok(kind)
        ||| <JsBindingPatternWithDefault<'a> as AstNode<'a>>::kind_ok(kind)
        ||| <JsEqualValueClause<'a> as AstNode<'a>>::kind_ok(kind)
        ||| <JsModifier<'a> as AstNode<'a>>::kind_ok(kind)
        ||| <JsIdentifierAssignment<'a> as AstNode<'a>>::kind_ok(kind)
        ||| <JsStaticMemberAssignment<'a> as AstNode<'a>>::kind_ok(kind)
        ||| <JsComputedMemberAssignment<'a> as AstNode<'a>>::kind_ok(kind)
        ||| <JsParenthesizedAssignment<'a> as AstNode<'a>>::kind_ok(kind)
        ||| <JsAssignmentWithDefault<'a> as AstNode<'a>>::kind_ok(kind)
        ||| <JsArrayAssignmentPattern<'a> as AstNode<'a>>::kind_ok(kind)
        ||| <JsObjectAssignmentPattern<'a> as AstNode<'a>>::kind_ok(kind)
        ||| <JsArrayAssignmentPatternRestElement<'a> as AstNode<'a>>::kind_ok(kind)
        ||| <JsObjectAssignmentPatternShorthandProperty<'a> as AstNode<'a>>::kind_ok(kind)
        ||| <JsObjectAssignmentPatternProperty<'a> as AstNode<'a>>::kind_ok(kind)
        ||| <JsObjectAssignmentPatternRest<'a> as AstNode<'a>>::kind_ok(kind)
        ||| <JsName<'a> as AstNode<'a>>::kind_ok(kind)
        ||| <JsIdentifierBinding<'a> as AstNode<'a>>::kind_ok(kind)
        ||| <JsArrayBindingPattern<'a> as AstNode<'a>>::kind_ok(kind)
        ||| <JsObjectBindingPattern<'a> as AstNode<'a>>::kind_ok(kind)
        ||| <JsArrayBindingPatternRestElement<'a> as AstNode<'a>>::kind_ok(kind)
        ||| <JsObjectBindingPatternProperty<'a> as AstNode<'a>>::kind_ok(kind)
        ||| <JsObjectBindingPatternRest<'a> as AstNode<'a>>::kind_ok(kind)
        ||| <JsObjectBindingPatternShorthandProperty<'a> as AstNode<'a>>::kind_ok(kind)
        ||| <JsStringLiteralExpression<'a> as AstNode<'a>>::kind_ok(kind)
        ||| <JsNumberLiteralExpression<'a> as AstNode<'a>>::kind_ok(kind)
        ||| <JsBigIntLiteralExpression<'a> as AstNode<'a>>::kind_ok(kind)
        ||| <JsBooleanLiteralExpression<'a> as AstNode<'a>>::kind_ok(kind)
        ||| <JsNullLiteralExpression<'a> as AstNode<'a>>::kind_ok(kind)
        ||| <JsRegexLiteralExpression<'a> as AstNode<'a>>::kind_ok(kind)
        ||| <JsVariableDeclarator<'a> as AstNode<'a>>::kind_ok(kind)
        ||| <JsImport<'a> as AstNode<'a>>::kind_ok(kind)
        ||| <ExportNamed<'a> as AstNode<'a>>::kind_ok(kind)
        ||| <ExportDefaultDecl<'a> as AstNode<'a>>::kind_ok(kind)
        ||| <ExportDefaultExpr<'a> as AstNode<'a>>::kind_ok(kind)
        ||| <ExportWildcard<'a> as AstNode<'a>>::kind_ok(kind)
        ||| <ExportDecl<'a> as AstNode<'a>>::kind_ok(kind)
        ||| <TsImportEqualsDecl<'a> as AstNode<'a>>::kind_ok(kind)
        ||| <TsExportAssignment<'a> as AstNode<'a>>::kind_ok(kind)
        ||| <TsNamespaceExportDecl<'a> as AstNode<'a>>::kind_ok(kind)
        ||| <JsImportBareClause<'a> as AstNode<'a>>::kind_ok(kind)
        ||| <JsImportNamedClause<'a> as AstNode<'a>>::kind_ok(kind)
        ||| <JsImportDefaultClause<'a> as AstNode<'a>>::kind_ok(kind)
        ||| <JsImportNamespaceClause<'a> as AstNode<'a>>::kind_ok(kind)
        ||| <JsModuleSource<'a> as AstNode<'a>>::kind_ok(kind)
        ||| <JsImportAssertion<'a> as AstNode<'a>>::kind_ok(kind)
        ||| <JsDefaultImportSpecifier<'a> as AstNode<'a>>::kind_ok(kind)
        ||| <JsNamedImportSpecifierList<'a> as AstNode<'a>>::kind_ok(kind)
        ||| <JsNamespaceImportSpecifier<'a> as AstNode<'a>>::kind_ok(kind)
        ||| <JsShorthandNamedImportSpecifier<'a> as AstNode<'a>>::kind_ok(kind)
        ||| <JsNamedImportSpecifier<'a> as AstNode<'a>>::kind_ok(kind)
        ||| <JsLiteralExportName<'a> as AstNode<'a>>::kind_ok(kind)
        ||| <JsImportAssertionEntry<'a> as AstNode<'a>>::kind_ok(kind)
        ||| <Specifier<'a> as AstNode<'a>>::kind_ok(kind)
        ||| <JsPrivateName<'a> as AstNode<'a>>::kind_ok(kind)
        ||| <JsRestParameter<'a> as AstNode<'a>>::kind_ok(kind)
        ||| <TsExternalModuleRef<'a> as AstNode<'a>>::kind_ok(kind)
        ||| <TsAny<'a> as AstNode<'a>>::kind_ok(kind)
        ||| <TsUnknown<'a> as AstNode<'a>>::kind_ok(kind)
        ||| <TsNumber<'a> as AstNode<'a>>::kind_ok(kind)
        ||| <TsObject<'a> as AstNode<'a>>::kind_ok(kind)
        ||| <TsBoolean<'a> as AstNode<'a>>::kind_ok(kind)
        ||| <TsBigint<'a> as AstNode<'a>>::kind_ok(kind)
        ||| <TsString<'a> as AstNode<'a>>::kind_ok(kind)
        ||| <TsSymbol<'a> as AstNode<'a>>::kind_ok(kind)
        ||| <TsVoid<'a> as AstNode<'a>>::kind_ok(kind)
        ||| <TsUndefined<'a> as AstNode<'a>>::kind_ok(kind)
        ||| <TsNull<'a> as AstNode<'a>>::kind_ok(kind)
        ||| <TsNever<'a> as AstNode<'a>>::kind_ok(kind)
        ||| <TsThis<'a> as AstNode<'a>>::kind_ok(kind)
        ||| <TsLiteral<'a> as AstNode<'a>>::kind_ok(kind)
        ||| <TsPredicate<'a> as AstNode<'a>>::kind_ok(kind)
        ||| <TsTuple<'a> as AstNode<'a>>::kind_ok(kind)
        ||| <TsParen<'a> as AstNode<'a>>::kind_ok(kind)
        ||| <TsTypeRef<'a> as AstNode<'a>>::kind_ok(kind)
        ||| <TsTemplate<'a> as AstNode<'a>>::kind_ok(kind)
        ||| <TsMappedType<'a> as AstNode<'a>>::kind_ok(kind)
        ||| <TsImport<'a> as AstNode<'a>>::kind_ok(kind)
        ||| <TsArray<'a> as AstNode<'a>>::kind_ok(kind)
        ||| <TsIndexedArray<'a> as AstNode<'a>>::kind_ok(kind)
        ||| <TsTypeOperator<'a> as AstNode<'a>>::kind_ok(kind)
        ||| <TsIntersection<'a> as AstNode<'a>>::kind_ok(kind)
        ||| <TsUnion<'a> as AstNode<'a>>::kind_ok(kind)
        ||| <TsFnType<'a> as AstNode<'a>>::kind_ok(kind)
        ||| <TsConstructorType<'a> as AstNode<'a>>::kind_ok(kind)
        ||| <TsConditionalType<'a> as AstNode<'a>>::kind_ok(kind)
        ||| <TsObjectType<'a> as AstNode<'a>>::kind_ok(kind)
        ||| <TsInfer<'a> as AstNode<'a>>::kind_ok(kind)
        ||| <TsTupleElement<'a> as AstNode<'a>>::kind_ok(kind)
        ||| <TsEnumMember<'a> as AstNode<'a>>::kind_ok(kind)
        ||| <TsTemplateElement<'a> as AstNode<'a>>::kind_ok(kind)
        ||| <TsMappedTypeReadonly<'a> as AstNode<'a>>::kind_ok(kind)
        ||| <TsMappedTypeParam<'a> as AstNode<'a>>::kind_ok(kind)
        ||| <TsTypeName<'a> as AstNode<'a>>::kind_ok(kind)
        ||| <TsExtends<'a> as AstNode<'a>>::kind_ok(kind)
        ||| <TsModuleBlock<'a> as AstNode<'a>>::kind_ok(kind)
        ||| <TsTypeParam<'a> as AstNode<'a>>::kind_ok(kind)
        ||| <TsConstraint<'a> as AstNode<'a>>::kind_ok(kind)
        ||| <TsDefault<'a> as AstNode<'a>>::kind_ok(kind)
        ||| <TsCallSignatureDecl<'a> as AstNode<'a>>::kind_ok(kind)
        ||| <TsConstructSignatureDecl<'a> as AstNode<'a>>::kind_ok(kind)
        ||| <TsPropertySignature<'a> as AstNode<'a>>::kind_ok(kind)
        ||| <TsMethodSignature<'a> as AstNode<'a>>::kind_ok(kind)
        ||| <TsQualifiedPath<'a> as AstNode<'a>>::kind_ok(kind)
    }

    closed spec fn syntax_view(&self) -> SyntaxNode<'a> {
        match self {
            AnyNode::JsUnknownStatement(it) => it.syntax_view(),
            AnyNode::JsUnknownExpression(it) => it.syntax_view(),
            AnyNode::JsUnknownMember(it) => it.syntax_view(),
            AnyNode::JsUnknownBinding(it) => it.syntax_view(),
            AnyNode::JsUnknownAssignment(it) => it.syntax_view(),
            AnyNode::JsUnknownModifier(it) => it.syntax_view(),
            AnyNode::JsUnknownImportAssertionEntry(it) => it.syntax_view(),
            AnyNode::JsUnknownNamedImportSpecifier(it) => it.syntax_view(),
            AnyNode::List(it) => it.syntax_view(),
            AnyNode::Ident(it) => it.syntax_view(),
            AnyNode::JsScript(it) => it.syntax_view(),
            AnyNode::JsModule(it) => it.syntax_view(),
            AnyNode::JsDirective(it) => it.syntax_view(),
            AnyNode::JsBlockStatement(it) => it.syntax_view(),
            AnyNode::JsEmptyStatement(it) => it.syntax_view(),
            AnyNode::JsExpressionStatement(it) => it.syntax_view(),
            AnyNode::JsIfStatement(it) => it.syntax_view(),
            AnyNode::JsDoWhileStatement(it) => it.syntax_view(),
            AnyNode::JsWhileStatement(it) => it.syntax_view(),
            AnyNode::ForStmt(it) => it.syntax_view(),
            AnyNode::ForInStmt(it) => it.syntax_view(),
            AnyNode::ForOfStmt(it) => it.syntax_view(),
            AnyNode::JsContinueStatement(it) => it.syntax_view(),
            AnyNode::JsBreakStatement(it) => it.syntax_view(),
            AnyNode::JsReturnStatement(it) => it.syntax_view(),
            AnyNode::JsWithStatement(it) => it.syntax_view(),
            AnyNode::JsLabeledStatement(it) => it.syntax_view(),
            AnyNode::JsSwitchStatement(it) => it.syntax_view(),
            AnyNode::JsThrowStatement(it) => it.syntax_view(),
            AnyNode::JsTryStatement(it) => it.syntax_view(),
            AnyNode::JsTryFinallyStatement(it) => it.syntax_view(),
            AnyNode::JsDebuggerStatement(it) => it.syntax_view(),
            AnyNode::JsFunctionDeclaration(it) => it.syntax_view(),
            AnyNode::JsClassDeclaration(it) => it.syntax_view(),
            AnyNode::JsVariableDeclarationStatement(it) => it.syntax_view(),
            AnyNode::TsEnum(it) => it.syntax_view(),
            AnyNode::TsTypeAliasDecl(it) => it.syntax_view(),
            AnyNode::TsNamespaceDecl(it) => it.syntax_view(),
            AnyNode::TsModuleDecl(it) => it.syntax_view(),
            AnyNode::TsInterfaceDecl(it) => it.syntax_view(),
            AnyNode::JsElseClause(it) => it.syntax_view(),
            AnyNode::ForStmtInit(it) => it.syntax_view(),
            AnyNode::ForStmtTest(it) => it.syntax_view(),
            AnyNode::ForStmtUpdate(it) => it.syntax_view(),
            AnyNode::JsVariableDeclaration(it) => it.syntax_view(),
            AnyNode::JsCaseClause(it) => it.syntax_view(),
            AnyNode::JsDefaultClause(it) => it.syntax_view(),
            AnyNode::JsCatchClause(it) => it.syntax_view(),
            AnyNode::JsFinallyClause(it) => it.syntax_view(),
            AnyNode::JsCatchDeclaration(it) => it.syntax_view(),
            AnyNode::JsArrayExpression(it) => it.syntax_view(),
            AnyNode::JsArrowFunctionExpression(it) => it.syntax_view(),
            AnyNode::JsAssignmentExpression(it) => it.syntax_view(),
            AnyNode::JsAwaitExpression(it) => it.syntax_view(),
            AnyNode::JsBinaryExpression(it) => it.syntax_view(),
            AnyNode::JsClassExpression(it) => it.syntax_view(),
            AnyNode::JsConditionalExpression(it) => it.syntax_view(),
            AnyNode::JsComputedMemberExpression(it) => it.syntax_view(),
            AnyNode::JsFunctionExpression(it) => it.syntax_view(),
            AnyNode::JsImportCallExpression(it) => it.syntax_view(),
            AnyNode::JsLogicalExpression(it) => it.syntax_view(),
            AnyNode::JsObjectExpression(it) => it.syntax_view(),
            AnyNode::JsParenthesizedExpression(it) => it.syntax_view(),
            AnyNode::JsIdentifierExpression(it) => it.syntax_view(),
            AnyNode::JsSequenceExpression(it) => it.syntax_view(),
            AnyNode::JsStaticMemberExpression(it) => it.syntax_view(),
            AnyNode::JsSuperExpression(it) => it.syntax_view(),
            AnyNode::JsThisExpression(it) => it.syntax_view(),
            AnyNode::JsUnaryExpression(it) => it.syntax_view(),
            AnyNode::JsPreUpdateExpression(it) => it.syntax_view(),
            AnyNode::JsPostUpdateExpression(it) => it.syntax_view(),
            AnyNode::JsYieldExpression(it) => it.syntax_view(),
            AnyNode::Template(it) => it.syntax_view(),
            AnyNode::NewExpr(it) => it.syntax_view(),
            AnyNode::CallExpr(it) => it.syntax_view(),
            AnyNode::NewTarget(it) => it.syntax_view(),
            AnyNode::ImportMeta(it) => it.syntax_view(),
            AnyNode::TsNonNull(it) => it.syntax_view(),
            AnyNode::TsAssertion(it) => it.syntax_view(),
            AnyNode::TsConstAssertion(it) => it.syntax_view(),
            AnyNode::TsTypeArgs(it) => it.syntax_view(),
            AnyNode::ArgList(it) => it.syntax_view(),
            AnyNode::TsTypeParams(it) => it.syntax_view(),
            AnyNode::JsParameterList(it) => it.syntax_view(),
            AnyNode::TsTypeAnnotation(it) => it.syntax_view(),
            AnyNode::JsFunctionBody(it) => it.syntax_view(),
            AnyNode::JsSpread(it) => it.syntax_view(),
            AnyNode::JsArrayHole(it) => it.syntax_view(),
            AnyNode::JsReferenceIdentifier(it) => it.syntax_view(),
            AnyNode::JsLiteralMemberName(it) => it.syntax_view(),
            AnyNode::JsComputedMemberName(it) => it.syntax_view(),
            AnyNode::JsPropertyObjectMember(it) => it.syntax_view(),
            AnyNode::JsMethodObjectMember(it) => it.syntax_view(),
            AnyNode::JsGetterObjectMember(it) => it.syntax_view(),
            AnyNode::JsSetterObjectMember(it) => it.syntax_view(),
            AnyNode::JsShorthandPropertyObjectMember(it) => it.syntax_view(),
            AnyNode::TsImplementsClause(it) => it.syntax_view(),
            AnyNode::JsExtendsClause(it) => it.syntax_view(),
            AnyNode::TsExprWithTypeArgs(it) => it.syntax_view(),
            AnyNode::JsPrivateClassMemberName(it) => it.syntax_view(),
            AnyNode::JsConstructorClassMember(it) => it.syntax_view(),
            AnyNode::JsPropertyClassMember(it) => it.syntax_view(),
            AnyNode::JsMethodClassMember(it) => it.syntax_view(),
            AnyNode::JsGetterClassMember(it) => it.syntax_view(),
            AnyNode::JsSetterClassMember(it) => it.syntax_view(),
            AnyNode::JsEmptyClassMember(it) => it.syntax_view(),
            AnyNode::TsIndexSignature(it) => it.syntax_view(),
            AnyNode::TsAccessibility(it) => it.syntax_view(),
            AnyNode::JsConstructorParameterList(it) => it.syntax_view(),
            AnyNode::TsConstructorParam(it) => it.syntax_view(),
            AnyNode::JsBindingPatternWithDefault(it) => it.syntax_view(),
            AnyNode::JsEqualValueClause(it) => it.syntax_view(),
            AnyNode::JsModifier(it) => it.syntax_view(),
            AnyNode::JsIdentifierAssignment(it) => it.syntax_view(),
            AnyNode::JsStaticMemberAssignment(it) => it.syntax_view(),
            AnyNode::JsComputedMemberAssignment(it) => it.syntax_view(),
            AnyNode::JsParenthesizedAssignment(it) => it.syntax_view(),
            AnyNode::JsAssignmentWithDefault(it) => it.syntax_view(),
            AnyNode::JsArrayAssignmentPattern(it) => it.syntax_view(),
            AnyNode::JsObjectAssignmentPattern(it) => it.syntax_view(),
            AnyNode::JsArrayAssignmentPatternRestElement(it) => it.syntax_view(),
            AnyNode::JsObjectAssignmentPatternShorthandProperty(it) => it.syntax_view(),
            AnyNode::JsObjectAssignmentPatternProperty(it) => it.syntax_view(),
            AnyNode::JsObjectAssignmentPatternRest(it) => it.syntax_view(),
            AnyNode::JsName(it) => it.syntax_view(),
            AnyNode::JsIdentifierBinding(it) => it.syntax_view(),
            AnyNode::JsArrayBindingPattern(it) => it.syntax_view(),
            AnyNode::JsObjectBindingPattern(it) => it.syntax_view(),
            AnyNode::JsArrayBindingPatternRestElement(it) => it.syntax_view(),
            AnyNode::JsObjectBindingPatternProperty(it) => it.syntax_view(),
            AnyNode::JsObjectBindingPatternRest(it) => it.syntax_view(),
            AnyNode::JsObjectBindingPatternShorthandProperty(it) => it.syntax_view(),
            AnyNode::JsStringLiteralExpression(it) => it.syntax_view(),
            AnyNode::JsNumberLiteralExpression(it) => it.syntax_view(),
            AnyNode::JsBigIntLiteralExpression(it) => it.syntax_view(),
            AnyNode::JsBooleanLiteralExpression(it) => it.syntax_view(),
            AnyNode::JsNullLiteralExpression(it) => it.syntax_view(),
            AnyNode::JsRegexLiteralExpression(it) => it.syntax_view(),
            AnyNode::JsVariableDeclarator(it) => it.syntax_view(),
            AnyNode::JsImport(it) => it.syntax_view(),
            AnyNode::ExportNamed(it) => it.syntax_view(),
            AnyNode::ExportDefaultDecl(it) => it.syntax_view(),
            AnyNode::ExportDefaultExpr(it) => it.syntax_view(),
            AnyNode::ExportWildcard(it) => it.syntax_view(),
            AnyNode::ExportDecl(it) => it.syntax_view(),
            AnyNode::TsImportEqualsDecl(it) => it.syntax_view(),
            AnyNode::TsExportAssignment(it) => it.syntax_view(),
            AnyNode::TsNamespaceExportDecl(it) => it.syntax_view(),
            AnyNode::JsImportBareClause(it) => it.syntax_view(),
            AnyNode::JsImportNamedClause(it) => it.syntax_view(),
            AnyNode::JsImportDefaultClause(it) => it.syntax_view(),
            AnyNode::JsImportNamespaceClause(it) => it.syntax_view(),
            AnyNode::JsModuleSource(it) => it.syntax_view(),
            AnyNode::JsImportAssertion(it) => it.syntax_view(),
            AnyNode::JsDefaultImportSpecifier(it) => it.syntax_view(),
            AnyNode::JsNamedImportSpecifierList(it) => it.syntax_view(),
            AnyNode::JsNamespaceImportSpecifier(it) => it.syntax_view(),
            AnyNode::JsShorthandNamedImportSpecifier(it) => it.syntax_view(),
            AnyNode::JsNamedImportSpecifier(it) => it.syntax_view(),
            AnyNode::JsLiteralExportName(it) => it.syntax_view(),
            AnyNode::JsImportAssertionEntry(it) => it.syntax_view(),
            AnyNode::Specifier(it) => it.syntax_view(),
            AnyNode::JsPrivateName(it) => it.syntax_view(),
            AnyNode::JsRestParameter(it) => it.syntax_view(),
            AnyNode::TsExternalModuleRef(it) => it.syntax_view(),
            AnyNode::TsAny(it) => it.syntax_view(),
            AnyNode::TsUnknown(it) => it.syntax_view(),
            AnyNode::TsNumber(it) => it.syntax_view(),
            AnyNode::TsObject(it) => it.syntax_view(),
            AnyNode::TsBoolean(it) => it.syntax_view(),
            AnyNode::TsBigint(it) => it.syntax_view(),
            AnyNode::TsString(it) => it.syntax_view(),
            AnyNode::TsSymbol(it) => it.syntax_view(),
            AnyNode::TsVoid(it) => it.syntax_view(),
            AnyNode::TsUndefined(it) => it.syntax_view(),
            AnyNode::TsNull(it) => it.syntax_view(),
            AnyNode::TsNever(it) => it.syntax_view(),
            AnyNode::TsThis(it) => it.syntax_view(),
            AnyNode::TsLiteral(it) => it.syntax_view(),
            AnyNode::TsPredicate(it) => it.syntax_view(),
            AnyNode::TsTuple(it) => it.syntax_view(),
            AnyNode::TsParen(it) => it.syntax_view(),
            AnyNode::TsTypeRef(it) => it.syntax_view(),
            AnyNode::TsTemplate(it) => it.syntax_view(),
            AnyNode::TsMappedType(it) => it.syntax_view(),
            AnyNode::TsImport(it) => it.syntax_view(),
            AnyNode::TsArray(it) => it.syntax_view(),
            AnyNode::TsIndexedArray(it) => it.syntax_view(),
            AnyNode::TsTypeOperator(it) => it.syntax_view(),
            AnyNode::TsIntersection(it) => it.syntax_view(),
            AnyNode::TsUnion(it) => it.syntax_view(),
            AnyNode::TsFnType(it) => it.syntax_view(),
            AnyNode::TsConstructorType(it) => it.syntax_view(),
            AnyNode::TsConditionalType(it) => it.syntax_view(),
            AnyNode::TsObjectType(it) => it.syntax_view(),
            AnyNode::TsInfer(it) => it.syntax_view(),
            AnyNode::TsTupleElement(it) => it.syntax_view(),
            AnyNode::TsEnumMember(it) => it.syntax_view(),
            AnyNode::TsTemplateElement(it) => it.syntax_view(),
            AnyNode::TsMappedTypeReadonly(it) => it.syntax_view(),
            AnyNode::TsMappedTypeParam(it) => it.syntax_view(),
            AnyNode::TsTypeName(it) => it.syntax_view(),
            AnyNode::TsExtends(it) => it.syntax_view(),
            AnyNode::TsModuleBlock(it) => it.syntax_view(),
            AnyNode::TsTypeParam(it) => it.syntax_view(),
            AnyNode::TsConstraint(it) => it.syntax_view(),
            AnyNode::TsDefault(it) => it.syntax_view(),
            AnyNode::TsCallSignatureDecl(it) => it.syntax_view(),
            AnyNode::TsConstructSignatureDecl(it) => it.syntax_view(),
            AnyNode::TsPropertySignature(it) => it.syntax_view(),
            AnyNode::TsMethodSignature(it) => it.syntax_view(),
            AnyNode::TsQualifiedPath(it) => it.syntax_view(),
        }
    }

    fn can_cast(kind: SyntaxKind) -> (r: bool) {
        matches!(
            kind,
            SyntaxKind::JS_UNKNOWN_STATEMENT
                | SyntaxKind::JS_UNKNOWN_EXPRESSION
                | SyntaxKind::JS_UNKNOWN_MEMBER
                | SyntaxKind::JS_UNKNOWN_BINDING
                | SyntaxKind::JS_UNKNOWN_ASSIGNMENT
                | SyntaxKind::JS_UNKNOWN_MODIFIER
                | SyntaxKind::JS_UNKNOWN_IMPORT_ASSERTION_ENTRY
                | SyntaxKind::JS_UNKNOWN_NAMED_IMPORT_SPECIFIER
                | SyntaxKind::LIST
                | SyntaxKind::IDENT
                | SyntaxKind::JS_SCRIPT
                | SyntaxKind::JS_MODULE
                | SyntaxKind::JS_DIRECTIVE
                | SyntaxKind::JS_BLOCK_STATEMENT
                | SyntaxKind::JS_EMPTY_STATEMENT
                | SyntaxKind::JS_EXPRESSION_STATEMENT
                | SyntaxKind::JS_IF_STATEMENT
                | SyntaxKind::JS_DO_WHILE_STATEMENT
                | SyntaxKind::JS_WHILE_STATEMENT
                | SyntaxKind::FOR_STMT
                | SyntaxKind::FOR_IN_STMT
                | SyntaxKind::FOR_OF_STMT
                | SyntaxKind::JS_CONTINUE_STATEMENT
                | SyntaxKind::JS_BREAK_STATEMENT
                | SyntaxKind::JS_RETURN_STATEMENT
                | SyntaxKind::JS_WITH_STATEMENT
                | SyntaxKind::JS_LABELED_STATEMENT
                | SyntaxKind::JS_SWITCH_STATEMENT
                | SyntaxKind::JS_THROW_STATEMENT
                | SyntaxKind::JS_TRY_STATEMENT
                | SyntaxKind::JS_TRY_FINALLY_STATEMENT
                | SyntaxKind::JS_DEBUGGER_STATEMENT
                | SyntaxKind::JS_FUNCTION_DECLARATION
                | SyntaxKind::JS_CLASS_DECLARATION
                | SyntaxKind::JS_VARIABLE_DECLARATION_STATEMENT
                | SyntaxKind::TS_ENUM
                | SyntaxKind::TS_TYPE_ALIAS_DECL
                | SyntaxKind::TS_NAMESPACE_DECL
                | SyntaxKind::TS_MODULE_DECL
                | SyntaxKind::TS_INTERFACE_DECL
                | SyntaxKind::JS_ELSE_CLAUSE
                | SyntaxKind::FOR_STMT_INIT
                | SyntaxKind::FOR_STMT_TEST
                | SyntaxKind::FOR_STMT_UPDATE
                | SyntaxKind::JS_VARIABLE_DECLARATION
                | SyntaxKind::JS_CASE_CLAUSE
                | SyntaxKind::JS_DEFAULT_CLAUSE
                | SyntaxKind::JS_CATCH_CLAUSE
                | SyntaxKind::JS_FINALLY_CLAUSE
                | SyntaxKind::JS_CATCH_DECLARATION
                | SyntaxKind::JS_ARRAY_EXPRESSION
                | SyntaxKind::JS_ARROW_FUNCTION_EXPRESSION
                | SyntaxKind::JS_ASSIGNMENT_EXPRESSION
                | SyntaxKind::JS_AWAIT_EXPRESSION
                | SyntaxKind::JS_BINARY_EXPRESSION
                | SyntaxKind::JS_CLASS_EXPRESSION
                | SyntaxKind::JS_CONDITIONAL_EXPRESSION
                | SyntaxKind::JS_COMPUTED_MEMBER_EXPRESSION
                | SyntaxKind::JS_FUNCTION_EXPRESSION
                | SyntaxKind::JS_IMPORT_CALL_EXPRESSION
                | SyntaxKind::JS_LOGICAL_EXPRESSION
                | SyntaxKind::JS_OBJECT_EXPRESSION
                | SyntaxKind::JS_PARENTHESIZED_EXPRESSION
                | SyntaxKind::JS_IDENTIFIER_EXPRESSION
                | SyntaxKind::JS_SEQUENCE_EXPRESSION
                | SyntaxKind::JS_STATIC_MEMBER_EXPRESSION
                | SyntaxKind::JS_SUPER_EXPRESSION
                | SyntaxKind::JS_THIS_EXPRESSION
                | SyntaxKind::JS_UNARY_EXPRESSION
                | SyntaxKind::JS_PRE_UPDATE_EXPRESSION
                | SyntaxKind::JS_POST_UPDATE_EXPRESSION
                | SyntaxKind::JS_YIELD_EXPRESSION
                | SyntaxKind::TEMPLATE
                | SyntaxKind::NEW_EXPR
                | SyntaxKind::CALL_EXPR
                | SyntaxKind::NEW_TARGET
                | SyntaxKind::IMPORT_META
                | SyntaxKind::TS_NON_NULL
                | SyntaxKind::TS_ASSERTION
                | SyntaxKind::TS_CONST_ASSERTION
                | SyntaxKind::TS_TYPE_ARGS
                | SyntaxKind::ARG_LIST
                | SyntaxKind::TS_TYPE_PARAMS
                | SyntaxKind::JS_PARAMETER_LIST
                | SyntaxKind::TS_TYPE_ANNOTATION
                | SyntaxKind::JS_FUNCTION_BODY
                | SyntaxKind::JS_SPREAD
                | SyntaxKind::JS_ARRAY_HOLE
                | SyntaxKind::JS_REFERENCE_IDENTIFIER
                | SyntaxKind::JS_LITERAL_MEMBER_NAME
                | SyntaxKind::JS_COMPUTED_MEMBER_NAME
                | SyntaxKind::JS_PROPERTY_OBJECT_MEMBER
                | SyntaxKind::JS_METHOD_OBJECT_MEMBER
                | SyntaxKind::JS_GETTER_OBJECT_MEMBER
                | SyntaxKind::JS_SETTER_OBJECT_MEMBER
                | SyntaxKind::JS_SHORTHAND_PROPERTY_OBJECT_MEMBER
                | SyntaxKind::TS_IMPLEMENTS_CLAUSE
                | SyntaxKind::JS_EXTENDS_CLAUSE
                | SyntaxKind::TS_EXPR_WITH_TYPE_ARGS
                | SyntaxKind::JS_PRIVATE_CLASS_MEMBER_NAME
                | SyntaxKind::JS_CONSTRUCTOR_CLASS_MEMBER
                | SyntaxKind::JS_PROPERTY_CLASS_MEMBER
                | SyntaxKind::JS_METHOD_CLASS_MEMBER
                | SyntaxKind::JS_GETTER_CLASS_MEMBER
                | SyntaxKind::JS_SETTER_CLASS_MEMBER
                | SyntaxKind::JS_EMPTY_CLASS_MEMBER
                | SyntaxKind::TS_INDEX_SIGNATURE
                | SyntaxKind::TS_ACCESSIBILITY
                | SyntaxKind::JS_CONSTRUCTOR_PARAMETER_LIST
                | SyntaxKind::TS_CONSTRUCTOR_PARAM
                | SyntaxKind::JS_BINDING_PATTERN_WITH_DEFAULT
                | SyntaxKind::JS_EQUAL_VALUE_CLAUSE
                | SyntaxKind::JS_MODIFIER
                | SyntaxKind::JS_IDENTIFIER_ASSIGNMENT
                | SyntaxKind::JS_STATIC_MEMBER_ASSIGNMENT
                | SyntaxKind::JS_COMPUTED_MEMBER_ASSIGNMENT
                | SyntaxKind::JS_PARENTHESIZED_ASSIGNMENT
                | SyntaxKind::JS_ASSIGNMENT_WITH_DEFAULT
                | SyntaxKind::JS_ARRAY_ASSIGNMENT_PATTERN
                | SyntaxKind::JS_OBJECT_ASSIGNMENT_PATTERN
                | SyntaxKind::JS_ARRAY_ASSIGNMENT_PATTERN_REST_ELEMENT
                | SyntaxKind::JS_OBJECT_ASSIGNMENT_PATTERN_SHORTHAND_PROPERTY
                | SyntaxKind::JS_OBJECT_ASSIGNMENT_PATTERN_PROPERTY
                | SyntaxKind::JS_OBJECT_ASSIGNMENT_PATTERN_REST
                | SyntaxKind::JS_NAME
                | SyntaxKind::JS_IDENTIFIER_BINDING
                | SyntaxKind::JS_ARRAY_BINDING_PATTERN
                | SyntaxKind::JS_OBJECT_BINDING_PATTERN
                | SyntaxKind::JS_ARRAY_BINDING_PATTERN_REST_ELEMENT
                | SyntaxKind::JS_OBJECT_BINDING_PATTERN_PROPERTY
                | SyntaxKind::JS_OBJECT_BINDING_PATTERN_REST
                | SyntaxKind::JS_OBJECT_BINDING_PATTERN_SHORTHAND_PROPERTY
                | SyntaxKind::JS_STRING_LITERAL_EXPRESSION
                | SyntaxKind::JS_NUMBER_LITERAL_EXPRESSION
                | SyntaxKind::JS_BIG_INT_LITERAL_EXPRESSION
                | SyntaxKind::JS_BOOLEAN_LITERAL_EXPRESSION
                | SyntaxKind::JS_NULL_LITERAL_EXPRESSION
                | SyntaxKind::JS_REGEX_LITERAL_EXPRESSION
                | SyntaxKind::JS_VARIABLE_DECLARATOR
                | SyntaxKind::JS_IMPORT
                | SyntaxKind::EXPORT_NAMED
                | SyntaxKind::EXPORT_DEFAULT_DECL
                | SyntaxKind::EXPORT_DEFAULT_EXPR
                | SyntaxKind::EXPORT_WILDCARD
                | SyntaxKind::EXPORT_DECL
                | SyntaxKind::TS_IMPORT_EQUALS_DECL
                | SyntaxKind::TS_EXPORT_ASSIGNMENT
                | SyntaxKind::TS_NAMESPACE_EXPORT_DECL
                | SyntaxKind::JS_IMPORT_BARE_CLAUSE
                | SyntaxKind::JS_IMPORT_NAMED_CLAUSE
                | SyntaxKind::JS_IMPORT_DEFAULT_CLAUSE
                | SyntaxKind::JS_IMPORT_NAMESPACE_CLAUSE
                | SyntaxKind::JS_MODULE_SOURCE
                | SyntaxKind::JS_IMPORT_ASSERTION
                | SyntaxKind::JS_DEFAULT_IMPORT_SPECIFIER
                | SyntaxKind::JS_NAMED_IMPORT_SPECIFIER_LIST
                | SyntaxKind::JS_NAMESPACE_IMPORT_SPECIFIER
                | SyntaxKind::JS_SHORTHAND_NAMED_IMPORT_SPECIFIER
                | SyntaxKind::JS_NAMED_IMPORT_SPECIFIER
                | SyntaxKind::JS_LITERAL_EXPORT_NAME
                | SyntaxKind::JS_IMPORT_ASSERTION_ENTRY
                | SyntaxKind::SPECIFIER
                | SyntaxKind::JS_PRIVATE_NAME
                | SyntaxKind::JS_REST_PARAMETER
                | SyntaxKind::TS_EXTERNAL_MODULE_REF
                | SyntaxKind::TS_ANY
                | SyntaxKind::TS_UNKNOWN
                | SyntaxKind::TS_NUMBER
                | SyntaxKind::TS_OBJECT
                | SyntaxKind::TS_BOOLEAN
                | SyntaxKind::TS_BIGINT
                | SyntaxKind::TS_STRING
                | SyntaxKind::TS_SYMBOL
                | SyntaxKind::TS_VOID
                | SyntaxKind::TS_UNDEFINED
                | SyntaxKind::TS_NULL
                | SyntaxKind::TS_NEVER
                | SyntaxKind::TS_THIS
                | SyntaxKind::TS_LITERAL
                | SyntaxKind::TS_PREDICATE
                | SyntaxKind::TS_TUPLE
                | SyntaxKind::TS_PAREN
                | SyntaxKind::TS_TYPE_REF
                | SyntaxKind::TS_TEMPLATE
                | SyntaxKind::TS_MAPPED_TYPE
                | SyntaxKind::TS_IMPORT
                | SyntaxKind::TS_ARRAY
                | SyntaxKind::TS_INDEXED_ARRAY
                | SyntaxKind::TS_TYPE_OPERATOR
                | SyntaxKind::TS_INTERSECTION
                | SyntaxKind::TS_UNION
                | SyntaxKind::TS_FN_TYPE
                | SyntaxKind::TS_CONSTRUCTOR_TYPE
                | SyntaxKind::TS_CONDITIONAL_TYPE
                | SyntaxKind::TS_OBJECT_TYPE
                | SyntaxKind::TS_INFER
                | SyntaxKind::TS_TUPLE_ELEMENT
                | SyntaxKind::TS_ENUM_MEMBER
                | SyntaxKind::TS_TEMPLATE_ELEMENT
                | SyntaxKind::TS_MAPPED_TYPE_READONLY
                | SyntaxKind::TS_MAPPED_TYPE_PARAM
                | SyntaxKind::TS_TYPE_NAME
                | SyntaxKind::TS_EXTENDS
                | SyntaxKind::TS_MODULE_BLOCK
                | SyntaxKind::TS_TYPE_PARAM
                | SyntaxKind::TS_CONSTRAINT
                | SyntaxKind::TS_DEFAULT
                | SyntaxKind::TS_CALL_SIGNATURE_DECL
                | SyntaxKind::TS_CONSTRUCT_SIGNATURE_DECL
                | SyntaxKind::TS_PROPERTY_SIGNATURE
                | SyntaxKind::TS_METHOD_SIGNATURE
                | SyntaxKind::TS_QUALIFIED_PATH
        )
    }

    fn cast(syntax: SyntaxNode<'a>) -> (r: Option<Self>) {
        match syntax.kind() {
            SyntaxKind::JS_UNKNOWN_STATEMENT => Some(AnyNode::JsUnknownStatement(JsUnknownStatement { syntax })),
            SyntaxKind::JS_UNKNOWN_EXPRESSION => Some(AnyNode::JsUnknownExpression(JsUnknownExpression { syntax })),
            SyntaxKind::JS_UNKNOWN_MEMBER => Some(AnyNode::JsUnknownMember(JsUnknownMember { syntax })),
            SyntaxKind::JS_UNKNOWN_BINDING => Some(AnyNode::JsUnknownBinding(JsUnknownBinding { syntax })),
            SyntaxKind::JS_UNKNOWN_ASSIGNMENT => Some(AnyNode::JsUnknownAssignment(JsUnknownAssignment { syntax })),
            SyntaxKind::JS_UNKNOWN_MODIFIER => Some(AnyNode::JsUnknownModifier(JsUnknownModifier { syntax })),
            SyntaxKind::JS_UNKNOWN_IMPORT_ASSERTION_ENTRY => Some(AnyNode::JsUnknownImportAssertionEntry(JsUnknownImportAssertionEntry { syntax })),
            SyntaxKind::JS_UNKNOWN_NAMED_IMPORT_SPECIFIER => Some(AnyNode::JsUnknownNamedImportSpecifier(JsUnknownNamedImportSpecifier { syntax })),
            SyntaxKind::LIST => Some(AnyNode::List(List { syntax })),
            SyntaxKind::IDENT => Some(AnyNode::Ident(Ident { syntax })),
            SyntaxKind::JS_SCRIPT => Some(AnyNode::JsScript(JsScript { syntax })),
            SyntaxKind::JS_MODULE => Some(AnyNode::JsModule(JsModule { syntax })),
            SyntaxKind::JS_DIRECTIVE => Some(AnyNode::JsDirective(JsDirective { syntax })),
            SyntaxKind::JS_BLOCK_STATEMENT => Some(AnyNode::JsBlockStatement(JsBlockStatement { syntax })),
            SyntaxKind::JS_EMPTY_STATEMENT => Some(AnyNode::JsEmptyStatement(JsEmptyStatement { syntax })),
            SyntaxKind::JS_EXPRESSION_STATEMENT => Some(AnyNode::JsExpressionStatement(JsExpressionStatement { syntax })),
            SyntaxKind::JS_IF_STATEMENT => Some(AnyNode::JsIfStatement(JsIfStatement { syntax })),
            SyntaxKind::JS_DO_WHILE_STATEMENT => Some(AnyNode::JsDoWhileStatement(JsDoWhileStatement { syntax })),
            SyntaxKind::JS_WHILE_STATEMENT => Some(AnyNode::JsWhileStatement(JsWhileStatement { syntax })),
            SyntaxKind::FOR_STMT => Some(AnyNode::ForStmt(ForStmt { syntax })),
            SyntaxKind::FOR_IN_STMT => Some(AnyNode::ForInStmt(ForInStmt { syntax })),
            SyntaxKind::FOR_OF_STMT => Some(AnyNode::ForOfStmt(ForOfStmt { syntax })),
            SyntaxKind::JS_CONTINUE_STATEMENT => Some(AnyNode::JsContinueStatement(JsContinueStatement { syntax })),
            SyntaxKind::JS_BREAK_STATEMENT => Some(AnyNode::JsBreakStatement(JsBreakStatement { syntax })),
            SyntaxKind::JS_RETURN_STATEMENT => Some(AnyNode::JsReturnStatement(JsReturnStatement { syntax })),
            SyntaxKind::JS_WITH_STATEMENT => Some(AnyNode::JsWithStatement(JsWithStatement { syntax })),
            SyntaxKind::JS_LABELED_STATEMENT => Some(AnyNode::JsLabeledStatement(JsLabeledStatement { syntax })),
            SyntaxKind::JS_SWITCH_STATEMENT => Some(AnyNode::JsSwitchStatement(JsSwitchStatement { syntax })),
            SyntaxKind::JS_THROW_STATEMENT => Some(AnyNode::JsThrowStatement(JsThrowStatement { syntax })),
            SyntaxKind::JS_TRY_STATEMENT => Some(AnyNode::JsTryStatement(JsTryStatement { syntax })),
            SyntaxKind::JS_TRY_FINALLY_STATEMENT => Some(AnyNode::JsTryFinallyStatement(JsTryFinallyStatement { syntax })),
            SyntaxKind::JS_DEBUGGER_STATEMENT => Some(AnyNode::JsDebuggerStatement(JsDebuggerStatement { syntax })),
            SyntaxKind::JS_FUNCTION_DECLARATION => Some(AnyNode::JsFunctionDeclaration(JsFunctionDeclaration { syntax })),
            SyntaxKind::JS_CLASS_DECLARATION => Some(AnyNode::JsClassDeclaration(JsClassDeclaration { syntax })),
            SyntaxKind::JS_VARIABLE_DECLARATION_STATEMENT => Some(AnyNode::JsVariableDeclarationStatement(JsVariableDeclarationStatement { syntax })),
            SyntaxKind::TS_ENUM => Some(AnyNode::TsEnum(TsEnum { syntax })),
            SyntaxKind::TS_TYPE_ALIAS_DECL => Some(AnyNode::TsTypeAliasDecl(TsTypeAliasDecl { syntax })),
            SyntaxKind::TS_NAMESPACE_DECL => Some(AnyNode::TsNamespaceDecl(TsNamespaceDecl { syntax })),
            SyntaxKind::TS_MODULE_DECL => Some(AnyNode::TsModuleDecl(TsModuleDecl { syntax })),
            SyntaxKind::TS_INTERFACE_DECL => Some(AnyNode::TsInterfaceDecl(TsInterfaceDecl { syntax })),
            SyntaxKind::JS_ELSE_CLAUSE => Some(AnyNode::JsElseClause(JsElseClause { syntax })),
            SyntaxKind::FOR_STMT_INIT => Some(AnyNode::ForStmtInit(ForStmtInit { syntax })),
            SyntaxKind::FOR_STMT_TEST => Some(AnyNode::ForStmtTest(ForStmtTest { syntax })),
            SyntaxKind::FOR_STMT_UPDATE => Some(AnyNode::ForStmtUpdate(ForStmtUpdate { syntax })),
            SyntaxKind::JS_VARIABLE_DECLARATION => Some(AnyNode::JsVariableDeclaration(JsVariableDeclaration { syntax })),
            SyntaxKind::JS_CASE_CLAUSE => Some(AnyNode::JsCaseClause(JsCaseClause { syntax })),
            SyntaxKind::JS_DEFAULT_CLAUSE => Some(AnyNode::JsDefaultClause(JsDefaultClause { syntax })),
            SyntaxKind::JS_CATCH_CLAUSE => Some(AnyNode::JsCatchClause(JsCatchClause { syntax })),
            SyntaxKind::JS_FINALLY_CLAUSE => Some(AnyNode::JsFinallyClause(JsFinallyClause { syntax })),
            SyntaxKind::JS_CATCH_DECLARATION => Some(AnyNode::JsCatchDeclaration(JsCatchDeclaration { syntax })),
            SyntaxKind::JS_ARRAY_EXPRESSION => Some(AnyNode::JsArrayExpression(JsArrayExpression { syntax })),
            SyntaxKind::JS_ARROW_FUNCTION_EXPRESSION => Some(AnyNode::JsArrowFunctionExpression(JsArrowFunctionExpression { syntax })),
            SyntaxKind::JS_ASSIGNMENT_EXPRESSION => Some(AnyNode::JsAssignmentExpression(JsAssignmentExpression { syntax })),
            SyntaxKind::JS_AWAIT_EXPRESSION => Some(AnyNode::JsAwaitExpression(JsAwaitExpression { syntax })),
            SyntaxKind::JS_BINARY_EXPRESSION => Some(AnyNode::JsBinaryExpression(JsBinaryExpression { syntax })),
            SyntaxKind::JS_CLASS_EXPRESSION => Some(AnyNode::JsClassExpression(JsClassExpression { syntax })),
            SyntaxKind::JS_CONDITIONAL_EXPRESSION => Some(AnyNode::JsConditionalExpression(JsConditionalExpression { syntax })),
            SyntaxKind::JS_COMPUTED_MEMBER_EXPRESSION => Some(AnyNode::JsComputedMemberExpression(JsComputedMemberExpression { syntax })),
            SyntaxKind::JS_FUNCTION_EXPRESSION => Some(AnyNode::JsFunctionExpression(JsFunctionExpression { syntax })),
            SyntaxKind::JS_IMPORT_CALL_EXPRESSION => Some(AnyNode::JsImportCallExpression(JsImportCallExpression { syntax })),
            SyntaxKind::JS_LOGICAL_EXPRESSION => Some(AnyNode::JsLogicalExpression(JsLogicalExpression { syntax })),
            SyntaxKind::JS_OBJECT_EXPRESSION => Some(AnyNode::JsObjectExpression(JsObjectExpression { syntax })),
            SyntaxKind::JS_PARENTHESIZED_EXPRESSION => Some(AnyNode::JsParenthesizedExpression(JsParenthesizedExpression { syntax })),
            SyntaxKind::JS_IDENTIFIER_EXPRESSION => Some(AnyNode::JsIdentifierExpression(JsIdentifierExpression { syntax })),
            SyntaxKind::JS_SEQUENCE_EXPRESSION => Some(AnyNode::JsSequenceExpression(JsSequenceExpression { syntax })),
            SyntaxKind::JS_STATIC_MEMBER_EXPRESSION => Some(AnyNode::JsStaticMemberExpression(JsStaticMemberExpression { syntax })),
            SyntaxKind::JS_SUPER_EXPRESSION => Some(AnyNode::JsSuperExpression(JsSuperExpression { syntax })),
            SyntaxKind::JS_THIS_EXPRESSION => Some(AnyNode::JsThisExpression(JsThisExpression { syntax })),
            SyntaxKind::JS_UNARY_EXPRESSION => Some(AnyNode::JsUnaryExpression(JsUnaryExpression { syntax })),
            SyntaxKind::JS_PRE_UPDATE_EXPRESSION => Some(AnyNode::JsPreUpdateExpression(JsPreUpdateExpression { syntax })),
            SyntaxKind::JS_POST_UPDATE_EXPRESSION => Some(AnyNode::JsPostUpdateExpression(JsPostUpdateExpression { syntax })),
            SyntaxKind::JS_YIELD_EXPRESSION => Some(AnyNode::JsYieldExpression(JsYieldExpression { syntax })),
            SyntaxKind::TEMPLATE => Some(AnyNode::Template(Template { syntax })),
            SyntaxKind::NEW_EXPR => Some(AnyNode::NewExpr(NewExpr { syntax })),
            SyntaxKind::CALL_EXPR => Some(AnyNode::CallExpr(CallExpr { syntax })),
            SyntaxKind::NEW_TARGET => Some(AnyNode::NewTarget(NewTarget { syntax })),
            SyntaxKind::IMPORT_META => Some(AnyNode::ImportMeta(ImportMeta { syntax })),
            SyntaxKind::TS_NON_NULL => Some(AnyNode::TsNonNull(TsNonNull { syntax })),
            SyntaxKind::TS_ASSERTION => Some(AnyNode::TsAssertion(TsAssertion { syntax })),
            SyntaxKind::TS_CONST_ASSERTION => Some(AnyNode::TsConstAssertion(TsConstAssertion { syntax })),
            SyntaxKind::TS_TYPE_ARGS => Some(AnyNode::TsTypeArgs(TsTypeArgs { syntax })),
            SyntaxKind::ARG_LIST => Some(AnyNode::ArgList(ArgList { syntax })),
            SyntaxKind::TS_TYPE_PARAMS => Some(AnyNode::TsTypeParams(TsTypeParams { syntax })),
            SyntaxKind::JS_PARAMETER_LIST => Some(AnyNode::JsParameterList(JsParameterList { syntax })),
            SyntaxKind::TS_TYPE_ANNOTATION => Some(AnyNode::TsTypeAnnotation(TsTypeAnnotation { syntax })),
            SyntaxKind::JS_FUNCTION_BODY => Some(AnyNode::JsFunctionBody(JsFunctionBody { syntax })),
            SyntaxKind::JS_SPREAD => Some(AnyNode::JsSpread(JsSpread { syntax })),
            SyntaxKind::JS_ARRAY_HOLE => Some(AnyNode::JsArrayHole(JsArrayHole { syntax })),
            SyntaxKind::JS_REFERENCE_IDENTIFIER => Some(AnyNode::JsReferenceIdentifier(JsReferenceIdentifier { syntax })),
            SyntaxKind::JS_LITERAL_MEMBER_NAME => Some(AnyNode::JsLiteralMemberName(JsLiteralMemberName { syntax })),
            SyntaxKind::JS_COMPUTED_MEMBER_NAME => Some(AnyNode::JsComputedMemberName(JsComputedMemberName { syntax })),
            SyntaxKind::JS_PROPERTY_OBJECT_MEMBER => Some(AnyNode::JsPropertyObjectMember(JsPropertyObjectMember { syntax })),
            SyntaxKind::JS_METHOD_OBJECT_MEMBER => Some(AnyNode::JsMethodObjectMember(JsMethodObjectMember { syntax })),
            SyntaxKind::JS_GETTER_OBJECT_MEMBER => Some(AnyNode::JsGetterObjectMember(JsGetterObjectMember { syntax })),
            SyntaxKind::JS_SETTER_OBJECT_MEMBER => Some(AnyNode::JsSetterObjectMember(JsSetterObjectMember { syntax })),
            SyntaxKind::JS_SHORTHAND_PROPERTY_OBJECT_MEMBER => Some(AnyNode::JsShorthandPropertyObjectMember(JsShorthandPropertyObjectMember { syntax })),
            SyntaxKind::TS_IMPLEMENTS_CLAUSE => Some(AnyNode::TsImplementsClause(TsImplementsClause { syntax })),
            SyntaxKind::JS_EXTENDS_CLAUSE => Some(AnyNode::JsExtendsClause(JsExtendsClause { syntax })),
            SyntaxKind::TS_EXPR_WITH_TYPE_ARGS => Some(AnyNode::TsExprWithTypeArgs(TsExprWithTypeArgs { syntax })),
            SyntaxKind::JS_PRIVATE_CLASS_MEMBER_NAME => Some(AnyNode::JsPrivateClassMemberName(JsPrivateClassMemberName { syntax })),
            SyntaxKind::JS_CONSTRUCTOR_CLASS_MEMBER => Some(AnyNode::JsConstructorClassMember(JsConstructorClassMember { syntax })),
            SyntaxKind::JS_PROPERTY_CLASS_MEMBER => Some(AnyNode::JsPropertyClassMember(JsPropertyClassMember { syntax })),
            SyntaxKind::JS_METHOD_CLASS_MEMBER => Some(AnyNode::JsMethodClassMember(JsMethodClassMember { syntax })),
            SyntaxKind::JS_GETTER_CLASS_MEMBER => Some(AnyNode::JsGetterClassMember(JsGetterClassMember { syntax })),
            SyntaxKind::JS_SETTER_CLASS_MEMBER => Some(AnyNode::JsSetterClassMember(JsSetterClassMember { syntax })),
            SyntaxKind::JS_EMPTY_CLASS_MEMBER => Some(AnyNode::JsEmptyClassMember(JsEmptyClassMember { syntax })),
            SyntaxKind::TS_INDEX_SIGNATURE => Some(AnyNode::TsIndexSignature(TsIndexSignature { syntax })),
            SyntaxKind::TS_ACCESSIBILITY => Some(AnyNode::TsAccessibility(TsAccessibility { syntax })),
            SyntaxKind::JS_CONSTRUCTOR_PARAMETER_LIST => Some(AnyNode::JsConstructorParameterList(JsConstructorParameterList { syntax })),
            SyntaxKind::TS_CONSTRUCTOR_PARAM => Some(AnyNode::TsConstructorParam(TsConstructorParam { syntax })),
            SyntaxKind::JS_BINDING_PATTERN_WITH_DEFAULT => Some(AnyNode::JsBindingPatternWithDefault(JsBindingPatternWithDefault { syntax })),
            SyntaxKind::JS_EQUAL_VALUE_CLAUSE => Some(AnyNode::JsEqualValueClause(JsEqualValueClause { syntax })),
            SyntaxKind::JS_MODIFIER => Some(AnyNode::JsModifier(JsModifier { syntax })),
            SyntaxKind::JS_IDENTIFIER_ASSIGNMENT => Some(AnyNode::JsIdentifierAssignment(JsIdentifierAssignment { syntax })),
            SyntaxKind::JS_STATIC_MEMBER_ASSIGNMENT => Some(AnyNode::JsStaticMemberAssignment(JsStaticMemberAssignment { syntax })),
            SyntaxKind::JS_COMPUTED_MEMBER_ASSIGNMENT => Some(AnyNode::JsComputedMemberAssignment(JsComputedMemberAssignment { syntax })),
            SyntaxKind::JS_PARENTHESIZED_ASSIGNMENT => Some(AnyNode::JsParenthesizedAssignment(JsParenthesizedAssignment { syntax })),
            SyntaxKind::JS_ASSIGNMENT_WITH_DEFAULT => Some(AnyNode::JsAssignmentWithDefault(JsAssignmentWithDefault { syntax })),
            SyntaxKind::JS_ARRAY_ASSIGNMENT_PATTERN => Some(AnyNode::JsArrayAssignmentPattern(JsArrayAssignmentPattern { syntax })),
            SyntaxKind::JS_OBJECT_ASSIGNMENT_PATTERN => Some(AnyNode::JsObjectAssignmentPattern(JsObjectAssignmentPattern { syntax })),
            SyntaxKind::JS_ARRAY_ASSIGNMENT_PATTERN_REST_ELEMENT => Some(AnyNode::JsArrayAssignmentPatternRestElement(JsArrayAssignmentPatternRestElement { syntax })),
            SyntaxKind::JS_OBJECT_ASSIGNMENT_PATTERN_SHORTHAND_PROPERTY => Some(AnyNode::JsObjectAssignmentPatternShorthandProperty(JsObjectAssignmentPatternShorthandProperty { syntax })),
            SyntaxKind::JS_OBJECT_ASSIGNMENT_PATTERN_PROPERTY => Some(AnyNode::JsObjectAssignmentPatternProperty(JsObjectAssignmentPatternProperty { syntax })),
            SyntaxKind::JS_OBJECT_ASSIGNMENT_PATTERN_REST => Some(AnyNode::JsObjectAssignmentPatternRest(JsObjectAssignmentPatternRest { syntax })),
            SyntaxKind::JS_NAME => Some(AnyNode::JsName(JsName { syntax })),
            SyntaxKind::JS_IDENTIFIER_BINDING => Some(AnyNode::JsIdentifierBinding(JsIdentifierBinding { syntax })),
            SyntaxKind::JS_ARRAY_BINDING_PATTERN => Some(AnyNode::JsArrayBindingPattern(JsArrayBindingPattern { syntax })),
            SyntaxKind::JS_OBJECT_BINDING_PATTERN => Some(AnyNode::JsObjectBindingPattern(JsObjectBindingPattern { syntax })),
            SyntaxKind::JS_ARRAY_BINDING_PATTERN_REST_ELEMENT => Some(AnyNode::JsArrayBindingPatternRestElement(JsArrayBindingPatternRestElement { syntax })),
            SyntaxKind::JS_OBJECT_BINDING_PATTERN_PROPERTY => Some(AnyNode::JsObjectBindingPatternProperty(JsObjectBindingPatternProperty { syntax })),
            SyntaxKind::JS_OBJECT_BINDING_PATTERN_REST => Some(AnyNode::JsObjectBindingPatternRest(JsObjectBindingPatternRest { syntax })),
            SyntaxKind::JS_OBJECT_BINDING_PATTERN_SHORTHAND_PROPERTY => Some(AnyNode::JsObjectBindingPatternShorthandProperty(JsObjectBindingPatternShorthandProperty { syntax })),
            SyntaxKind::JS_STRING_LITERAL_EXPRESSION => Some(AnyNode::JsStringLiteralExpression(JsStringLiteralExpression { syntax })),
            SyntaxKind::JS_NUMBER_LITERAL_EXPRESSION => Some(AnyNode::JsNumberLiteralExpression(JsNumberLiteralExpression { syntax })),
            SyntaxKind::JS_BIG_INT_LITERAL_EXPRESSION => Some(AnyNode::JsBigIntLiteralExpression(JsBigIntLiteralExpression { syntax })),
            SyntaxKind::JS_BOOLEAN_LITERAL_EXPRESSION => Some(AnyNode::JsBooleanLiteralExpression(JsBooleanLiteralExpression { syntax })),
            SyntaxKind::JS_NULL_LITERAL_EXPRESSION => Some(AnyNode::JsNullLiteralExpression(JsNullLiteralExpression { syntax })),
            SyntaxKind::JS_REGEX_LITERAL_EXPRESSION => Some(AnyNode::JsRegexLiteralExpression(JsRegexLiteralExpression { syntax })),
            SyntaxKind::JS_VARIABLE_DECLARATOR => Some(AnyNode::JsVariableDeclarator(JsVariableDeclarator { syntax })),
            SyntaxKind::JS_IMPORT => Some(AnyNode::JsImport(JsImport { syntax })),
            SyntaxKind::EXPORT_NAMED => Some(AnyNode::ExportNamed(ExportNamed { syntax })),
            SyntaxKind::EXPORT_DEFAULT_DECL => Some(AnyNode::ExportDefaultDecl(ExportDefaultDecl { syntax })),
            SyntaxKind::EXPORT_DEFAULT_EXPR => Some(AnyNode::ExportDefaultExpr(ExportDefaultExpr { syntax })),
            SyntaxKind::EXPORT_WILDCARD => Some(AnyNode::ExportWildcard(ExportWildcard { syntax })),
            SyntaxKind::EXPORT_DECL => Some(AnyNode::ExportDecl(ExportDecl { syntax })),
            SyntaxKind::TS_IMPORT_EQUALS_DECL => Some(AnyNode::TsImportEqualsDecl(TsImportEqualsDecl { syntax })),
            SyntaxKind::TS_EXPORT_ASSIGNMENT => Some(AnyNode::TsExportAssignment(TsExportAssignment { syntax })),
            SyntaxKind::TS_NAMESPACE_EXPORT_DECL => Some(AnyNode::TsNamespaceExportDecl(TsNamespaceExportDecl { syntax })),
            SyntaxKind::JS_IMPORT_BARE_CLAUSE => Some(AnyNode::JsImportBareClause(JsImportBareClause { syntax })),
            SyntaxKind::JS_IMPORT_NAMED_CLAUSE => Some(AnyNode::JsImportNamedClause(JsImportNamedClause { syntax })),
            SyntaxKind::JS_IMPORT_DEFAULT_CLAUSE => Some(AnyNode::JsImportDefaultClause(JsImportDefaultClause { syntax })),
            SyntaxKind::JS_IMPORT_NAMESPACE_CLAUSE => Some(AnyNode::JsImportNamespaceClause(JsImportNamespaceClause { syntax })),
            SyntaxKind::JS_MODULE_SOURCE => Some(AnyNode::JsModuleSource(JsModuleSource { syntax })),
            SyntaxKind::JS_IMPORT_ASSERTION => Some(AnyNode::JsImportAssertion(JsImportAssertion { syntax })),
            SyntaxKind::JS_DEFAULT_IMPORT_SPECIFIER => Some(AnyNode::JsDefaultImportSpecifier(JsDefaultImportSpecifier { syntax })),
            SyntaxKind::JS_NAMED_IMPORT_SPECIFIER_LIST => Some(AnyNode::JsNamedImportSpecifierList(JsNamedImportSpecifierList { syntax })),
            SyntaxKind::JS_NAMESPACE_IMPORT_SPECIFIER => Some(AnyNode::JsNamespaceImportSpecifier(JsNamespaceImportSpecifier { syntax })),
            SyntaxKind::JS_SHORTHAND_NAMED_IMPORT_SPECIFIER => Some(AnyNode::JsShorthandNamedImportSpecifier(JsShorthandNamedImportSpecifier { syntax })),
            SyntaxKind::JS_NAMED_IMPORT_SPECIFIER => Some(AnyNode::JsNamedImportSpecifier(JsNamedImportSpecifier { syntax })),
            SyntaxKind::JS_LITERAL_EXPORT_NAME => Some(AnyNode::JsLiteralExportName(JsLiteralExportName { syntax })),
            SyntaxKind::JS_IMPORT_ASSERTION_ENTRY => Some(AnyNode::JsImportAssertionEntry(JsImportAssertionEntry { syntax })),
            SyntaxKind::SPECIFIER => Some(AnyNode::Specifier(Specifier { syntax })),
            SyntaxKind::JS_PRIVATE_NAME => Some(AnyNode::JsPrivateName(JsPrivateName { syntax })),
            SyntaxKind::JS_REST_PARAMETER => Some(AnyNode::JsRestParameter(JsRestParameter { syntax })),
            SyntaxKind::TS_EXTERNAL_MODULE_REF => Some(AnyNode::TsExternalModuleRef(TsExternalModuleRef { syntax })),
            SyntaxKind::TS_ANY => Some(AnyNode::TsAny(TsAny { syntax })),
            SyntaxKind::TS_UNKNOWN => Some(AnyNode::TsUnknown(TsUnknown { syntax })),
            SyntaxKind::TS_NUMBER => Some(AnyNode::TsNumber(TsNumber { syntax })),
            SyntaxKind::TS_OBJECT => Some(AnyNode::TsObject(TsObject { syntax })),
            SyntaxKind::TS_BOOLEAN => Some(AnyNode::TsBoolean(TsBoolean { syntax })),
            SyntaxKind::TS_BIGINT => Some(AnyNode::TsBigint(TsBigint { syntax })),
            SyntaxKind::TS_STRING => Some(AnyNode::TsString(TsString { syntax })),
            SyntaxKind::TS_SYMBOL => Some(AnyNode::TsSymbol(TsSymbol { syntax })),
            SyntaxKind::TS_VOID => Some(AnyNode::TsVoid(TsVoid { syntax })),
            SyntaxKind::TS_UNDEFINED => Some(AnyNode::TsUndefined(TsUndefined { syntax })),
            SyntaxKind::TS_NULL => Some(AnyNode::TsNull(TsNull { syntax })),
            SyntaxKind::TS_NEVER => Some(AnyNode::TsNever(TsNever { syntax })),
            SyntaxKind::TS_THIS => Some(AnyNode::TsThis(TsThis { syntax })),
            SyntaxKind::TS_LITERAL => Some(AnyNode::TsLiteral(TsLiteral { syntax })),
            SyntaxKind::TS_PREDICATE => Some(AnyNode::TsPredicate(TsPredicate { syntax })),
            SyntaxKind::TS_TUPLE => Some(AnyNode::TsTuple(TsTuple { syntax })),
            SyntaxKind::TS_PAREN => Some(AnyNode::TsParen(TsParen { syntax })),
            SyntaxKind::TS_TYPE_REF => Some(AnyNode::TsTypeRef(TsTypeRef { syntax })),
            SyntaxKind::TS_TEMPLATE => Some(AnyNode::TsTemplate(TsTemplate { syntax })),
            SyntaxKind::TS_MAPPED_TYPE => Some(AnyNode::TsMappedType(TsMappedType { syntax })),
            SyntaxKind::TS_IMPORT => Some(AnyNode::TsImport(TsImport { syntax })),
            SyntaxKind::TS_ARRAY => Some(AnyNode::TsArray(TsArray { syntax })),
            SyntaxKind::TS_INDEXED_ARRAY => Some(AnyNode::TsIndexedArray(TsIndexedArray { syntax })),
            SyntaxKind::TS_TYPE_OPERATOR => Some(AnyNode::TsTypeOperator(TsTypeOperator { syntax })),
            SyntaxKind::TS_INTERSECTION => Some(AnyNode::TsIntersection(TsIntersection { syntax })),
            SyntaxKind::TS_UNION => Some(AnyNode::TsUnion(TsUnion { syntax })),
            SyntaxKind::TS_FN_TYPE => Some(AnyNode::TsFnType(TsFnType { syntax })),
            SyntaxKind::TS_CONSTRUCTOR_TYPE => Some(AnyNode::TsConstructorType(TsConstructorType { syntax })),
            SyntaxKind::TS_CONDITIONAL_TYPE => Some(AnyNode::TsConditionalType(TsConditionalType { syntax })),
            SyntaxKind::TS_OBJECT_TYPE => Some(AnyNode::TsObjectType(TsObjectType { syntax })),
            SyntaxKind::TS_INFER => Some(AnyNode::TsInfer(TsInfer { syntax })),
            SyntaxKind::TS_TUPLE_ELEMENT => Some(AnyNode::TsTupleElement(TsTupleElement { syntax })),
            SyntaxKind::TS_ENUM_MEMBER => Some(AnyNode::TsEnumMember(TsEnumMember { syntax })),
            SyntaxKind::TS_TEMPLATE_ELEMENT => Some(AnyNode::TsTemplateElement(TsTemplateElement { syntax })),
            SyntaxKind::TS_MAPPED_TYPE_READONLY => Some(AnyNode::TsMappedTypeReadonly(TsMappedTypeReadonly { syntax })),
            SyntaxKind::TS_MAPPED_TYPE_PARAM => Some(AnyNode::TsMappedTypeParam(TsMappedTypeParam { syntax })),
            SyntaxKind::TS_TYPE_NAME => Some(AnyNode::TsTypeName(TsTypeName { syntax })),
            SyntaxKind::TS_EXTENDS => Some(AnyNode::TsExtends(TsExtends { syntax })),
            SyntaxKind::TS_MODULE_BLOCK => Some(AnyNode::TsModuleBlock(TsModuleBlock { syntax })),
            SyntaxKind::TS_TYPE_PARAM => Some(AnyNode::TsTypeParam(TsTypeParam { syntax })),
            SyntaxKind::TS_CONSTRAINT => Some(AnyNode::TsConstraint(TsConstraint { syntax })),
            SyntaxKind::TS_DEFAULT => Some(AnyNode::TsDefault(TsDefault { syntax })),
            SyntaxKind::TS_CALL_SIGNATURE_DECL => Some(AnyNode::TsCallSignatureDecl(TsCallSignatureDecl { syntax })),
            SyntaxKind::TS_CONSTRUCT_SIGNATURE_DECL => Some(AnyNode::TsConstructSignatureDecl(TsConstructSignatureDecl { syntax })),
            SyntaxKind::TS_PROPERTY_SIGNATURE => Some(AnyNode::TsPropertySignature(TsPropertySignature { syntax })),
            SyntaxKind::TS_METHOD_SIGNATURE => Some(AnyNode::TsMethodSignature(TsMethodSignature { syntax })),
            SyntaxKind::TS_QUALIFIED_PATH => Some(AnyNode::TsQualifiedPath(TsQualifiedPath { syntax })),
            _ => {
                None
            },
        }
    }

    fn syntax(&self) -> (r: &SyntaxNode<'a>) {
        match self {
            AnyNode::JsUnknownStatement(it) => it.syntax(),
            AnyNode::JsUnknownExpression(it) => it.syntax(),
            AnyNode::JsUnknownMember(it) => it.syntax(),
            AnyNode::JsUnknownBinding(it) => it.syntax(),
            AnyNode::JsUnknownAssignment(it) => it.syntax(),
            AnyNode::JsUnknownModifier(it) => it.syntax(),
            AnyNode::JsUnknownImportAssertionEntry(it) => it.syntax(),
            AnyNode::JsUnknownNamedImportSpecifier(it) => it.syntax(),
            AnyNode::List(it) => it.syntax(),
            AnyNode::Ident(it) => it.syntax(),
            AnyNode::JsScript(it) => it.syntax(),
            AnyNode::JsModule(it) => it.syntax(),
            AnyNode::JsDirective(it) => it.syntax(),
            AnyNode::JsBlockStatement(it) => it.syntax(),
            AnyNode::JsEmptyStatement(it) => it.syntax(),
            AnyNode::JsExpressionStatement(it) => it.syntax(),
            AnyNode::JsIfStatement(it) => it.syntax(),
            AnyNode::JsDoWhileStatement(it) => it.syntax(),
            AnyNode::JsWhileStatement(it) => it.syntax(),
            AnyNode::ForStmt(it) => it.syntax(),
            AnyNode::ForInStmt(it) => it.syntax(),
            AnyNode::ForOfStmt(it) => it.syntax(),
            AnyNode::JsContinueStatement(it) => it.syntax(),
            AnyNode::JsBreakStatement(it) => it.syntax(),
            AnyNode::JsReturnStatement(it) => it.syntax(),
            AnyNode::JsWithStatement(it) => it.syntax(),
            AnyNode::JsLabeledStatement(it) => it.syntax(),
            AnyNode::JsSwitchStatement(it) => it.syntax(),
            AnyNode::JsThrowStatement(it) => it.syntax(),
            AnyNode::JsTryStatement(it) => it.syntax(),
            AnyNode::JsTryFinallyStatement(it) => it.syntax(),
            AnyNode::JsDebuggerStatement(it) => it.syntax(),
            AnyNode::JsFunctionDeclaration(it) => it.syntax(),
            AnyNode::JsClassDeclaration(it) => it.syntax(),
            AnyNode::JsVariableDeclarationStatement(it) => it.syntax(),
            AnyNode::TsEnum(it) => it.syntax(),
            AnyNode::TsTypeAliasDecl(it) => it.syntax(),
            AnyNode::TsNamespaceDecl(it) => it.syntax(),
            AnyNode::TsModuleDecl(it) => it.syntax(),
            AnyNode::TsInterfaceDecl(it) => it.syntax(),
            AnyNode::JsElseClause(it) => it.syntax(),
            AnyNode::ForStmtInit(it) => it.syntax(),
            AnyNode::ForStmtTest(it) => it.syntax(),
            AnyNode::ForStmtUpdate(it) => it.syntax(),
            AnyNode::JsVariableDeclaration(it) => it.syntax(),
            AnyNode::JsCaseClause(it) => it.syntax(),
            AnyNode::JsDefaultClause(it) => it.syntax(),
            AnyNode::JsCatchClause(it) => it.syntax(),
            AnyNode::JsFinallyClause(it) => it.syntax(),
            AnyNode::JsCatchDeclaration(it) => it.syntax(),
            AnyNode::JsArrayExpression(it) => it.syntax(),
            AnyNode::JsArrowFunctionExpression(it) => it.syntax(),
            AnyNode::JsAssignmentExpression(it) => it.syntax(),
            AnyNode::JsAwaitExpression(it) => it.syntax(),
            AnyNode::JsBinaryExpression(it) => it.syntax(),
            AnyNode::JsClassExpression(it) => it.syntax(),
            AnyNode::JsConditionalExpression(it) => it.syntax(),
            AnyNode::JsComputedMemberExpression(it) => it.syntax(),
            AnyNode::JsFunctionExpression(it) => it.syntax(),
            AnyNode::JsImportCallExpression(it) => it.syntax(),
            AnyNode::JsLogicalExpression(it) => it.syntax(),
            AnyNode::JsObjectExpression(it) => it.syntax(),
            AnyNode::JsParenthesizedExpression(it) => it.syntax(),
            AnyNode::JsIdentifierExpression(it) => it.syntax(),
            AnyNode::JsSequenceExpression(it) => it.syntax(),
            AnyNode::JsStaticMemberExpression(it) => it.syntax(),
            AnyNode::JsSuperExpression(it) => it.syntax(),
            AnyNode::JsThisExpression(it) => it.syntax(),
            AnyNode::JsUnaryExpression(it) => it.syntax(),
            AnyNode::JsPreUpdateExpression(it) => it.syntax(),
            AnyNode::JsPostUpdateExpression(it) => it.syntax(),
            AnyNode::JsYieldExpression(it) => it.syntax(),
            AnyNode::Template(it) => it.syntax(),
            AnyNode::NewExpr(it) => it.syntax(),
            AnyNode::CallExpr(it) => it.syntax(),
            AnyNode::NewTarget(it) => it.syntax(),
            AnyNode::ImportMeta(it) => it.syntax(),
            AnyNode::TsNonNull(it) => it.syntax(),
            AnyNode::TsAssertion(it) => it.syntax(),
            AnyNode::TsConstAssertion(it) => it.syntax(),
            AnyNode::TsTypeArgs(it) => it.syntax(),
            AnyNode::ArgList(it) => it.syntax(),
            AnyNode::TsTypeParams(it) => it.syntax(),
            AnyNode::JsParameterList(it) => it.syntax(),
            AnyNode::TsTypeAnnotation(it) => it.syntax(),
            AnyNode::JsFunctionBody(it) => it.syntax(),
            AnyNode::JsSpread(it) => it.syntax(),
            AnyNode::JsArrayHole(it) => it.syntax(),
            AnyNode::JsReferenceIdentifier(it) => it.syntax(),
            AnyNode::JsLiteralMemberName(it) => it.syntax(),
            AnyNode::JsComputedMemberName(it) => it.syntax(),
            AnyNode::JsPropertyObjectMember(it) => it.syntax(),
            AnyNode::JsMethodObjectMember(it) => it.syntax(),
            AnyNode::JsGetterObjectMember(it) => it.syntax(),
            AnyNode::JsSetterObjectMember(it) => it.syntax(),
            AnyNode::JsShorthandPropertyObjectMember(it) => it.syntax(),
            AnyNode::TsImplementsClause(it) => it.syntax(),
            AnyNode::JsExtendsClause(it) => it.syntax(),
            AnyNode::TsExprWithTypeArgs(it) => it.syntax(),
            AnyNode::JsPrivateClassMemberName(it) => it.syntax(),
            AnyNode::JsConstructorClassMember(it) => it.syntax(),
            AnyNode::JsPropertyClassMember(it) => it.syntax(),
            AnyNode::JsMethodClassMember(it) => it.syntax(),
            AnyNode::JsGetterClassMember(it) => it.syntax(),
            AnyNode::JsSetterClassMember(it) => it.syntax(),
            AnyNode::JsEmptyClassMember(it) => it.syntax(),
            AnyNode::TsIndexSignature(it) => it.syntax(),
            AnyNode::TsAccessibility(it) => it.syntax(),
            AnyNode::JsConstructorParameterList(it) => it.syntax(),
            AnyNode::TsConstructorParam(it) => it.syntax(),
            AnyNode::JsBindingPatternWithDefault(it) => it.syntax(),
            AnyNode::JsEqualValueClause(it) => it.syntax(),
            AnyNode::JsModifier(it) => it.syntax(),
            AnyNode::JsIdentifierAssignment(it) => it.syntax(),
            AnyNode::JsStaticMemberAssignment(it) => it.syntax(),
            AnyNode::JsComputedMemberAssignment(it) => it.syntax(),
            AnyNode::JsParenthesizedAssignment(it) => it.syntax(),
            AnyNode::JsAssignmentWithDefault(it) => it.syntax(),
            AnyNode::JsArrayAssignmentPattern(it) => it.syntax(),
            AnyNode::JsObjectAssignmentPattern(it) => it.syntax(),
            AnyNode::JsArrayAssignmentPatternRestElement(it) => it.syntax(),
            AnyNode::JsObjectAssignmentPatternShorthandProperty(it) => it.syntax(),
            AnyNode::JsObjectAssignmentPatternProperty(it) => it.syntax(),
            AnyNode::JsObjectAssignmentPatternRest(it) => it.syntax(),
            AnyNode::JsName(it) => it.syntax(),
            AnyNode::JsIdentifierBinding(it) => it.syntax(),
            AnyNode::JsArrayBindingPattern(it) => it.syntax(),
            AnyNode::JsObjectBindingPattern(it) => it.syntax(),
            AnyNode::JsArrayBindingPatternRestElement(it) => it.syntax(),
            AnyNode::JsObjectBindingPatternProperty(it) => it.syntax(),
            AnyNode::JsObjectBindingPatternRest(it) => it.syntax(),
            AnyNode::JsObjectBindingPatternShorthandProperty(it) => it.syntax(),
            AnyNode::JsStringLiteralExpression(it) => it.syntax(),
            AnyNode::JsNumberLiteralExpression(it) => it.syntax(),
            AnyNode::JsBigIntLiteralExpression(it) => it.syntax(),
            AnyNode::JsBooleanLiteralExpression(it) => it.syntax(),
            AnyNode::JsNullLiteralExpression(it) => it.syntax(),
            AnyNode::JsRegexLiteralExpression(it) => it.syntax(),
            AnyNode::JsVariableDeclarator(it) => it.syntax(),
            AnyNode::JsImport(it) => it.syntax(),
            AnyNode::ExportNamed(it) => it.syntax(),
            AnyNode::ExportDefaultDecl(it) => it.syntax(),
            AnyNode::ExportDefaultExpr(it) => it.syntax(),
            AnyNode::ExportWildcard(it) => it.syntax(),
            AnyNode::ExportDecl(it) => it.syntax(),
            AnyNode::TsImportEqualsDecl(it) => it.syntax(),
            AnyNode::TsExportAssignment(it) => it.syntax(),
            AnyNode::TsNamespaceExportDecl(it) => it.syntax(),
            AnyNode::JsImportBareClause(it) => it.syntax(),
            AnyNode::JsImportNamedClause(it) => it.syntax(),
            AnyNode::JsImportDefaultClause(it) => it.syntax(),
            AnyNode::JsImportNamespaceClause(it) => it.syntax(),
            AnyNode::JsModuleSource(it) => it.syntax(),
            AnyNode::JsImportAssertion(it) => it.syntax(),
            AnyNode::JsDefaultImportSpecifier(it) => it.syntax(),
            AnyNode::JsNamedImportSpecifierList(it) => it.syntax(),
            AnyNode::JsNamespaceImportSpecifier(it) => it.syntax(),
            AnyNode::JsShorthandNamedImportSpecifier(it) => it.syntax(),
            AnyNode::JsNamedImportSpecifier(it) => it.syntax(),
            AnyNode::JsLiteralExportName(it) => it.syntax(),
            AnyNode::JsImportAssertionEntry(it) => it.syntax(),
            AnyNode::Specifier(it) => it.syntax(),
            AnyNode::JsPrivateName(it) => it.syntax(),
            AnyNode::JsRestParameter(it) => it.syntax(),
            AnyNode::TsExternalModuleRef(it) => it.syntax(),
            AnyNode::TsAny(it) => it.syntax(),
            AnyNode::TsUnknown(it) => it.syntax(),
            AnyNode::TsNumber(it) => it.syntax(),
            AnyNode::TsObject(it) => it.syntax(),
            AnyNode::TsBoolean(it) => it.syntax(),
            AnyNode::TsBigint(it) => it.syntax(),
            AnyNode::TsString(it) => it.syntax(),
            AnyNode::TsSymbol(it) => it.syntax(),
            AnyNode::TsVoid(it) => it.syntax(),
            AnyNode::TsUndefined(it) => it.syntax(),
            AnyNode::TsNull(it) => it.syntax(),
            AnyNode::TsNever(it) => it.syntax(),
            AnyNode::TsThis(it) => it.syntax(),
            AnyNode::TsLiteral(it) => it.syntax(),
            AnyNode::TsPredicate(it) => it.syntax(),
            AnyNode::TsTuple(it) => it.syntax(),
            AnyNode::TsParen(it) => it.syntax(),
            AnyNode::TsTypeRef(it) => it.syntax(),
            AnyNode::TsTemplate(it) => it.syntax(),
            AnyNode::TsMappedType(it) => it.syntax(),
            AnyNode::TsImport(it) => it.syntax(),
            AnyNode::TsArray(it) => it.syntax(),
            AnyNode::TsIndexedArray(it) => it.syntax(),
            AnyNode::TsTypeOperator(it) => it.syntax(),
            AnyNode::TsIntersection(it) => it.syntax(),
            AnyNode::TsUnion(it) => it.syntax(),
            AnyNode::TsFnType(it) => it.syntax(),
            AnyNode::TsConstructorType(it) => it.syntax(),
            AnyNode::TsConditionalType(it) => it.syntax(),
            AnyNode::TsObjectType(it) => it.syntax(),
            AnyNode::TsInfer(it) => it.syntax(),
            AnyNode::TsTupleElement(it) => it.syntax(),
            AnyNode::TsEnumMember(it) => it.syntax(),
            AnyNode::TsTemplateElement(it) => it.syntax(),
            AnyNode::TsMappedTypeReadonly(it) => it.syntax(),
            AnyNode::TsMappedTypeParam(it) => it.syntax(),
            AnyNode::TsTypeName(it) => it.syntax(),
            AnyNode::TsExtends(it) => it.syntax(),
            AnyNode::TsModuleBlock(it) => it.syntax(),
            AnyNode::TsTypeParam(it) => it.syntax(),
            AnyNode::TsConstraint(it) => it.syntax(),
            AnyNode::TsDefault(it) => it.syntax(),
            AnyNode::TsCallSignatureDecl(it) => it.syntax(),
            AnyNode::TsConstructSignatureDecl(it) => it.syntax(),
            AnyNode::TsPropertySignature(it) => it.syntax(),
            AnyNode::TsMethodSignature(it) => it.syntax(),
            AnyNode::TsQualifiedPath(it) => it.syntax(),
        }
    }
}

impl<'a> From<JsUnknownStatement<'a>> for AnyNode<'a> {
    fn from(node: JsUnknownStatement<'a>) -> (r: AnyNode<'a>)
        ensures
            r == AnyNode::JsUnknownStatement(node),
    {
        AnyNode::JsUnknownStatement(node)
    }
}

impl<'a> vstd::std_specs::convert::FromSpecImpl<JsUnknownStatement<'a>> for AnyNode<'a> {
    open spec fn obeys_from_spec() -> bool {
        true
    }

    open spec fn from_spec(node: JsUnknownStatement<'a>) -> AnyNode<'a> {
        AnyNode::JsUnknownStatement(node)
    }
}

impl<'a> From<JsUnknownExpression<'a>> for AnyNode<'a> {
    fn from(node: JsUnknownExpression<'a>) -> (r: AnyNode<'a>)
        ensures
            r == AnyNode::JsUnknownExpression(node),
    {
        AnyNode::JsUnknownExpression(node)
    }
}

impl<'a> vstd::std_specs::convert::FromSpecImpl<JsUnknownExpression<'a>> for AnyNode<'a> {
    open spec fn obeys_from_spec() -> bool {
        true
    }

    open spec fn from_spec(node: JsUnknownExpression<'a>) -> AnyNode<'a> {
        AnyNode::JsUnknownExpression(node)
    }
}

impl<'a> From<JsUnknownMember<'a>> for AnyNode<'a> {
    fn from(node: JsUnknownMember<'a>) -> (r: AnyNode<'a>)
        ensures
            r == AnyNode::JsUnknownMember(node),
    {
        AnyNode::JsUnknownMember(node)
    }
}

impl<'a> vstd::std_specs::convert::FromSpecImpl<JsUnknownMember<'a>> for AnyNode<'a> {
    open spec fn obeys_from_spec() -> bool {
        true
    }

    open spec fn from_spec(node: JsUnknownMember<'a>) -> AnyNode<'a> {
        AnyNode::JsUnknownMember(node)
    }
}

impl<'a> From<JsUnknownBinding<'a>> for AnyNode<'a> {
    fn from(node: JsUnknownBinding<'a>) -> (r: AnyNode<'a>)
        ensures
            r == AnyNode::JsUnknownBinding(node),
    {
        AnyNode::JsUnknownBinding(node)
    }
}

impl<'a> vstd::std_specs::convert::FromSpecImpl<JsUnknownBinding<'a>> for AnyNode<'a> {
    open spec fn obeys_from_spec() -> bool {
        true
    }

    open spec fn from_spec(node: JsUnknownBinding<'a>) -> AnyNode<'a> {
        AnyNode::JsUnknownBinding(node)
    }
}

impl<'a> From<JsUnknownAssignment<'a>> for AnyNode<'a> {
    fn from(node: JsUnknownAssignment<'a>) -> (r: AnyNode<'a>)
        ensures
            r == AnyNode::JsUnknownAssignment(node),
    {
        AnyNode::JsUnknownAssignment(node)
    }
}

impl<'a> vstd::std_specs::convert::FromSpecImpl<JsUnknownAssignment<'a>> for AnyNode<'a> {
    open spec fn obeys_from_spec() -> bool {
        true
    }

    open spec fn from_spec(node: JsUnknownAssignment<'a>) -> AnyNode<'a> {
        AnyNode::JsUnknownAssignment(node)
    }
}

impl<'a> From<JsUnknownModifier<'a>> for AnyNode<'a> {
    fn from(node: JsUnknownModifier<'a>) -> (r: AnyNode<'a>)
        ensures
            r == AnyNode::JsUnknownModifier(node),
    {
        AnyNode::JsUnknownModifier(node)
    }
}

impl<'a> vstd::std_specs::convert::FromSpecImpl<JsUnknownModifier<'a>> for AnyNode<'a> {
    open spec fn obeys_from_spec() -> bool {
        true
    }

    open spec fn from_spec(node: JsUnknownModifier<'a>) -> AnyNode<'a> {
        AnyNode::JsUnknownModifier(node)
    }
}

impl<'a> From<JsUnknownImportAssertionEntry<'a>> for AnyNode<'a> {
    fn from(node: JsUnknownImportAssertionEntry<'a>) -> (r: AnyNode<'a>)
        ensures
            r == AnyNode::JsUnknownImportAssertionEntry(node),
    {
        AnyNode::JsUnknownImportAssertionEntry(node)
    }
}

impl<'a> vstd::std_specs::convert::FromSpecImpl<JsUnknownImportAssertionEntry<'a>> for AnyNode<'a> {
    open spec fn obeys_from_spec() -> bool {
        true
    }

    open spec fn from_spec(node: JsUnknownImportAssertionEntry<'a>) -> AnyNode<'a> {
        AnyNode::JsUnknownImportAssertionEntry(node)
    }
}

impl<'a> From<JsUnknownNamedImportSpecifier<'a>> for AnyNode<'a> {
    fn from(node: JsUnknownNamedImportSpecifier<'a>) -> (r: AnyNode<'a>)
        ensures
            r == AnyNode::JsUnknownNamedImportSpecifier(node),
    {
        AnyNode::JsUnknownNamedImportSpecifier(node)
    }
}

impl<'a> vstd::std_specs::convert::FromSpecImpl<JsUnknownNamedImportSpecifier<'a>> for AnyNode<'a> {
    open spec fn obeys_from_spec() -> bool {
        true
    }

    open spec fn from_spec(node: JsUnknownNamedImportSpecifier<'a>) -> AnyNode<'a> {
        AnyNode::JsUnknownNamedImportSpecifier(node)
    }
}

impl<'a> From<List<'a>> for AnyNode<'a> {
    fn from(node: List<'a>) -> (r: AnyNode<'a>)
        ensures
            r == AnyNode::List(node),
    {
        AnyNode::List(node)
    }
}

impl<'a> vstd::std_specs::convert::FromSpecImpl<List<'a>> for AnyNode<'a> {
    open spec fn obeys_from_spec() -> bool {
        true
    }

    open spec fn from_spec(node: List<'a>) -> AnyNode<'a> {
        AnyNode::List(node)
    }
}

impl<'a> From<Ident<'a>> for AnyNode<'a> {
    fn from(node: Ident<'a>) -> (r: AnyNode<'a>)
        ensures
            r == AnyNode::Ident(node),
    {
        AnyNode::Ident(node)
    }
}

impl<'a> vstd::std_specs::convert::FromSpecImpl<Ident<'a>> for AnyNode<'a> {
    open spec fn obeys_from_spec() -> bool {
        true
    }

    open spec fn from_spec(node: Ident<'a>) -> AnyNode<'a> {
        AnyNode::Ident(node)
    }
}

impl<'a> From<JsScript<'a>> for AnyNode<'a> {
    fn from(node: JsScript<'a>) -> (r: AnyNode<'a>)
        ensures
            r == AnyNode::JsScript(node),
    {
        AnyNode::JsScript(node)
    }
}

impl<'a> vstd::std_specs::convert::FromSpecImpl<JsScript<'a>> for AnyNode<'a> {
    open spec fn obeys_from_spec() -> bool {
        true
    }

    open spec fn from_spec(node: JsScript<'a>) -> AnyNode<'a> {
        AnyNode::JsScript(node)
    }
}

impl<'a> From<JsModule<'a>> for AnyNode<'a> {
    fn from(node: JsModule<'a>) -> (r: AnyNode<'a>)
        ensures
            r == AnyNode::JsModule(node),
    {
        AnyNode::JsModule(node)
    }
}

impl<'a> vstd::std_specs::convert::FromSpecImpl<JsModule<'a>> for AnyNode<'a> {
    open spec fn obeys_from_spec() -> bool {
        true
    }

    open spec fn from_spec(node: JsModule<'a>) -> AnyNode<'a> {
        AnyNode::JsModule(node)
    }
}

impl<'a> From<JsDirective<'a>> for AnyNode<'a> {
    fn from(node: JsDirective<'a>) -> (r: AnyNode<'a>)
        ensures
            r == AnyNode::JsDirective(node),
    {
        AnyNode::JsDirective(node)
    }
}

impl<'a> vstd::std_specs::convert::FromSpecImpl<JsDirective<'a>> for AnyNode<'a> {
    open spec fn obeys_from_spec() -> bool {
        true
    }

    open spec fn from_spec(node: JsDirective<'a>) -> AnyNode<'a> {
        AnyNode::JsDirective(node)
    }
}

impl<'a> From<JsBlockStatement<'a>> for AnyNode<'a> {
    fn from(node: JsBlockStatement<'a>) -> (r: AnyNode<'a>)
        ensures
            r == AnyNode::JsBlockStatement(node),
    {
        AnyNode::JsBlockStatement(node)
    }
}

impl<'a> vstd::std_specs::convert::FromSpecImpl<JsBlockStatement<'a>> for AnyNode<'a> {
    open spec fn obeys_from_spec() -> bool {
        true
    }

    open spec fn from_spec(node: JsBlockStatement<'a>) -> AnyNode<'a> {
        AnyNode::JsBlockStatement(node)
    }
}

impl<'a> From<JsEmptyStatement<'a>> for AnyNode<'a> {
    fn from(node: JsEmptyStatement<'a>) -> (r: AnyNode<'a>)
        ensures
            r == AnyNode::JsEmptyStatement(node),
    {
        AnyNode::JsEmptyStatement(node)
    }
}

impl<'a> vstd::std_specs::convert::FromSpecImpl<JsEmptyStatement<'a>> for AnyNode<'a> {
    open spec fn obeys_from_spec() -> bool {
        true
    }

    open spec fn from_spec(node: JsEmptyStatement<'a>) -> AnyNode<'a> {
        AnyNode::JsEmptyStatement(node)
    }
}

impl<'a> From<JsExpressionStatement<'a>> for AnyNode<'a> {
    fn from(node: JsExpressionStatement<'a>) -> (r: AnyNode<'a>)
        ensures
            r == AnyNode::JsExpressionStatement(node),
    {
        AnyNode::JsExpressionStatement(node)
    }
}

impl<'a> vstd::std_specs::convert::FromSpecImpl<JsExpressionStatement<'a>> for AnyNode<'a> {
    open spec fn obeys_from_spec() -> bool {
        true
    }

    open spec fn from_spec(node: JsExpressionStatement<'a>) -> AnyNode<'a> {
        AnyNode::JsExpressionStatement(node)
    }
}

impl<'a> From<JsIfStatement<'a>> for AnyNode<'a> {
    fn from(node: JsIfStatement<'a>) -> (r: AnyNode<'a>)
        ensures
            r == AnyNode::JsIfStatement(node),
    {
        AnyNode::JsIfStatement(node)
    }
}

impl<'a> vstd::std_specs::convert::FromSpecImpl<JsIfStatement<'a>> for AnyNode<'a> {
    open spec fn obeys_from_spec() -> bool {
        true
    }

    open spec fn from_spec(node: JsIfStatement<'a>) -> AnyNode<'a> {
        AnyNode::JsIfStatement(node)
    }
}

impl<'a> From<JsDoWhileStatement<'a>> for AnyNode<'a> {
    fn from(node: JsDoWhileStatement<'a>) -> (r: AnyNode<'a>)
        ensures
            r == AnyNode::JsDoWhileStatement(node),
    {
        AnyNode::JsDoWhileStatement(node)
    }
}

impl<'a> vstd::std_specs::convert::FromSpecImpl<JsDoWhileStatement<'a>> for AnyNode<'a> {
    open spec fn obeys_from_spec() -> bool {
        true
    }

    open spec fn from_spec(node: JsDoWhileStatement<'a>) -> AnyNode<'a> {
        AnyNode::JsDoWhileStatement(node)
    }
}

impl<'a> From<JsWhileStatement<'a>> for AnyNode<'a> {
    fn from(node: JsWhileStatement<'a>) -> (r: AnyNode<'a>)
        ensures
            r == AnyNode::JsWhileStatement(node),
    {
        AnyNode::JsWhileStatement(node)
    }
}

impl<'a> vstd::std_specs::convert::FromSpecImpl<JsWhileStatement<'a>> for AnyNode<'a> {
    open spec fn obeys_from_spec() -> bool {
        true
    }

    open spec fn from_spec(node: JsWhileStatement<'a>) -> AnyNode<'a> {
        AnyNode::JsWhileStatement(node)
    }
}

impl<'a> From<ForStmt<'a>> for AnyNode<'a> {
    fn from(node: ForStmt<'a>) -> (r: AnyNode<'a>)
        ensures
            r == AnyNode::ForStmt(node),
    {
        AnyNode::ForStmt(node)
    }
}

impl<'a> vstd::std_specs::convert::FromSpecImpl<ForStmt<'a>> for AnyNode<'a> {
    open spec fn obeys_from_spec() -> bool {
        true
    }

    open spec fn from_spec(node: ForStmt<'a>) -> AnyNode<'a> {
        AnyNode::ForStmt(node)
    }
}

impl<'a> From<ForInStmt<'a>> for AnyNode<'a> {
    fn from(node: ForInStmt<'a>) -> (r: AnyNode<'a>)
        ensures
            r == AnyNode::ForInStmt(node),
    {
        AnyNode::ForInStmt(node)
    }
}

impl<'a> vstd::std_specs::convert::FromSpecImpl<ForInStmt<'a>> for AnyNode<'a> {
    open spec fn obeys_from_spec() -> bool {
        true
    }

    open spec fn from_spec(node: ForInStmt<'a>) -> AnyNode<'a> {
        AnyNode::ForInStmt(node)
    }
}

impl<'a> From<ForOfStmt<'a>> for AnyNode<'a> {
    fn from(node: ForOfStmt<'a>) -> (r: AnyNode<'a>)
        ensures
            r == AnyNode::ForOfStmt(node),
    {
        AnyNode::ForOfStmt(node)
    }
}

impl<'a> vstd::std_specs::convert::FromSpecImpl<ForOfStmt<'a>> for AnyNode<'a> {
    open spec fn obeys_from_spec() -> bool {
        true
    }

    open spec fn from_spec(node: ForOfStmt<'a>) -> AnyNode<'a> {
        AnyNode::ForOfStmt(node)
    }
}

impl<'a> From<JsContinueStatement<'a>> for AnyNode<'a> {
    fn from(node: JsContinueStatement<'a>) -> (r: AnyNode<'a>)
        ensures
            r == AnyNode::JsContinueStatement(node),
    {
        AnyNode::JsContinueStatement(node)
    }
}

impl<'a> vstd::std_specs::convert::FromSpecImpl<JsContinueStatement<'a>> for AnyNode<'a> {
    open spec fn obeys_from_spec() -> bool {
        true
    }

    open spec fn from_spec(node: JsContinueStatement<'a>) -> AnyNode<'a> {
        AnyNode::JsContinueStatement(node)
    }
}

impl<'a> From<JsBreakStatement<'a>> for AnyNode<'a> {
    fn from(node: JsBreakStatement<'a>) -> (r: AnyNode<'a>)
        ensures
            r == AnyNode::JsBreakStatement(node),
    {
        AnyNode::JsBreakStatement(node)
    }
}

impl<'a> vstd::std_specs::convert::FromSpecImpl<JsBreakStatement<'a>> for AnyNode<'a> {
    open spec fn obeys_from_spec() -> bool {
        true
    }

    open spec fn from_spec(node: JsBreakStatement<'a>) -> AnyNode<'a> {
        AnyNode::JsBreakStatement(node)
    }
}

impl<'a> From<JsReturnStatement<'a>> for AnyNode<'a> {
    fn from(node: JsReturnStatement<'a>) -> (r: AnyNode<'a>)
        ensures
            r == AnyNode::JsReturnStatement(node),
    {
        AnyNode::JsReturnStatement(node)
    }
}

impl<'a> vstd::std_specs::convert::FromSpecImpl<JsReturnStatement<'a>> for AnyNode<'a> {
    open spec fn obeys_from_spec() -> bool {
        true
    }

    open spec fn from_spec(node: JsReturnStatement<'a>) -> AnyNode<'a> {
        AnyNode::JsReturnStatement(node)
    }
}

impl<'a> From<JsWithStatement<'a>> for AnyNode<'a> {
    fn from(node: JsWithStatement<'a>) -> (r: AnyNode<'a>)
        ensures
            r == AnyNode::JsWithStatement(node),
    {
        AnyNode::JsWithStatement(node)
    }
}

impl<'a> vstd::std_specs::convert::FromSpecImpl<JsWithStatement<'a>> for AnyNode<'a> {
    open spec fn obeys_from_spec() -> bool {
        true
    }

    open spec fn from_spec(node: JsWithStatement<'a>) -> AnyNode<'a> {
        AnyNode::JsWithStatement(node)
    }
}

impl<'a> From<JsLabeledStatement<'a>> for AnyNode<'a> {
    fn from(node: JsLabeledStatement<'a>) -> (r: AnyNode<'a>)
        ensures
            r == AnyNode::JsLabeledStatement(node),
    {
        AnyNode::JsLabeledStatement(node)
    }
}

impl<'a> vstd::std_specs::convert::FromSpecImpl<JsLabeledStatement<'a>> for AnyNode<'a> {
    open spec fn obeys_from_spec() -> bool {
        true
    }

    open spec fn from_spec(node: JsLabeledStatement<'a>) -> AnyNode<'a> {
        AnyNode::JsLabeledStatement(node)
    }
}

impl<'a> From<JsSwitchStatement<'a>> for AnyNode<'a> {
    fn from(node: JsSwitchStatement<'a>) -> (r: AnyNode<'a>)
        ensures
            r == AnyNode::JsSwitchStatement(node),
    {
        AnyNode::JsSwitchStatement(node)
    }
}

impl<'a> vstd::std_specs::convert::FromSpecImpl<JsSwitchStatement<'a>> for AnyNode<'a> {
    open spec fn obeys_from_spec() -> bool {
        true
    }

    open spec fn from_spec(node: JsSwitchStatement<'a>) -> AnyNode<'a> {
        AnyNode::JsSwitchStatement(node)
    }
}

impl<'a> From<JsThrowStatement<'a>> for AnyNode<'a> {
    fn from(node: JsThrowStatement<'a>) -> (r: AnyNode<'a>)
        ensures
            r == AnyNode::JsThrowStatement(node),
    {
        AnyNode::JsThrowStatement(node)
    }
}

impl<'a> vstd::std_specs::convert::FromSpecImpl<JsThrowStatement<'a>> for AnyNode<'a> {
    open spec fn obeys_from_spec() -> bool {
        true
    }

    open spec fn from_spec(node: JsThrowStatement<'a>) -> AnyNode<'a> {
        AnyNode::JsThrowStatement(node)
    }
}

impl<'a> From<JsTryStatement<'a>> for AnyNode<'a> {
    fn from(node: JsTryStatement<'a>) -> (r: AnyNode<'a>)
        ensures
            r == AnyNode::JsTryStatement(node),
    {
        AnyNode::JsTryStatement(node)
    }
}

impl<'a> vstd::std_specs::convert::FromSpecImpl<JsTryStatement<'a>> for AnyNode<'a> {
    open spec fn obeys_from_spec() -> bool {
        true
    }

    open spec fn from_spec(node: JsTryStatement<'a>) -> AnyNode<'a> {
        AnyNode::JsTryStatement(node)
    }
}

impl<'a> From<JsTryFinallyStatement<'a>> for AnyNode<'a> {
    fn from(node: JsTryFinallyStatement<'a>) -> (r: AnyNode<'a>)
        ensures
            r == AnyNode::JsTryFinallyStatement(node),
    {
        AnyNode::JsTryFinallyStatement(node)
    }
}

impl<'a> vstd::std_specs::convert::FromSpecImpl<JsTryFinallyStatement<'a>> for AnyNode<'a> {
    open spec fn obeys_from_spec() -> bool {
        true
    }

    open spec fn from_spec(node: JsTryFinallyStatement<'a>) -> AnyNode<'a> {
        AnyNode::JsTryFinallyStatement(node)
    }
}

impl<'a> From<JsDebuggerStatement<'a>> for AnyNode<'a> {
    fn from(node: JsDebuggerStatement<'a>) -> (r: AnyNode<'a>)
        ensures
            r == AnyNode::JsDebuggerStatement(node),
    {
        AnyNode::JsDebuggerStatement(node)
    }
}

impl<'a> vstd::std_specs::convert::FromSpecImpl<JsDebuggerStatement<'a>> for AnyNode<'a> {
    open spec fn obeys_from_spec() -> bool {
        true
    }

    open spec fn from_spec(node: JsDebuggerStatement<'a>) -> AnyNode<'a> {
        AnyNode::JsDebuggerStatement(node)
    }
}

impl<'a> From<JsFunctionDeclaration<'a>> for AnyNode<'a> {
    fn from(node: JsFunctionDeclaration<'a>) -> (r: AnyNode<'a>)
        ensures
            r == AnyNode::JsFunctionDeclaration(node),
    {
        AnyNode::JsFunctionDeclaration(node)
    }
}

impl<'a> vstd::std_specs::convert::FromSpecImpl<JsFunctionDeclaration<'a>> for AnyNode<'a> {
    open spec fn obeys_from_spec() -> bool {
        true
    }

    open spec fn from_spec(node: JsFunctionDeclaration<'a>) -> AnyNode<'a> {
        AnyNode::JsFunctionDeclaration(node)
    }
}

impl<'a> From<JsClassDeclaration<'a>> for AnyNode<'a> {
    fn from(node: JsClassDeclaration<'a>) -> (r: AnyNode<'a>)
        ensures
            r == AnyNode::JsClassDeclaration(node),
    {
        AnyNode::JsClassDeclaration(node)
    }
}

impl<'a> vstd::std_specs::convert::FromSpecImpl<JsClassDeclaration<'a>> for AnyNode<'a> {
    open spec fn obeys_from_spec() -> bool {
        true
    }

    open spec fn from_spec(node: JsClassDeclaration<'a>) -> AnyNode<'a> {
        AnyNode::JsClassDeclaration(node)
    }
}

impl<'a> From<JsVariableDeclarationStatement<'a>> for AnyNode<'a> {
    fn from(node: JsVariableDeclarationStatement<'a>) -> (r: AnyNode<'a>)
        ensures
            r == AnyNode::JsVariableDeclarationStatement(node),
    {
        AnyNode::JsVariableDeclarationStatement(node)
    }
}

impl<'a> vstd::std_specs::convert::FromSpecImpl<JsVariableDeclarationStatement<'a>> for AnyNode<'a> {
    open spec fn obeys_from_spec() -> bool {
        true
    }

    open spec fn from_spec(node: JsVariableDeclarationStatement<'a>) -> AnyNode<'a> {
        AnyNode::JsVariableDeclarationStatement(node)
    }
}

impl<'a> From<TsEnum<'a>> for AnyNode<'a> {
    fn from(node: TsEnum<'a>) -> (r: AnyNode<'a>)
        ensures
            r == AnyNode::TsEnum(node),
    {
        AnyNode::TsEnum(node)
    }
}

impl<'a> vstd::std_specs::convert::FromSpecImpl<TsEnum<'a>> for AnyNode<'a> {
    open spec fn obeys_from_spec() -> bool {
        true
    }

    open spec fn from_spec(node: TsEnum<'a>) -> AnyNode<'a> {
        AnyNode::TsEnum(node)
    }
}

impl<'a> From<TsTypeAliasDecl<'a>> for AnyNode<'a> {
    fn from(node: TsTypeAliasDecl<'a>) -> (r: AnyNode<'a>)
        ensures
            r == AnyNode::TsTypeAliasDecl(node),
    {
        AnyNode::TsTypeAliasDecl(node)
    }
}

impl<'a> vstd::std_specs::convert::FromSpecImpl<TsTypeAliasDecl<'a>> for AnyNode<'a> {
    open spec fn obeys_from_spec() -> bool {
        true
    }

    open spec fn from_spec(node: TsTypeAliasDecl<'a>) -> AnyNode<'a> {
        AnyNode::TsTypeAliasDecl(node)
    }
}

impl<'a> From<TsNamespaceDecl<'a>> for AnyNode<'a> {
    fn from(node: TsNamespaceDecl<'a>) -> (r: AnyNode<'a>)
        ensures
            r == AnyNode::TsNamespaceDecl(node),
    {
        AnyNode::TsNamespaceDecl(node)
    }
}

impl<'a> vstd::std_specs::convert::FromSpecImpl<TsNamespaceDecl<'a>> for AnyNode<'a> {
    open spec fn obeys_from_spec() -> bool {
        true
    }

    open spec fn from_spec(node: TsNamespaceDecl<'a>) -> AnyNode<'a> {
        AnyNode::TsNamespaceDecl(node)
    }
}

impl<'a> From<TsModuleDecl<'a>> for AnyNode<'a> {
    fn from(node: TsModuleDecl<'a>) -> (r: AnyNode<'a>)
        ensures
            r == AnyNode::TsModuleDecl(node),
    {
        AnyNode::TsModuleDecl(node)
    }
}

impl<'a> vstd::std_specs::convert::FromSpecImpl<TsModuleDecl<'a>> for AnyNode<'a> {
    open spec fn obeys_from_spec() -> bool {
        true
    }

    open spec fn from_spec(node: TsModuleDecl<'a>) -> AnyNode<'a> {
        AnyNode::TsModuleDecl(node)
    }
}

impl<'a> From<TsInterfaceDecl<'a>> for AnyNode<'a> {
    fn from(node: TsInterfaceDecl<'a>) -> (r: AnyNode<'a>)
        ensures
            r == AnyNode::TsInterfaceDecl(node),
    {
        AnyNode::TsInterfaceDecl(node)
    }
}

impl<'a> vstd::std_specs::convert::FromSpecImpl<TsInterfaceDecl<'a>> for AnyNode<'a> {
    open spec fn obeys_from_spec() -> bool {
        true
    }

    open spec fn from_spec(node: TsInterfaceDecl<'a>) -> AnyNode<'a> {
        AnyNode::TsInterfaceDecl(node)
    }
}

impl<'a> From<JsElseClause<'a>> for AnyNode<'a> {
    fn from(node: JsElseClause<'a>) -> (r: AnyNode<'a>)
        ensures
            r == AnyNode::JsElseClause(node),
    {
        AnyNode::JsElseClause(node)
    }
}

impl<'a> vstd::std_specs::convert::FromSpecImpl<JsElseClause<'a>> for AnyNode<'a> {
    open spec fn obeys_from_spec() -> bool {
        true
    }

    open spec fn from_spec(node: JsElseClause<'a>) -> AnyNode<'a> {
        AnyNode::JsElseClause(node)
    }
}

impl<'a> From<ForStmtInit<'a>> for AnyNode<'a> {
    fn from(node: ForStmtInit<'a>) -> (r: AnyNode<'a>)
        ensures
            r == AnyNode::ForStmtInit(node),
    {
        AnyNode::ForStmtInit(node)
    }
}

impl<'a> vstd::std_specs::convert::FromSpecImpl<ForStmtInit<'a>> for AnyNode<'a> {
    open spec fn obeys_from_spec() -> bool {
        true
    }

    open spec fn from_spec(node: ForStmtInit<'a>) -> AnyNode<'a> {
        AnyNode::ForStmtInit(node)
    }
}

impl<'a> From<ForStmtTest<'a>> for AnyNode<'a> {
    fn from(node: ForStmtTest<'a>) -> (r: AnyNode<'a>)
        ensures
            r == AnyNode::ForStmtTest(node),
    {
        AnyNode::ForStmtTest(node)
    }
}

impl<'a> vstd::std_specs::convert::FromSpecImpl<ForStmtTest<'a>> for AnyNode<'a> {
    open spec fn obeys_from_spec() -> bool {
        true
    }

    open spec fn from_spec(node: ForStmtTest<'a>) -> AnyNode<'a> {
        AnyNode::ForStmtTest(node)
    }
}

impl<'a> From<ForStmtUpdate<'a>> for AnyNode<'a> {
    fn from(node: ForStmtUpdate<'a>) -> (r: AnyNode<'a>)
        ensures
            r == AnyNode::ForStmtUpdate(node),
    {
        AnyNode::ForStmtUpdate(node)
    }
}

impl<'a> vstd::std_specs::convert::FromSpecImpl<ForStmtUpdate<'a>> for AnyNode<'a> {
    open spec fn obeys_from_spec() -> bool {
        true
    }

    open spec fn from_spec(node: ForStmtUpdate<'a>) -> AnyNode<'a> {
        AnyNode::ForStmtUpdate(node)
    }
}

impl<'a> From<JsVariableDeclaration<'a>> for AnyNode<'a> {
    fn from(node: JsVariableDeclaration<'a>) -> (r: AnyNode<'a>)
        ensures
            r == AnyNode::JsVariableDeclaration(node),
    {
        AnyNode::JsVariableDeclaration(node)
    }
}

impl<'a> vstd::std_specs::convert::FromSpecImpl<JsVariableDeclaration<'a>> for AnyNode<'a> {
    open spec fn obeys_from_spec() -> bool {
        true
    }

    open spec fn from_spec(node: JsVariableDeclaration<'a>) -> AnyNode<'a> {
        AnyNode::JsVariableDeclaration(node)
    }
}

impl<'a> From<JsCaseClause<'a>> for AnyNode<'a> {
    fn from(node: JsCaseClause<'a>) -> (r: AnyNode<'a>)
        ensures
            r == AnyNode::JsCaseClause(node),
    {
        AnyNode::JsCaseClause(node)
    }
}

impl<'a> vstd::std_specs::convert::FromSpecImpl<JsCaseClause<'a>> for AnyNode<'a> {
    open spec fn obeys_from_spec() -> bool {
        true
    }

    open spec fn from_spec(node: JsCaseClause<'a>) -> AnyNode<'a> {
        AnyNode::JsCaseClause(node)
    }
}

impl<'a> From<JsDefaultClause<'a>> for AnyNode<'a> {
    fn from(node: JsDefaultClause<'a>) -> (r: AnyNode<'a>)
        ensures
            r == AnyNode::JsDefaultClause(node),
    {
        AnyNode::JsDefaultClause(node)
    }
}

impl<'a> vstd::std_specs::convert::FromSpecImpl<JsDefaultClause<'a>> for AnyNode<'a> {
    open spec fn obeys_from_spec() -> bool {
        true
    }

    open spec fn from_spec(node: JsDefaultClause<'a>) -> AnyNode<'a> {
        AnyNode::JsDefaultClause(node)
    }
}

impl<'a> From<JsCatchClause<'a>> for AnyNode<'a> {
    fn from(node: JsCatchClause<'a>) -> (r: AnyNode<'a>)
        ensures
            r == AnyNode::JsCatchClause(node),
    {
        AnyNode::JsCatchClause(node)
    }
}

impl<'a> vstd::std_specs::convert::FromSpecImpl<JsCatchClause<'a>> for AnyNode<'a> {
    open spec fn obeys_from_spec() -> bool {
        true
    }

    open spec fn from_spec(node: JsCatchClause<'a>) -> AnyNode<'a> {
        AnyNode::JsCatchClause(node)
    }
}

impl<'a> From<JsFinallyClause<'a>> for AnyNode<'a> {
    fn from(node: JsFinallyClause<'a>) -> (r: AnyNode<'a>)
        ensures
            r == AnyNode::JsFinallyClause(node),
    {
        AnyNode::JsFinallyClause(node)
    }
}

impl<'a> vstd::std_specs::convert::FromSpecImpl<JsFinallyClause<'a>> for AnyNode<'a> {
    open spec fn obeys_from_spec() -> bool {
        true
    }

    open spec fn from_spec(node: JsFinallyClause<'a>) -> AnyNode<'a> {
        AnyNode::JsFinallyClause(node)
    }
}

impl<'a> From<JsCatchDeclaration<'a>> for AnyNode<'a> {
    fn from(node: JsCatchDeclaration<'a>) -> (r: AnyNode<'a>)
        ensures
            r == AnyNode::JsCatchDeclaration(node),
    {
        AnyNode::JsCatchDeclaration(node)
    }
}

impl<'a> vstd::std_specs::convert::FromSpecImpl<JsCatchDeclaration<'a>> for AnyNode<'a> {
    open spec fn obeys_from_spec() -> bool {
        true
    }

    open spec fn from_spec(node: JsCatchDeclaration<'a>) -> AnyNode<'a> {
        AnyNode::JsCatchDeclaration(node)
    }
}

impl<'a> From<JsArrayExpression<'a>> for AnyNode<'a> {
    fn from(node: JsArrayExpression<'a>) -> (r: AnyNode<'a>)
        ensures
            r == AnyNode::JsArrayExpression(node),
    {
        AnyNode::JsArrayExpression(node)
    }
}

impl<'a> vstd::std_specs::convert::FromSpecImpl<JsArrayExpression<'a>> for AnyNode<'a> {
    open spec fn obeys_from_spec() -> bool {
        true
    }

    open spec fn from_spec(node: JsArrayExpression<'a>) -> AnyNode<'a> {
        AnyNode::JsArrayExpression(node)
    }
}

impl<'a> From<JsArrowFunctionExpression<'a>> for AnyNode<'a> {
    fn from(node: JsArrowFunctionExpression<'a>) -> (r: AnyNode<'a>)
        ensures
            r == AnyNode::JsArrowFunctionExpression(node),
    {
        AnyNode::JsArrowFunctionExpression(node)
    }
}

impl<'a> vstd::std_specs::convert::FromSpecImpl<JsArrowFunctionExpression<'a>> for AnyNode<'a> {
    open spec fn obeys_from_spec() -> bool {
        true
    }

    open spec fn from_spec(node: JsArrowFunctionExpression<'a>) -> AnyNode<'a> {
        AnyNode::JsArrowFunctionExpression(node)
    }
}

impl<'a> From<JsAssignmentExpression<'a>> for AnyNode<'a> {
    fn from(node: JsAssignmentExpression<'a>) -> (r: AnyNode<'a>)
        ensures
            r == AnyNode::JsAssignmentExpression(node),
    {
        AnyNode::JsAssignmentExpression(node)
    }
}

impl<'a> vstd::std_specs::convert::FromSpecImpl<JsAssignmentExpression<'a>> for AnyNode<'a> {
    open spec fn obeys_from_spec() -> bool {
        true
    }

    open spec fn from_spec(node: JsAssignmentExpression<'a>) -> AnyNode<'a> {
        AnyNode::JsAssignmentExpression(node)
    }
}

impl<'a> From<JsAwaitExpression<'a>> for AnyNode<'a> {
    fn from(node: JsAwaitExpression<'a>) -> (r: AnyNode<'a>)
        ensures
            r == AnyNode::JsAwaitExpression(node),
    {
        AnyNode::JsAwaitExpression(node)
    }
}

impl<'a> vstd::std_specs::convert::FromSpecImpl<JsAwaitExpression<'a>> for AnyNode<'a> {
    open spec fn obeys_from_spec() -> bool {
        true
    }

    open spec fn from_spec(node: JsAwaitExpression<'a>) -> AnyNode<'a> {
        AnyNode::JsAwaitExpression(node)
    }
}

impl<'a> From<JsBinaryExpression<'a>> for AnyNode<'a> {
    fn from(node: JsBinaryExpression<'a>) -> (r: AnyNode<'a>)
        ensures
            r == AnyNode::JsBinaryExpression(node),
    {
        AnyNode::JsBinaryExpression(node)
    }
}

impl<'a> vstd::std_specs::convert::FromSpecImpl<JsBinaryExpression<'a>> for AnyNode<'a> {
    open spec fn obeys_from_spec() -> bool {
        true
    }

    open spec fn from_spec(node: JsBinaryExpression<'a>) -> AnyNode<'a> {
        AnyNode::JsBinaryExpression(node)
    }
}

impl<'a> From<JsClassExpression<'a>> for AnyNode<'a> {
    fn from(node: JsClassExpression<'a>) -> (r: AnyNode<'a>)
        ensures
            r == AnyNode::JsClassExpression(node),
    {
        AnyNode::JsClassExpression(node)
    }
}

impl<'a> vstd::std_specs::convert::FromSpecImpl<JsClassExpression<'a>> for AnyNode<'a> {
    open spec fn obeys_from_spec() -> bool {
        true
    }

    open spec fn from_spec(node: JsClassExpression<'a>) -> AnyNode<'a> {
        AnyNode::JsClassExpression(node)
    }
}

impl<'a> From<JsConditionalExpression<'a>> for AnyNode<'a> {
    fn from(node: JsConditionalExpression<'a>) -> (r: AnyNode<'a>)
        ensures
            r == AnyNode::JsConditionalExpression(node),
    {
        AnyNode::JsConditionalExpression(node)
    }
}

impl<'a> vstd::std_specs::convert::FromSpecImpl<JsConditionalExpression<'a>> for AnyNode<'a> {
    open spec fn obeys_from_spec() -> bool {
        true
    }

    open spec fn from_spec(node: JsConditionalExpression<'a>) -> AnyNode<'a> {
        AnyNode::JsConditionalExpression(node)
    }
}

impl<'a> From<JsComputedMemberExpression<'a>> for AnyNode<'a> {
    fn from(node: JsComputedMemberExpression<'a>) -> (r: AnyNode<'a>)
        ensures
            r == AnyNode::JsComputedMemberExpression(node),
    {
        AnyNode::JsComputedMemberExpression(node)
    }
}

impl<'a> vstd::std_specs::convert::FromSpecImpl<JsComputedMemberExpression<'a>> for AnyNode<'a> {
    open spec fn obeys_from_spec() -> bool {
        true
    }

    open spec fn from_spec(node: JsComputedMemberExpression<'a>) -> AnyNode<'a> {
        AnyNode::JsComputedMemberExpression(node)
    }
}

impl<'a> From<JsFunctionExpression<'a>> for AnyNode<'a> {
    fn from(node: JsFunctionExpression<'a>) -> (r: AnyNode<'a>)
        ensures
            r == AnyNode::JsFunctionExpression(node),
    {
        AnyNode::JsFunctionExpression(node)
    }
}

impl<'a> vstd::std_specs::convert::FromSpecImpl<JsFunctionExpression<'a>> for AnyNode<'a> {
    open spec fn obeys_from_spec() -> bool {
        true
    }

    open spec fn from_spec(node: JsFunctionExpression<'a>) -> AnyNode<'a> {
        AnyNode::JsFunctionExpression(node)
    }
}

impl<'a> From<JsImportCallExpression<'a>> for AnyNode<'a> {
    fn from(node: JsImportCallExpression<'a>) -> (r: AnyNode<'a>)
        ensures
            r == AnyNode::JsImportCallExpression(node),
    {
        AnyNode::JsImportCallExpression(node)
    }
}

impl<'a> vstd::std_specs::convert::FromSpecImpl<JsImportCallExpression<'a>> for AnyNode<'a> {
    open spec fn obeys_from_spec() -> bool {
        true
    }

    open spec fn from_spec(node: JsImportCallExpression<'a>) -> AnyNode<'a> {
        AnyNode::JsImportCallExpression(node)
    }
}

impl<'a> From<JsLogicalExpression<'a>> for AnyNode<'a> {
    fn from(node: JsLogicalExpression<'a>) -> (r: AnyNode<'a>)
        ensures
            r == AnyNode::JsLogicalExpression(node),
    {
        AnyNode::JsLogicalExpression(node)
    }
}

impl<'a> vstd::std_specs::convert::FromSpecImpl<JsLogicalExpression<'a>> for AnyNode<'a> {
    open spec fn obeys_from_spec() -> bool {
        true
    }

    open spec fn from_spec(node: JsLogicalExpression<'a>) -> AnyNode<'a> {
        AnyNode::JsLogicalExpression(node)
    }
}

impl<'a> From<JsObjectExpression<'a>> for AnyNode<'a> {
    fn from(node: JsObjectExpression<'a>) -> (r: AnyNode<'a>)
        ensures
            r == AnyNode::JsObjectExpression(node),
    {
        AnyNode::JsObjectExpression(node)
    }
}

impl<'a> vstd::std_specs::convert::FromSpecImpl<JsObjectExpression<'a>> for AnyNode<'a> {
    open spec fn obeys_from_spec() -> bool {
        true
    }

    open spec fn from_spec(node: JsObjectExpression<'a>) -> AnyNode<'a> {
        AnyNode::JsObjectExpression(node)
    }
}

impl<'a> From<JsParenthesizedExpression<'a>> for AnyNode<'a> {
    fn from(node: JsParenthesizedExpression<'a>) -> (r: AnyNode<'a>)
        ensures
            r == AnyNode::JsParenthesizedExpression(node),
    {
        AnyNode::JsParenthesizedExpression(node)
    }
}

impl<'a> vstd::std_specs::convert::FromSpecImpl<JsParenthesizedExpression<'a>> for AnyNode<'a> {
    open spec fn obeys_from_spec() -> bool {
        true
    }

    open spec fn from_spec(node: JsParenthesizedExpression<'a>) -> AnyNode<'a> {
        AnyNode::JsParenthesizedExpression(node)
    }
}

impl<'a> From<JsIdentifierExpression<'a>> for AnyNode<'a> {
    fn from(node: JsIdentifierExpression<'a>) -> (r: AnyNode<'a>)
        ensures
            r == AnyNode::JsIdentifierExpression(node),
    {
        AnyNode::JsIdentifierExpression(node)
    }
}

impl<'a> vstd::std_specs::convert::FromSpecImpl<JsIdentifierExpression<'a>> for AnyNode<'a> {
    open spec fn obeys_from_spec() -> bool {
        true
    }

    open spec fn from_spec(node: JsIdentifierExpression<'a>) -> AnyNode<'a> {
        AnyNode::JsIdentifierExpression(node)
    }
}

impl<'a> From<JsSequenceExpression<'a>> for AnyNode<'a> {
    fn from(node: JsSequenceExpression<'a>) -> (r: AnyNode<'a>)
        ensures
            r == AnyNode::JsSequenceExpression(node),
    {
        AnyNode::JsSequenceExpression(node)
    }
}

impl<'a> vstd::std_specs::convert::FromSpecImpl<JsSequenceExpression<'a>> for AnyNode<'a> {
    open spec fn obeys_from_spec() -> bool {
        true
    }

    open spec fn from_spec(node: JsSequenceExpression<'a>) -> AnyNode<'a> {
        AnyNode::JsSequenceExpression(node)
    }
}

impl<'a> From<JsStaticMemberExpression<'a>> for AnyNode<'a> {
    fn from(node: JsStaticMemberExpression<'a>) -> (r: AnyNode<'a>)
        ensures
            r == AnyNode::JsStaticMemberExpression(node),
    {
        AnyNode::JsStaticMemberExpression(node)
    }
}

impl<'a> vstd::std_specs::convert::FromSpecImpl<JsStaticMemberExpression<'a>> for AnyNode<'a> {
    open spec fn obeys_from_spec() -> bool {
        true
    }

    open spec fn from_spec(node: JsStaticMemberExpression<'a>) -> AnyNode<'a> {
        AnyNode::JsStaticMemberExpression(node)
    }
}

impl<'a> From<JsSuperExpression<'a>> for AnyNode<'a> {
    fn from(node: JsSuperExpression<'a>) -> (r: AnyNode<'a>)
        ensures
            r == AnyNode::JsSuperExpression(node),
    {
        AnyNode::JsSuperExpression(node)
    }
}

impl<'a> vstd::std_specs::convert::FromSpecImpl<JsSuperExpression<'a>> for AnyNode<'a> {
    open spec fn obeys_from_spec() -> bool {
        true
    }

    open spec fn from_spec(node: JsSuperExpression<'a>) -> AnyNode<'a> {
        AnyNode::JsSuperExpression(node)
    }
}

impl<'a> From<JsThisExpression<'a>> for AnyNode<'a> {
    fn from(node: JsThisExpression<'a>) -> (r: AnyNode<'a>)
        ensures
            r == AnyNode::JsThisExpression(node),
    {
        AnyNode::JsThisExpression(node)
    }
}

impl<'a> vstd::std_specs::convert::FromSpecImpl<JsThisExpression<'a>> for AnyNode<'a> {
    open spec fn obeys_from_spec() -> bool {
        true
    }

    open spec fn from_spec(node: JsThisExpression<'a>) -> AnyNode<'a> {
        AnyNode::JsThisExpression(node)
    }
}

impl<'a> From<JsUnaryExpression<'a>> for AnyNode<'a> {
    fn from(node: JsUnaryExpression<'a>) -> (r: AnyNode<'a>)
        ensures
            r == AnyNode::JsUnaryExpression(node),
    {
        AnyNode::JsUnaryExpression(node)
    }
}

impl<'a> vstd::std_specs::convert::FromSpecImpl<JsUnaryExpression<'a>> for AnyNode<'a> {
    open spec fn obeys_from_spec() -> bool {
        true
    }

    open spec fn from_spec(node: JsUnaryExpression<'a>) -> AnyNode<'a> {
        AnyNode::JsUnaryExpression(node)
    }
}

impl<'a> From<JsPreUpdateExpression<'a>> for AnyNode<'a> {
    fn from(node: JsPreUpdateExpression<'a>) -> (r: AnyNode<'a>)
        ensures
            r == AnyNode::JsPreUpdateExpression(node),
    {
        AnyNode::JsPreUpdateExpression(node)
    }
}

impl<'a> vstd::std_specs::convert::FromSpecImpl<JsPreUpdateExpression<'a>> for AnyNode<'a> {
    open spec fn obeys_from_spec() -> bool {
        true
    }

    open spec fn from_spec(node: JsPreUpdateExpression<'a>) -> AnyNode<'a> {
        AnyNode::JsPreUpdateExpression(node)
    }
}

impl<'a> From<JsPostUpdateExpression<'a>> for AnyNode<'a> {
    fn from(node: JsPostUpdateExpression<'a>) -> (r: AnyNode<'a>)
        ensures
            r == AnyNode::JsPostUpdateExpression(node),
    {
        AnyNode::JsPostUpdateExpression(node)
    }
}

impl<'a> vstd::std_specs::convert::FromSpecImpl<JsPostUpdateExpression<'a>> for AnyNode<'a> {
    open spec fn obeys_from_spec() -> bool {
        true
    }

    open spec fn from_spec(node: JsPostUpdateExpression<'a>) -> AnyNode<'a> {
        AnyNode::JsPostUpdateExpression(node)
    }
}

impl<'a> From<JsYieldExpression<'a>> for AnyNode<'a> {
    fn from(node: JsYieldExpression<'a>) -> (r: AnyNode<'a>)
        ensures
            r == AnyNode::JsYieldExpression(node),
    {
        AnyNode::JsYieldExpression(node)
    }
}

impl<'a> vstd::std_specs::convert::FromSpecImpl<JsYieldExpression<'a>> for AnyNode<'a> {
    open spec fn obeys_from_spec() -> bool {
        true
    }

    open spec fn from_spec(node: JsYieldExpression<'a>) -> AnyNode<'a> {
        AnyNode::JsYieldExpression(node)
    }
}

impl<'a> From<Template<'a>> for AnyNode<'a> {
    fn from(node: Template<'a>) -> (r: AnyNode<'a>)
        ensures
            r == AnyNode::Template(node),
    {
        AnyNode::Template(node)
    }
}

impl<'a> vstd::std_specs::convert::FromSpecImpl<Template<'a>> for AnyNode<'a> {
    open spec fn obeys_from_spec() -> bool {
        true
    }

    open spec fn from_spec(node: Template<'a>) -> AnyNode<'a> {
        AnyNode::Template(node)
    }
}

impl<'a> From<NewExpr<'a>> for AnyNode<'a> {
    fn from(node: NewExpr<'a>) -> (r: AnyNode<'a>)
        ensures
            r == AnyNode::NewExpr(node),
    {
        AnyNode::NewExpr(node)
    }
}

impl<'a> vstd::std_specs::convert::FromSpecImpl<NewExpr<'a>> for AnyNode<'a> {
    open spec fn obeys_from_spec() -> bool {
        true
    }

    open spec fn from_spec(node: NewExpr<'a>) -> AnyNode<'a> {
        AnyNode::NewExpr(node)
    }
}

impl<'a> From<CallExpr<'a>> for AnyNode<'a> {
    fn from(node: CallExpr<'a>) -> (r: AnyNode<'a>)
        ensures
            r == AnyNode::CallExpr(node),
    {
        AnyNode::CallExpr(node)
    }
}

impl<'a> vstd::std_specs::convert::FromSpecImpl<CallExpr<'a>> for AnyNode<'a> {
    open spec fn obeys_from_spec() -> bool {
        true
    }

    open spec fn from_spec(node: CallExpr<'a>) -> AnyNode<'a> {
        AnyNode::CallExpr(node)
    }
}

impl<'a> From<NewTarget<'a>> for AnyNode<'a> {
    fn from(node: NewTarget<'a>) -> (r: AnyNode<'a>)
        ensures
            r == AnyNode::NewTarget(node),
    {
        AnyNode::NewTarget(node)
    }
}

impl<'a> vstd::std_specs::convert::FromSpecImpl<NewTarget<'a>> for AnyNode<'a> {
    open spec fn obeys_from_spec() -> bool {
        true
    }

    open spec fn from_spec(node: NewTarget<'a>) -> AnyNode<'a> {
        AnyNode::NewTarget(node)
    }
}

impl<'a> From<ImportMeta<'a>> for AnyNode<'a> {
    fn from(node: ImportMeta<'a>) -> (r: AnyNode<'a>)
        ensures
            r == AnyNode::ImportMeta(node),
    {
        AnyNode::ImportMeta(node)
    }
}

impl<'a> vstd::std_specs::convert::FromSpecImpl<ImportMeta<'a>> for AnyNode<'a> {
    open spec fn obeys_from_spec() -> bool {
        true
    }

    open spec fn from_spec(node: ImportMeta<'a>) -> AnyNode<'a> {
        AnyNode::ImportMeta(node)
    }
}

impl<'a> From<TsNonNull<'a>> for AnyNode<'a> {
    fn from(node: TsNonNull<'a>) -> (r: AnyNode<'a>)
        ensures
            r == AnyNode::TsNonNull(node),
    {
        AnyNode::TsNonNull(node)
    }
}

impl<'a> vstd::std_specs::convert::FromSpecImpl<TsNonNull<'a>> for AnyNode<'a> {
    open spec fn obeys_from_spec() -> bool {
        true
    }

    open spec fn from_spec(node: TsNonNull<'a>) -> AnyNode<'a> {
        AnyNode::TsNonNull(node)
    }
}

impl<'a> From<TsAssertion<'a>> for AnyNode<'a> {
    fn from(node: TsAssertion<'a>) -> (r: AnyNode<'a>)
        ensures
            r == AnyNode::TsAssertion(node),
    {
        AnyNode::TsAssertion(node)
    }
}

impl<'a> vstd::std_specs::convert::FromSpecImpl<TsAssertion<'a>> for AnyNode<'a> {
    open spec fn obeys_from_spec() -> bool {
        true
    }

    open spec fn from_spec(node: TsAssertion<'a>) -> AnyNode<'a> {
        AnyNode::TsAssertion(node)
    }
}

impl<'a> From<TsConstAssertion<'a>> for AnyNode<'a> {
    fn from(node: TsConstAssertion<'a>) -> (r: AnyNode<'a>)
        ensures
            r == AnyNode::TsConstAssertion(node),
    {
        AnyNode::TsConstAssertion(node)
    }
}

impl<'a> vstd::std_specs::convert::FromSpecImpl<TsConstAssertion<'a>> for AnyNode<'a> {
    open spec fn obeys_from_spec() -> bool {
        true
    }

    open spec fn from_spec(node: TsConstAssertion<'a>) -> AnyNode<'a> {
        AnyNode::TsConstAssertion(node)
    }
}

impl<'a> From<TsTypeArgs<'a>> for AnyNode<'a> {
    fn from(node: TsTypeArgs<'a>) -> (r: AnyNode<'a>)
        ensures
            r == AnyNode::TsTypeArgs(node),
    {
        AnyNode::TsTypeArgs(node)
    }
}

impl<'a> vstd::std_specs::convert::FromSpecImpl<TsTypeArgs<'a>> for AnyNode<'a> {
    open spec fn obeys_from_spec() -> bool {
        true
    }

    open spec fn from_spec(node: TsTypeArgs<'a>) -> AnyNode<'a> {
        AnyNode::TsTypeArgs(node)
    }
}

impl<'a> From<ArgList<'a>> for AnyNode<'a> {
    fn from(node: ArgList<'a>) -> (r: AnyNode<'a>)
        ensures
            r == AnyNode::ArgList(node),
    {
        AnyNode::ArgList(node)
    }
}

impl<'a> vstd::std_specs::convert::FromSpecImpl<ArgList<'a>> for AnyNode<'a> {
    open spec fn obeys_from_spec() -> bool {
        true
    }

    open spec fn from_spec(node: ArgList<'a>) -> AnyNode<'a> {
        AnyNode::ArgList(node)
    }
}

impl<'a> From<TsTypeParams<'a>> for AnyNode<'a> {
    fn from(node: TsTypeParams<'a>) -> (r: AnyNode<'a>)
        ensures
            r == AnyNode::TsTypeParams(node),
    {
        AnyNode::TsTypeParams(node)
    }
}

impl<'a> vstd::std_specs::convert::FromSpecImpl<TsTypeParams<'a>> for AnyNode<'a> {
    open spec fn obeys_from_spec() -> bool {
        true
    }

    open spec fn from_spec(node: TsTypeParams<'a>) -> AnyNode<'a> {
        AnyNode::TsTypeParams(node)
    }
}

impl<'a> From<JsParameterList<'a>> for AnyNode<'a> {
    fn from(node: JsParameterList<'a>) -> (r: AnyNode<'a>)
        ensures
            r == AnyNode::JsParameterList(node),
    {
        AnyNode::JsParameterList(node)
    }
}

impl<'a> vstd::std_specs::convert::FromSpecImpl<JsParameterList<'a>> for AnyNode<'a> {
    open spec fn obeys_from_spec() -> bool {
        true
    }

    open spec fn from_spec(node: JsParameterList<'a>) -> AnyNode<'a> {
        AnyNode::JsParameterList(node)
    }
}

impl<'a> From<TsTypeAnnotation<'a>> for AnyNode<'a> {
    fn from(node: TsTypeAnnotation<'a>) -> (r: AnyNode<'a>)
        ensures
            r == AnyNode::TsTypeAnnotation(node),
    {
        AnyNode::TsTypeAnnotation(node)
    }
}

impl<'a> vstd::std_specs::convert::FromSpecImpl<TsTypeAnnotation<'a>> for AnyNode<'a> {
    open spec fn obeys_from_spec() -> bool {
        true
    }

    open spec fn from_spec(node: TsTypeAnnotation<'a>) -> AnyNode<'a> {
        AnyNode::TsTypeAnnotation(node)
    }
}

impl<'a> From<JsFunctionBody<'a>> for AnyNode<'a> {
    fn from(node: JsFunctionBody<'a>) -> (r: AnyNode<'a>)
        ensures
            r == AnyNode::JsFunctionBody(node),
    {
        AnyNode::JsFunctionBody(node)
    }
}

impl<'a> vstd::std_specs::convert::FromSpecImpl<JsFunctionBody<'a>> for AnyNode<'a> {
    open spec fn obeys_from_spec() -> bool {
        true
    }

    open spec fn from_spec(node: JsFunctionBody<'a>) -> AnyNode<'a> {
        AnyNode::JsFunctionBody(node)
    }
}

impl<'a> From<JsSpread<'a>> for AnyNode<'a> {
    fn from(node: JsSpread<'a>) -> (r: AnyNode<'a>)
        ensures
            r == AnyNode::JsSpread(node),
    {
        AnyNode::JsSpread(node)
    }
}

impl<'a> vstd::std_specs::convert::FromSpecImpl<JsSpread<'a>> for AnyNode<'a> {
    open spec fn obeys_from_spec() -> bool {
        true
    }

    open spec fn from_spec(node: JsSpread<'a>) -> AnyNode<'a> {
        AnyNode::JsSpread(node)
    }
}

impl<'a> From<JsArrayHole<'a>> for AnyNode<'a> {
    fn from(node: JsArrayHole<'a>) -> (r: AnyNode<'a>)
        ensures
            r == AnyNode::JsArrayHole(node),
    {
        AnyNode::JsArrayHole(node)
    }
}

impl<'a> vstd::std_specs::convert::FromSpecImpl<JsArrayHole<'a>> for AnyNode<'a> {
    open spec fn obeys_from_spec() -> bool {
        true
    }

    open spec fn from_spec(node: JsArrayHole<'a>) -> AnyNode<'a> {
        AnyNode::JsArrayHole(node)
    }
}

impl<'a> From<JsReferenceIdentifier<'a>> for AnyNode<'a> {
    fn from(node: JsReferenceIdentifier<'a>) -> (r: AnyNode<'a>)
        ensures
            r == AnyNode::JsReferenceIdentifier(node),
    {
        AnyNode::JsReferenceIdentifier(node)
    }
}

impl<'a> vstd::std_specs::convert::FromSpecImpl<JsReferenceIdentifier<'a>> for AnyNode<'a> {
    open spec fn obeys_from_spec() -> bool {
        true
    }

    open spec fn from_spec(node: JsReferenceIdentifier<'a>) -> AnyNode<'a> {
        AnyNode::JsReferenceIdentifier(node)
    }
}

impl<'a> From<JsLiteralMemberName<'a>> for AnyNode<'a> {
    fn from(node: JsLiteralMemberName<'a>) -> (r: AnyNode<'a>)
        ensures
            r == AnyNode::JsLiteralMemberName(node),
    {
        AnyNode::JsLiteralMemberName(node)
    }
}

impl<'a> vstd::std_specs::convert::FromSpecImpl<JsLiteralMemberName<'a>> for AnyNode<'a> {
    open spec fn obeys_from_spec() -> bool {
        true
    }

    open spec fn from_spec(node: JsLiteralMemberName<'a>) -> AnyNode<'a> {
        AnyNode::JsLiteralMemberName(node)
    }
}

impl<'a> From<JsComputedMemberName<'a>> for AnyNode<'a> {
    fn from(node: JsComputedMemberName<'a>) -> (r: AnyNode<'a>)
        ensures
            r == AnyNode::JsComputedMemberName(node),
    {
        AnyNode::JsComputedMemberName(node)
    }
}

impl<'a> vstd::std_specs::convert::FromSpecImpl<JsComputedMemberName<'a>> for AnyNode<'a> {
    open spec fn obeys_from_spec() -> bool {
        true
    }

    open spec fn from_spec(node: JsComputedMemberName<'a>) -> AnyNode<'a> {
        AnyNode::JsComputedMemberName(node)
    }
}

impl<'a> From<JsPropertyObjectMember<'a>> for AnyNode<'a> {
    fn from(node: JsPropertyObjectMember<'a>) -> (r: AnyNode<'a>)
        ensures
            r == AnyNode::JsPropertyObjectMember(node),
    {
        AnyNode::JsPropertyObjectMember(node)
    }
}

impl<'a> vstd::std_specs::convert::FromSpecImpl<JsPropertyObjectMember<'a>> for AnyNode<'a> {
    open spec fn obeys_from_spec() -> bool {
        true
    }

    open spec fn from_spec(node: JsPropertyObjectMember<'a>) -> AnyNode<'a> {
        AnyNode::JsPropertyObjectMember(node)
    }
}

impl<'a> From<JsMethodObjectMember<'a>> for AnyNode<'a> {
    fn from(node: JsMethodObjectMember<'a>) -> (r: AnyNode<'a>)
        ensures
            r == AnyNode::JsMethodObjectMember(node),
    {
        AnyNode::JsMethodObjectMember(node)
    }
}

impl<'a> vstd::std_specs::convert::FromSpecImpl<JsMethodObjectMember<'a>> for AnyNode<'a> {
    open spec fn obeys_from_spec() -> bool {
        true
    }

    open spec fn from_spec(node: JsMethodObjectMember<'a>) -> AnyNode<'a> {
        AnyNode::JsMethodObjectMember(node)
    }
}

impl<'a> From<JsGetterObjectMember<'a>> for AnyNode<'a> {
    fn from(node: JsGetterObjectMember<'a>) -> (r: AnyNode<'a>)
        ensures
            r == AnyNode::JsGetterObjectMember(node),
    {
        AnyNode::JsGetterObjectMember(node)
    }
}

impl<'a> vstd::std_specs::convert::FromSpecImpl<JsGetterObjectMember<'a>> for AnyNode<'a> {
    open spec fn obeys_from_spec() -> bool {
        true
    }

    open spec fn from_spec(node: JsGetterObjectMember<'a>) -> AnyNode<'a> {
        AnyNode::JsGetterObjectMember(node)
    }
}

impl<'a> From<JsSetterObjectMember<'a>> for AnyNode<'a> {
    fn from(node: JsSetterObjectMember<'a>) -> (r: AnyNode<'a>)
        ensures
            r == AnyNode::JsSetterObjectMember(node),
    {
        AnyNode::JsSetterObjectMember(node)
    }
}

impl<'a> vstd::std_specs::convert::FromSpecImpl<JsSetterObjectMember<'a>> for AnyNode<'a> {
    open spec fn obeys_from_spec() -> bool {
        true
    }

    open spec fn from_spec(node: JsSetterObjectMember<'a>) -> AnyNode<'a> {
        AnyNode::JsSetterObjectMember(node)
    }
}

impl<'a> From<JsShorthandPropertyObjectMember<'a>> for AnyNode<'a> {
    fn from(node: JsShorthandPropertyObjectMember<'a>) -> (r: AnyNode<'a>)
        ensures
            r == AnyNode::JsShorthandPropertyObjectMember(node),
    {
        AnyNode::JsShorthandPropertyObjectMember(node)
    }
}

impl<'a> vstd::std_specs::convert::FromSpecImpl<JsShorthandPropertyObjectMember<'a>> for AnyNode<'a> {
    open spec fn obeys_from_spec() -> bool {
        true
    }

    open spec fn from_spec(node: JsShorthandPropertyObjectMember<'a>) -> AnyNode<'a> {
        AnyNode::JsShorthandPropertyObjectMember(node)
    }
}

impl<'a> From<TsImplementsClause<'a>> for AnyNode<'a> {
    fn from(node: TsImplementsClause<'a>) -> (r: AnyNode<'a>)
        ensures
            r == AnyNode::TsImplementsClause(node),
    {
        AnyNode::TsImplementsClause(node)
    }
}

impl<'a> vstd::std_specs::convert::FromSpecImpl<TsImplementsClause<'a>> for AnyNode<'a> {
    open spec fn obeys_from_spec() -> bool {
        true
    }

    open spec fn from_spec(node: TsImplementsClause<'a>) -> AnyNode<'a> {
        AnyNode::TsImplementsClause(node)
    }
}

impl<'a> From<JsExtendsClause<'a>> for AnyNode<'a> {
    fn from(node: JsExtendsClause<'a>) -> (r: AnyNode<'a>)
        ensures
            r == AnyNode::JsExtendsClause(node),
    {
        AnyNode::JsExtendsClause(node)
    }
}

impl<'a> vstd::std_specs::convert::FromSpecImpl<JsExtendsClause<'a>> for AnyNode<'a> {
    open spec fn obeys_from_spec() -> bool {
        true
    }

    open spec fn from_spec(node: JsExtendsClause<'a>) -> AnyNode<'a> {
        AnyNode::JsExtendsClause(node)
    }
}

impl<'a> From<TsExprWithTypeArgs<'a>> for AnyNode<'a> {
    fn from(node: TsExprWithTypeArgs<'a>) -> (r: AnyNode<'a>)
        ensures
            r == AnyNode::TsExprWithTypeArgs(node),
    {
        AnyNode::TsExprWithTypeArgs(node)
    }
}

impl<'a> vstd::std_specs::convert::FromSpecImpl<TsExprWithTypeArgs<'a>> for AnyNode<'a> {
    open spec fn obeys_from_spec() -> bool {
        true
    }

    open spec fn from_spec(node: TsExprWithTypeArgs<'a>) -> AnyNode<'a> {
        AnyNode::TsExprWithTypeArgs(node)
    }
}

impl<'a> From<JsPrivateClassMemberName<'a>> for AnyNode<'a> {
    fn from(node: JsPrivateClassMemberName<'a>) -> (r: AnyNode<'a>)
        ensures
            r == AnyNode::JsPrivateClassMemberName(node),
    {
        AnyNode::JsPrivateClassMemberName(node)
    }
}

impl<'a> vstd::std_specs::convert::FromSpecImpl<JsPrivateClassMemberName<'a>> for AnyNode<'a> {
    open spec fn obeys_from_spec() -> bool {
        true
    }

    open spec fn from_spec(node: JsPrivateClassMemberName<'a>) -> AnyNode<'a> {
        AnyNode::JsPrivateClassMemberName(node)
    }
}

impl<'a> From<JsConstructorClassMember<'a>> for AnyNode<'a> {
    fn from(node: JsConstructorClassMember<'a>) -> (r: AnyNode<'a>)
        ensures
            r == AnyNode::JsConstructorClassMember(node),
    {
        AnyNode::JsConstructorClassMember(node)
    }
}

impl<'a> vstd::std_specs::convert::FromSpecImpl<JsConstructorClassMember<'a>> for AnyNode<'a> {
    open spec fn obeys_from_spec() -> bool {
        true
    }

    open spec fn from_spec(node: JsConstructorClassMember<'a>) -> AnyNode<'a> {
        AnyNode::JsConstructorClassMember(node)
    }
}

impl<'a> From<JsPropertyClassMember<'a>> for AnyNode<'a> {
    fn from(node: JsPropertyClassMember<'a>) -> (r: AnyNode<'a>)
        ensures
            r == AnyNode::JsPropertyClassMember(node),
    {
        AnyNode::JsPropertyClassMember(node)
    }
}

impl<'a> vstd::std_specs::convert::FromSpecImpl<JsPropertyClassMember<'a>> for AnyNode<'a> {
    open spec fn obeys_from_spec() -> bool {
        true
    }

    open spec fn from_spec(node: JsPropertyClassMember<'a>) -> AnyNode<'a> {
        AnyNode::JsPropertyClassMember(node)
    }
}

impl<'a> From<JsMethodClassMember<'a>> for AnyNode<'a> {
    fn from(node: JsMethodClassMember<'a>) -> (r: AnyNode<'a>)
        ensures
            r == AnyNode::JsMethodClassMember(node),
    {
        AnyNode::JsMethodClassMember(node)
    }
}

impl<'a> vstd::std_specs::convert::FromSpecImpl<JsMethodClassMember<'a>> for AnyNode<'a> {
    open spec fn obeys_from_spec() -> bool {
        true
    }

    open spec fn from_spec(node: JsMethodClassMember<'a>) -> AnyNode<'a> {
        AnyNode::JsMethodClassMember(node)
    }
}

impl<'a> From<JsGetterClassMember<'a>> for AnyNode<'a> {
    fn from(node: JsGetterClassMember<'a>) -> (r: AnyNode<'a>)
        ensures
            r == AnyNode::JsGetterClassMember(node),
    {
        AnyNode::JsGetterClassMember(node)
    }
}

impl<'a> vstd::std_specs::convert::FromSpecImpl<JsGetterClassMember<'a>> for AnyNode<'a> {
    open spec fn obeys_from_spec() -> bool {
        true
    }

    open spec fn from_spec(node: JsGetterClassMember<'a>) -> AnyNode<'a> {
        AnyNode::JsGetterClassMember(node)
    }
}

impl<'a> From<JsSetterClassMember<'a>> for AnyNode<'a> {
    fn from(node: JsSetterClassMember<'a>) -> (r: AnyNode<'a>)
        ensures
            r == AnyNode::JsSetterClassMember(node),
    {
        AnyNode::JsSetterClassMember(node)
    }
}

impl<'a> vstd::std_specs::convert::FromSpecImpl<JsSetterClassMember<'a>> for AnyNode<'a> {
    open spec fn obeys_from_spec() -> bool {
        true
    }

    open spec fn from_spec(node: JsSetterClassMember<'a>) -> AnyNode<'a> {
        AnyNode::JsSetterClassMember(node)
    }
}

impl<'a> From<JsEmptyClassMember<'a>> for AnyNode<'a> {
    fn from(node: JsEmptyClassMember<'a>) -> (r: AnyNode<'a>)
        ensures
            r == AnyNode::JsEmptyClassMember(node),
    {
        AnyNode::JsEmptyClassMember(node)
    }
}

impl<'a> vstd::std_specs::convert::FromSpecImpl<JsEmptyClassMember<'a>> for AnyNode<'a> {
    open spec fn obeys_from_spec() -> bool {
        true
    }

    open spec fn from_spec(node: JsEmptyClassMember<'a>) -> AnyNode<'a> {
        AnyNode::JsEmptyClassMember(node)
    }
}

impl<'a> From<TsIndexSignature<'a>> for AnyNode<'a> {
    fn from(node: TsIndexSignature<'a>) -> (r: AnyNode<'a>)
        ensures
            r == AnyNode::TsIndexSignature(node),
    {
        AnyNode::TsIndexSignature(node)
    }
}

impl<'a> vstd::std_specs::convert::FromSpecImpl<TsIndexSignature<'a>> for AnyNode<'a> {
    open spec fn obeys_from_spec() -> bool {
        true
    }

    open spec fn from_spec(node: TsIndexSignature<'a>) -> AnyNode<'a> {
        AnyNode::TsIndexSignature(node)
    }
}

impl<'a> From<TsAccessibility<'a>> for AnyNode<'a> {
    fn from(node: TsAccessibility<'a>) -> (r: AnyNode<'a>)
        ensures
            r == AnyNode::TsAccessibility(node),
    {
        AnyNode::TsAccessibility(node)
    }
}

impl<'a> vstd::std_specs::convert::FromSpecImpl<TsAccessibility<'a>> for AnyNode<'a> {
    open spec fn obeys_from_spec() -> bool {
        true
    }

    open spec fn from_spec(node: TsAccessibility<'a>) -> AnyNode<'a> {
        AnyNode::TsAccessibility(node)
    }
}

impl<'a> From<JsConstructorParameterList<'a>> for AnyNode<'a> {
    fn from(node: JsConstructorParameterList<'a>) -> (r: AnyNode<'a>)
        ensures
            r == AnyNode::JsConstructorParameterList(node),
    {
        AnyNode::JsConstructorParameterList(node)
    }
}

impl<'a> vstd::std_specs::convert::FromSpecImpl<JsConstructorParameterList<'a>> for AnyNode<'a> {
    open spec fn obeys_from_spec() -> bool {
        true
    }

    open spec fn from_spec(node: JsConstructorParameterList<'a>) -> AnyNode<'a> {
        AnyNode::JsConstructorParameterList(node)
    }
}

impl<'a> From<TsConstructorParam<'a>> for AnyNode<'a> {
    fn from(node: TsConstructorParam<'a>) -> (r: AnyNode<'a>)
        ensures
            r == AnyNode::TsConstructorParam(node),
    {
        AnyNode::TsConstructorParam(node)
    }
}

impl<'a> vstd::std_specs::convert::FromSpecImpl<TsConstructorParam<'a>> for AnyNode<'a> {
    open spec fn obeys_from_spec() -> bool {
        true
    }

    open spec fn from_spec(node: TsConstructorParam<'a>) -> AnyNode<'a> {
        AnyNode::TsConstructorParam(node)
    }
}

impl<'a> From<JsBindingPatternWithDefault<'a>> for AnyNode<'a> {
    fn from(node: JsBindingPatternWithDefault<'a>) -> (r: AnyNode<'a>)
        ensures
            r == AnyNode::JsBindingPatternWithDefault(node),
    {
        AnyNode::JsBindingPatternWithDefault(node)
    }
}

impl<'a> vstd::std_specs::convert::FromSpecImpl<JsBindingPatternWithDefault<'a>> for AnyNode<'a> {
    open spec fn obeys_from_spec() -> bool {
        true
    }

    open spec fn from_spec(node: JsBindingPatternWithDefault<'a>) -> AnyNode<'a> {
        AnyNode::JsBindingPatternWithDefault(node)
    }
}

impl<'a> From<JsEqualValueClause<'a>> for AnyNode<'a> {
    fn from(node: JsEqualValueClause<'a>) -> (r: AnyNode<'a>)
        ensures
            r == AnyNode::JsEqualValueClause(node),
    {
        AnyNode::JsEqualValueClause(node)
    }
}

impl<'a> vstd::std_specs::convert::FromSpecImpl<JsEqualValueClause<'a>> for AnyNode<'a> {
    open spec fn obeys_from_spec() -> bool {
        true
    }

    open spec fn from_spec(node: JsEqualValueClause<'a>) -> AnyNode<'a> {
        AnyNode::JsEqualValueClause(node)
    }
}

impl<'a> From<JsModifier<'a>> for AnyNode<'a> {
    fn from(node: JsModifier<'a>) -> (r: AnyNode<'a>)
        ensures
            r == AnyNode::JsModifier(node),
    {
        AnyNode::JsModifier(node)
    }
}

impl<'a> vstd::std_specs::convert::FromSpecImpl<JsModifier<'a>> for AnyNode<'a> {
    open spec fn obeys_from_spec() -> bool {
        true
    }

    open spec fn from_spec(node: JsModifier<'a>) -> AnyNode<'a> {
        AnyNode::JsModifier(node)
    }
}

impl<'a> From<JsIdentifierAssignment<'a>> for AnyNode<'a> {
    fn from(node: JsIdentifierAssignment<'a>) -> (r: AnyNode<'a>)
        ensures
            r == AnyNode::JsIdentifierAssignment(node),
    {
        AnyNode::JsIdentifierAssignment(node)
    }
}

impl<'a> vstd::std_specs::convert::FromSpecImpl<JsIdentifierAssignment<'a>> for AnyNode<'a> {
    open spec fn obeys_from_spec() -> bool {
        true
    }

    open spec fn from_spec(node: JsIdentifierAssignment<'a>) -> AnyNode<'a> {
        AnyNode::JsIdentifierAssignment(node)
    }
}

impl<'a> From<JsStaticMemberAssignment<'a>> for AnyNode<'a> {
    fn from(node: JsStaticMemberAssignment<'a>) -> (r: AnyNode<'a>)
        ensures
            r == AnyNode::JsStaticMemberAssignment(node),
    {
        AnyNode::JsStaticMemberAssignment(node)
    }
}

impl<'a> vstd::std_specs::convert::FromSpecImpl<JsStaticMemberAssignment<'a>> for AnyNode<'a> {
    open spec fn obeys_from_spec() -> bool {
        true
    }

    open spec fn from_spec(node: JsStaticMemberAssignment<'a>) -> AnyNode<'a> {
        AnyNode::JsStaticMemberAssignment(node)
    }
}

impl<'a> From<JsComputedMemberAssignment<'a>> for AnyNode<'a> {
    fn from(node: JsComputedMemberAssignment<'a>) -> (r: AnyNode<'a>)
        ensures
            r == AnyNode::JsComputedMemberAssignment(node),
    {
        AnyNode::JsComputedMemberAssignment(node)
    }
}

impl<'a> vstd::std_specs::convert::FromSpecImpl<JsComputedMemberAssignment<'a>> for AnyNode<'a> {
    open spec fn obeys_from_spec() -> bool {
        true
    }

    open spec fn from_spec(node: JsComputedMemberAssignment<'a>) -> AnyNode<'a> {
        AnyNode::JsComputedMemberAssignment(node)
    }
}

impl<'a> From<JsParenthesizedAssignment<'a>> for AnyNode<'a> {
    fn from(node: JsParenthesizedAssignment<'a>) -> (r: AnyNode<'a>)
        ensures
            r == AnyNode::JsParenthesizedAssignment(node),
    {
        AnyNode::JsParenthesizedAssignment(node)
    }
}

impl<'a> vstd::std_specs::convert::FromSpecImpl<JsParenthesizedAssignment<'a>> for AnyNode<'a> {
    open spec fn obeys_from_spec() -> bool {
        true
    }

    open spec fn from_spec(node: JsParenthesizedAssignment<'a>) -> AnyNode<'a> {
        AnyNode::JsParenthesizedAssignment(node)
    }
}

impl<'a> From<JsAssignmentWithDefault<'a>> for AnyNode<'a> {
    fn from(node: JsAssignmentWithDefault<'a>) -> (r: AnyNode<'a>)
        ensures
            r == AnyNode::JsAssignmentWithDefault(node),
    {
        AnyNode::JsAssignmentWithDefault(node)
    }
}

impl<'a> vstd::std_specs::convert::FromSpecImpl<JsAssignmentWithDefault<'a>> for AnyNode<'a> {
    open spec fn obeys_from_spec() -> bool {
        true
    }

    open spec fn from_spec(node: JsAssignmentWithDefault<'a>) -> AnyNode<'a> {
        AnyNode::JsAssignmentWithDefault(node)
    }
}

impl<'a> From<JsArrayAssignmentPattern<'a>> for AnyNode<'a> {
    fn from(node: JsArrayAssignmentPattern<'a>) -> (r: AnyNode<'a>)
        ensures
            r == AnyNode::JsArrayAssignmentPattern(node),
    {
        AnyNode::JsArrayAssignmentPattern(node)
    }
}

impl<'a> vstd::std_specs::convert::FromSpecImpl<JsArrayAssignmentPattern<'a>> for AnyNode<'a> {
    open spec fn obeys_from_spec() -> bool {
        true
    }

    open spec fn from_spec(node: JsArrayAssignmentPattern<'a>) -> AnyNode<'a> {
        AnyNode::JsArrayAssignmentPattern(node)
    }
}

impl<'a> From<JsObjectAssignmentPattern<'a>> for AnyNode<'a> {
    fn from(node: JsObjectAssignmentPattern<'a>) -> (r: AnyNode<'a>)
        ensures
            r == AnyNode::JsObjectAssignmentPattern(node),
    {
        AnyNode::JsObjectAssignmentPattern(node)
    }
}

impl<'a> vstd::std_specs::convert::FromSpecImpl<JsObjectAssignmentPattern<'a>> for AnyNode<'a> {
    open spec fn obeys_from_spec() -> bool {
        true
    }

    open spec fn from_spec(node: JsObjectAssignmentPattern<'a>) -> AnyNode<'a> {
        AnyNode::JsObjectAssignmentPattern(node)
    }
}

impl<'a> From<JsArrayAssignmentPatternRestElement<'a>> for AnyNode<'a> {
    fn from(node: JsArrayAssignmentPatternRestElement<'a>) -> (r: AnyNode<'a>)
        ensures
            r == AnyNode::JsArrayAssignmentPatternRestElement(node),
    {
        AnyNode::JsArrayAssignmentPatternRestElement(node)
    }
}

impl<'a> vstd::std_specs::convert::FromSpecImpl<JsArrayAssignmentPatternRestElement<'a>> for AnyNode<'a> {
    open spec fn obeys_from_spec() -> bool {
        true
    }

    open spec fn from_spec(node: JsArrayAssignmentPatternRestElement<'a>) -> AnyNode<'a> {
        AnyNode::JsArrayAssignmentPatternRestElement(node)
    }
}

impl<'a> From<JsObjectAssignmentPatternShorthandProperty<'a>> for AnyNode<'a> {
    fn from(node: JsObjectAssignmentPatternShorthandProperty<'a>) -> (r: AnyNode<'a>)
        ensures
            r == AnyNode::JsObjectAssignmentPatternShorthandProperty(node),
    {
        AnyNode::JsObjectAssignmentPatternShorthandProperty(node)
    }
}

impl<'a> vstd::std_specs::convert::FromSpecImpl<JsObjectAssignmentPatternShorthandProperty<'a>> for AnyNode<'a> {
    open spec fn obeys_from_spec() -> bool {
        true
    }

    open spec fn from_spec(node: JsObjectAssignmentPatternShorthandProperty<'a>) -> AnyNode<'a> {
        AnyNode::JsObjectAssignmentPatternShorthandProperty(node)
    }
}

impl<'a> From<JsObjectAssignmentPatternProperty<'a>> for AnyNode<'a> {
    fn from(node: JsObjectAssignmentPatternProperty<'a>) -> (r: AnyNode<'a>)
        ensures
            r == AnyNode::JsObjectAssignmentPatternProperty(node),
    {
        AnyNode::JsObjectAssignmentPatternProperty(node)
    }
}

impl<'a> vstd::std_specs::convert::FromSpecImpl<JsObjectAssignmentPatternProperty<'a>> for AnyNode<'a> {
    open spec fn obeys_from_spec() -> bool {
        true
    }

    open spec fn from_spec(node: JsObjectAssignmentPatternProperty<'a>) -> AnyNode<'a> {
        AnyNode::JsObjectAssignmentPatternProperty(node)
    }
}

impl<'a> From<JsObjectAssignmentPatternRest<'a>> for AnyNode<'a> {
    fn from(node: JsObjectAssignmentPatternRest<'a>) -> (r: AnyNode<'a>)
        ensures
            r == AnyNode::JsObjectAssignmentPatternRest(node),
    {
        AnyNode::JsObjectAssignmentPatternRest(node)
    }
}

impl<'a> vstd::std_specs::convert::FromSpecImpl<JsObjectAssignmentPatternRest<'a>> for AnyNode<'a> {
    open spec fn obeys_from_spec() -> bool {
        true
    }

    open spec fn from_spec(node: JsObjectAssignmentPatternRest<'a>) -> AnyNode<'a> {
        AnyNode::JsObjectAssignmentPatternRest(node)
    }
}

impl<'a> From<JsName<'a>> for AnyNode<'a> {
    fn from(node: JsName<'a>) -> (r: AnyNode<'a>)
        ensures
            r == AnyNode::JsName(node),
    {
        AnyNode::JsName(node)
    }
}

impl<'a> vstd::std_specs::convert::FromSpecImpl<JsName<'a>> for AnyNode<'a> {
    open spec fn obeys_from_spec() -> bool {
        true
    }

    open spec fn from_spec(node: JsName<'a>) -> AnyNode<'a> {
        AnyNode::JsName(node)
    }
}

impl<'a> From<JsIdentifierBinding<'a>> for AnyNode<'a> {
    fn from(node: JsIdentifierBinding<'a>) -> (r: AnyNode<'a>)
        ensures
            r == AnyNode::JsIdentifierBinding(node),
    {
        AnyNode::JsIdentifierBinding(node)
    }
}

impl<'a> vstd::std_specs::convert::FromSpecImpl<JsIdentifierBinding<'a>> for AnyNode<'a> {
    open spec fn obeys_from_spec() -> bool {
        true
    }

    open spec fn from_spec(node: JsIdentifierBinding<'a>) -> AnyNode<'a> {
        AnyNode::JsIdentifierBinding(node)
    }
}

impl<'a> From<JsArrayBindingPattern<'a>> for AnyNode<'a> {
    fn from(node: JsArrayBindingPattern<'a>) -> (r: AnyNode<'a>)
        ensures
            r == AnyNode::JsArrayBindingPattern(node),
    {
        AnyNode::JsArrayBindingPattern(node)
    }
}

impl<'a> vstd::std_specs::convert::FromSpecImpl<JsArrayBindingPattern<'a>> for AnyNode<'a> {
    open spec fn obeys_from_spec() -> bool {
        true
    }

    open spec fn from_spec(node: JsArrayBindingPattern<'a>) -> AnyNode<'a> {
        AnyNode::JsArrayBindingPattern(node)
    }
}

impl<'a> From<JsObjectBindingPattern<'a>> for AnyNode<'a> {
    fn from(node: JsObjectBindingPattern<'a>) -> (r: AnyNode<'a>)
        ensures
            r == AnyNode::JsObjectBindingPattern(node),
    {
        AnyNode::JsObjectBindingPattern(node)
    }
}

impl<'a> vstd::std_specs::convert::FromSpecImpl<JsObjectBindingPattern<'a>> for AnyNode<'a> {
    open spec fn obeys_from_spec() -> bool {
        true
    }

    open spec fn from_spec(node: JsObjectBindingPattern<'a>) -> AnyNode<'a> {
        AnyNode::JsObjectBindingPattern(node)
    }
}

impl<'a> From<JsArrayBindingPatternRestElement<'a>> for AnyNode<'a> {
    fn from(node: JsArrayBindingPatternRestElement<'a>) -> (r: AnyNode<'a>)
        ensures
            r == AnyNode::JsArrayBindingPatternRestElement(node),
    {
        AnyNode::JsArrayBindingPatternRestElement(node)
    }
}

impl<'a> vstd::std_specs::convert::FromSpecImpl<JsArrayBindingPatternRestElement<'a>> for AnyNode<'a> {
    open spec fn obeys_from_spec() -> bool {
        true
    }

    open spec fn from_spec(node: JsArrayBindingPatternRestElement<'a>) -> AnyNode<'a> {
        AnyNode::JsArrayBindingPatternRestElement(node)
    }
}

impl<'a> From<JsObjectBindingPatternProperty<'a>> for AnyNode<'a> {
    fn from(node: JsObjectBindingPatternProperty<'a>) -> (r: AnyNode<'a>)
        ensures
            r == AnyNode::JsObjectBindingPatternProperty(node),
    {
        AnyNode::JsObjectBindingPatternProperty(node)
    }
}

impl<'a> vstd::std_specs::convert::FromSpecImpl<JsObjectBindingPatternProperty<'a>> for AnyNode<'a> {
    open spec fn obeys_from_spec() -> bool {
        true
    }

    open spec fn from_spec(node: JsObjectBindingPatternProperty<'a>) -> AnyNode<'a> {
        AnyNode::JsObjectBindingPatternProperty(node)
    }
}

impl<'a> From<JsObjectBindingPatternRest<'a>> for AnyNode<'a> {
    fn from(node: JsObjectBindingPatternRest<'a>) -> (r: AnyNode<'a>)
        ensures
            r == AnyNode::JsObjectBindingPatternRest(node),
    {
        AnyNode::JsObjectBindingPatternRest(node)
    }
}

impl<'a> vstd::std_specs::convert::FromSpecImpl<JsObjectBindingPatternRest<'a>> for AnyNode<'a> {
    open spec fn obeys_from_spec() -> bool {
        true
    }

    open spec fn from_spec(node: JsObjectBindingPatternRest<'a>) -> AnyNode<'a> {
        AnyNode::JsObjectBindingPatternRest(node)
    }
}

impl<'a> From<JsObjectBindingPatternShorthandProperty<'a>> for AnyNode<'a> {
    fn from(node: JsObjectBindingPatternShorthandProperty<'a>) -> (r: AnyNode<'a>)
        ensures
            r == AnyNode::JsObjectBindingPatternShorthandProperty(node),
    {
        AnyNode::JsObjectBindingPatternShorthandProperty(node)
    }
}

impl<'a> vstd::std_specs::convert::FromSpecImpl<JsObjectBindingPatternShorthandProperty<'a>> for AnyNode<'a> {
    open spec fn obeys_from_spec() -> bool {
        true
    }

    open spec fn from_spec(node: JsObjectBindingPatternShorthandProperty<'a>) -> AnyNode<'a> {
        AnyNode::JsObjectBindingPatternShorthandProperty(node)
    }
}

impl<'a> From<JsStringLiteralExpression<'a>> for AnyNode<'a> {
    fn from(node: JsStringLiteralExpression<'a>) -> (r: AnyNode<'a>)
        ensures
            r == AnyNode::JsStringLiteralExpression(node),
    {
        AnyNode::JsStringLiteralExpression(node)
    }
}

impl<'a> vstd::std_specs::convert::FromSpecImpl<JsStringLiteralExpression<'a>> for AnyNode<'a> {
    open spec fn obeys_from_spec() -> bool {
        true
    }

    open spec fn from_spec(node: JsStringLiteralExpression<'a>) -> AnyNode<'a> {
        AnyNode::JsStringLiteralExpression(node)
    }
}

impl<'a> From<JsNumberLiteralExpression<'a>> for AnyNode<'a> {
    fn from(node: JsNumberLiteralExpression<'a>) -> (r: AnyNode<'a>)
        ensures
            r == AnyNode::JsNumberLiteralExpression(node),
    {
        AnyNode::JsNumberLiteralExpression(node)
    }
}

impl<'a> vstd::std_specs::convert::FromSpecImpl<JsNumberLiteralExpression<'a>> for AnyNode<'a> {
    open spec fn obeys_from_spec() -> bool {
        true
    }

    open spec fn from_spec(node: JsNumberLiteralExpression<'a>) -> AnyNode<'a> {
        AnyNode::JsNumberLiteralExpression(node)
    }
}

impl<'a> From<JsBigIntLiteralExpression<'a>> for AnyNode<'a> {
    fn from(node: JsBigIntLiteralExpression<'a>) -> (r: AnyNode<'a>)
        ensures
            r == AnyNode::JsBigIntLiteralExpression(node),
    {
        AnyNode::JsBigIntLiteralExpression(node)
    }
}

impl<'a> vstd::std_specs::convert::FromSpecImpl<JsBigIntLiteralExpression<'a>> for AnyNode<'a> {
    open spec fn obeys_from_spec() -> bool {
        true
    }

    open spec fn from_spec(node: JsBigIntLiteralExpression<'a>) -> AnyNode<'a> {
        AnyNode::JsBigIntLiteralExpression(node)
    }
}

impl<'a> From<JsBooleanLiteralExpression<'a>> for AnyNode<'a> {
    fn from(node: JsBooleanLiteralExpression<'a>) -> (r: AnyNode<'a>)
        ensures
            r == AnyNode::JsBooleanLiteralExpression(node),
    {
        AnyNode::JsBooleanLiteralExpression(node)
    }
}

impl<'a> vstd::std_specs::convert::FromSpecImpl<JsBooleanLiteralExpression<'a>> for AnyNode<'a> {
    open spec fn obeys_from_spec() -> bool {
        true
    }

    open spec fn from_spec(node: JsBooleanLiteralExpression<'a>) -> AnyNode<'a> {
        AnyNode::JsBooleanLiteralExpression(node)
    }
}

impl<'a> From<JsNullLiteralExpression<'a>> for AnyNode<'a> {
    fn from(node: JsNullLiteralExpression<'a>) -> (r: AnyNode<'a>)
        ensures
            r == AnyNode::JsNullLiteralExpression(node),
    {
        AnyNode::JsNullLiteralExpression(node)
    }
}

impl<'a> vstd::std_specs::convert::FromSpecImpl<JsNullLiteralExpression<'a>> for AnyNode<'a> {
    open spec fn obeys_from_spec() -> bool {
        true
    }

    open spec fn from_spec(node: JsNullLiteralExpression<'a>) -> AnyNode<'a> {
        AnyNode::JsNullLiteralExpression(node)
    }
}

impl<'a> From<JsRegexLiteralExpression<'a>> for AnyNode<'a> {
    fn from(node: JsRegexLiteralExpression<'a>) -> (r: AnyNode<'a>)
        ensures
            r == AnyNode::JsRegexLiteralExpression(node),
    {
        AnyNode::JsRegexLiteralExpression(node)
    }
}

impl<'a> vstd::std_specs::convert::FromSpecImpl<JsRegexLiteralExpression<'a>> for AnyNode<'a> {
    open spec fn obeys_from_spec() -> bool {
        true
    }

    open spec fn from_spec(node: JsRegexLiteralExpression<'a>) -> AnyNode<'a> {
        AnyNode::JsRegexLiteralExpression(node)
    }
}

impl<'a> From<JsVariableDeclarator<'a>> for AnyNode<'a> {
    fn from(node: JsVariableDeclarator<'a>) -> (r: AnyNode<'a>)
        ensures
            r == AnyNode::JsVariableDeclarator(node),
    {
        AnyNode::JsVariableDeclarator(node)
    }
}

impl<'a> vstd::std_specs::convert::FromSpecImpl<JsVariableDeclarator<'a>> for AnyNode<'a> {
    open spec fn obeys_from_spec() -> bool {
        true
    }

    open spec fn from_spec(node: JsVariableDeclarator<'a>) -> AnyNode<'a> {
        AnyNode::JsVariableDeclarator(node)
    }
}

impl<'a> From<JsImport<'a>> for AnyNode<'a> {
    fn from(node: JsImport<'a>) -> (r: AnyNode<'a>)
        ensures
            r == AnyNode::JsImport(node),
    {
        AnyNode::JsImport(node)
    }
}

impl<'a> vstd::std_specs::convert::FromSpecImpl<JsImport<'a>> for AnyNode<'a> {
    open spec fn obeys_from_spec() -> bool {
        true
    }

    open spec fn from_spec(node: JsImport<'a>) -> AnyNode<'a> {
        AnyNode::JsImport(node)
    }
}

impl<'a> From<ExportNamed<'a>> for AnyNode<'a> {
    fn from(node: ExportNamed<'a>) -> (r: AnyNode<'a>)
        ensures
            r == AnyNode::ExportNamed(node),
    {
        AnyNode::ExportNamed(node)
    }
}

impl<'a> vstd::std_specs::convert::FromSpecImpl<ExportNamed<'a>> for AnyNode<'a> {
    open spec fn obeys_from_spec() -> bool {
        true
    }

    open spec fn from_spec(node: ExportNamed<'a>) -> AnyNode<'a> {
        AnyNode::ExportNamed(node)
    }
}

impl<'a> From<ExportDefaultDecl<'a>> for AnyNode<'a> {
    fn from(node: ExportDefaultDecl<'a>) -> (r: AnyNode<'a>)
        ensures
            r == AnyNode::ExportDefaultDecl(node),
    {
        AnyNode::ExportDefaultDecl(node)
    }
}

impl<'a> vstd::std_specs::convert::FromSpecImpl<ExportDefaultDecl<'a>> for AnyNode<'a> {
    open spec fn obeys_from_spec() -> bool {
        true
    }

    open spec fn from_spec(node: ExportDefaultDecl<'a>) -> AnyNode<'a> {
        AnyNode::ExportDefaultDecl(node)
    }
}

impl<'a> From<ExportDefaultExpr<'a>> for AnyNode<'a> {
    fn from(node: ExportDefaultExpr<'a>) -> (r: AnyNode<'a>)
        ensures
            r == AnyNode::ExportDefaultExpr(node),
    {
        AnyNode::ExportDefaultExpr(node)
    }
}

impl<'a> vstd::std_specs::convert::FromSpecImpl<ExportDefaultExpr<'a>> for AnyNode<'a> {
    open spec fn obeys_from_spec() -> bool {
        true
    }

    open spec fn from_spec(node: ExportDefaultExpr<'a>) -> AnyNode<'a> {
        AnyNode::ExportDefaultExpr(node)
    }
}

impl<'a> From<ExportWildcard<'a>> for AnyNode<'a> {
    fn from(node: ExportWildcard<'a>) -> (r: AnyNode<'a>)
        ensures
            r == AnyNode::ExportWildcard(node),
    {
        AnyNode::ExportWildcard(node)
    }
}

impl<'a> vstd::std_specs::convert::FromSpecImpl<ExportWildcard<'a>> for AnyNode<'a> {
    open spec fn obeys_from_spec() -> bool {
        true
    }

    open spec fn from_spec(node: ExportWildcard<'a>) -> AnyNode<'a> {
        AnyNode::ExportWildcard(node)
    }
}

impl<'a> From<ExportDecl<'a>> for AnyNode<'a> {
    fn from(node: ExportDecl<'a>) -> (r: AnyNode<'a>)
        ensures
            r == AnyNode::ExportDecl(node),
    {
        AnyNode::ExportDecl(node)
    }
}

impl<'a> vstd::std_specs::convert::FromSpecImpl<ExportDecl<'a>> for AnyNode<'a> {
    open spec fn obeys_from_spec() -> bool {
        true
    }

    open spec fn from_spec(node: ExportDecl<'a>) -> AnyNode<'a> {
        AnyNode::ExportDecl(node)
    }
}

impl<'a> From<TsImportEqualsDecl<'a>> for AnyNode<'a> {
    fn from(node: TsImportEqualsDecl<'a>) -> (r: AnyNode<'a>)
        ensures
            r == AnyNode::TsImportEqualsDecl(node),
    {
        AnyNode::TsImportEqualsDecl(node)
    }
}

impl<'a> vstd::std_specs::convert::FromSpecImpl<TsImportEqualsDecl<'a>> for AnyNode<'a> {
    open spec fn obeys_from_spec() -> bool {
        true
    }

    open spec fn from_spec(node: TsImportEqualsDecl<'a>) -> AnyNode<'a> {
        AnyNode::TsImportEqualsDecl(node)
    }
}

impl<'a> From<TsExportAssignment<'a>> for AnyNode<'a> {
    fn from(node: TsExportAssignment<'a>) -> (r: AnyNode<'a>)
        ensures
            r == AnyNode::TsExportAssignment(node),
    {
        AnyNode::TsExportAssignment(node)
    }
}

impl<'a> vstd::std_specs::convert::FromSpecImpl<TsExportAssignment<'a>> for AnyNode<'a> {
    open spec fn obeys_from_spec() -> bool {
        true
    }

    open spec fn from_spec(node: TsExportAssignment<'a>) -> AnyNode<'a> {
        AnyNode::TsExportAssignment(node)
    }
}

impl<'a> From<TsNamespaceExportDecl<'a>> for AnyNode<'a> {
    fn from(node: TsNamespaceExportDecl<'a>) -> (r: AnyNode<'a>)
        ensures
            r == AnyNode::TsNamespaceExportDecl(node),
    {
        AnyNode::TsNamespaceExportDecl(node)
    }
}

impl<'a> vstd::std_specs::convert::FromSpecImpl<TsNamespaceExportDecl<'a>> for AnyNode<'a> {
    open spec fn obeys_from_spec() -> bool {
        true
    }

    open spec fn from_spec(node: TsNamespaceExportDecl<'a>) -> AnyNode<'a> {
        AnyNode::TsNamespaceExportDecl(node)
    }
}

impl<'a> From<JsImportBareClause<'a>> for AnyNode<'a> {
    fn from(node: JsImportBareClause<'a>) -> (r: AnyNode<'a>)
        ensures
            r == AnyNode::JsImportBareClause(node),
    {
        AnyNode::JsImportBareClause(node)
    }
}

impl<'a> vstd::std_specs::convert::FromSpecImpl<JsImportBareClause<'a>> for AnyNode<'a> {
    open spec fn obeys_from_spec() -> bool {
        true
    }

    open spec fn from_spec(node: JsImportBareClause<'a>) -> AnyNode<'a> {
        AnyNode::JsImportBareClause(node)
    }
}

impl<'a> From<JsImportNamedClause<'a>> for AnyNode<'a> {
    fn from(node: JsImportNamedClause<'a>) -> (r: AnyNode<'a>)
        ensures
            r == AnyNode::JsImportNamedClause(node),
    {
        AnyNode::JsImportNamedClause(node)
    }
}

impl<'a> vstd::std_specs::convert::FromSpecImpl<JsImportNamedClause<'a>> for AnyNode<'a> {
    open spec fn obeys_from_spec() -> bool {
        true
    }

    open spec fn from_spec(node: JsImportNamedClause<'a>) -> AnyNode<'a> {
        AnyNode::JsImportNamedClause(node)
    }
}

impl<'a> From<JsImportDefaultClause<'a>> for AnyNode<'a> {
    fn from(node: JsImportDefaultClause<'a>) -> (r: AnyNode<'a>)
        ensures
            r == AnyNode::JsImportDefaultClause(node),
    {
        AnyNode::JsImportDefaultClause(node)
    }
}

impl<'a> vstd::std_specs::convert::FromSpecImpl<JsImportDefaultClause<'a>> for AnyNode<'a> {
    open spec fn obeys_from_spec() -> bool {
        true
    }

    open spec fn from_spec(node: JsImportDefaultClause<'a>) -> AnyNode<'a> {
        AnyNode::JsImportDefaultClause(node)
    }
}

impl<'a> From<JsImportNamespaceClause<'a>> for AnyNode<'a> {
    fn from(node: JsImportNamespaceClause<'a>) -> (r: AnyNode<'a>)
        ensures
            r == AnyNode::JsImportNamespaceClause(node),
    {
        AnyNode::JsImportNamespaceClause(node)
    }
}

impl<'a> vstd::std_specs::convert::FromSpecImpl<JsImportNamespaceClause<'a>> for AnyNode<'a> {
    open spec fn obeys_from_spec() -> bool {
        true
    }

    open spec fn from_spec(node: JsImportNamespaceClause<'a>) -> AnyNode<'a> {
        AnyNode::JsImportNamespaceClause(node)
    }
}

impl<'a> From<JsModuleSource<'a>> for AnyNode<'a> {
    fn from(node: JsModuleSource<'a>) -> (r: AnyNode<'a>)
        ensures
            r == AnyNode::JsModuleSource(node),
    {
        AnyNode::JsModuleSource(node)
    }
}

impl<'a> vstd::std_specs::convert::FromSpecImpl<JsModuleSource<'a>> for AnyNode<'a> {
    open spec fn obeys_from_spec() -> bool {
        true
    }

    open spec fn from_spec(node: JsModuleSource<'a>) -> AnyNode<'a> {
        AnyNode::JsModuleSource(node)
    }
}

impl<'a> From<JsImportAssertion<'a>> for AnyNode<'a> {
    fn from(node: JsImportAssertion<'a>) -> (r: AnyNode<'a>)
        ensures
            r == AnyNode::JsImportAssertion(node),
    {
        AnyNode::JsImportAssertion(node)
    }
}

impl<'a> vstd::std_specs::convert::FromSpecImpl<JsImportAssertion<'a>> for AnyNode<'a> {
    open spec fn obeys_from_spec() -> bool {
        true
    }

    open spec fn from_spec(node: JsImportAssertion<'a>) -> AnyNode<'a> {
        AnyNode::JsImportAssertion(node)
    }
}

impl<'a> From<JsDefaultImportSpecifier<'a>> for AnyNode<'a> {
    fn from(node: JsDefaultImportSpecifier<'a>) -> (r: AnyNode<'a>)
        ensures
            r == AnyNode::JsDefaultImportSpecifier(node),
    {
        AnyNode::JsDefaultImportSpecifier(node)
    }
}

impl<'a> vstd::std_specs::convert::FromSpecImpl<JsDefaultImportSpecifier<'a>> for AnyNode<'a> {
    open spec fn obeys_from_spec() -> bool {
        true
    }

    open spec fn from_spec(node: JsDefaultImportSpecifier<'a>) -> AnyNode<'a> {
        AnyNode::JsDefaultImportSpecifier(node)
    }
}

impl<'a> From<JsNamedImportSpecifierList<'a>> for AnyNode<'a> {
    fn from(node: JsNamedImportSpecifierList<'a>) -> (r: AnyNode<'a>)
        ensures
            r == AnyNode::JsNamedImportSpecifierList(node),
    {
        AnyNode::JsNamedImportSpecifierList(node)
    }
}

impl<'a> vstd::std_specs::convert::FromSpecImpl<JsNamedImportSpecifierList<'a>> for AnyNode<'a> {
    open spec fn obeys_from_spec() -> bool {
        true
    }

    open spec fn from_spec(node: JsNamedImportSpecifierList<'a>) -> AnyNode<'a> {
        AnyNode::JsNamedImportSpecifierList(node)
    }
}

impl<'a> From<JsNamespaceImportSpecifier<'a>> for AnyNode<'a> {
    fn from(node: JsNamespaceImportSpecifier<'a>) -> (r: AnyNode<'a>)
        ensures
            r == AnyNode::JsNamespaceImportSpecifier(node),
    {
        AnyNode::JsNamespaceImportSpecifier(node)
    }
}

impl<'a> vstd::std_specs::convert::FromSpecImpl<JsNamespaceImportSpecifier<'a>> for AnyNode<'a> {
    open spec fn obeys_from_spec() -> bool {
        true
    }

    open spec fn from_spec(node: JsNamespaceImportSpecifier<'a>) -> AnyNode<'a> {
        AnyNode::JsNamespaceImportSpecifier(node)
    }
}

impl<'a> From<JsShorthandNamedImportSpecifier<'a>> for AnyNode<'a> {
    fn from(node: JsShorthandNamedImportSpecifier<'a>) -> (r: AnyNode<'a>)
        ensures
            r == AnyNode::JsShorthandNamedImportSpecifier(node),
    {
        AnyNode::JsShorthandNamedImportSpecifier(node)
    }
}

impl<'a> vstd::std_specs::convert::FromSpecImpl<JsShorthandNamedImportSpecifier<'a>> for AnyNode<'a> {
    open spec fn obeys_from_spec() -> bool {
        true
    }

    open spec fn from_spec(node: JsShorthandNamedImportSpecifier<'a>) -> AnyNode<'a> {
        AnyNode::JsShorthandNamedImportSpecifier(node)
    }
}

impl<'a> From<JsNamedImportSpecifier<'a>> for AnyNode<'a> {
    fn from(node: JsNamedImportSpecifier<'a>) -> (r: AnyNode<'a>)
        ensures
            r == AnyNode::JsNamedImportSpecifier(node),
    {
        AnyNode::JsNamedImportSpecifier(node)
    }
}

impl<'a> vstd::std_specs::convert::FromSpecImpl<JsNamedImportSpecifier<'a>> for AnyNode<'a> {
    open spec fn obeys_from_spec() -> bool {
        true
    }

    open spec fn from_spec(node: JsNamedImportSpecifier<'a>) -> AnyNode<'a> {
        AnyNode::JsNamedImportSpecifier(node)
    }
}

impl<'a> From<JsLiteralExportName<'a>> for AnyNode<'a> {
    fn from(node: JsLiteralExportName<'a>) -> (r: AnyNode<'a>)
        ensures
            r == AnyNode::JsLiteralExportName(node),
    {
        AnyNode::JsLiteralExportName(node)
    }
}

impl<'a> vstd::std_specs::convert::FromSpecImpl<JsLiteralExportName<'a>> for AnyNode<'a> {
    open spec fn obeys_from_spec() -> bool {
        true
    }

    open spec fn from_spec(node: JsLiteralExportName<'a>) -> AnyNode<'a> {
        AnyNode::JsLiteralExportName(node)
    }
}

impl<'a> From<JsImportAssertionEntry<'a>> for AnyNode<'a> {
    fn from(node: JsImportAssertionEntry<'a>) -> (r: AnyNode<'a>)
        ensures
            r == AnyNode::JsImportAssertionEntry(node),
    {
        AnyNode::JsImportAssertionEntry(node)
    }
}

impl<'a> vstd::std_specs::convert::FromSpecImpl<JsImportAssertionEntry<'a>> for AnyNode<'a> {
    open spec fn obeys_from_spec() -> bool {
        true
    }

    open spec fn from_spec(node: JsImportAssertionEntry<'a>) -> AnyNode<'a> {
        AnyNode::JsImportAssertionEntry(node)
    }
}

impl<'a> From<Specifier<'a>> for AnyNode<'a> {
    fn from(node: Specifier<'a>) -> (r: AnyNode<'a>)
        ensures
            r == AnyNode::Specifier(node),
    {
        AnyNode::Specifier(node)
    }
}

impl<'a> vstd::std_specs::convert::FromSpecImpl<Specifier<'a>> for AnyNode<'a> {
    open spec fn obeys_from_spec() -> bool {
        true
    }

    open spec fn from_spec(node: Specifier<'a>) -> AnyNode<'a> {
        AnyNode::Specifier(node)
    }
}

impl<'a> From<JsPrivateName<'a>> for AnyNode<'a> {
    fn from(node: JsPrivateName<'a>) -> (r: AnyNode<'a>)
        ensures
            r == AnyNode::JsPrivateName(node),
    {
        AnyNode::JsPrivateName(node)
    }
}

impl<'a> vstd::std_specs::convert::FromSpecImpl<JsPrivateName<'a>> for AnyNode<'a> {
    open spec fn obeys_from_spec() -> bool {
        true
    }

    open spec fn from_spec(node: JsPrivateName<'a>) -> AnyNode<'a> {
        AnyNode::JsPrivateName(node)
    }
}

impl<'a> From<JsRestParameter<'a>> for AnyNode<'a> {
    fn from(node: JsRestParameter<'a>) -> (r: AnyNode<'a>)
        ensures
            r == AnyNode::JsRestParameter(node),
    {
        AnyNode::JsRestParameter(node)
    }
}

impl<'a> vstd::std_specs::convert::FromSpecImpl<JsRestParameter<'a>> for AnyNode<'a> {
    open spec fn obeys_from_spec() -> bool {
        true
    }

    open spec fn from_spec(node: JsRestParameter<'a>) -> AnyNode<'a> {
        AnyNode::JsRestParameter(node)
    }
}

impl<'a> From<TsExternalModuleRef<'a>> for AnyNode<'a> {
    fn from(node: TsExternalModuleRef<'a>) -> (r: AnyNode<'a>)
        ensures
            r == AnyNode::TsExternalModuleRef(node),
    {
        AnyNode::TsExternalModuleRef(node)
    }
}

impl<'a> vstd::std_specs::convert::FromSpecImpl<TsExternalModuleRef<'a>> for AnyNode<'a> {
    open spec fn obeys_from_spec() -> bool {
        true
    }

    open spec fn from_spec(node: TsExternalModuleRef<'a>) -> AnyNode<'a> {
        AnyNode::TsExternalModuleRef(node)
    }
}

impl<'a> From<TsAny<'a>> for AnyNode<'a> {
    fn from(node: TsAny<'a>) -> (r: AnyNode<'a>)
        ensures
            r == AnyNode::TsAny(node),
    {
        AnyNode::TsAny(node)
    }
}

impl<'a> vstd::std_specs::convert::FromSpecImpl<TsAny<'a>> for AnyNode<'a> {
    open spec fn obeys_from_spec() -> bool {
        true
    }

    open spec fn from_spec(node: TsAny<'a>) -> AnyNode<'a> {
        AnyNode::TsAny(node)
    }
}

impl<'a> From<TsUnknown<'a>> for AnyNode<'a> {
    fn from(node: TsUnknown<'a>) -> (r: AnyNode<'a>)
        ensures
            r == AnyNode::TsUnknown(node),
    {
        AnyNode::TsUnknown(node)
    }
}

impl<'a> vstd::std_specs::convert::FromSpecImpl<TsUnknown<'a>> for AnyNode<'a> {
    open spec fn obeys_from_spec() -> bool {
        true
    }

    open spec fn from_spec(node: TsUnknown<'a>) -> AnyNode<'a> {
        AnyNode::TsUnknown(node)
    }
}

impl<'a> From<TsNumber<'a>> for AnyNode<'a> {
    fn from(node: TsNumber<'a>) -> (r: AnyNode<'a>)
        ensures
            r == AnyNode::TsNumber(node),
    {
        AnyNode::TsNumber(node)
    }
}

impl<'a> vstd::std_specs::convert::FromSpecImpl<TsNumber<'a>> for AnyNode<'a> {
    open spec fn obeys_from_spec() -> bool {
        true
    }

    open spec fn from_spec(node: TsNumber<'a>) -> AnyNode<'a> {
        AnyNode::TsNumber(node)
    }
}

impl<'a> From<TsObject<'a>> for AnyNode<'a> {
    fn from(node: TsObject<'a>) -> (r: AnyNode<'a>)
        ensures
            r == AnyNode::TsObject(node),
    {
        AnyNode::TsObject(node)
    }
}

impl<'a> vstd::std_specs::convert::FromSpecImpl<TsObject<'a>> for AnyNode<'a> {
    open spec fn obeys_from_spec() -> bool {
        true
    }

    open spec fn from_spec(node: TsObject<'a>) -> AnyNode<'a> {
        AnyNode::TsObject(node)
    }
}

impl<'a> From<TsBoolean<'a>> for AnyNode<'a> {
    fn from(node: TsBoolean<'a>) -> (r: AnyNode<'a>)
        ensures
            r == AnyNode::TsBoolean(node),
    {
        AnyNode::TsBoolean(node)
    }
}

impl<'a> vstd::std_specs::convert::FromSpecImpl<TsBoolean<'a>> for AnyNode<'a> {
    open spec fn obeys_from_spec() -> bool {
        true
    }

    open spec fn from_spec(node: TsBoolean<'a>) -> AnyNode<'a> {
        AnyNode::TsBoolean(node)
    }
}

impl<'a> From<TsBigint<'a>> for AnyNode<'a> {
    fn from(node: TsBigint<'a>) -> (r: AnyNode<'a>)
        ensures
            r == AnyNode::TsBigint(node),
    {
        AnyNode::TsBigint(node)
    }
}

impl<'a> vstd::std_specs::convert::FromSpecImpl<TsBigint<'a>> for AnyNode<'a> {
    open spec fn obeys_from_spec() -> bool {
        true
    }

    open spec fn from_spec(node: TsBigint<'a>) -> AnyNode<'a> {
        AnyNode::TsBigint(node)
    }
}

impl<'a> From<TsString<'a>> for AnyNode<'a> {
    fn from(node: TsString<'a>) -> (r: AnyNode<'a>)
        ensures
            r == AnyNode::TsString(node),
    {
        AnyNode::TsString(node)
    }
}

impl<'a> vstd::std_specs::convert::FromSpecImpl<TsString<'a>> for AnyNode<'a> {
    open spec fn obeys_from_spec() -> bool {
        true
    }

    open spec fn from_spec(node: TsString<'a>) -> AnyNode<'a> {
        AnyNode::TsString(node)
    }
}

impl<'a> From<TsSymbol<'a>> for AnyNode<'a> {
    fn from(node: TsSymbol<'a>) -> (r: AnyNode<'a>)
        ensures
            r == AnyNode::TsSymbol(node),
    {
        AnyNode::TsSymbol(node)
    }
}

impl<'a> vstd::std_specs::convert::FromSpecImpl<TsSymbol<'a>> for AnyNode<'a> {
    open spec fn obeys_from_spec() -> bool {
        true
    }

    open spec fn from_spec(node: TsSymbol<'a>) -> AnyNode<'a> {
        AnyNode::TsSymbol(node)
    }
}

impl<'a> From<TsVoid<'a>> for AnyNode<'a> {
    fn from(node: TsVoid<'a>) -> (r: AnyNode<'a>)
        ensures
            r == AnyNode::TsVoid(node),
    {
        AnyNode::TsVoid(node)
    }
}

impl<'a> vstd::std_specs::convert::FromSpecImpl<TsVoid<'a>> for AnyNode<'a> {
    open spec fn obeys_from_spec() -> bool {
        true
    }

    open spec fn from_spec(node: TsVoid<'a>) -> AnyNode<'a> {
        AnyNode::TsVoid(node)
    }
}

impl<'a> From<TsUndefined<'a>> for AnyNode<'a> {
    fn from(node: TsUndefined<'a>) -> (r: AnyNode<'a>)
        ensures
            r == AnyNode::TsUndefined(node),
    {
        AnyNode::TsUndefined(node)
    }
}

impl<'a> vstd::std_specs::convert::FromSpecImpl<TsUndefined<'a>> for AnyNode<'a> {
    open spec fn obeys_from_spec() -> bool {
        true
    }

    open spec fn from_spec(node: TsUndefined<'a>) -> AnyNode<'a> {
        AnyNode::TsUndefined(node)
    }
}

impl<'a> From<TsNull<'a>> for AnyNode<'a> {
    fn from(node: TsNull<'a>) -> (r: AnyNode<'a>)
        ensures
            r == AnyNode::TsNull(node),
    {
        AnyNode::TsNull(node)
    }
}

impl<'a> vstd::std_specs::convert::FromSpecImpl<TsNull<'a>> for AnyNode<'a> {
    open spec fn obeys_from_spec() -> bool {
        true
    }

    open spec fn from_spec(node: TsNull<'a>) -> AnyNode<'a> {
        AnyNode::TsNull(node)
    }
}

impl<'a> From<TsNever<'a>> for AnyNode<'a> {
    fn from(node: TsNever<'a>) -> (r: AnyNode<'a>)
        ensures
            r == AnyNode::TsNever(node),
    {
        AnyNode::TsNever(node)
    }
}

impl<'a> vstd::std_specs::convert::FromSpecImpl<TsNever<'a>> for AnyNode<'a> {
    open spec fn obeys_from_spec() -> bool {
        true
    }

    open spec fn from_spec(node: TsNever<'a>) -> AnyNode<'a> {
        AnyNode::TsNever(node)
    }
}

impl<'a> From<TsThis<'a>> for AnyNode<'a> {
    fn from(node: TsThis<'a>) -> (r: AnyNode<'a>)
        ensures
            r == AnyNode::TsThis(node),
    {
        AnyNode::TsThis(node)
    }
}

impl<'a> vstd::std_specs::convert::FromSpecImpl<TsThis<'a>> for AnyNode<'a> {
    open spec fn obeys_from_spec() -> bool {
        true
    }

    open spec fn from_spec(node: TsThis<'a>) -> AnyNode<'a> {
        AnyNode::TsThis(node)
    }
}

impl<'a> From<TsLiteral<'a>> for AnyNode<'a> {
    fn from(node: TsLiteral<'a>) -> (r: AnyNode<'a>)
        ensures
            r == AnyNode::TsLiteral(node),
    {
        AnyNode::TsLiteral(node)
    }
}

impl<'a> vstd::std_specs::convert::FromSpecImpl<TsLiteral<'a>> for AnyNode<'a> {
    open spec fn obeys_from_spec() -> bool {
        true
    }

    open spec fn from_spec(node: TsLiteral<'a>) -> AnyNode<'a> {
        AnyNode::TsLiteral(node)
    }
}

impl<'a> From<TsPredicate<'a>> for AnyNode<'a> {
    fn from(node: TsPredicate<'a>) -> (r: AnyNode<'a>)
        ensures
            r == AnyNode::TsPredicate(node),
    {
        AnyNode::TsPredicate(node)
    }
}

impl<'a> vstd::std_specs::convert::FromSpecImpl<TsPredicate<'a>> for AnyNode<'a> {
    open spec fn obeys_from_spec() -> bool {
        true
    }

    open spec fn from_spec(node: TsPredicate<'a>) -> AnyNode<'a> {
        AnyNode::TsPredicate(node)
    }
}

impl<'a> From<TsTuple<'a>> for AnyNode<'a> {
    fn from(node: TsTuple<'a>) -> (r: AnyNode<'a>)
        ensures
            r == AnyNode::TsTuple(node),
    {
        AnyNode::TsTuple(node)
    }
}

impl<'a> vstd::std_specs::convert::FromSpecImpl<TsTuple<'a>> for AnyNode<'a> {
    open spec fn obeys_from_spec() -> bool {
        true
    }

    open spec fn from_spec(node: TsTuple<'a>) -> AnyNode<'a> {
        AnyNode::TsTuple(node)
    }
}

impl<'a> From<TsParen<'a>> for AnyNode<'a> {
    fn from(node: TsParen<'a>) -> (r: AnyNode<'a>)
        ensures
            r == AnyNode::TsParen(node),
    {
        AnyNode::TsParen(node)
    }
}

impl<'a> vstd::std_specs::convert::FromSpecImpl<TsParen<'a>> for AnyNode<'a> {
    open spec fn obeys_from_spec() -> bool {
        true
    }

    open spec fn from_spec(node: TsParen<'a>) -> AnyNode<'a> {
        AnyNode::TsParen(node)
    }
}

impl<'a> From<TsTypeRef<'a>> for AnyNode<'a> {
    fn from(node: TsTypeRef<'a>) -> (r: AnyNode<'a>)
        ensures
            r == AnyNode::TsTypeRef(node),
    {
        AnyNode::TsTypeRef(node)
    }
}

impl<'a> vstd::std_specs::convert::FromSpecImpl<TsTypeRef<'a>> for AnyNode<'a> {
    open spec fn obeys_from_spec() -> bool {
        true
    }

    open spec fn from_spec(node: TsTypeRef<'a>) -> AnyNode<'a> {
        AnyNode::TsTypeRef(node)
    }
}

impl<'a> From<TsTemplate<'a>> for AnyNode<'a> {
    fn from(node: TsTemplate<'a>) -> (r: AnyNode<'a>)
        ensures
            r == AnyNode::TsTemplate(node),
    {
        AnyNode::TsTemplate(node)
    }
}

impl<'a> vstd::std_specs::convert::FromSpecImpl<TsTemplate<'a>> for AnyNode<'a> {
    open spec fn obeys_from_spec() -> bool {
        true
    }

    open spec fn from_spec(node: TsTemplate<'a>) -> AnyNode<'a> {
        AnyNode::TsTemplate(node)
    }
}

impl<'a> From<TsMappedType<'a>> for AnyNode<'a> {
    fn from(node: TsMappedType<'a>) -> (r: AnyNode<'a>)
        ensures
            r == AnyNode::TsMappedType(node),
    {
        AnyNode::TsMappedType(node)
    }
}

impl<'a> vstd::std_specs::convert::FromSpecImpl<TsMappedType<'a>> for AnyNode<'a> {
    open spec fn obeys_from_spec() -> bool {
        true
    }

    open spec fn from_spec(node: TsMappedType<'a>) -> AnyNode<'a> {
        AnyNode::TsMappedType(node)
    }
}

impl<'a> From<TsImport<'a>> for AnyNode<'a> {
    fn from(node: TsImport<'a>) -> (r: AnyNode<'a>)
        ensures
            r == AnyNode::TsImport(node),
    {
        AnyNode::TsImport(node)
    }
}

impl<'a> vstd::std_specs::convert::FromSpecImpl<TsImport<'a>> for AnyNode<'a> {
    open spec fn obeys_from_spec() -> bool {
        true
    }

    open spec fn from_spec(node: TsImport<'a>) -> AnyNode<'a> {
        AnyNode::TsImport(node)
    }
}

impl<'a> From<TsArray<'a>> for AnyNode<'a> {
    fn from(node: TsArray<'a>) -> (r: AnyNode<'a>)
        ensures
            r == AnyNode::TsArray(node),
    {
        AnyNode::TsArray(node)
    }
}

impl<'a> vstd::std_specs::convert::FromSpecImpl<TsArray<'a>> for AnyNode<'a> {
    open spec fn obeys_from_spec() -> bool {
        true
    }

    open spec fn from_spec(node: TsArray<'a>) -> AnyNode<'a> {
        AnyNode::TsArray(node)
    }
}

impl<'a> From<TsIndexedArray<'a>> for AnyNode<'a> {
    fn from(node: TsIndexedArray<'a>) -> (r: AnyNode<'a>)
        ensures
            r == AnyNode::TsIndexedArray(node),
    {
        AnyNode::TsIndexedArray(node)
    }
}

impl<'a> vstd::std_specs::convert::FromSpecImpl<TsIndexedArray<'a>> for AnyNode<'a> {
    open spec fn obeys_from_spec() -> bool {
        true
    }

    open spec fn from_spec(node: TsIndexedArray<'a>) -> AnyNode<'a> {
        AnyNode::TsIndexedArray(node)
    }
}

impl<'a> From<TsTypeOperator<'a>> for AnyNode<'a> {
    fn from(node: TsTypeOperator<'a>) -> (r: AnyNode<'a>)
        ensures
            r == AnyNode::TsTypeOperator(node),
    {
        AnyNode::TsTypeOperator(node)
    }
}

impl<'a> vstd::std_specs::convert::FromSpecImpl<TsTypeOperator<'a>> for AnyNode<'a> {
    open spec fn obeys_from_spec() -> bool {
        true
    }

    open spec fn from_spec(node: TsTypeOperator<'a>) -> AnyNode<'a> {
        AnyNode::TsTypeOperator(node)
    }
}

impl<'a> From<TsIntersection<'a>> for AnyNode<'a> {
    fn from(node: TsIntersection<'a>) -> (r: AnyNode<'a>)
        ensures
            r == AnyNode::TsIntersection(node),
    {
        AnyNode::TsIntersection(node)
    }
}

impl<'a> vstd::std_specs::convert::FromSpecImpl<TsIntersection<'a>> for AnyNode<'a> {
    open spec fn obeys_from_spec() -> bool {
        true
    }

    open spec fn from_spec(node: TsIntersection<'a>) -> AnyNode<'a> {
        AnyNode::TsIntersection(node)
    }
}

impl<'a> From<TsUnion<'a>> for AnyNode<'a> {
    fn from(node: TsUnion<'a>) -> (r: AnyNode<'a>)
        ensures
            r == AnyNode::TsUnion(node),
    {
        AnyNode::TsUnion(node)
    }
}

impl<'a> vstd::std_specs::convert::FromSpecImpl<TsUnion<'a>> for AnyNode<'a> {
    open spec fn obeys_from_spec() -> bool {
        true
    }

    open spec fn from_spec(node: TsUnion<'a>) -> AnyNode<'a> {
        AnyNode::TsUnion(node)
    }
}

impl<'a> From<TsFnType<'a>> for AnyNode<'a> {
    fn from(node: TsFnType<'a>) -> (r: AnyNode<'a>)
        ensures
            r == AnyNode::TsFnType(node),
    {
        AnyNode::TsFnType(node)
    }
}

impl<'a> vstd::std_specs::convert::FromSpecImpl<TsFnType<'a>> for AnyNode<'a> {
    open spec fn obeys_from_spec() -> bool {
        true
    }

    open spec fn from_spec(node: TsFnType<'a>) -> AnyNode<'a> {
        AnyNode::TsFnType(node)
    }
}

impl<'a> From<TsConstructorType<'a>> for AnyNode<'a> {
    fn from(node: TsConstructorType<'a>) -> (r: AnyNode<'a>)
        ensures
            r == AnyNode::TsConstructorType(node),
    {
        AnyNode::TsConstructorType(node)
    }
}

impl<'a> vstd::std_specs::convert::FromSpecImpl<TsConstructorType<'a>> for AnyNode<'a> {
    open spec fn obeys_from_spec() -> bool {
        true
    }

    open spec fn from_spec(node: TsConstructorType<'a>) -> AnyNode<'a> {
        AnyNode::TsConstructorType(node)
    }
}

impl<'a> From<TsConditionalType<'a>> for AnyNode<'a> {
    fn from(node: TsConditionalType<'a>) -> (r: AnyNode<'a>)
        ensures
            r == AnyNode::TsConditionalType(node),
    {
        AnyNode::TsConditionalType(node)
    }
}

impl<'a> vstd::std_specs::convert::FromSpecImpl<TsConditionalType<'a>> for AnyNode<'a> {
    open spec fn obeys_from_spec() -> bool {
        true
    }

    open spec fn from_spec(node: TsConditionalType<'a>) -> AnyNode<'a> {
        AnyNode::TsConditionalType(node)
    }
}

impl<'a> From<TsObjectType<'a>> for AnyNode<'a> {
    fn from(node: TsObjectType<'a>) -> (r: AnyNode<'a>)
        ensures
            r == AnyNode::TsObjectType(node),
    {
        AnyNode::TsObjectType(node)
    }
}

impl<'a> vstd::std_specs::convert::FromSpecImpl<TsObjectType<'a>> for AnyNode<'a> {
    open spec fn obeys_from_spec() -> bool {
        true
    }

    open spec fn from_spec(node: TsObjectType<'a>) -> AnyNode<'a> {
        AnyNode::TsObjectType(node)
    }
}

impl<'a> From<TsInfer<'a>> for AnyNode<'a> {
    fn from(node: TsInfer<'a>) -> (r: AnyNode<'a>)
        ensures
            r == AnyNode::TsInfer(node),
    {
        AnyNode::TsInfer(node)
    }
}

impl<'a> vstd::std_specs::convert::FromSpecImpl<TsInfer<'a>> for AnyNode<'a> {
    open spec fn obeys_from_spec() -> bool {
        true
    }

    open spec fn from_spec(node: TsInfer<'a>) -> AnyNode<'a> {
        AnyNode::TsInfer(node)
    }
}

impl<'a> From<TsTupleElement<'a>> for AnyNode<'a> {
    fn from(node: TsTupleElement<'a>) -> (r: AnyNode<'a>)
        ensures
            r == AnyNode::TsTupleElement(node),
    {
        AnyNode::TsTupleElement(node)
    }
}

impl<'a> vstd::std_specs::convert::FromSpecImpl<TsTupleElement<'a>> for AnyNode<'a> {
    open spec fn obeys_from_spec() -> bool {
        true
    }

    open spec fn from_spec(node: TsTupleElement<'a>) -> AnyNode<'a> {
        AnyNode::TsTupleElement(node)
    }
}

impl<'a> From<TsEnumMember<'a>> for AnyNode<'a> {
    fn from(node: TsEnumMember<'a>) -> (r: AnyNode<'a>)
        ensures
            r == AnyNode::TsEnumMember(node),
    {
        AnyNode::TsEnumMember(node)
    }
}

impl<'a> vstd::std_specs::convert::FromSpecImpl<TsEnumMember<'a>> for AnyNode<'a> {
    open spec fn obeys_from_spec() -> bool {
        true
    }

    open spec fn from_spec(node: TsEnumMember<'a>) -> AnyNode<'a> {
        AnyNode::TsEnumMember(node)
    }
}

impl<'a> From<TsTemplateElement<'a>> for AnyNode<'a> {
    fn from(node: TsTemplateElement<'a>) -> (r: AnyNode<'a>)
        ensures
            r == AnyNode::TsTemplateElement(node),
    {
        AnyNode::TsTemplateElement(node)
    }
}

impl<'a> vstd::std_specs::convert::FromSpecImpl<TsTemplateElement<'a>> for AnyNode<'a> {
    open spec fn obeys_from_spec() -> bool {
        true
    }

    open spec fn from_spec(node: TsTemplateElement<'a>) -> AnyNode<'a> {
        AnyNode::TsTemplateElement(node)
    }
}

impl<'a> From<TsMappedTypeReadonly<'a>> for AnyNode<'a> {
    fn from(node: TsMappedTypeReadonly<'a>) -> (r: AnyNode<'a>)
        ensures
            r == AnyNode::TsMappedTypeReadonly(node),
    {
        AnyNode::TsMappedTypeReadonly(node)
    }
}

impl<'a> vstd::std_specs::convert::FromSpecImpl<TsMappedTypeReadonly<'a>> for AnyNode<'a> {
    open spec fn obeys_from_spec() -> bool {
        true
    }

    open spec fn from_spec(node: TsMappedTypeReadonly<'a>) -> AnyNode<'a> {
        AnyNode::TsMappedTypeReadonly(node)
    }
}

impl<'a> From<TsMappedTypeParam<'a>> for AnyNode<'a> {
    fn from(node: TsMappedTypeParam<'a>) -> (r: AnyNode<'a>)
        ensures
            r == AnyNode::TsMappedTypeParam(node),
    {
        AnyNode::TsMappedTypeParam(node)
    }
}

impl<'a> vstd::std_specs::convert::FromSpecImpl<TsMappedTypeParam<'a>> for AnyNode<'a> {
    open spec fn obeys_from_spec() -> bool {
        true
    }

    open spec fn from_spec(node: TsMappedTypeParam<'a>) -> AnyNode<'a> {
        AnyNode::TsMappedTypeParam(node)
    }
}

impl<'a> From<TsTypeName<'a>> for AnyNode<'a> {
    fn from(node: TsTypeName<'a>) -> (r: AnyNode<'a>)
        ensures
            r == AnyNode::TsTypeName(node),
    {
        AnyNode::TsTypeName(node)
    }
}

impl<'a> vstd::std_specs::convert::FromSpecImpl<TsTypeName<'a>> for AnyNode<'a> {
    open spec fn obeys_from_spec() -> bool {
        true
    }

    open spec fn from_spec(node: TsTypeName<'a>) -> AnyNode<'a> {
        AnyNode::TsTypeName(node)
    }
}

impl<'a> From<TsExtends<'a>> for AnyNode<'a> {
    fn from(node: TsExtends<'a>) -> (r: AnyNode<'a>)
        ensures
            r == AnyNode::TsExtends(node),
    {
        AnyNode::TsExtends(node)
    }
}

impl<'a> vstd::std_specs::convert::FromSpecImpl<TsExtends<'a>> for AnyNode<'a> {
    open spec fn obeys_from_spec() -> bool {
        true
    }

    open spec fn from_spec(node: TsExtends<'a>) -> AnyNode<'a> {
        AnyNode::TsExtends(node)
    }
}

impl<'a> From<TsModuleBlock<'a>> for AnyNode<'a> {
    fn from(node: TsModuleBlock<'a>) -> (r: AnyNode<'a>)
        ensures
            r == AnyNode::TsModuleBlock(node),
    {
        AnyNode::TsModuleBlock(node)
    }
}

impl<'a> vstd::std_specs::convert::FromSpecImpl<TsModuleBlock<'a>> for AnyNode<'a> {
    open spec fn obeys_from_spec() -> bool {
        true
    }

    open spec fn from_spec(node: TsModuleBlock<'a>) -> AnyNode<'a> {
        AnyNode::TsModuleBlock(node)
    }
}

impl<'a> From<TsTypeParam<'a>> for AnyNode<'a> {
    fn from(node: TsTypeParam<'a>) -> (r: AnyNode<'a>)
        ensures
            r == AnyNode::TsTypeParam(node),
    {
        AnyNode::TsTypeParam(node)
    }
}

impl<'a> vstd::std_specs::convert::FromSpecImpl<TsTypeParam<'a>> for AnyNode<'a> {
    open spec fn obeys_from_spec() -> bool {
        true
    }

    open spec fn from_spec(node: TsTypeParam<'a>) -> AnyNode<'a> {
        AnyNode::TsTypeParam(node)
    }
}

impl<'a> From<TsConstraint<'a>> for AnyNode<'a> {
    fn from(node: TsConstraint<'a>) -> (r: AnyNode<'a>)
        ensures
            r == AnyNode::TsConstraint(node),
    {
        AnyNode::TsConstraint(node)
    }
}

impl<'a> vstd::std_specs::convert::FromSpecImpl<TsConstraint<'a>> for AnyNode<'a> {
    open spec fn obeys_from_spec() -> bool {
        true
    }

    open spec fn from_spec(node: TsConstraint<'a>) -> AnyNode<'a> {
        AnyNode::TsConstraint(node)
    }
}

impl<'a> From<TsDefault<'a>> for AnyNode<'a> {
    fn from(node: TsDefault<'a>) -> (r: AnyNode<'a>)
        ensures
            r == AnyNode::TsDefault(node),
    {
        AnyNode::TsDefault(node)
    }
}

impl<'a> vstd::std_specs::convert::FromSpecImpl<TsDefault<'a>> for AnyNode<'a> {
    open spec fn obeys_from_spec() -> bool {
        true
    }

    open spec fn from_spec(node: TsDefault<'a>) -> AnyNode<'a> {
        AnyNode::TsDefault(node)
    }
}

impl<'a> From<TsCallSignatureDecl<'a>> for AnyNode<'a> {
    fn from(node: TsCallSignatureDecl<'a>) -> (r: AnyNode<'a>)
        ensures
            r == AnyNode::TsCallSignatureDecl(node),
    {
        AnyNode::TsCallSignatureDecl(node)
    }
}

impl<'a> vstd::std_specs::convert::FromSpecImpl<TsCallSignatureDecl<'a>> for AnyNode<'a> {
    open spec fn obeys_from_spec() -> bool {
        true
    }

    open spec fn from_spec(node: TsCallSignatureDecl<'a>) -> AnyNode<'a> {
        AnyNode::TsCallSignatureDecl(node)
    }
}

impl<'a> From<TsConstructSignatureDecl<'a>> for AnyNode<'a> {
    fn from(node: TsConstructSignatureDecl<'a>) -> (r: AnyNode<'a>)
        ensures
            r == AnyNode::TsConstructSignatureDecl(node),
    {
        AnyNode::TsConstructSignatureDecl(node)
    }
}

impl<'a> vstd::std_specs::convert::FromSpecImpl<TsConstructSignatureDecl<'a>> for AnyNode<'a> {
    open spec fn obeys_from_spec() -> bool {
        true
    }

    open spec fn from_spec(node: TsConstructSignatureDecl<'a>) -> AnyNode<'a> {
        AnyNode::TsConstructSignatureDecl(node)
    }
}

impl<'a> From<TsPropertySignature<'a>> for AnyNode<'a> {
    fn from(node: TsPropertySignature<'a>) -> (r: AnyNode<'a>)
        ensures
            r == AnyNode::TsPropertySignature(node),
    {
        AnyNode::TsPropertySignature(node)
    }
}

impl<'a> vstd::std_specs::convert::FromSpecImpl<TsPropertySignature<'a>> for AnyNode<'a> {
    open spec fn obeys_from_spec() -> bool {
        true
    }

    open spec fn from_spec(node: TsPropertySignature<'a>) -> AnyNode<'a> {
        AnyNode::TsPropertySignature(node)
    }
}

impl<'a> From<TsMethodSignature<'a>> for AnyNode<'a> {
    fn from(node: TsMethodSignature<'a>) -> (r: AnyNode<'a>)
        ensures
            r == AnyNode::TsMethodSignature(node),
    {
        AnyNode::TsMethodSignature(node)
    }
}

impl<'a> vstd::std_specs::convert::FromSpecImpl<TsMethodSignature<'a>> for AnyNode<'a> {
    open spec fn obeys_from_spec() -> bool {
        true
    }

    open spec fn from_spec(node: TsMethodSignature<'a>) -> AnyNode<'a> {
        AnyNode::TsMethodSignature(node)
    }
}

impl<'a> From<TsQualifiedPath<'a>> for AnyNode<'a> {
    fn from(node: TsQualifiedPath<'a>) -> (r: AnyNode<'a>)
        ensures
            r == AnyNode::TsQualifiedPath(node),
    {
        AnyNode::TsQualifiedPath(node)
    }
}

impl<'a> vstd::std_specs::convert::FromSpecImpl<TsQualifiedPath<'a>> for AnyNode<'a> {
    open spec fn obeys_from_spec() -> bool {
        true
    }

    open spec fn from_spec(node: TsQualifiedPath<'a>) -> AnyNode<'a> {
        AnyNode::TsQualifiedPath(node)
    }
}

/// A union's `can_cast` holds of exactly the kinds for which one of its
/// variants' does, nested unions included.
pub proof fn lemma_union_can_cast(kind: SyntaxKind)
    ensures
        <JsAnyRoot<'static> as AstNode<'static>>::kind_ok(kind) == (<JsScript<'static> as AstNode<'static>>::kind_ok(kind) || <JsModule<'static> as AstNode<'static>>::kind_ok(kind)),
        <JsAnyStatement<'static> as AstNode<'static>>::kind_ok(kind) == (<JsBlockStatement<'static> as AstNode<'static>>::kind_ok(kind) || <JsEmptyStatement<'static> as AstNode<'static>>::kind_ok(kind) || <JsExpressionStatement<'static> as AstNode<'static>>::kind_ok(kind) || <JsIfStatement<'static> as AstNode<'static>>::kind_ok(kind) || <JsDoWhileStatement<'static> as AstNode<'static>>::kind_ok(kind) || <JsWhileStatement<'static> as AstNode<'static>>::kind_ok(kind) || <ForStmt<'static> as AstNode<'static>>::kind_ok(kind) || <ForInStmt<'static> as AstNode<'static>>::kind_ok(kind) || <ForOfStmt<'static> as AstNode<'static>>::kind_ok(kind) || <JsContinueStatement<'static> as AstNode<'static>>::kind_ok(kind) || <JsBreakStatement<'static> as AstNode<'static>>::kind_ok(kind) || <JsReturnStatement<'static> as AstNode<'static>>::kind_ok(kind) || <JsWithStatement<'static> as AstNode<'static>>::kind_ok(kind) || <JsLabeledStatement<'static> as AstNode<'static>>::kind_ok(kind) || <JsSwitchStatement<'static> as AstNode<'static>>::kind_ok(kind) || <JsThrowStatement<'static> as AstNode<'static>>::kind_ok(kind) || <JsTryStatement<'static> as AstNode<'static>>::kind_ok(kind) || <JsTryFinallyStatement<'static> as AstNode<'static>>::kind_ok(kind) || <JsDebuggerStatement<'static> as AstNode<'static>>::kind_ok(kind) || <JsFunctionDeclaration<'static> as AstNode<'static>>::kind_ok(kind) || <JsClassDeclaration<'static> as AstNode<'static>>::kind_ok(kind) || <JsVariableDeclarationStatement<'static> as AstNode<'static>>::kind_ok(kind) || <TsEnum<'static> as AstNode<'static>>::kind_ok(kind) || <TsTypeAliasDecl<'static> as AstNode<'static>>::kind_ok(kind) || <TsNamespaceDecl<'static> as AstNode<'static>>::kind_ok(kind) || <TsModuleDecl<'static> as AstNode<'static>>::kind_ok(kind) || <TsInterfaceDecl<'static> as AstNode<'static>>::kind_ok(kind) || <JsUnknownStatement<'static> as AstNode<'static>>::kind_ok(kind)),
        <JsAnyModuleItem<'static> as AstNode<'static>>::kind_ok(kind) == (<JsAnyStatement<'static> as AstNode<'static>>::kind_ok(kind) || <JsImport<'static> as AstNode<'static>>::kind_ok(kind) || <ExportNamed<'static> as AstNode<'static>>::kind_ok(kind) || <ExportDefaultDecl<'static> as AstNode<'static>>::kind_ok(kind) || <ExportDefaultExpr<'static> as AstNode<'static>>::kind_ok(kind) || <ExportWildcard<'static> as AstNode<'static>>::kind_ok(kind) || <ExportDecl<'static> as AstNode<'static>>::kind_ok(kind) || <TsImportEqualsDecl<'static> as AstNode<'static>>::kind_ok(kind) || <TsExportAssignment<'static> as AstNode<'static>>::kind_ok(kind) || <TsNamespaceExportDecl<'static> as AstNode<'static>>::kind_ok(kind)),
        <JsAnyExpression<'static> as AstNode<'static>>::kind_ok(kind) == (<JsAnyLiteralExpression<'static> as AstNode<'static>>::kind_ok(kind) || <JsArrayExpression<'static> as AstNode<'static>>::kind_ok(kind) || <JsArrowFunctionExpression<'static> as AstNode<'static>>::kind_ok(kind) || <JsAssignmentExpression<'static> as AstNode<'static>>::kind_ok(kind) || <JsAwaitExpression<'static> as AstNode<'static>>::kind_ok(kind) || <JsBinaryExpression<'static> as AstNode<'static>>::kind_ok(kind) || <JsClassExpression<'static> as AstNode<'static>>::kind_ok(kind) || <JsConditionalExpression<'static> as AstNode<'static>>::kind_ok(kind) || <JsComputedMemberExpression<'static> as AstNode<'static>>::kind_ok(kind) || <JsFunctionExpression<'static> as AstNode<'static>>::kind_ok(kind) || <JsImportCallExpression<'static> as AstNode<'static>>::kind_ok(kind) || <JsLogicalExpression<'static> as AstNode<'static>>::kind_ok(kind) || <JsObjectExpression<'static> as AstNode<'static>>::kind_ok(kind) || <JsParenthesizedExpression<'static> as AstNode<'static>>::kind_ok(kind) || <JsIdentifierExpression<'static> as AstNode<'static>>::kind_ok(kind) || <JsSequenceExpression<'static> as AstNode<'static>>::kind_ok(kind) || <JsStaticMemberExpression<'static> as AstNode<'static>>::kind_ok(kind) || <JsSuperExpression<'static> as AstNode<'static>>::kind_ok(kind) || <JsThisExpression<'static> as AstNode<'static>>::kind_ok(kind) || <JsUnaryExpression<'static> as AstNode<'static>>::kind_ok(kind) || <JsPreUpdateExpression<'static> as AstNode<'static>>::kind_ok(kind) || <JsPostUpdateExpression<'static> as AstNode<'static>>::kind_ok(kind) || <JsYieldExpression<'static> as AstNode<'static>>::kind_ok(kind) || <Template<'static> as AstNode<'static>>::kind_ok(kind) || <NewExpr<'static> as AstNode<'static>>::kind_ok(kind) || <CallExpr<'static> as AstNode<'static>>::kind_ok(kind) || <NewTarget<'static> as AstNode<'static>>::kind_ok(kind) || <ImportMeta<'static> as AstNode<'static>>::kind_ok(kind) || <TsNonNull<'static> as AstNode<'static>>::kind_ok(kind) || <TsAssertion<'static> as AstNode<'static>>::kind_ok(kind) || <TsConstAssertion<'static> as AstNode<'static>>::kind_ok(kind) || <JsUnknownExpression<'static> as AstNode<'static>>::kind_ok(kind)),
        <ForHead<'static> as AstNode<'static>>::kind_ok(kind) == (<JsVariableDeclaration<'static> as AstNode<'static>>::kind_ok(kind) || <JsAnyExpression<'static> as AstNode<'static>>::kind_ok(kind)),
        <ForLeft<'static> as AstNode<'static>>::kind_ok(kind) == (<JsAnyAssignment<'static> as AstNode<'static>>::kind_ok(kind) || <JsVariableDeclaration<'static> as AstNode<'static>>::kind_ok(kind)),
        <JsAnyAssignment<'static> as AstNode<'static>>::kind_ok(kind) == (<JsIdentifierAssignment<'static> as AstNode<'static>>::kind_ok(kind) || <JsStaticMemberAssignment<'static> as AstNode<'static>>::kind_ok(kind) || <JsComputedMemberAssignment<'static> as AstNode<'static>>::kind_ok(kind) || <JsParenthesizedAssignment<'static> as AstNode<'static>>::kind_ok(kind) || <JsUnknownAssignment<'static> as AstNode<'static>>::kind_ok(kind)),
        <JsAnySwitchClause<'static> as AstNode<'static>>::kind_ok(kind) == (<JsCaseClause<'static> as AstNode<'static>>::kind_ok(kind) || <JsDefaultClause<'static> as AstNode<'static>>::kind_ok(kind)),
        <JsAnyBindingPattern<'static> as AstNode<'static>>::kind_ok(kind) == (<JsAnyBinding<'static> as AstNode<'static>>::kind_ok(kind) || <JsArrayBindingPattern<'static> as AstNode<'static>>::kind_ok(kind) || <JsObjectBindingPattern<'static> as AstNode<'static>>::kind_ok(kind)),
        <JsAnyLiteralExpression<'static> as AstNode<'static>>::kind_ok(kind) == (<JsStringLiteralExpression<'static> as AstNode<'static>>::kind_ok(kind) || <JsNumberLiteralExpression<'static> as AstNode<'static>>::kind_ok(kind) || <JsBigIntLiteralExpression<'static> as AstNode<'static>>::kind_ok(kind) || <JsBooleanLiteralExpression<'static> as AstNode<'static>>::kind_ok(kind) || <JsNullLiteralExpression<'static> as AstNode<'static>>::kind_ok(kind) || <JsRegexLiteralExpression<'static> as AstNode<'static>>::kind_ok(kind)),
        <JsAnyBinding<'static> as AstNode<'static>>::kind_ok(kind) == (<JsIdentifierBinding<'static> as AstNode<'static>>::kind_ok(kind) || <JsUnknownBinding<'static> as AstNode<'static>>::kind_ok(kind)),
        <JsAnyArrowFunctionParameters<'static> as AstNode<'static>>::kind_ok(kind) == (<JsParameterList<'static> as AstNode<'static>>::kind_ok(kind) || <JsAnyBinding<'static> as AstNode<'static>>::kind_ok(kind)),
        <JsAnyArrowFunctionBody<'static> as AstNode<'static>>::kind_ok(kind) == (<JsAnyExpression<'static> as AstNode<'static>>::kind_ok(kind) || <JsFunctionBody<'static> as AstNode<'static>>::kind_ok(kind)),
        <JsAnyArrayElement<'static> as AstNode<'static>>::kind_ok(kind) == (<JsAnyExpression<'static> as AstNode<'static>>::kind_ok(kind) || <JsSpread<'static> as AstNode<'static>>::kind_ok(kind) || <JsArrayHole<'static> as AstNode<'static>>::kind_ok(kind)),
        <JsAnyAssignmentPattern<'static> as AstNode<'static>>::kind_ok(kind) == (<JsAnyAssignment<'static> as AstNode<'static>>::kind_ok(kind) || <JsArrayAssignmentPattern<'static> as AstNode<'static>>::kind_ok(kind) || <JsObjectAssignmentPattern<'static> as AstNode<'static>>::kind_ok(kind)),
        <JsAnyName<'static> as AstNode<'static>>::kind_ok(kind) == (<JsName<'static> as AstNode<'static>>::kind_ok(kind) || <JsPrivateName<'static> as AstNode<'static>>::kind_ok(kind)),
        <JsAnyObjectMemberName<'static> as AstNode<'static>>::kind_ok(kind) == (<JsLiteralMemberName<'static> as AstNode<'static>>::kind_ok(kind) || <JsComputedMemberName<'static> as AstNode<'static>>::kind_ok(kind)),
        <JsAnyObjectMember<'static> as AstNode<'static>>::kind_ok(kind) == (<JsPropertyObjectMember<'static> as AstNode<'static>>::kind_ok(kind) || <JsMethodObjectMember<'static> as AstNode<'static>>::kind_ok(kind) || <JsGetterObjectMember<'static> as AstNode<'static>>::kind_ok(kind) || <JsSetterObjectMember<'static> as AstNode<'static>>::kind_ok(kind) || <JsShorthandPropertyObjectMember<'static> as AstNode<'static>>::kind_ok(kind) || <JsSpread<'static> as AstNode<'static>>::kind_ok(kind) || <JsUnknownMember<'static> as AstNode<'static>>::kind_ok(kind)),
        <JsAnyClassMember<'static> as AstNode<'static>>::kind_ok(kind) == (<JsConstructorClassMember<'static> as AstNode<'static>>::kind_ok(kind) || <JsPropertyClassMember<'static> as AstNode<'static>>::kind_ok(kind) || <JsMethodClassMember<'static> as AstNode<'static>>::kind_ok(kind) || <JsGetterClassMember<'static> as AstNode<'static>>::kind_ok(kind) || <JsSetterClassMember<'static> as AstNode<'static>>::kind_ok(kind) || <JsEmptyClassMember<'static> as AstNode<'static>>::kind_ok(kind) || <TsIndexSignature<'static> as AstNode<'static>>::kind_ok(kind) || <JsUnknownMember<'static> as AstNode<'static>>::kind_ok(kind)),
        <JsAnyClassMemberName<'static> as AstNode<'static>>::kind_ok(kind) == (<JsLiteralMemberName<'static> as AstNode<'static>>::kind_ok(kind) || <JsComputedMemberName<'static> as AstNode<'static>>::kind_ok(kind) || <JsPrivateClassMemberName<'static> as AstNode<'static>>::kind_ok(kind)),
        <JsAnyConstructorParameter<'static> as AstNode<'static>>::kind_ok(kind) == (<TsConstructorParam<'static> as AstNode<'static>>::kind_ok(kind) || <JsAnyBindingPattern<'static> as AstNode<'static>>::kind_ok(kind) || <JsBindingPatternWithDefault<'static> as AstNode<'static>>::kind_ok(kind)),
        <JsAnyModifier<'static> as AstNode<'static>>::kind_ok(kind) == (<JsModifier<'static> as AstNode<'static>>::kind_ok(kind) || <JsUnknownModifier<'static> as AstNode<'static>>::kind_ok(kind)),
        <JsAnyArrayAssignmentPatternElement<'static> as AstNode<'static>>::kind_ok(kind) == (<JsAssignmentWithDefault<'static> as AstNode<'static>>::kind_ok(kind) || <JsAnyAssignmentPattern<'static> as AstNode<'static>>::kind_ok(kind) || <JsArrayAssignmentPatternRestElement<'static> as AstNode<'static>>::kind_ok(kind) || <JsArrayHole<'static> as AstNode<'static>>::kind_ok(kind) || <JsUnknownAssignment<'static> as AstNode<'static>>::kind_ok(kind)),
        <JsAnyObjectAssignmentPatternMember<'static> as AstNode<'static>>::kind_ok(kind) == (<JsObjectAssignmentPatternShorthandProperty<'static> as AstNode<'static>>::kind_ok(kind) || <JsObjectAssignmentPatternProperty<'static> as AstNode<'static>>::kind_ok(kind) || <JsObjectAssignmentPatternRest<'static> as AstNode<'static>>::kind_ok(kind) || <JsUnknownAssignment<'static> as AstNode<'static>>::kind_ok(kind)),
        <JsAnyArrayBindingPatternElement<'static> as AstNode<'static>>::kind_ok(kind) == (<JsArrayHole<'static> as AstNode<'static>>::kind_ok(kind) || <JsAnyBindingPattern<'static> as AstNode<'static>>::kind_ok(kind) || <JsBindingPatternWithDefault<'static> as AstNode<'static>>::kind_ok(kind) || <JsArrayBindingPatternRestElement<'static> as AstNode<'static>>::kind_ok(kind)),
        <JsAnyObjectBindingPatternMember<'static> as AstNode<'static>>::kind_ok(kind) == (<JsObjectBindingPatternProperty<'static> as AstNode<'static>>::kind_ok(kind) || <JsObjectBindingPatternRest<'static> as AstNode<'static>>::kind_ok(kind) || <JsObjectBindingPatternShorthandProperty<'static> as AstNode<'static>>::kind_ok(kind) || <JsIdentifierBinding<'static> as AstNode<'static>>::kind_ok(kind) || <JsUnknownBinding<'static> as AstNode<'static>>::kind_ok(kind)),
        <TsType<'static> as AstNode<'static>>::kind_ok(kind) == (<TsAny<'static> as AstNode<'static>>::kind_ok(kind) || <TsUnknown<'static> as AstNode<'static>>::kind_ok(kind) || <TsNumber<'static> as AstNode<'static>>::kind_ok(kind) || <TsObject<'static> as AstNode<'static>>::kind_ok(kind) || <TsBoolean<'static> as AstNode<'static>>::kind_ok(kind) || <TsBigint<'static> as AstNode<'static>>::kind_ok(kind) || <TsString<'static> as AstNode<'static>>::kind_ok(kind) || <TsSymbol<'static> as AstNode<'static>>::kind_ok(kind) || <TsVoid<'static> as AstNode<'static>>::kind_ok(kind) || <TsUndefined<'static> as AstNode<'static>>::kind_ok(kind) || <TsNull<'static> as AstNode<'static>>::kind_ok(kind) || <TsNever<'static> as AstNode<'static>>::kind_ok(kind) || <TsThis<'static> as AstNode<'static>>::kind_ok(kind) || <TsLiteral<'static> as AstNode<'static>>::kind_ok(kind) || <TsPredicate<'static> as AstNode<'static>>::kind_ok(kind) || <TsTuple<'static> as AstNode<'static>>::kind_ok(kind) || <TsParen<'static> as AstNode<'static>>::kind_ok(kind) || <TsTypeRef<'static> as AstNode<'static>>::kind_ok(kind) || <TsTemplate<'static> as AstNode<'static>>::kind_ok(kind) || <TsMappedType<'static> as AstNode<'static>>::kind_ok(kind) || <TsImport<'static> as AstNode<'static>>::kind_ok(kind) || <TsArray<'static> as AstNode<'static>>::kind_ok(kind) || <TsIndexedArray<'static> as AstNode<'static>>::kind_ok(kind) || <TsTypeOperator<'static> as AstNode<'static>>::kind_ok(kind) || <TsIntersection<'static> as AstNode<'static>>::kind_ok(kind) || <TsUnion<'static> as AstNode<'static>>::kind_ok(kind) || <TsFnType<'static> as AstNode<'static>>::kind_ok(kind) || <TsConstructorType<'static> as AstNode<'static>>::kind_ok(kind) || <TsConditionalType<'static> as AstNode<'static>>::kind_ok(kind) || <TsObjectType<'static> as AstNode<'static>>::kind_ok(kind) || <TsInfer<'static> as AstNode<'static>>::kind_ok(kind)),
        <AnyJsImportClause<'static> as AstNode<'static>>::kind_ok(kind) == (<JsImportBareClause<'static> as AstNode<'static>>::kind_ok(kind) || <JsName<'static> as AstNode<'static>>::kind_ok(kind) || <JsImportNamedClause<'static> as AstNode<'static>>::kind_ok(kind) || <JsImportDefaultClause<'static> as AstNode<'static>>::kind_ok(kind) || <JsImportNamespaceClause<'static> as AstNode<'static>>::kind_ok(kind)),
        <JsAnyNamedImport<'static> as AstNode<'static>>::kind_ok(kind) == (<JsNamedImportSpecifierList<'static> as AstNode<'static>>::kind_ok(kind) || <JsNamespaceImportSpecifier<'static> as AstNode<'static>>::kind_ok(kind)),
        <JsAnyNamedImportSpecifier<'static> as AstNode<'static>>::kind_ok(kind) == (<JsShorthandNamedImportSpecifier<'static> as AstNode<'static>>::kind_ok(kind) || <JsNamedImportSpecifier<'static> as AstNode<'static>>::kind_ok(kind) || <JsUnknownNamedImportSpecifier<'static> as AstNode<'static>>::kind_ok(kind)),
        <JsAnyImportAssertionEntry<'static> as AstNode<'static>>::kind_ok(kind) == (<JsImportAssertionEntry<'static> as AstNode<'static>>::kind_ok(kind) || <JsUnknownImportAssertionEntry<'static> as AstNode<'static>>::kind_ok(kind)),
        <DefaultDecl<'static> as AstNode<'static>>::kind_ok(kind) == (<JsFunctionDeclaration<'static> as AstNode<'static>>::kind_ok(kind) || <JsClassDeclaration<'static> as AstNode<'static>>::kind_ok(kind)),
        <JsAnyExportDeclaration<'static> as AstNode<'static>>::kind_ok(kind) == (<JsFunctionDeclaration<'static> as AstNode<'static>>::kind_ok(kind) || <JsClassDeclaration<'static> as AstNode<'static>>::kind_ok(kind) || <JsVariableDeclarationStatement<'static> as AstNode<'static>>::kind_ok(kind) || <TsEnum<'static> as AstNode<'static>>::kind_ok(kind) || <TsTypeAliasDecl<'static> as AstNode<'static>>::kind_ok(kind) || <TsNamespaceDecl<'static> as AstNode<'static>>::kind_ok(kind) || <TsModuleDecl<'static> as AstNode<'static>>::kind_ok(kind) || <TsInterfaceDecl<'static> as AstNode<'static>>::kind_ok(kind)),
        <JsAnyParameter<'static> as AstNode<'static>>::kind_ok(kind) == (<JsAnyBindingPattern<'static> as AstNode<'static>>::kind_ok(kind) || <JsBindingPatternWithDefault<'static> as AstNode<'static>>::kind_ok(kind) || <JsRestParameter<'static> as AstNode<'static>>::kind_ok(kind)),
        <TsModuleRef<'static> as AstNode<'static>>::kind_ok(kind) == (<TsExternalModuleRef<'static> as AstNode<'static>>::kind_ok(kind) || <TsEntityName<'static> as AstNode<'static>>::kind_ok(kind)),
        <TsEntityName<'static> as AstNode<'static>>::kind_ok(kind) == (<TsTypeName<'static> as AstNode<'static>>::kind_ok(kind) || <TsQualifiedPath<'static> as AstNode<'static>>::kind_ok(kind)),
        <TsThisOrMore<'static> as AstNode<'static>>::kind_ok(kind) == (<TsThis<'static> as AstNode<'static>>::kind_ok(kind) || <TsTypeName<'static> as AstNode<'static>>::kind_ok(kind)),
        <TsTypeElement<'static> as AstNode<'static>>::kind_ok(kind) == (<TsCallSignatureDecl<'static> as AstNode<'static>>::kind_ok(kind) || <TsConstructSignatureDecl<'static> as AstNode<'static>>::kind_ok(kind) || <TsPropertySignature<'static> as AstNode<'static>>::kind_ok(kind) || <TsMethodSignature<'static> as AstNode<'static>>::kind_ok(kind) || <TsIndexSignature<'static> as AstNode<'static>>::kind_ok(kind)),
        <TsNamespaceBody<'static> as AstNode<'static>>::kind_ok(kind) == (<TsModuleBlock<'static> as AstNode<'static>>::kind_ok(kind) || <TsNamespaceDecl<'static> as AstNode<'static>>::kind_ok(kind)),
        <AnyNode<'static> as AstNode<'static>>::kind_ok(kind) == (<JsUnknownStatement<'static> as AstNode<'static>>::kind_ok(kind) || <JsUnknownExpression<'static> as AstNode<'static>>::kind_ok(kind) || <JsUnknownMember<'static> as AstNode<'static>>::kind_ok(kind) || <JsUnknownBinding<'static> as AstNode<'static>>::kind_ok(kind) || <JsUnknownAssignment<'static> as AstNode<'static>>::kind_ok(kind) || <JsUnknownModifier<'static> as AstNode<'static>>::kind_ok(kind) || <JsUnknownImportAssertionEntry<'static> as AstNode<'static>>::kind_ok(kind) || <JsUnknownNamedImportSpecifier<'static> as AstNode<'static>>::kind_ok(kind) || <List<'static> as AstNode<'static>>::kind_ok(kind) || <Ident<'static> as AstNode<'static>>::kind_ok(kind) || <JsScript<'static> as AstNode<'static>>::kind_ok(kind) || <JsModule<'static> as AstNode<'static>>::kind_ok(kind) || <JsDirective<'static> as AstNode<'static>>::kind_ok(kind) || <JsBlockStatement<'static> as AstNode<'static>>::kind_ok(kind) || <JsEmptyStatement<'static> as AstNode<'static>>::kind_ok(kind) || <JsExpressionStatement<'static> as AstNode<'static>>::kind_ok(kind) || <JsIfStatement<'static> as AstNode<'static>>::kind_ok(kind) || <JsDoWhileStatement<'static> as AstNode<'static>>::kind_ok(kind) || <JsWhileStatement<'static> as AstNode<'static>>::kind_ok(kind) || <ForStmt<'static> as AstNode<'static>>::kind_ok(kind) || <ForInStmt<'static> as AstNode<'static>>::kind_ok(kind) || <ForOfStmt<'static> as AstNode<'static>>::kind_ok(kind) || <JsContinueStatement<'static> as AstNode<'static>>::kind_ok(kind) || <JsBreakStatement<'static> as AstNode<'static>>::kind_ok(kind) || <JsReturnStatement<'static> as AstNode<'static>>::kind_ok(kind) || <JsWithStatement<'static> as AstNode<'static>>::kind_ok(kind) || <JsLabeledStatement<'static> as AstNode<'static>>::kind_ok(kind) || <JsSwitchStatement<'static> as AstNode<'static>>::kind_ok(kind) || <JsThrowStatement<'static> as AstNode<'static>>::kind_ok(kind) || <JsTryStatement<'static> as AstNode<'static>>::kind_ok(kind) || <JsTryFinallyStatement<'static> as AstNode<'static>>::kind_ok(kind) || <JsDebuggerStatement<'static> as AstNode<'static>>::kind_ok(kind) || <JsFunctionDeclaration<'static> as AstNode<'static>>::kind_ok(kind) || <JsClassDeclaration<'static> as AstNode<'static>>::kind_ok(kind) || <JsVariableDeclarationStatement<'static> as AstNode<'static>>::kind_ok(kind) || <TsEnum<'static> as AstNode<'static>>::kind_ok(kind) || <TsTypeAliasDecl<'static> as AstNode<'static>>::kind_ok(kind) || <TsNamespaceDecl<'static> as AstNode<'static>>::kind_ok(kind) || <TsModuleDecl<'static> as AstNode<'static>>::kind_ok(kind) || <TsInterfaceDecl<'static> as AstNode<'static>>::kind_ok(kind) || <JsElseClause<'static> as AstNode<'static>>::kind_ok(kind) || <ForStmtInit<'static> as AstNode<'static>>::kind_ok(kind) || <ForStmtTest<'static> as AstNode<'static>>::kind_ok(kind) || <ForStmtUpdate<'static> as AstNode<'static>>::kind_ok(kind) || <JsVariableDeclaration<'static> as AstNode<'static>>::kind_ok(kind) || <JsCaseClause<'static> as AstNode<'static>>::kind_ok(kind) || <JsDefaultClause<'static> as AstNode<'static>>::kind_ok(kind) || <JsCatchClause<'static> as AstNode<'static>>::kind_ok(kind) || <JsFinallyClause<'static> as AstNode<'static>>::kind_ok(kind) || <JsCatchDeclaration<'static> as AstNode<'static>>::kind_ok(kind) || <JsArrayExpression<'static> as AstNode<'static>>::kind_ok(kind) || <JsArrowFunctionExpression<'static> as AstNode<'static>>::kind_ok(kind) || <JsAssignmentExpression<'static> as AstNode<'static>>::kind_ok(kind) || <JsAwaitExpression<'static> as AstNode<'static>>::kind_ok(kind) || <JsBinaryExpression<'static> as AstNode<'static>>::kind_ok(kind) || <JsClassExpression<'static> as AstNode<'static>>::kind_ok(kind) || <JsConditionalExpression<'static> as AstNode<'static>>::kind_ok(kind) || <JsComputedMemberExpression<'static> as AstNode<'static>>::kind_ok(kind) || <JsFunctionExpression<'static> as AstNode<'static>>::kind_ok(kind) || <JsImportCallExpression<'static> as AstNode<'static>>::kind_ok(kind) || <JsLogicalExpression<'static> as AstNode<'static>>::kind_ok(kind) || <JsObjectExpression<'static> as AstNode<'static>>::kind_ok(kind) || <JsParenthesizedExpression<'static> as AstNode<'static>>::kind_ok(kind) || <JsIdentifierExpression<'static> as AstNode<'static>>::kind_ok(kind) || <JsSequenceExpression<'static> as AstNode<'static>>::kind_ok(kind) || <JsStaticMemberExpression<'static> as AstNode<'static>>::kind_ok(kind) || <JsSuperExpression<'static> as AstNode<'static>>::kind_ok(kind) || <JsThisExpression<'static> as AstNode<'static>>::kind_ok(kind) || <JsUnaryExpression<'static> as AstNode<'static>>::kind_ok(kind) || <JsPreUpdateExpression<'static> as AstNode<'static>>::kind_ok(kind) || <JsPostUpdateExpression<'static> as AstNode<'static>>::kind_ok(kind) || <JsYieldExpression<'static> as AstNode<'static>>::kind_ok(kind) || <Template<'static> as AstNode<'static>>::kind_ok(kind) || <NewExpr<'static> as AstNode<'static>>::kind_ok(kind) || <CallExpr<'static> as AstNode<'static>>::kind_ok(kind) || <NewTarget<'static> as AstNode<'static>>::kind_ok(kind) || <ImportMeta<'static> as AstNode<'static>>::kind_ok(kind) || <TsNonNull<'static> as AstNode<'static>>::kind_ok(kind) || <TsAssertion<'static> as AstNode<'static>>::kind_ok(kind) || <TsConstAssertion<'static> as AstNode<'static>>::kind_ok(kind) || <TsTypeArgs<'static> as AstNode<'static>>::kind_ok(kind) || <ArgList<'static> as AstNode<'static>>::kind_ok(kind) || <TsTypeParams<'static> as AstNode<'static>>::kind_ok(kind) || <JsParameterList<'static> as AstNode<'static>>::kind_ok(kind) || <TsTypeAnnotation<'static> as AstNode<'static>>::kind_ok(kind) || <JsFunctionBody<'static> as AstNode<'static>>::kind_ok(kind) || <JsSpread<'static> as AstNode<'static>>::kind_ok(kind) || <JsArrayHole<'static> as AstNode<'static>>::kind_ok(kind) || <JsReferenceIdentifier<'static> as AstNode<'static>>::kind_ok(kind) || <JsLiteralMemberName<'static> as AstNode<'static>>::kind_ok(kind) || <JsComputedMemberName<'static> as AstNode<'static>>::kind_ok(kind) || <JsPropertyObjectMember<'static> as AstNode<'static>>::kind_ok(kind) || <JsMethodObjectMember<'static> as AstNode<'static>>::kind_ok(kind) || <JsGetterObjectMember<'static> as AstNode<'static>>::kind_ok(kind) || <JsSetterObjectMember<'static> as AstNode<'static>>::kind_ok(kind) || <JsShorthandPropertyObjectMember<'static> as AstNode<'static>>::kind_ok(kind) || <TsImplementsClause<'static> as AstNode<'static>>::kind_ok(kind) || <JsExtendsClause<'static> as AstNode<'static>>::kind_ok(kind) || <TsExprWithTypeArgs<'static> as AstNode<'static>>::kind_ok(kind) || <JsPrivateClassMemberName<'static> as AstNode<'static>>::kind_ok(kind) || <JsConstructorClassMember<'static> as AstNode<'static>>::kind_ok(kind) || <JsPropertyClassMember<'static> as AstNode<'static>>::kind_ok(kind) || <JsMethodClassMember<'static> as AstNode<'static>>::kind_ok(kind) || <JsGetterClassMember<'static> as AstNode<'static>>::kind_ok(kind) || <JsSetterClassMember<'static> as AstNode<'static>>::kind_ok(kind) || <JsEmptyClassMember<'static> as AstNode<'static>>::kind_ok(kind) || <TsIndexSignature<'static> as AstNode<'static>>::kind_ok(kind) || <TsAccessibility<'static> as AstNode<'static>>::kind_ok(kind) || <JsConstructorParameterList<'static> as AstNode<'static>>::kind_ok(kind) || <TsConstructorParam<'static> as AstNode<'static>>::kind_ok(kind) || <JsBindingPatternWithDefault<'static> as AstNode<'static>>::kind_ok(kind) || <JsEqualValueClause<'static> as AstNode<'static>>::kind_ok(kind) || <JsModifier<'static> as AstNode<'static>>::kind_ok(kind) || <JsIdentifierAssignment<'static> as AstNode<'static>>::kind_ok(kind) || <JsStaticMemberAssignment<'static> as AstNode<'static>>::kind_ok(kind) || <JsComputedMemberAssignment<'static> as AstNode<'static>>::kind_ok(kind) || <JsParenthesizedAssignment<'static> as AstNode<'static>>::kind_ok(kind) || <JsAssignmentWithDefault<'static> as AstNode<'static>>::kind_ok(kind) || <JsArrayAssignmentPattern<'static> as AstNode<'static>>::kind_ok(kind) || <JsObjectAssignmentPattern<'static> as AstNode<'static>>::kind_ok(kind) || <JsArrayAssignmentPatternRestElement<'static> as AstNode<'static>>::kind_ok(kind) || <JsObjectAssignmentPatternShorthandProperty<'static> as AstNode<'static>>::kind_ok(kind) || <JsObjectAssignmentPatternProperty<'static> as AstNode<'static>>::kind_ok(kind) || <JsObjectAssignmentPatternRest<'static> as AstNode<'static>>::kind_ok(kind) || <JsName<'static> as AstNode<'static>>::kind_ok(kind) || <JsIdentifierBinding<'static> as AstNode<'static>>::kind_ok(kind) || <JsArrayBindingPattern<'static> as AstNode<'static>>::kind_ok(kind) || <JsObjectBindingPattern<'static> as AstNode<'static>>::kind_ok(kind) || <JsArrayBindingPatternRestElement<'static> as AstNode<'static>>::kind_ok(kind) || <JsObjectBindingPatternProperty<'static> as AstNode<'static>>::kind_ok(kind) || <JsObjectBindingPatternRest<'static> as AstNode<'static>>::kind_ok(kind) || <JsObjectBindingPatternShorthandProperty<'static> as AstNode<'static>>::kind_ok(kind) || <JsStringLiteralExpression<'static> as AstNode<'static>>::kind_ok(kind) || <JsNumberLiteralExpression<'static> as AstNode<'static>>::kind_ok(kind) || <JsBigIntLiteralExpression<'static> as AstNode<'static>>::kind_ok(kind) || <JsBooleanLiteralExpression<'static> as AstNode<'static>>::kind_ok(kind) || <JsNullLiteralExpression<'static> as AstNode<'static>>::kind_ok(kind) || <JsRegexLiteralExpression<'static> as AstNode<'static>>::kind_ok(kind) || <JsVariableDeclarator<'static> as AstNode<'static>>::kind_ok(kind) || <JsImport<'static> as AstNode<'static>>::kind_ok(kind) || <ExportNamed<'static> as AstNode<'static>>::kind_ok(kind) || <ExportDefaultDecl<'static> as AstNode<'static>>::kind_ok(kind) || <ExportDefaultExpr<'static> as AstNode<'static>>::kind_ok(kind) || <ExportWildcard<'static> as AstNode<'static>>::kind_ok(kind) || <ExportDecl<'static> as AstNode<'static>>::kind_ok(kind) || <TsImportEqualsDecl<'static> as AstNode<'static>>::kind_ok(kind) || <TsExportAssignment<'static> as AstNode<'static>>::kind_ok(kind) || <TsNamespaceExportDecl<'static> as AstNode<'static>>::kind_ok(kind) || <JsImportBareClause<'static> as AstNode<'static>>::kind_ok(kind) || <JsImportNamedClause<'static> as AstNode<'static>>::kind_ok(kind) || <JsImportDefaultClause<'static> as AstNode<'static>>::kind_ok(kind) || <JsImportNamespaceClause<'static> as AstNode<'static>>::kind_ok(kind) || <JsModuleSource<'static> as AstNode<'static>>::kind_ok(kind) || <JsImportAssertion<'static> as AstNode<'static>>::kind_ok(kind) || <JsDefaultImportSpecifier<'static> as AstNode<'static>>::kind_ok(kind) || <JsNamedImportSpecifierList<'static> as AstNode<'static>>::kind_ok(kind) || <JsNamespaceImportSpecifier<'static> as AstNode<'static>>::kind_ok(kind) || <JsShorthandNamedImportSpecifier<'static> as AstNode<'static>>::kind_ok(kind) || <JsNamedImportSpecifier<'static> as AstNode<'static>>::kind_ok(kind) || <JsLiteralExportName<'static> as AstNode<'static>>::kind_ok(kind) || <JsImportAssertionEntry<'static> as AstNode<'static>>::kind_ok(kind) || <Specifier<'static> as AstNode<'static>>::kind_ok(kind) || <JsPrivateName<'static> as AstNode<'static>>::kind_ok(kind) || <JsRestParameter<'static> as AstNode<'static>>::kind_ok(kind) || <TsExternalModuleRef<'static> as AstNode<'static>>::kind_ok(kind) || <TsAny<'static> as AstNode<'static>>::kind_ok(kind) || <TsUnknown<'static> as AstNode<'static>>::kind_ok(kind) || <TsNumber<'static> as AstNode<'static>>::kind_ok(kind) || <TsObject<'static> as AstNode<'static>>::kind_ok(kind) || <TsBoolean<'static> as AstNode<'static>>::kind_ok(kind) || <TsBigint<'static> as AstNode<'static>>::kind_ok(kind) || <TsString<'static> as AstNode<'static>>::kind_ok(kind) || <TsSymbol<'static> as AstNode<'static>>::kind_ok(kind) || <TsVoid<'static> as AstNode<'static>>::kind_ok(kind) || <TsUndefined<'static> as AstNode<'static>>::kind_ok(kind) || <TsNull<'static> as AstNode<'static>>::kind_ok(kind) || <TsNever<'static> as AstNode<'static>>::kind_ok(kind) || <TsThis<'static> as AstNode<'static>>::kind_ok(kind) || <TsLiteral<'static> as AstNode<'static>>::kind_ok(kind) || <TsPredicate<'static> as AstNode<'static>>::kind_ok(kind) || <TsTuple<'static> as AstNode<'static>>::kind_ok(kind) || <TsParen<'static> as AstNode<'static>>::kind_ok(kind) || <TsTypeRef<'static> as AstNode<'static>>::kind_ok(kind) || <TsTemplate<'static> as AstNode<'static>>::kind_ok(kind) || <TsMappedType<'static> as AstNode<'static>>::kind_ok(kind) || <TsImport<'static> as AstNode<'static>>::kind_ok(kind) || <TsArray<'static> as AstNode<'static>>::kind_ok(kind) || <TsIndexedArray<'static> as AstNode<'static>>::kind_ok(kind) || <TsTypeOperator<'static> as AstNode<'static>>::kind_ok(kind) || <TsIntersection<'static> as AstNode<'static>>::kind_ok(kind) || <TsUnion<'static> as AstNode<'static>>::kind_ok(kind) || <TsFnType<'static> as AstNode<'static>>::kind_ok(kind) || <TsConstructorType<'static> as AstNode<'static>>::kind_ok(kind) || <TsConditionalType<'static> as AstNode<'static>>::kind_ok(kind) || <TsObjectType<'static> as AstNode<'static>>::kind_ok(kind) || <TsInfer<'static> as AstNode<'static>>::kind_ok(kind) || <TsTupleElement<'static> as AstNode<'static>>::kind_ok(kind) || <TsEnumMember<'static> as AstNode<'static>>::kind_ok(kind) || <TsTemplateElement<'static> as AstNode<'static>>::kind_ok(kind) || <TsMappedTypeReadonly<'static> as AstNode<'static>>::kind_ok(kind) || <TsMappedTypeParam<'static> as AstNode<'static>>::kind_ok(kind) || <TsTypeName<'static> as AstNode<'static>>::kind_ok(kind) || <TsExtends<'static> as AstNode<'static>>::kind_ok(kind) || <TsModuleBlock<'static> as AstNode<'static>>::kind_ok(kind) || <TsTypeParam<'static> as AstNode<'static>>::kind_ok(kind) || <TsConstraint<'static> as AstNode<'static>>::kind_ok(kind) || <TsDefault<'static> as AstNode<'static>>::kind_ok(kind) || <TsCallSignatureDecl<'static> as AstNode<'static>>::kind_ok(kind) || <TsConstructSignatureDecl<'static> as AstNode<'static>>::kind_ok(kind) || <TsPropertySignature<'static> as AstNode<'static>>::kind_ok(kind) || <TsMethodSignature<'static> as AstNode<'static>>::kind_ok(kind) || <TsQualifiedPath<'static> as AstNode<'static>>::kind_ok(kind)),
{
}

} // verus!
