//! A lossless JavaScript syntax tree: the event buffer that parsing fills,
//! the markers and checkpoints that grammar rules use on it, the rewrite that
//! reinterprets an expression as an assignment target, the tree that is built
//! from the buffer, and the typed views over that tree.

pub mod kind;
pub mod event;
pub mod tree;
pub mod builder;
pub mod syntax;
pub mod support;
pub mod ast;
pub mod parser;
pub mod rewrite;
pub mod util;
pub mod assignment;
pub mod expr;
pub mod script;

pub use kind::SyntaxKind;
