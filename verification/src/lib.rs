//! Turns a parsed Python module tree into Markdown API-reference text.
//!
//! The crate is organised around one abstract syntax taxonomy ([`ast`])
//! and a family of pure text builders over it: a recursive type-expression
//! stringifier ([`stringify`]), a statement reconstructor ([`reconstruct`]),
//! parameter/return table builders ([`tables`]), a docstring extractor
//! ([`docstring`]), and a page assembler ([`assemble`]) that walks the
//! top-level declarations and emits one document.
//!
//! A parser front-end supplies the tree; the crate itself performs no I/O.

pub mod assemble;
pub mod ast;
pub mod docstring;
pub mod reconstruct;
pub mod stringify;
pub mod tables;
