//! A small compiler for a rich-text layout DSL.
//!
//! The input is a token stream describing a sequence of styled runs,
//! each `text [spacing] [<format>]`, optionally preceded by a
//! `default_format;` header.  The output is an ordered list of builder
//! instructions, one `append` call per run, with the resolved default
//! format substituted wherever a run omits its own.

pub mod ast;
pub mod parse;
pub mod emit;
pub mod render;

pub use crate::emit::layout;
