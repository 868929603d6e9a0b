//! tlstuc: a verified front end for a single-translation-unit C
//! compiler. Source text is lexed, parsed and semantically checked, each
//! stage pinned by its contract to a mathematical model of the same
//! pipeline; the checked tree, with the layout rules stated here, is
//! what a target emitter consumes.
use vstd::prelude::*;

pub mod ast;
pub mod lexer;
pub mod parser;
pub mod sema;
pub mod layout;
pub mod codegen;
pub mod pipeline;
pub mod utils;
pub mod config;
pub mod runtime;
pub mod diag;

verus! {

} // verus!
