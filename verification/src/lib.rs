//! Middle tier of a compiler for a small statically typed, module oriented
//! language: scope-correct name resolution and type checking of a syntax
//! tree, and the lowering of a checked routine into a control-flow graph of
//! basic blocks.
//!
//! Every executable function carries a contract that is checked by Verus.
pub mod stringtable;
pub mod text;
pub mod display;
pub mod source;
pub mod ast;
pub mod semantics;
pub mod parser;
pub mod lexer;
pub mod import;
pub mod mir;
pub mod memory;
pub mod project;

use vstd::prelude::*;

verus! {

} // verus!
