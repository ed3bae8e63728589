//! What the parser hands to semantic analysis.
pub mod context;
pub mod error;
pub mod tokenstream;
pub mod pnode;
pub mod grammar;
pub mod parser;
pub mod expressions;
pub mod statements;
pub mod items;
