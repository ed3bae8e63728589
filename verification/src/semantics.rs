//! Semantic analysis: scopes and symbols, and the resolver that annotates
//! every node of a syntax tree with its type.
pub mod error;
pub mod symbol_table;
pub mod semanticnode;
pub mod stack;
pub mod canonize;
pub mod rules;
pub mod type_resolver;
pub mod annotate;
pub mod register;
