//! The lexer: turns the text of a compilation unit into tokens.
pub mod tokens;
pub mod error;
pub mod words;
pub mod lexer;
