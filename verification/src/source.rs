//! Positions in the source text.
pub mod span;
