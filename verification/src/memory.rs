//! The layout of values in memory: the sizes of registers, the offsets of
//! the symbols of a scope, and the pool of string literals.
pub mod scope;
pub mod set_reg;
pub mod stack;
pub mod stringpool;
