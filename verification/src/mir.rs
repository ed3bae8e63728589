//! The mid-level representation: every routine as a control-flow graph of
//! basic blocks that hold three-address statements and end in a terminator.
pub mod ir;
pub mod transform;
pub mod transformer;
pub mod traverser;
pub mod laws;
