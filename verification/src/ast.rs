//! The syntax tree and the values that annotate it.
pub mod path;
pub mod ty;
pub mod node;
pub mod parameter;
pub mod expression;
pub mod statement;
pub mod routinedef;
pub mod structdef;
pub mod external;
pub mod module;
pub mod children;
