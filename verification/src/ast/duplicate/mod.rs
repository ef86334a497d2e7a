//! Copies of the syntax tree nodes, and the `Clone` implementations that rest
//! on them.
pub mod source;
pub mod primary;
pub mod postfix;
pub mod operations;
pub mod expressions;
pub mod statements;
pub mod declarations;
pub mod module;
