//! Syntax tree library of the language, with its source buffers and the
//! bookkeeping of its test runner.
pub mod ast;
pub mod suite;
pub mod text;
