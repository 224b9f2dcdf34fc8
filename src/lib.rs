//! A lint that recognises `if cond { 1 } else { 0 }`: an `if` expression whose
//! only work is to turn a boolean condition into an integer.
//!
//! [`ast`] holds the syntax tree that the lint inspects, and [`lint`] the
//! matching rule with its contract; [`laws`] states what follows from it.
pub mod ast;
pub mod lint;
pub mod laws;
