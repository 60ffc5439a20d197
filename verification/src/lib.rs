//! Runtime core of a small dynamically typed scripting language: the
//! expression/statement evaluator, the lexical-scope environment model, and
//! the function/closure call mechanism.
//!
//! The scanner and parser are external collaborators: they deliver a
//! well-formed syntax tree, and this crate walks it. Every evaluator step is
//! specified by a ghost interpreter (`interpreter::spec_eval` and friends),
//! and the executable evaluator is proved to return exactly what the ghost
//! interpreter says, for every program and every starting environment.
//!
//! Two language-design choices are fixed here and documented where they are
//! implemented: numbers are signed 64-bit integers with wrapping arithmetic
//! (division by zero is a runtime error), and recursion depth is bounded by
//! an explicit step budget so that runaway recursion fails with a
//! `RecursionLimit` error instead of exhausting the host stack.

pub mod environment;
pub mod error;
pub mod expr;
pub mod func;
pub mod interpreter;
pub mod laws;
pub mod lox;
pub mod stmt;
pub mod token;
