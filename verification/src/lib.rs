//! Execution core of a small imperative teaching language: an AST model,
//! a static type/return-flow checker, and a tree-walking evaluator.
//!
//! The source-text parser is an external collaborator: it produces the
//! AST shape defined in [`ast`], and everything from that point on is
//! verified.  The evaluator is deterministic: console input is modelled
//! as a queue of lines and console output as a log of emitted pieces,
//! both carried in [`value::RunState`].
pub mod ast;
pub mod check;
pub mod errors;
pub mod eval;
pub mod laws;
pub mod ops;
pub mod semantics;
pub mod text;
pub mod value;
