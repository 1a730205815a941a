//! Verified lowering core of a small ahead-of-time compiler for a C-like
//! language: a typed AST, a resolver from source type annotations to primitive
//! IR types, and a lowering pass that turns each source function into a
//! block-structured IR function (stack slots for parameters and locals,
//! conditional branches, explicit and implicit returns).  An external backend
//! consumes the IR and produces machine code; it is not part of this crate.

pub mod ast;
pub mod error;
pub mod ir;
pub mod laws;
pub mod lower;
pub mod table;
