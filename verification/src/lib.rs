//! Semantic analysis for a small class-based, statically typed language.
//!
//! The type pass walks a parsed program whose scopes already carry their
//! symbol tables. It resolves every name, gives every expression a static
//! type, enforces the typing and access rules, decides for every method
//! whether all paths return, and records every diagnostic it finds without
//! stopping at the first one.
//!
//! * [`loc`]: source positions.
//! * [`ty`]: types and the assignability relation.
//! * [`symbol`]: symbols and scope tables.
//! * [`ast`]: the syntax tree.
//! * [`program`]: classes, inheritance and member lookup.
//! * [`diag`]: diagnostics and per-node annotations.
//! * [`scopes`]: the context of a place and how a bare name is resolved.
//! * [`rules`]: the typing and reachability rules as mathematical functions.
//! * [`pass`]: the executable pass, which follows the rules.
//! * [`laws`]: properties of the type model and of the rules.

pub mod loc;
pub mod ty;
pub mod symbol;
pub mod ast;
pub mod program;
pub mod diag;
pub mod scopes;
pub mod rules;
pub mod pass;
pub mod laws;
