//! A binder for a small expression language.
//!
//! The binder turns the untyped syntax tree produced by an external parser
//! into a typed bound tree: it resolves names against a chain of lexical
//! scopes, resolves operators against a fixed table keyed by operand types,
//! checks assignments for type compatibility, and collects every semantic
//! error into an ordered diagnostic bag instead of aborting.  Successive
//! program fragments of one session are bound against the accumulated
//! declarations of all earlier fragments through a chain of global scope
//! snapshots.

pub mod binding;
pub mod laws;
pub mod diagnostics;
pub mod syntax;
pub mod text;
pub mod value;
