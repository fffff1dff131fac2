//! Syntax tree of an extensible-grammar language: node shapes, their spans,
//! shared nodes with optional identity, and the structures that record
//! ambiguous macro matches; and the records of JSON-RPC 2.0 messages.

pub mod span;
pub mod text;
pub mod ast;
pub mod pattern;
pub mod shape;
pub mod wire;
pub mod messages;
