//! A forward-only, in-memory text-scanning primitive: a cursor over a text
//! that tracks line, column and offset, offers single-character lookahead,
//! predicate-driven consumption, substring capture, and a validated
//! identifier scanner for a standard "Name" grammar.

pub mod classes;
pub mod position;
pub mod reader;
