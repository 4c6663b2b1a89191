//! A line-level lexer for Markdown-like text.
//!
//! Each input line is classified independently into typed block-level
//! tokens: headings, ordered/unordered/task/definition lists, horizontal
//! rules, blockquotes, code fences, line breaks, empty lines and plain
//! text. Classification is a pure function of the line's content alone;
//! the caller accumulates the emitted tokens for a whole document in one
//! ordered sequence.
//!
//! Lines are indexed by code points throughout, both in the executable
//! classifier and in its specification; the choice only shows on lines
//! holding non-ASCII text, since every syntax marker is ASCII.

pub mod laws;
pub mod lexer;
pub mod literals;
pub mod model;
pub mod tokens;
