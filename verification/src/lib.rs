//! A class-file parser and stack-machine interpreter.
//!
//! The `parse` module decodes the big-endian, length-prefixed class-file
//! format into an in-memory tree; every decoding function is proved equal
//! to a specification-level parser over the byte sequence.  The `exec`
//! module interprets the bytecode of a parsed method over a typed operand
//! stack and local-variable array, against a specification-level step
//! relation.

#![verifier::loop_isolation(false)]

pub mod exec;
pub mod parse;
