//! Execution of parsed bytecode: the instruction table, typed frames,
//! and the dispatch loop.

pub mod cache;
pub mod error;
pub mod instructions;
pub mod interpreter;
pub mod value;
