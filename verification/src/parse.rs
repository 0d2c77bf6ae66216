//! Decoding of the class-file binary format.

pub mod attribute;
pub mod classfile;
pub mod constant;
pub mod error;
pub mod field;
pub mod method;
pub mod reader;
