//! The parse-error taxonomy.
//!
//! Every failure of the decoder is one of these variants.  The ghost
//! mirror [`ErrorV`] is the value the specification-level parsers speak
//! of: it carries the same data, with `String` fields replaced by their
//! character-sequence views.

use vstd::prelude::*;

use crate::parse::constant::{Constant, ConstantV};

verus! {

/// An error produced while decoding a class file.
#[derive(Debug)]
pub enum Error {
    /// The input ended before a read could complete; `msg` names the
    /// field that was being read.
    Io { msg: String },
    /// A fixed value (the magic number) did not match.
    Expected { got: String, expected: String },
    /// A constant-pool tag outside the recognized set.
    UnknownTag { tag: u8 },
    /// A method-handle kind outside 1..=9.
    InvalidMethodHandleKind { kind: u8 },
    /// A length-prefixed string was not valid UTF-8.
    InvalidString,
    /// A constant-pool index of zero.
    ZeroIndex,
    /// A constant-pool index past the end of the pool.
    OutOfRange { index: u16 },
    /// A constant-pool index that lands on the padding slot after a
    /// long or double constant.
    IndexInsideDoubleWidthConstant { index: u16 },
    /// An attribute whose name index does not resolve to a UTF-8 constant.
    InvalidAttributeType { attr: Constant },
    /// An attribute name the decoder does not recognize.
    UnknownAttributeType { attr: String },
    /// A stack-map frame discriminator in the reserved range.
    InvalidStackFrameType { ty: u8 },
    /// A verification-type tag outside 0..=8.
    InvalidVerificationType { ty: u8 },
    /// An attribute whose parser consumed a number of bytes different
    /// from its declared length.
    LengthMismatch { length: u32, actual: u32, ty: String },
}

/// The ghost mirror of [`Error`], used by the specification-level parsers.
pub enum ErrorV {
    Io { msg: Seq<char> },
    Expected { got: Seq<char>, expected: Seq<char> },
    UnknownTag { tag: u8 },
    InvalidMethodHandleKind { kind: u8 },
    InvalidString,
    ZeroIndex,
    OutOfRange { index: u16 },
    IndexInsideDoubleWidthConstant { index: u16 },
    InvalidAttributeType { attr: ConstantV },
    UnknownAttributeType { attr: Seq<char> },
    InvalidStackFrameType { ty: u8 },
    InvalidVerificationType { ty: u8 },
    LengthMismatch { length: u32, actual: u32, ty: Seq<char> },
}

impl View for Error {
    type V = ErrorV;

    open spec fn view(&self) -> ErrorV {
        match self {
            Error::Io { msg } => ErrorV::Io { msg: msg@ },
            Error::Expected { got, expected } => ErrorV::Expected {
                got: got@,
                expected: expected@,
            },
            Error::UnknownTag { tag } => ErrorV::UnknownTag { tag: *tag },
            Error::InvalidMethodHandleKind { kind } => ErrorV::InvalidMethodHandleKind {
                kind: *kind,
            },
            Error::InvalidString => ErrorV::InvalidString,
            Error::ZeroIndex => ErrorV::ZeroIndex,
            Error::OutOfRange { index } => ErrorV::OutOfRange { index: *index },
            Error::IndexInsideDoubleWidthConstant { index } => {
                ErrorV::IndexInsideDoubleWidthConstant { index: *index }
            },
            Error::InvalidAttributeType { attr } => ErrorV::InvalidAttributeType { attr: attr@ },
            Error::UnknownAttributeType { attr } => ErrorV::UnknownAttributeType { attr: attr@ },
            Error::InvalidStackFrameType { ty } => ErrorV::InvalidStackFrameType { ty: *ty },
            Error::InvalidVerificationType { ty } => ErrorV::InvalidVerificationType { ty: *ty },
            Error::LengthMismatch { length, actual, ty } => ErrorV::LengthMismatch {
                length: *length,
                actual: *actual,
                ty: ty@,
            },
        }
    }
}

} // verus!
