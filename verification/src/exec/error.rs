//! The runtime-error taxonomy of the interpreter.

use vstd::prelude::*;

use crate::parse;

verus! {

/// An error produced while loading or running a method.
#[derive(Debug)]
pub enum Error {
    /// A class failed to parse.
    Parse(parse::error::Error),
    /// No registered class carries the requested name.
    MissingMainClass,
    /// The class has no runnable entry-point method.
    MissingEntryPoint,
    /// An instruction popped from an empty operand stack.
    EmptyStack,
    /// The top of the operand stack had the wrong type category.
    StackType(&'static str),
    /// A local variable had the wrong type category, or was never
    /// initialized.
    VariableType(&'static str, usize),
    /// A local-variable index past the end of the frame's locals.
    VariableOutOfScope,
    /// Integer division or remainder by zero.
    ArithmeticFault,
    /// A reserved or unrecognized opcode byte.
    UnexpectedOpcode(u8),
    /// Any other failure of the run, described in prose.
    GenericError(String),
}

/// The ghost mirror of [`Error`].
pub enum ErrorV {
    Parse(parse::error::ErrorV),
    MissingMainClass,
    MissingEntryPoint,
    EmptyStack,
    StackType(Seq<char>),
    VariableType(Seq<char>, usize),
    VariableOutOfScope,
    ArithmeticFault,
    UnexpectedOpcode(u8),
    GenericError(Seq<char>),
}

impl View for Error {
    type V = ErrorV;

    open spec fn view(&self) -> ErrorV {
        match self {
            Error::Parse(e) => ErrorV::Parse(e@),
            Error::MissingMainClass => ErrorV::MissingMainClass,
            Error::MissingEntryPoint => ErrorV::MissingEntryPoint,
            Error::EmptyStack => ErrorV::EmptyStack,
            Error::StackType(s) => ErrorV::StackType(s@),
            Error::VariableType(s, i) => ErrorV::VariableType(s@, *i),
            Error::VariableOutOfScope => ErrorV::VariableOutOfScope,
            Error::ArithmeticFault => ErrorV::ArithmeticFault,
            Error::UnexpectedOpcode(b) => ErrorV::UnexpectedOpcode(*b),
            Error::GenericError(s) => ErrorV::GenericError(s@),
        }
    }
}

} // verus!
