//! Errors of the machine and of the type checker.

use vstd::prelude::*;

use crate::model::models;
use crate::op::{Op, OpModel};
use crate::types::{clone_types, Type, TypeModel};
use crate::value::{clone_values, Value, ValueModel};

verus! {

/// What went wrong.
#[derive(Debug, PartialEq)]
pub enum ErrorKind {
    /// A static type mismatch: the opcode and the types involved.
    TypeError(Op, Vec<Type>),
    /// An opcode met operands it cannot work on: the opcode and the operands.
    RuntimeTypeError(Op, Vec<Value>),
    /// An assertion saw false.
    Assert,
    /// An illegal opcode, a callee that cannot be called, a wrong number of
    /// arguments, or a broken invariant of the machine.
    InvalidProgram,
    /// The unreachable opcode ran.
    Unreachable,
    /// Reported by a front end for source text it cannot read.
    SyntaxError,
    /// Reported by a front end for source text it cannot compile.
    CompileError,
}

/// Mathematical model of an [`ErrorKind`].
pub enum ErrorKindModel {
    TypeError(OpModel, Seq<TypeModel>),
    RuntimeTypeError(OpModel, Seq<ValueModel>),
    Assert,
    InvalidProgram,
    Unreachable,
    SyntaxError,
    CompileError,
}

impl View for ErrorKind {
    type V = ErrorKindModel;

    open spec fn view(&self) -> ErrorKindModel {
        match self {
            ErrorKind::TypeError(op, types) => ErrorKindModel::TypeError(op@, models(types@)),
            ErrorKind::RuntimeTypeError(op, values) => ErrorKindModel::RuntimeTypeError(
                op@,
                models(values@),
            ),
            ErrorKind::Assert => ErrorKindModel::Assert,
            ErrorKind::InvalidProgram => ErrorKindModel::InvalidProgram,
            ErrorKind::Unreachable => ErrorKindModel::Unreachable,
            ErrorKind::SyntaxError => ErrorKindModel::SyntaxError,
            ErrorKind::CompileError => ErrorKindModel::CompileError,
        }
    }
}

impl Clone for ErrorKind {
    fn clone(&self) -> (r: Self)
        ensures
            r@ == self@,
    {
        match self {
            ErrorKind::TypeError(op, types) => ErrorKind::TypeError(op.clone(), clone_types(types)),
            ErrorKind::RuntimeTypeError(op, values) => ErrorKind::RuntimeTypeError(
                op.clone(),
                clone_values(values),
            ),
            ErrorKind::Assert => ErrorKind::Assert,
            ErrorKind::InvalidProgram => ErrorKind::InvalidProgram,
            ErrorKind::Unreachable => ErrorKind::Unreachable,
            ErrorKind::SyntaxError => ErrorKind::SyntaxError,
            ErrorKind::CompileError => ErrorKind::CompileError,
        }
    }
}

/// An error with the place it was raised at.
#[derive(Debug, PartialEq)]
pub struct Error {
    pub kind: ErrorKind,
    pub file: String,
    pub line: usize,
    pub message: Option<String>,
}

/// Mathematical model of an [`Error`].
pub struct ErrorModel {
    pub kind: ErrorKindModel,
    pub file: Seq<char>,
    pub line: usize,
    pub message: Option<Seq<char>>,
}

/// The model of an optional text.
pub open spec fn text_model(text: Option<String>) -> Option<Seq<char>> {
    match text {
        Some(s) => Some(s@),
        None => None,
    }
}

impl View for Error {
    type V = ErrorModel;

    open spec fn view(&self) -> ErrorModel {
        ErrorModel {
            kind: self.kind@,
            file: self.file@,
            line: self.line,
            message: text_model(self.message),
        }
    }
}

impl Clone for Error {
    fn clone(&self) -> (r: Self)
        ensures
            r@ == self@,
    {
        let message = match &self.message {
            Some(s) => Some(s.clone()),
            None => None,
        };
        Error { kind: self.kind.clone(), file: self.file.clone(), line: self.line, message }
    }
}

} // verus!
