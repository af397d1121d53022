//! The fatal errors an evaluation run can abort with.

use vstd::prelude::*;
use crate::kind::NumType;

verus! {

/// A fatal evaluation error. The first error anywhere in a run terminates
/// the whole run: no statement after the failure point executes.
#[derive(Debug, PartialEq)]
pub enum EvalError {
    /// A binary operation was applied to operands of differing kinds.
    TypeMismatch(NumType, NumType),
    /// An identifier was read before any `let` or assignment bound it.
    UndefinedVariable(String),
    /// An integer-kind division had a zero divisor. Integer division by
    /// zero cannot follow the host's arithmetic, which has no result for
    /// it, so it is pinned down as this explicit fatal error; float
    /// division by zero follows IEEE 754 and is not an error.
    DivisionByZero(NumType),
}

/// The mathematical shadow of [`EvalError`]: identifier text as a sequence
/// of characters. Contracts speak of this form.
pub enum ErrorModel {
    TypeMismatch(NumType, NumType),
    UndefinedVariable(Seq<char>),
    DivisionByZero(NumType),
}

impl View for EvalError {
    type V = ErrorModel;

    open spec fn view(&self) -> ErrorModel {
        match self {
            EvalError::TypeMismatch(a, b) => ErrorModel::TypeMismatch(*a, *b),
            EvalError::UndefinedVariable(name) => ErrorModel::UndefinedVariable(name@),
            EvalError::DivisionByZero(k) => ErrorModel::DivisionByZero(*k),
        }
    }
}

} // verus!
