//! The oracle protocol for floating-point primitives.
//!
//! The evaluator never touches the machine's floating-point unit. Instead it
//! reads replies from two streams that the caller supplies: one of numeric
//! replies (raw payload bits) and one of text replies (rendered float
//! values). When the next reply is missing, evaluation stops and hands the
//! caller the pending [`FloatReq`]; the caller computes the answer with real
//! floating-point arithmetic, appends it to the stream, and restarts the
//! run. Because evaluation is a pure function of the program and the
//! streams, the replay reaches the same request point and continues.

use vstd::prelude::*;
use crate::error::EvalError;
use crate::value::Value;

verus! {

/// One of the four elementary arithmetic operators on float operands.
#[derive(Clone, Copy, Debug, PartialEq, Eq, Structural)]
pub enum FloatOp {
    Add,
    Sub,
    Mul,
    Div,
}

/// A floating-point primitive the evaluator needs the caller to compute.
///
/// Numeric requests are answered on the numeric stream with the result's
/// payload in the low bits of a `u64`: the IEEE 754 bit pattern for the two
/// float kinds, the two's-complement bits for signed integer kinds. Text
/// requests are answered on the text stream with the value's decimal
/// rendering, in the host's default float formatting.
#[derive(Clone, Copy, Debug, PartialEq, Eq, Structural)]
pub enum FloatReq {
    /// Apply the operator to two 32-bit floats, given by bit pattern.
    Bin32(FloatOp, u32, u32),
    /// Apply the operator to two 64-bit floats, given by bit pattern.
    Bin64(FloatOp, u64, u64),
    /// Raise the first value to the second: promote both payloads to 64-bit
    /// float, apply real-valued exponentiation, cast the result back to the
    /// operands' common kind. The operands always share one kind.
    Pow(Value, Value),
    /// Render the 32-bit float with this bit pattern as text.
    Text32(u32),
    /// Render the 64-bit float with this bit pattern as text.
    Text64(u64),
}

/// What one evaluation step produced: a finished result, a fatal error that
/// aborts the rest of the run, or a request whose reply is not yet in the
/// caller's streams.
#[derive(Debug)]
pub enum Outcome<T> {
    Done(T),
    Fail(EvalError),
    Need(FloatReq),
}

} // verus!
