//! A tiny tree-walking interpreter for a toy scripting language with
//! `let name:type = expr;` declarations, `print(expr);` statements, bare
//! expression statements, and an arithmetic expression grammar over numeric
//! values tagged with one of ten kinds (signed and unsigned 8/16/32/64-bit
//! integers, 32- and 64-bit floating point).
//!
//! Verus does not reason about floating-point arithmetic, so the library
//! never performs a floating-point operation itself. Floating-point payloads
//! are carried as their IEEE 754 bit patterns, and every primitive that needs
//! the machine's floating-point unit — binary arithmetic on float operands,
//! the exponent operator (which promotes through 64-bit floats for every
//! kind), and rendering a float as text — is delegated to the caller through
//! an oracle protocol: the evaluator reads replies from two streams handed in
//! by the caller, and when a reply is missing it stops and returns the
//! pending request. The caller computes the answer, appends it to the
//! streams, and runs the evaluator again from the start; evaluation is a
//! pure function of the program and the streams, so the replay reaches the
//! same point and continues. Everything around those primitives — the value
//! model, integer arithmetic, the variable environment, evaluation order,
//! printing of integer kinds, and the abort-on-first-error policy — is
//! verified.

pub mod ast;
pub mod decimal;
pub mod env;
pub mod error;
pub mod eval;
pub mod kind;
pub mod laws;
pub mod oracle;
pub mod value;
