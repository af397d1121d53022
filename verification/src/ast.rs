//! The statement and expression tree the parser collaborator produces.
//!
//! The tree is strictly acyclic and singly owned: every node owns its
//! children exclusively. The evaluator consumes it and never mutates it;
//! grammar-level validation happened before the tree was built.

use vstd::prelude::*;

verus! {

/// One statement of a program, in program order.
#[derive(Debug)]
pub enum Statement {
    /// A bare expression: evaluate for its side effects, discard the value.
    ExprStatement(Box<Expr>),
    /// `let name:kind = expr;` — evaluate and bind the result under the
    /// name. The declared kind annotation (the second field) is parsed but
    /// deliberately inert: it is neither checked against the evaluated
    /// value's kind nor used to coerce it.
    Let(String, String, Box<Expr>),
    /// `print(expr);` — evaluate and emit one output line.
    Print(Box<Expr>),
}

/// One expression node.
#[derive(Debug)]
pub enum Expr {
    /// A numeric literal. The grammar has only this literal form, and it
    /// always evaluates to the 64-bit float kind; the payload is the
    /// literal's IEEE 754 bit pattern.
    Number(u64),
    /// An identifier read from the environment.
    Id(String),
    /// The named constant π, of 64-bit float kind.
    PI,
    /// The named constant e, of 64-bit float kind.
    E,
    /// A parenthesised expression: semantically transparent.
    Parenthesis(Box<Expr>),
    /// Exponentiation, left operand raised to the right.
    Exponent(Box<Expr>, Box<Expr>),
    Multiply(Box<Expr>, Box<Expr>),
    Divide(Box<Expr>, Box<Expr>),
    Add(Box<Expr>, Box<Expr>),
    Sub(Box<Expr>, Box<Expr>),
    /// Assignment as an expression: `name = expr` writes the environment
    /// and yields the assigned value.
    Eq(String, Box<Expr>),
}

/// Whether an expression mentions no identifier at all: no read and no
/// assignment.
pub open spec fn expr_has_no_identifiers(e: Expr) -> bool
    decreases e,
{
    match e {
        Expr::Number(_) => true,
        Expr::Id(_) => false,
        Expr::PI => true,
        Expr::E => true,
        Expr::Parenthesis(inner) => expr_has_no_identifiers(*inner),
        Expr::Exponent(l, r) => expr_has_no_identifiers(*l) && expr_has_no_identifiers(*r),
        Expr::Multiply(l, r) => expr_has_no_identifiers(*l) && expr_has_no_identifiers(*r),
        Expr::Divide(l, r) => expr_has_no_identifiers(*l) && expr_has_no_identifiers(*r),
        Expr::Add(l, r) => expr_has_no_identifiers(*l) && expr_has_no_identifiers(*r),
        Expr::Sub(l, r) => expr_has_no_identifiers(*l) && expr_has_no_identifiers(*r),
        Expr::Eq(_, _) => false,
    }
}

/// Whether a statement mentions no identifier: a `let` always binds one,
/// the other statements defer to their expression.
pub open spec fn stmt_has_no_identifiers(s: Statement) -> bool {
    match s {
        Statement::ExprStatement(e) => expr_has_no_identifiers(*e),
        Statement::Let(_, _, _) => false,
        Statement::Print(e) => expr_has_no_identifiers(*e),
    }
}

/// Whether a whole program mentions no identifier.
pub open spec fn program_has_no_identifiers(p: Seq<Statement>) -> bool {
    forall|i: int| 0 <= i < p.len() ==> stmt_has_no_identifiers(#[trigger] p[i])
}

} // verus!
