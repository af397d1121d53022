//! The evaluator's laws: properties that hold of every program, proved
//! against the specification functions the executable contracts use.

use vstd::prelude::*;
use crate::ast::Expr;
use crate::ast::Statement;
use crate::ast::expr_has_no_identifiers;
use crate::ast::program_has_no_identifiers;
use crate::ast::stmt_has_no_identifiers;
use crate::error::ErrorModel;
use crate::eval::ExprStep;
use crate::eval::StmtStep;
use crate::eval::eval_expr_spec;
use crate::eval::exec_statement_spec;
use crate::eval::run_spec;
use crate::kind::NumType;
use crate::value::OpStep;
use crate::value::OutcomeModel;
use crate::value::Value;
use crate::value::add_spec;
use crate::value::div_spec;
use crate::value::mul_spec;
use crate::value::pow_spec;
use crate::value::sub_spec;

verus! {

/// Parenthesis is semantically transparent: `(e)` evaluates exactly as
/// `e`, in every environment and against every reply stream.
pub proof fn lemma_parenthesis_transparent(
    inner: Box<Expr>,
    env: Map<Seq<char>, Value>,
    nums: Seq<u64>,
    k: nat,
)
    ensures
        eval_expr_spec(Expr::Parenthesis(inner), env, nums, k) == eval_expr_spec(
            *inner,
            env,
            nums,
            k,
        ),
{
}

/// `print((e));` behaves exactly as `print(e);`: same line, same
/// environment, same cursors, same status.
pub proof fn lemma_print_parenthesis(
    inner: Box<Expr>,
    env: Map<Seq<char>, Value>,
    nums: Seq<u64>,
    k: nat,
    texts: Seq<Seq<char>>,
    t: nat,
)
    ensures
        exec_statement_spec(
            Statement::Print(Box::new(Expr::Parenthesis(inner))),
            env,
            nums,
            k,
            texts,
            t,
        ) == exec_statement_spec(Statement::Print(inner), env, nums, k, texts, t),
{
}

/// Reading an identifier that no `let` or assignment has bound fails with
/// `UndefinedVariable`, touching neither the environment nor the streams.
pub proof fn lemma_unbound_identifier_faults(
    name: String,
    env: Map<Seq<char>, Value>,
    nums: Seq<u64>,
    k: nat,
)
    requires
        !env.contains_key(name@),
    ensures
        eval_expr_spec(Expr::Id(name), env, nums, k) == (ExprStep {
            env,
            k,
            out: OutcomeModel::Fail(ErrorModel::UndefinedVariable(name@)),
        }),
{
}

/// Assignment is an expression: when its right-hand side completes, it
/// both writes the binding and yields the assigned value as its own.
pub proof fn lemma_assignment_yields_value(
    name: String,
    sub: Box<Expr>,
    env: Map<Seq<char>, Value>,
    nums: Seq<u64>,
    k: nat,
)
    ensures
        ({
            let ss = eval_expr_spec(*sub, env, nums, k);
            ss.out matches OutcomeModel::Done(v) ==> eval_expr_spec(
                Expr::Eq(name, sub),
                env,
                nums,
                k,
            ) == (ExprStep { env: ss.env.insert(name@, v), k: ss.k, out: OutcomeModel::Done(v) })
        }),
{
}

/// Numeric literals and the two named constants always evaluate to the
/// 64-bit float kind: the grammar has no other literal form, so the other
/// kinds become reachable only through bindings made outside a program.
pub proof fn lemma_literals_are_f64(
    bits: u64,
    env: Map<Seq<char>, Value>,
    nums: Seq<u64>,
    k: nat,
)
    ensures
        eval_expr_spec(Expr::Number(bits), env, nums, k).out matches OutcomeModel::Done(v)
            && v.kind() == NumType::F64,
        eval_expr_spec(Expr::PI, env, nums, k).out matches OutcomeModel::Done(v) && v.kind()
            == NumType::F64,
        eval_expr_spec(Expr::E, env, nums, k).out matches OutcomeModel::Done(v) && v.kind()
            == NumType::F64,
{
}

/// Applying any of the five binary operators to operands of differing
/// kinds fails with `TypeMismatch` naming the two kinds, whatever the
/// reply stream holds, and consumes nothing from it.
pub proof fn lemma_kind_mismatch_faults(a: Value, b: Value, nums: Seq<u64>, k: nat)
    requires
        a.kind() != b.kind(),
    ensures
        add_spec(a, b, nums, k) == (OpStep {
            out: OutcomeModel::<Value>::Fail(ErrorModel::TypeMismatch(a.kind(), b.kind())),
            k,
        }),
        sub_spec(a, b, nums, k) == (OpStep {
            out: OutcomeModel::<Value>::Fail(ErrorModel::TypeMismatch(a.kind(), b.kind())),
            k,
        }),
        mul_spec(a, b, nums, k) == (OpStep {
            out: OutcomeModel::<Value>::Fail(ErrorModel::TypeMismatch(a.kind(), b.kind())),
            k,
        }),
        div_spec(a, b, nums, k) == (OpStep {
            out: OutcomeModel::<Value>::Fail(ErrorModel::TypeMismatch(a.kind(), b.kind())),
            k,
        }),
        pow_spec(a, b, nums, k) == (OpStep {
            out: OutcomeModel::<Value>::Fail(ErrorModel::TypeMismatch(a.kind(), b.kind())),
            k,
        }),
{
}

/// A binary operation that completes keeps the operands' common kind.
pub proof fn lemma_result_keeps_kind(a: Value, b: Value, nums: Seq<u64>, k: nat)
    requires
        a.kind() == b.kind(),
    ensures
        (add_spec(a, b, nums, k).out matches OutcomeModel::Done(v) ==> v.kind() == a.kind()),
        (sub_spec(a, b, nums, k).out matches OutcomeModel::Done(v) ==> v.kind() == a.kind()),
        (mul_spec(a, b, nums, k).out matches OutcomeModel::Done(v) ==> v.kind() == a.kind()),
        (div_spec(a, b, nums, k).out matches OutcomeModel::Done(v) ==> v.kind() == a.kind()),
        (pow_spec(a, b, nums, k).out matches OutcomeModel::Done(v) ==> v.kind() == a.kind()),
{
}

/// A statement whose execution fails emits no output line.
pub proof fn lemma_failed_statement_is_silent(
    s: Statement,
    env: Map<Seq<char>, Value>,
    nums: Seq<u64>,
    k: nat,
    texts: Seq<Seq<char>>,
    t: nat,
)
    ensures
        ({
            let ss = exec_statement_spec(s, env, nums, k, texts, t);
            ss.out matches OutcomeModel::Fail(e) ==> ss.lines == Seq::<Seq<char>>::empty()
        }),
{
}

/// The first fatal error aborts the whole run: when a statement fails, the
/// statements after it neither execute nor print, and the run's outcome is
/// that statement's error.
pub proof fn lemma_abort_stops_run(
    stmts: Seq<Statement>,
    env: Map<Seq<char>, Value>,
    nums: Seq<u64>,
    k: nat,
    texts: Seq<Seq<char>>,
    t: nat,
)
    requires
        stmts.len() > 0,
        exec_statement_spec(stmts[0], env, nums, k, texts, t).out matches OutcomeModel::Fail(_),
    ensures
        run_spec(stmts, env, nums, k, texts, t) == exec_statement_spec(
            stmts[0],
            env,
            nums,
            k,
            texts,
            t,
        ),
{
}

/// The composed meaning of a binary node: the left operand evaluated
/// first, then the right operand in the state the left produced, then the
/// operation applied to the two values. An error or suspension on either
/// side stops the composition there.
pub open spec fn sequenced(
    ls: ExprStep,
    r: Box<Expr>,
    nums: Seq<u64>,
    op: spec_fn(Value, Value, Seq<u64>, nat) -> OpStep,
) -> ExprStep {
    match ls.out {
        OutcomeModel::Done(a) => {
            let rs = eval_expr_spec(*r, ls.env, nums, ls.k);
            match rs.out {
                OutcomeModel::Done(b) => {
                    let o = op(a, b, nums, rs.k);
                    ExprStep { env: rs.env, k: o.k, out: o.out }
                },
                _ => rs,
            }
        },
        _ => ls,
    }
}

/// Left-operand side effects come first: every binary node means
/// "evaluate the left operand completely — environment writes and oracle
/// consumption included — then the right operand in that state, then the
/// operation"; an error on the left prevents the right operand from being
/// evaluated at all.
pub proof fn lemma_left_operand_first(
    l: Box<Expr>,
    r: Box<Expr>,
    env: Map<Seq<char>, Value>,
    nums: Seq<u64>,
    k: nat,
)
    ensures
        eval_expr_spec(Expr::Exponent(l, r), env, nums, k) == sequenced(
            eval_expr_spec(*l, env, nums, k),
            r,
            nums,
            (|a: Value, b: Value, n: Seq<u64>, c: nat| pow_spec(a, b, n, c)),
        ),
        eval_expr_spec(Expr::Multiply(l, r), env, nums, k) == sequenced(
            eval_expr_spec(*l, env, nums, k),
            r,
            nums,
            (|a: Value, b: Value, n: Seq<u64>, c: nat| mul_spec(a, b, n, c)),
        ),
        eval_expr_spec(Expr::Divide(l, r), env, nums, k) == sequenced(
            eval_expr_spec(*l, env, nums, k),
            r,
            nums,
            (|a: Value, b: Value, n: Seq<u64>, c: nat| div_spec(a, b, n, c)),
        ),
        eval_expr_spec(Expr::Add(l, r), env, nums, k) == sequenced(
            eval_expr_spec(*l, env, nums, k),
            r,
            nums,
            (|a: Value, b: Value, n: Seq<u64>, c: nat| add_spec(a, b, n, c)),
        ),
        eval_expr_spec(Expr::Sub(l, r), env, nums, k) == sequenced(
            eval_expr_spec(*l, env, nums, k),
            r,
            nums,
            (|a: Value, b: Value, n: Seq<u64>, c: nat| sub_spec(a, b, n, c)),
        ),
{
}

/// An identifier-free expression neither reads nor writes the
/// environment: its outcome and cursor are the same in every environment,
/// and the environment passes through unchanged.
pub proof fn lemma_expr_ignores_env(
    e: Expr,
    env1: Map<Seq<char>, Value>,
    env2: Map<Seq<char>, Value>,
    nums: Seq<u64>,
    k: nat,
)
    requires
        expr_has_no_identifiers(e),
    ensures
        ({
            let s1 = eval_expr_spec(e, env1, nums, k);
            let s2 = eval_expr_spec(e, env2, nums, k);
            s1.out == s2.out && s1.k == s2.k && s1.env == env1 && s2.env == env2
        }),
    decreases e,
{
    match e {
        Expr::Parenthesis(inner) => {
            lemma_expr_ignores_env(*inner, env1, env2, nums, k);
        },
        Expr::Exponent(l, r) => {
            lemma_expr_ignores_env(*l, env1, env2, nums, k);
            let ls = eval_expr_spec(*l, env1, nums, k);
            match ls.out {
                OutcomeModel::Done(_) => {
                    lemma_expr_ignores_env(*r, env1, env2, nums, ls.k);
                },
                _ => {},
            }
        },
        Expr::Multiply(l, r) => {
            lemma_expr_ignores_env(*l, env1, env2, nums, k);
            let ls = eval_expr_spec(*l, env1, nums, k);
            match ls.out {
                OutcomeModel::Done(_) => {
                    lemma_expr_ignores_env(*r, env1, env2, nums, ls.k);
                },
                _ => {},
            }
        },
        Expr::Divide(l, r) => {
            lemma_expr_ignores_env(*l, env1, env2, nums, k);
            let ls = eval_expr_spec(*l, env1, nums, k);
            match ls.out {
                OutcomeModel::Done(_) => {
                    lemma_expr_ignores_env(*r, env1, env2, nums, ls.k);
                },
                _ => {},
            }
        },
        Expr::Add(l, r) => {
            lemma_expr_ignores_env(*l, env1, env2, nums, k);
            let ls = eval_expr_spec(*l, env1, nums, k);
            match ls.out {
                OutcomeModel::Done(_) => {
                    lemma_expr_ignores_env(*r, env1, env2, nums, ls.k);
                },
                _ => {},
            }
        },
        Expr::Sub(l, r) => {
            lemma_expr_ignores_env(*l, env1, env2, nums, k);
            let ls = eval_expr_spec(*l, env1, nums, k);
            match ls.out {
                OutcomeModel::Done(_) => {
                    lemma_expr_ignores_env(*r, env1, env2, nums, ls.k);
                },
                _ => {},
            }
        },
        _ => {},
    }
}

/// An identifier-free statement's lines, cursors and status do not depend
/// on the environment, which passes through unchanged.
pub proof fn lemma_stmt_ignores_env(
    s: Statement,
    env1: Map<Seq<char>, Value>,
    env2: Map<Seq<char>, Value>,
    nums: Seq<u64>,
    k: nat,
    texts: Seq<Seq<char>>,
    t: nat,
)
    requires
        stmt_has_no_identifiers(s),
    ensures
        ({
            let s1 = exec_statement_spec(s, env1, nums, k, texts, t);
            let s2 = exec_statement_spec(s, env2, nums, k, texts, t);
            s1.lines == s2.lines && s1.k == s2.k && s1.t == s2.t && s1.out == s2.out && s1.env
                == env1 && s2.env == env2
        }),
{
    match s {
        Statement::ExprStatement(e) => {
            lemma_expr_ignores_env(*e, env1, env2, nums, k);
        },
        Statement::Print(e) => {
            lemma_expr_ignores_env(*e, env1, env2, nums, k);
        },
        _ => {},
    }
}

/// Determinism: a program with no identifiers produces the same output
/// lines, the same cursor positions and the same status on every run with
/// the same reply streams, whatever environment the run starts in — so
/// re-running such a program reproduces its output byte for byte.
pub proof fn lemma_run_deterministic(
    prog: Seq<Statement>,
    env1: Map<Seq<char>, Value>,
    env2: Map<Seq<char>, Value>,
    nums: Seq<u64>,
    k: nat,
    texts: Seq<Seq<char>>,
    t: nat,
)
    requires
        program_has_no_identifiers(prog),
    ensures
        ({
            let r1 = run_spec(prog, env1, nums, k, texts, t);
            let r2 = run_spec(prog, env2, nums, k, texts, t);
            r1.lines == r2.lines && r1.k == r2.k && r1.t == r2.t && r1.out == r2.out
        }),
    decreases prog.len(),
{
    if prog.len() > 0 {
        assert(stmt_has_no_identifiers(prog[0]));
        lemma_stmt_ignores_env(prog[0], env1, env2, nums, k, texts, t);
        let f1 = exec_statement_spec(prog[0], env1, nums, k, texts, t);
        match f1.out {
            OutcomeModel::Done(_) => {
                assert forall|i: int| 0 <= i < prog.skip(1).len() implies stmt_has_no_identifiers(
                    #[trigger] prog.skip(1)[i],
                ) by {
                    assert(prog.skip(1)[i] == prog[i + 1]);
                }
                lemma_run_deterministic(
                    prog.skip(1),
                    env1,
                    env2,
                    nums,
                    f1.k,
                    texts,
                    f1.t,
                );
            },
            _ => {},
        }
    }
}

/// Once some statement fails, everything after it is dead: the run's
/// output is exactly what the statements before the failure printed, the
/// failing statement prints nothing more, and the run reports its error.
pub proof fn lemma_abort_cuts_rest(
    stmts: Seq<Statement>,
    env: Map<Seq<char>, Value>,
    nums: Seq<u64>,
    k: nat,
    texts: Seq<Seq<char>>,
    t: nat,
    i: int,
)
    requires
        0 <= i < stmts.len(),
        run_spec(stmts.take(i), env, nums, k, texts, t).out matches OutcomeModel::Done(_),
        ({
            let pre = run_spec(stmts.take(i), env, nums, k, texts, t);
            exec_statement_spec(stmts[i], pre.env, nums, pre.k, texts, pre.t).out
                matches OutcomeModel::Fail(_)
        }),
    ensures
        ({
            let pre = run_spec(stmts.take(i), env, nums, k, texts, t);
            let fail = exec_statement_spec(stmts[i], pre.env, nums, pre.k, texts, pre.t);
            run_spec(stmts, env, nums, k, texts, t) == (StmtStep {
                env: fail.env,
                k: fail.k,
                t: fail.t,
                lines: pre.lines,
                out: fail.out,
            })
        }),
    decreases i,
{
    if i == 0 {
        assert(stmts.take(0) =~= Seq::<Statement>::empty());
        let fail = exec_statement_spec(stmts[0], env, nums, k, texts, t);
        lemma_failed_statement_is_silent(stmts[0], env, nums, k, texts, t);
        assert(run_spec(stmts, env, nums, k, texts, t) == fail);
        assert(fail.lines =~= run_spec(stmts.take(0), env, nums, k, texts, t).lines);
    } else {
        let first = exec_statement_spec(stmts[0], env, nums, k, texts, t);
        assert(stmts.take(i)[0] == stmts[0]);
        assert(stmts.take(i).skip(1) =~= stmts.skip(1).take(i - 1));
        match first.out {
            OutcomeModel::Done(_) => {
                assert(stmts.skip(1)[i - 1] == stmts[i]);
                lemma_abort_cuts_rest(stmts.skip(1), first.env, nums, first.k, texts, first.t, i - 1);
                let pre = run_spec(stmts.take(i), env, nums, k, texts, t);
                let inner = run_spec(stmts.skip(1).take(i - 1), first.env, nums, first.k, texts, first.t);
                let fail = exec_statement_spec(stmts[i], pre.env, nums, pre.k, texts, pre.t);
                assert(pre.lines =~= first.lines + inner.lines);
                assert(run_spec(stmts, env, nums, k, texts, t).lines =~= first.lines + inner.lines);
            },
            _ => {
                assert(run_spec(stmts.take(i), env, nums, k, texts, t).out == first.out);
                assert(false);
            },
        }
    }
}

} // verus!
