//! The tree-walking evaluator: executes the ordered statement sequence to
//! completion, to the first fatal error, or to the first floating-point
//! primitive whose oracle reply is missing.
//!
//! Expression evaluation is post-order and strictly left before right: a
//! binary node evaluates its left operand completely — including any nested
//! assignment's environment write and any oracle consumption — before its
//! right operand, then applies the operation. The first fatal error aborts
//! the whole run; no statement after the failure point executes or prints.

use vstd::prelude::*;
use crate::ast::Expr;
use crate::ast::Statement;
use crate::env::Environment;
use crate::error::ErrorModel;
use crate::kind::NumType;
use crate::oracle::FloatReq;
use crate::oracle::Outcome;
use crate::value::OutcomeModel;
use crate::value::Value;
use crate::value::add_spec;
use crate::value::div_spec;
use crate::value::mul_spec;
use crate::value::outcome_model;
use crate::value::pow_spec;
use crate::value::sub_spec;

verus! {

/// IEEE 754 bit pattern of π as a 64-bit float.
pub const PI_BITS: u64 = 0x400921FB54442D18;

/// IEEE 754 bit pattern of Euler's number as a 64-bit float.
pub const E_BITS: u64 = 0x4005BF0A8B145769;

/// What evaluating one expression produced: the environment after it, the
/// numeric-stream cursor after it, and the outcome.
pub struct ExprStep {
    pub env: Map<Seq<char>, Value>,
    pub k: nat,
    pub out: OutcomeModel<Value>,
}

/// What executing one statement (or a statement sequence) produced: the
/// environment, both stream cursors, the output lines emitted, and the
/// status.
pub struct StmtStep {
    pub env: Map<Seq<char>, Value>,
    pub k: nat,
    pub t: nat,
    pub lines: Seq<Seq<char>>,
    pub out: OutcomeModel<()>,
}

/// Forgets a completed outcome's value: statements yield no value.
pub open spec fn drop_value(o: OutcomeModel<Value>) -> OutcomeModel<()> {
    match o {
        OutcomeModel::Done(_) => OutcomeModel::Done(()),
        OutcomeModel::Fail(e) => OutcomeModel::Fail(e),
        OutcomeModel::Need(q) => OutcomeModel::Need(q),
    }
}

/// The request that renders a float value as text. Meaningful only for the
/// two float kinds; other kinds render verified, without the oracle.
pub open spec fn text_req(v: Value) -> FloatReq {
    match v {
        Value::F32(b) => FloatReq::Text32(b),
        Value::F64(b) => FloatReq::Text64(b),
        _ => FloatReq::Text64(0),
    }
}

/// The meaning of one expression: post-order evaluation, left before
/// right, threading the environment and the numeric-stream cursor.
pub open spec fn eval_expr_spec(
    e: Expr,
    env: Map<Seq<char>, Value>,
    nums: Seq<u64>,
    k: nat,
) -> ExprStep
    decreases e,
{
    match e {
        Expr::Number(bits) => ExprStep { env, k, out: OutcomeModel::Done(Value::F64(bits)) },
        Expr::Id(name) => ExprStep {
            env,
            k,
            out: if env.contains_key(name@) {
                OutcomeModel::Done(env[name@])
            } else {
                OutcomeModel::Fail(ErrorModel::UndefinedVariable(name@))
            },
        },
        Expr::PI => ExprStep { env, k, out: OutcomeModel::Done(Value::F64(PI_BITS)) },
        Expr::E => ExprStep { env, k, out: OutcomeModel::Done(Value::F64(E_BITS)) },
        Expr::Parenthesis(inner) => eval_expr_spec(*inner, env, nums, k),
        Expr::Exponent(l, r) => {
            let ls = eval_expr_spec(*l, env, nums, k);
            match ls.out {
                OutcomeModel::Done(a) => {
                    let rs = eval_expr_spec(*r, ls.env, nums, ls.k);
                    match rs.out {
                        OutcomeModel::Done(b) => {
                            let o = pow_spec(a, b, nums, rs.k);
                            ExprStep { env: rs.env, k: o.k, out: o.out }
                        },
                        _ => rs,
                    }
                },
                _ => ls,
            }
        },
        Expr::Multiply(l, r) => {
            let ls = eval_expr_spec(*l, env, nums, k);
            match ls.out {
                OutcomeModel::Done(a) => {
                    let rs = eval_expr_spec(*r, ls.env, nums, ls.k);
                    match rs.out {
                        OutcomeModel::Done(b) => {
                            let o = mul_spec(a, b, nums, rs.k);
                            ExprStep { env: rs.env, k: o.k, out: o.out }
                        },
                        _ => rs,
                    }
                },
                _ => ls,
            }
        },
        Expr::Divide(l, r) => {
            let ls = eval_expr_spec(*l, env, nums, k);
            match ls.out {
                OutcomeModel::Done(a) => {
                    let rs = eval_expr_spec(*r, ls.env, nums, ls.k);
                    match rs.out {
                        OutcomeModel::Done(b) => {
                            let o = div_spec(a, b, nums, rs.k);
                            ExprStep { env: rs.env, k: o.k, out: o.out }
                        },
                        _ => rs,
                    }
                },
                _ => ls,
            }
        },
        Expr::Add(l, r) => {
            let ls = eval_expr_spec(*l, env, nums, k);
            match ls.out {
                OutcomeModel::Done(a) => {
                    let rs = eval_expr_spec(*r, ls.env, nums, ls.k);
                    match rs.out {
                        OutcomeModel::Done(b) => {
                            let o = add_spec(a, b, nums, rs.k);
                            ExprStep { env: rs.env, k: o.k, out: o.out }
                        },
                        _ => rs,
                    }
                },
                _ => ls,
            }
        },
        Expr::Sub(l, r) => {
            let ls = eval_expr_spec(*l, env, nums, k);
            match ls.out {
                OutcomeModel::Done(a) => {
                    let rs = eval_expr_spec(*r, ls.env, nums, ls.k);
                    match rs.out {
                        OutcomeModel::Done(b) => {
                            let o = sub_spec(a, b, nums, rs.k);
                            ExprStep { env: rs.env, k: o.k, out: o.out }
                        },
                        _ => rs,
                    }
                },
                _ => ls,
            }
        },
        Expr::Eq(name, sub) => {
            let ss = eval_expr_spec(*sub, env, nums, k);
            match ss.out {
                OutcomeModel::Done(v) => ExprStep {
                    env: ss.env.insert(name@, v),
                    k: ss.k,
                    out: OutcomeModel::Done(v),
                },
                _ => ss,
            }
        },
    }
}

/// The meaning of one statement.
pub open spec fn exec_statement_spec(
    s: Statement,
    env: Map<Seq<char>, Value>,
    nums: Seq<u64>,
    k: nat,
    texts: Seq<Seq<char>>,
    t: nat,
) -> StmtStep {
    match s {
        Statement::ExprStatement(e) => {
            let es = eval_expr_spec(*e, env, nums, k);
            StmtStep { env: es.env, k: es.k, t, lines: Seq::empty(), out: drop_value(es.out) }
        },
        Statement::Let(name, _declared, e) => {
            let es = eval_expr_spec(*e, env, nums, k);
            match es.out {
                OutcomeModel::Done(v) => StmtStep {
                    env: es.env.insert(name@, v),
                    k: es.k,
                    t,
                    lines: Seq::empty(),
                    out: OutcomeModel::Done(()),
                },
                _ => StmtStep {
                    env: es.env,
                    k: es.k,
                    t,
                    lines: Seq::empty(),
                    out: drop_value(es.out),
                },
            }
        },
        Statement::Print(e) => {
            let es = eval_expr_spec(*e, env, nums, k);
            match es.out {
                OutcomeModel::Done(v) => {
                    if v.kind().is_float_spec() {
                        if t < texts.len() {
                            StmtStep {
                                env: es.env,
                                k: es.k,
                                t: t + 1,
                                lines: seq![texts[t as int]],
                                out: OutcomeModel::Done(()),
                            }
                        } else {
                            StmtStep {
                                env: es.env,
                                k: es.k,
                                t,
                                lines: Seq::empty(),
                                out: OutcomeModel::Need(text_req(v)),
                            }
                        }
                    } else {
                        StmtStep {
                            env: es.env,
                            k: es.k,
                            t,
                            lines: seq![v.int_text_spec()],
                            out: OutcomeModel::Done(()),
                        }
                    }
                },
                _ => StmtStep {
                    env: es.env,
                    k: es.k,
                    t,
                    lines: Seq::empty(),
                    out: drop_value(es.out),
                },
            }
        },
    }
}

/// The meaning of a statement sequence: statements run in program order
/// until exhausted, until the first fatal error, or until a missing oracle
/// reply suspends the run.
pub open spec fn run_spec(
    stmts: Seq<Statement>,
    env: Map<Seq<char>, Value>,
    nums: Seq<u64>,
    k: nat,
    texts: Seq<Seq<char>>,
    t: nat,
) -> StmtStep
    decreases stmts.len(),
{
    if stmts.len() == 0 {
        StmtStep { env, k, t, lines: Seq::empty(), out: OutcomeModel::Done(()) }
    } else {
        let first = exec_statement_spec(stmts[0], env, nums, k, texts, t);
        match first.out {
            OutcomeModel::Done(_) => {
                let rest = run_spec(stmts.skip(1), first.env, nums, first.k, texts, first.t);
                StmtStep {
                    env: rest.env,
                    k: rest.k,
                    t: rest.t,
                    lines: first.lines + rest.lines,
                    out: rest.out,
                }
            },
            _ => first,
        }
    }
}

/// The evaluator: owns the run's environment, its output lines, and its
/// position in the caller's two oracle reply streams.
pub struct TS2G {
    /// The single global scope of bindings.
    pub vars: Environment,
    /// The output sink: one line per executed `print`, in program order.
    pub output: Vec<String>,
    /// Cursor into the numeric reply stream.
    pub num_at: usize,
    /// Cursor into the text reply stream.
    pub text_at: usize,
}

impl TS2G {
    /// The output lines as character sequences.
    pub open spec fn out_lines(&self) -> Seq<Seq<char>> {
        self.output@.map_values(|s: String| s@)
    }

    /// Creates a fresh evaluator: empty environment, no output, both
    /// stream cursors at the start.
    pub fn init() -> (ev: TS2G)
        ensures
            ev.vars@ == Map::<Seq<char>, Value>::empty(),
            ev.output@ == Seq::<String>::empty(),
            ev.num_at == 0,
            ev.text_at == 0,
    {
        TS2G { vars: Environment::new(), output: Vec::new(), num_at: 0, text_at: 0 }
    }

    /// Evaluates one expression against the caller's numeric reply stream,
    /// per [`eval_expr_spec`]. Emits no output.
    pub fn visit_expr(&mut self, e: &Expr, nums: &Vec<u64>) -> (r: Outcome<Value>)
        requires
            old(self).num_at <= nums@.len(),
        ensures
            ({
                let es = eval_expr_spec(*e, old(self).vars@, nums@, old(self).num_at as nat);
                &&& final(self).vars@ == es.env
                &&& final(self).num_at as nat == es.k
                &&& final(self).num_at <= nums@.len()
                &&& outcome_model(r) == es.out
                &&& final(self).output == old(self).output
                &&& final(self).text_at == old(self).text_at
            }),
        decreases e,
    {
        match e {
            Expr::Number(bits) => Outcome::Done(Value::F64(*bits)),
            Expr::Id(name) => match self.vars.lookup(name) {
                Ok(v) => Outcome::Done(v),
                Err(er) => Outcome::Fail(er),
            },
            Expr::PI => Outcome::Done(Value::F64(PI_BITS)),
            Expr::E => Outcome::Done(Value::F64(E_BITS)),
            Expr::Parenthesis(inner) => self.visit_expr(&**inner, nums),
            Expr::Exponent(l, r) => match self.visit_expr(&**l, nums) {
                Outcome::Done(a) => match self.visit_expr(&**r, nums) {
                    Outcome::Done(b) => {
                        let (out, k2) = a.powf(b, nums, self.num_at);
                        self.num_at = k2;
                        out
                    },
                    other => other,
                },
                other => other,
            },
            Expr::Multiply(l, r) => match self.visit_expr(&**l, nums) {
                Outcome::Done(a) => match self.visit_expr(&**r, nums) {
                    Outcome::Done(b) => {
                        let (out, k2) = a.mul(b, nums, self.num_at);
                        self.num_at = k2;
                        out
                    },
                    other => other,
                },
                other => other,
            },
            Expr::Divide(l, r) => match self.visit_expr(&**l, nums) {
                Outcome::Done(a) => match self.visit_expr(&**r, nums) {
                    Outcome::Done(b) => {
                        let (out, k2) = a.div(b, nums, self.num_at);
                        self.num_at = k2;
                        out
                    },
                    other => other,
                },
                other => other,
            },
            Expr::Add(l, r) => match self.visit_expr(&**l, nums) {
                Outcome::Done(a) => match self.visit_expr(&**r, nums) {
                    Outcome::Done(b) => {
                        let (out, k2) = a.add(b, nums, self.num_at);
                        self.num_at = k2;
                        out
                    },
                    other => other,
                },
                other => other,
            },
            Expr::Sub(l, r) => match self.visit_expr(&**l, nums) {
                Outcome::Done(a) => match self.visit_expr(&**r, nums) {
                    Outcome::Done(b) => {
                        let (out, k2) = a.sub(b, nums, self.num_at);
                        self.num_at = k2;
                        out
                    },
                    other => other,
                },
                other => other,
            },
            Expr::Eq(name, sub) => match self.visit_expr(&**sub, nums) {
                Outcome::Done(v) => {
                    self.vars.assign(name.clone(), v);
                    Outcome::Done(v)
                },
                other => other,
            },
        }
    }

    /// Executes one statement, per [`exec_statement_spec`]: evaluates its
    /// expression, then discards, binds, or prints the value.
    pub fn visit_statement(&mut self, s: &Statement, nums: &Vec<u64>, texts: &Vec<String>) -> (r:
        Outcome<()>)
        requires
            old(self).num_at <= nums@.len(),
            old(self).text_at <= texts@.len(),
        ensures
            ({
                let ss = exec_statement_spec(
                    *s,
                    old(self).vars@,
                    nums@,
                    old(self).num_at as nat,
                    texts@.map_values(|x: String| x@),
                    old(self).text_at as nat,
                );
                &&& final(self).vars@ == ss.env
                &&& final(self).num_at as nat == ss.k
                &&& final(self).num_at <= nums@.len()
                &&& final(self).text_at as nat == ss.t
                &&& final(self).text_at <= texts@.len()
                &&& final(self).out_lines() == old(self).out_lines() + ss.lines
                &&& outcome_model(r) == ss.out
            }),
    {
        let ghost lines0 = self.out_lines();
        match s {
            Statement::ExprStatement(e) => {
                let r = self.visit_expr(&**e, nums);
                proof {
                    assert(self.out_lines() =~= lines0 + Seq::<Seq<char>>::empty());
                }
                match r {
                    Outcome::Done(_) => Outcome::Done(()),
                    Outcome::Fail(er) => Outcome::Fail(er),
                    Outcome::Need(q) => Outcome::Need(q),
                }
            },
            Statement::Let(name, _declared, e) => {
                let r = self.visit_expr(&**e, nums);
                proof {
                    assert(self.out_lines() =~= lines0 + Seq::<Seq<char>>::empty());
                }
                match r {
                    Outcome::Done(v) => {
                        self.vars.define(name.clone(), v);
                        Outcome::Done(())
                    },
                    Outcome::Fail(er) => Outcome::Fail(er),
                    Outcome::Need(q) => Outcome::Need(q),
                }
            },
            Statement::Print(e) => match self.visit_expr(&**e, nums) {
                Outcome::Done(v) => {
                    if v.kind().is_float() {
                        if self.text_at < texts.len() {
                            let line = texts[self.text_at].clone();
                            self.output.push(line);
                            self.text_at = self.text_at + 1;
                            proof {
                                assert(self.out_lines() =~= lines0 + seq![
                                    texts@.map_values(|x: String| x@)[old(self).text_at as int],
                                ]);
                            }
                            Outcome::Done(())
                        } else {
                            proof {
                                assert(self.out_lines() =~= lines0 + Seq::<Seq<char>>::empty());
                            }
                            Outcome::Need(text_request(v))
                        }
                    } else {
                        let line = v.int_text();
                        let ghost linev = line@;
                        self.output.push(line);
                        proof {
                            assert(self.out_lines() =~= lines0 + seq![linev]);
                        }
                        Outcome::Done(())
                    }
                },
                Outcome::Fail(er) => {
                    proof {
                        assert(self.out_lines() =~= lines0 + Seq::<Seq<char>>::empty());
                    }
                    Outcome::Fail(er)
                },
                Outcome::Need(q) => {
                    proof {
                        assert(self.out_lines() =~= lines0 + Seq::<Seq<char>>::empty());
                    }
                    Outcome::Need(q)
                },
            },
        }
    }

    /// Runs a whole program, per [`run_spec`]: statements in strict program
    /// order until exhausted, until the first fatal error, or until a
    /// missing oracle reply suspends the run. On `Need`, extend the reply
    /// streams with the request's answer and run a fresh evaluator again.
    pub fn run(&mut self, statements: &Vec<Statement>, nums: &Vec<u64>, texts: &Vec<String>) -> (r:
        Outcome<()>)
        requires
            old(self).num_at <= nums@.len(),
            old(self).text_at <= texts@.len(),
        ensures
            ({
                let rs = run_spec(
                    statements@,
                    old(self).vars@,
                    nums@,
                    old(self).num_at as nat,
                    texts@.map_values(|x: String| x@),
                    old(self).text_at as nat,
                );
                &&& final(self).vars@ == rs.env
                &&& final(self).num_at as nat == rs.k
                &&& final(self).num_at <= nums@.len()
                &&& final(self).text_at as nat == rs.t
                &&& final(self).text_at <= texts@.len()
                &&& final(self).out_lines() == old(self).out_lines() + rs.lines
                &&& outcome_model(r) == rs.out
            }),
    {
        proof {
            assert(statements@.skip(0) =~= statements@);
        }
        self.run_from(statements, 0, nums, texts)
    }

    /// Runs the statements from index `i` on, per [`run_spec`] of the
    /// remaining suffix.
    fn run_from(&mut self, statements: &Vec<Statement>, i: usize, nums: &Vec<u64>, texts: &Vec<
        String,
    >) -> (r: Outcome<()>)
        requires
            i <= statements@.len(),
            old(self).num_at <= nums@.len(),
            old(self).text_at <= texts@.len(),
        ensures
            ({
                let rs = run_spec(
                    statements@.skip(i as int),
                    old(self).vars@,
                    nums@,
                    old(self).num_at as nat,
                    texts@.map_values(|x: String| x@),
                    old(self).text_at as nat,
                );
                &&& final(self).vars@ == rs.env
                &&& final(self).num_at as nat == rs.k
                &&& final(self).num_at <= nums@.len()
                &&& final(self).text_at as nat == rs.t
                &&& final(self).text_at <= texts@.len()
                &&& final(self).out_lines() == old(self).out_lines() + rs.lines
                &&& outcome_model(r) == rs.out
            }),
        decreases statements@.len() - i,
    {
        let ghost lines0 = self.out_lines();
        if i == statements.len() {
            proof {
                assert(statements@.skip(i as int) =~= Seq::<Statement>::empty());
                assert(self.out_lines() =~= lines0 + Seq::<Seq<char>>::empty());
            }
            Outcome::Done(())
        } else {
            proof {
                assert(statements@.skip(i as int)[0] == statements@[i as int]);
                assert(statements@.skip(i as int).skip(1) =~= statements@.skip(i as int + 1));
            }
            let ghost first = exec_statement_spec(
                statements@[i as int],
                self.vars@,
                nums@,
                self.num_at as nat,
                texts@.map_values(|x: String| x@),
                self.text_at as nat,
            );
            match self.visit_statement(&statements[i], nums, texts) {
                Outcome::Done(_) => {
                    let ghost rest = run_spec(
                        statements@.skip(i as int + 1),
                        self.vars@,
                        nums@,
                        self.num_at as nat,
                        texts@.map_values(|x: String| x@),
                        self.text_at as nat,
                    );
                    let r = self.run_from(statements, i + 1, nums, texts);
                    proof {
                        assert(self.out_lines() =~= lines0 + (first.lines + rest.lines));
                    }
                    r
                },
                Outcome::Fail(er) => Outcome::Fail(er),
                Outcome::Need(q) => Outcome::Need(q),
            }
        }
    }
}

/// The request that renders a float value as text, per [`text_req`].
fn text_request(v: Value) -> (q: FloatReq)
    ensures
        q == text_req(v),
{
    match v {
        Value::F32(b) => FloatReq::Text32(b),
        Value::F64(b) => FloatReq::Text64(b),
        _ => FloatReq::Text64(0),
    }
}

} // verus!
