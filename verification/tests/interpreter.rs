//! End-to-end interpreter tests: programs run through the oracle driver,
//! with the host's real floating-point arithmetic answering the requests.

use ts2g::ast::Expr;
use ts2g::ast::Statement;
use ts2g::error::EvalError;
use ts2g::eval::E_BITS;
use ts2g::eval::PI_BITS;
use ts2g::eval::TS2G;
use ts2g::kind::NumType;
use ts2g::oracle::FloatOp;
use ts2g::oracle::FloatReq;
use ts2g::oracle::Outcome;
use ts2g::value::Value;

/// Computes the reply to one floating-point request with host arithmetic.
fn answer(req: FloatReq, nums: &mut Vec<u64>, texts: &mut Vec<String>) {
    match req {
        FloatReq::Bin32(op, a, b) => {
            let x = f32::from_bits(a);
            let y = f32::from_bits(b);
            let r = match op {
                FloatOp::Add => x + y,
                FloatOp::Sub => x - y,
                FloatOp::Mul => x * y,
                FloatOp::Div => x / y,
            };
            nums.push(r.to_bits() as u64);
        }
        FloatReq::Bin64(op, a, b) => {
            let x = f64::from_bits(a);
            let y = f64::from_bits(b);
            let r = match op {
                FloatOp::Add => x + y,
                FloatOp::Sub => x - y,
                FloatOp::Mul => x * y,
                FloatOp::Div => x / y,
            };
            nums.push(r.to_bits());
        }
        FloatReq::Pow(a, b) => {
            let r = match (a, b) {
                (Value::U8(x), Value::U8(y)) => ((x as f64).powf(y as f64) as u8) as u64,
                (Value::I8(x), Value::I8(y)) => ((x as f64).powf(y as f64) as i8) as u8 as u64,
                (Value::U16(x), Value::U16(y)) => ((x as f64).powf(y as f64) as u16) as u64,
                (Value::I16(x), Value::I16(y)) => ((x as f64).powf(y as f64) as i16) as u16 as u64,
                (Value::U32(x), Value::U32(y)) => ((x as f64).powf(y as f64) as u32) as u64,
                (Value::I32(x), Value::I32(y)) => ((x as f64).powf(y as f64) as i32) as u32 as u64,
                (Value::U64(x), Value::U64(y)) => (x as f64).powf(y as f64) as u64,
                (Value::I64(x), Value::I64(y)) => ((x as f64).powf(y as f64) as i64) as u64,
                (Value::F32(x), Value::F32(y)) => {
                    ((f32::from_bits(x) as f64).powf(f32::from_bits(y) as f64) as f32).to_bits()
                        as u64
                }
                (Value::F64(x), Value::F64(y)) => {
                    f64::from_bits(x).powf(f64::from_bits(y)).to_bits()
                }
                _ => unreachable!(),
            };
            nums.push(r);
        }
        FloatReq::Text32(bits) => texts.push(format!("{}", f32::from_bits(bits))),
        FloatReq::Text64(bits) => texts.push(format!("{}", f64::from_bits(bits))),
    }
}

/// Runs a program to completion or first fatal error, restarting from a
/// fresh evaluator (re-seeded with the given bindings) each time a reply
/// is added to the streams.
fn drive_with(
    bindings: &[(&str, Value)],
    prog: &Vec<Statement>,
) -> (Vec<String>, Result<(), EvalError>) {
    let mut nums: Vec<u64> = Vec::new();
    let mut texts: Vec<String> = Vec::new();
    loop {
        let mut ev = TS2G::init();
        for (name, value) in bindings {
            ev.vars.define(name.to_string(), *value);
        }
        match ev.run(prog, &nums, &texts) {
            Outcome::Done(()) => return (ev.output, Ok(())),
            Outcome::Fail(e) => return (ev.output, Err(e)),
            Outcome::Need(req) => answer(req, &mut nums, &mut texts),
        }
    }
}

fn drive(prog: &Vec<Statement>) -> (Vec<String>, Result<(), EvalError>) {
    drive_with(&[], prog)
}

fn num(x: f64) -> Box<Expr> {
    Box::new(Expr::Number(x.to_bits()))
}

fn id(name: &str) -> Box<Expr> {
    Box::new(Expr::Id(name.to_string()))
}

#[test]
fn sample_program_prints_2_then_12() {
    // let x:u64=1+1; print(x); x=x+10; print(x);
    let prog = vec![
        Statement::Let(
            "x".to_string(),
            "u64".to_string(),
            Box::new(Expr::Add(num(1.0), num(1.0))),
        ),
        Statement::Print(id("x")),
        Statement::ExprStatement(Box::new(Expr::Eq(
            "x".to_string(),
            Box::new(Expr::Add(id("x"), num(10.0))),
        ))),
        Statement::Print(id("x")),
    ];
    let (out, res) = drive(&prog);
    assert!(res.is_ok());
    assert_eq!(out, vec!["2".to_string(), "12".to_string()]);
}

#[test]
fn parenthesised_print_matches_plain() {
    let plain = vec![Statement::Print(Box::new(Expr::Add(num(1.0), num(2.0))))];
    let wrapped = vec![Statement::Print(Box::new(Expr::Parenthesis(Box::new(
        Expr::Add(num(1.0), num(2.0)),
    ))))];
    let (out_plain, res_plain) = drive(&plain);
    let (out_wrapped, res_wrapped) = drive(&wrapped);
    assert!(res_plain.is_ok() && res_wrapped.is_ok());
    assert_eq!(out_plain, out_wrapped);
    assert_eq!(out_plain, vec!["3".to_string()]);
}

#[test]
fn parenthesised_assignment_matches_plain() {
    let plain = vec![
        Statement::Print(Box::new(Expr::Eq("x".to_string(), num(7.0)))),
        Statement::Print(id("x")),
    ];
    let wrapped = vec![
        Statement::Print(Box::new(Expr::Parenthesis(Box::new(Expr::Eq(
            "x".to_string(),
            num(7.0),
        ))))),
        Statement::Print(id("x")),
    ];
    let (out_plain, _) = drive(&plain);
    let (out_wrapped, _) = drive(&wrapped);
    assert_eq!(out_plain, out_wrapped);
}

#[test]
fn assignment_prints_value_then_lookup() {
    // print(x = 5); print(x); — the assignment both yields 5 and binds x.
    let prog = vec![
        Statement::Print(Box::new(Expr::Eq("x".to_string(), num(5.0)))),
        Statement::Print(id("x")),
    ];
    let (out, res) = drive(&prog);
    assert!(res.is_ok());
    assert_eq!(out, vec!["5".to_string(), "5".to_string()]);
}

#[test]
fn left_operand_side_effects_come_first() {
    // print((x = 1) + (x = 2)); print(x); — the right operand is evaluated
    // after the left, so its assignment lands last and x ends at 2.
    let prog = vec![
        Statement::Print(Box::new(Expr::Add(
            Box::new(Expr::Parenthesis(Box::new(Expr::Eq("x".to_string(), num(1.0))))),
            Box::new(Expr::Parenthesis(Box::new(Expr::Eq("x".to_string(), num(2.0))))),
        ))),
        Statement::Print(id("x")),
    ];
    let (out, res) = drive(&prog);
    assert!(res.is_ok());
    assert_eq!(out, vec!["3".to_string(), "2".to_string()]);
}

#[test]
fn undefined_variable_aborts_run() {
    let prog = vec![
        Statement::Print(num(1.0)),
        Statement::Print(id("y")),
        Statement::Print(num(2.0)),
    ];
    let (out, res) = drive(&prog);
    assert_eq!(res, Err(EvalError::UndefinedVariable("y".to_string())));
    assert_eq!(out, vec!["1".to_string()]);
}

#[test]
fn type_mismatch_aborts_and_silences_rest() {
    // Two bindings of different kinds; adding them is fatal, and no
    // statement after the failure prints.
    let prog = vec![
        Statement::Print(id("a")),
        Statement::Print(Box::new(Expr::Add(id("a"), id("b")))),
        Statement::Print(id("a")),
    ];
    let (out, res) = drive_with(&[("a", Value::U8(1)), ("b", Value::I8(1))], &prog);
    assert_eq!(res, Err(EvalError::TypeMismatch(NumType::U8, NumType::I8)));
    assert_eq!(out, vec!["1".to_string()]);
}

#[test]
fn integer_division_by_zero_is_fatal() {
    let prog = vec![
        Statement::Print(Box::new(Expr::Divide(id("a"), id("z")))),
        Statement::Print(num(9.0)),
    ];
    let (out, res) = drive_with(&[("a", Value::U32(6)), ("z", Value::U32(0))], &prog);
    assert_eq!(res, Err(EvalError::DivisionByZero(NumType::U32)));
    assert!(out.is_empty());
}

#[test]
fn float_division_by_zero_prints_inf() {
    let prog = vec![Statement::Print(Box::new(Expr::Divide(num(1.0), num(0.0))))];
    let (out, res) = drive(&prog);
    assert!(res.is_ok());
    assert_eq!(out, vec![format!("{}", 1.0f64 / 0.0f64)]);
}

#[test]
fn rerun_of_identifier_free_program_is_byte_identical() {
    let prog = vec![
        Statement::Print(Box::new(Expr::Multiply(Box::new(Expr::PI), num(2.0)))),
        Statement::Print(Box::new(Expr::Exponent(num(2.0), num(0.5)))),
        Statement::Print(Box::new(Expr::Sub(Box::new(Expr::E), num(1.0)))),
        Statement::ExprStatement(num(3.0)),
    ];
    let (out1, res1) = drive(&prog);
    let (out2, res2) = drive(&prog);
    assert_eq!(res1, res2);
    assert_eq!(out1, out2);
}

#[test]
fn constants_match_host_values() {
    assert_eq!(f64::from_bits(PI_BITS), std::f64::consts::PI);
    assert_eq!(f64::from_bits(E_BITS), std::f64::consts::E);
    let prog = vec![
        Statement::Print(Box::new(Expr::PI)),
        Statement::Print(Box::new(Expr::E)),
    ];
    let (out, res) = drive(&prog);
    assert!(res.is_ok());
    assert_eq!(
        out,
        vec![
            format!("{}", std::f64::consts::PI),
            format!("{}", std::f64::consts::E),
        ]
    );
}

#[test]
fn float_arithmetic_matches_host() {
    // 3/2, 2^10 and (1+2)*4-0.5 through the oracle driver.
    let prog = vec![
        Statement::Print(Box::new(Expr::Divide(num(3.0), num(2.0)))),
        Statement::Print(Box::new(Expr::Exponent(num(2.0), num(10.0)))),
        Statement::Print(Box::new(Expr::Sub(
            Box::new(Expr::Multiply(
                Box::new(Expr::Parenthesis(Box::new(Expr::Add(num(1.0), num(2.0))))),
                num(4.0),
            )),
            num(0.5),
        ))),
    ];
    let (out, res) = drive(&prog);
    assert!(res.is_ok());
    assert_eq!(
        out,
        vec!["1.5".to_string(), "1024".to_string(), "11.5".to_string()]
    );
}

#[test]
fn let_kind_annotation_is_inert() {
    // The declared kind is parsed but not enforced: the literal stays f64.
    let prog = vec![
        Statement::Let("x".to_string(), "u8".to_string(), num(300.0)),
        Statement::Print(id("x")),
    ];
    let (out, res) = drive(&prog);
    assert!(res.is_ok());
    assert_eq!(out, vec!["300".to_string()]);
}

#[test]
fn later_binding_overwrites_earlier() {
    let prog = vec![
        Statement::Let("x".to_string(), "u64".to_string(), num(1.0)),
        Statement::Let("x".to_string(), "u64".to_string(), num(2.0)),
        Statement::Print(id("x")),
    ];
    let (out, res) = drive(&prog);
    assert!(res.is_ok());
    assert_eq!(out, vec!["2".to_string()]);
}

#[test]
fn expression_statement_discards_value() {
    let prog = vec![
        Statement::ExprStatement(Box::new(Expr::Add(num(1.0), num(1.0)))),
        Statement::Print(num(4.0)),
    ];
    let (out, res) = drive(&prog);
    assert!(res.is_ok());
    assert_eq!(out, vec!["4".to_string()]);
}

#[test]
fn empty_program_prints_nothing() {
    let prog: Vec<Statement> = Vec::new();
    let (out, res) = drive(&prog);
    assert!(res.is_ok());
    assert!(out.is_empty());
}
