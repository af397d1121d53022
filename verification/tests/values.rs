//! Unit tests of the value model, the environment, and decimal rendering.

use ts2g::env::Environment;
use ts2g::error::EvalError;
use ts2g::kind::NumType;
use ts2g::oracle::FloatOp;
use ts2g::oracle::FloatReq;
use ts2g::oracle::Outcome;
use ts2g::value::Value;

fn done(r: (Outcome<Value>, usize)) -> (Value, usize) {
    match r.0 {
        Outcome::Done(v) => (v, r.1),
        other => panic!("expected a completed value, got {:?}", other),
    }
}

fn failed(r: (Outcome<Value>, usize)) -> EvalError {
    match r.0 {
        Outcome::Fail(e) => e,
        other => panic!("expected a fatal error, got {:?}", other),
    }
}

#[test]
fn integer_addition_wraps() {
    let empty: Vec<u64> = Vec::new();
    assert_eq!(
        done(Value::U8(200).add(Value::U8(100), &empty, 0)),
        (Value::U8(44), 0)
    );
    assert_eq!(
        done(Value::I8(127).add(Value::I8(1), &empty, 0)),
        (Value::I8(-128), 0)
    );
    assert_eq!(
        done(Value::U64(u64::MAX).add(Value::U64(1), &empty, 0)),
        (Value::U64(0), 0)
    );
    assert_eq!(
        done(Value::I16(5).add(Value::I16(-9), &empty, 0)),
        (Value::I16(-4), 0)
    );
}

#[test]
fn integer_subtraction_and_multiplication_wrap() {
    let empty: Vec<u64> = Vec::new();
    assert_eq!(
        done(Value::U16(0).sub(Value::U16(1), &empty, 0)),
        (Value::U16(u16::MAX), 0)
    );
    assert_eq!(
        done(Value::I32(i32::MIN).sub(Value::I32(1), &empty, 0)),
        (Value::I32(i32::MAX), 0)
    );
    assert_eq!(
        done(Value::U8(16).mul(Value::U8(17), &empty, 0)),
        (Value::U8(16), 0)
    );
    assert_eq!(
        done(Value::I64(3).mul(Value::I64(-5), &empty, 0)),
        (Value::I64(-15), 0)
    );
}

#[test]
fn integer_division_truncates_toward_zero() {
    let empty: Vec<u64> = Vec::new();
    assert_eq!(
        done(Value::U32(7).div(Value::U32(2), &empty, 0)),
        (Value::U32(3), 0)
    );
    assert_eq!(
        done(Value::I8(-7).div(Value::I8(2), &empty, 0)),
        (Value::I8(-3), 0)
    );
    assert_eq!(
        done(Value::I8(7).div(Value::I8(-2), &empty, 0)),
        (Value::I8(-3), 0)
    );
    assert_eq!(
        done(Value::I64(-9).div(Value::I64(-2), &empty, 0)),
        (Value::I64(4), 0)
    );
}

#[test]
fn overflowing_signed_quotient_wraps_to_min() {
    let empty: Vec<u64> = Vec::new();
    assert_eq!(
        done(Value::I8(i8::MIN).div(Value::I8(-1), &empty, 0)),
        (Value::I8(i8::MIN), 0)
    );
    assert_eq!(
        done(Value::I64(i64::MIN).div(Value::I64(-1), &empty, 0)),
        (Value::I64(i64::MIN), 0)
    );
}

#[test]
fn integer_division_by_zero_fails() {
    let empty: Vec<u64> = Vec::new();
    assert_eq!(
        failed(Value::U8(1).div(Value::U8(0), &empty, 0)),
        EvalError::DivisionByZero(NumType::U8)
    );
    assert_eq!(
        failed(Value::I64(-5).div(Value::I64(0), &empty, 0)),
        EvalError::DivisionByZero(NumType::I64)
    );
}

#[test]
fn mismatched_kinds_fail_every_operator() {
    let empty: Vec<u64> = Vec::new();
    let a = Value::U8(1);
    let b = Value::F64(1.0f64.to_bits());
    assert_eq!(failed(a.add(b, &empty, 0)), EvalError::TypeMismatch(NumType::U8, NumType::F64));
    assert_eq!(failed(a.sub(b, &empty, 0)), EvalError::TypeMismatch(NumType::U8, NumType::F64));
    assert_eq!(failed(a.mul(b, &empty, 0)), EvalError::TypeMismatch(NumType::U8, NumType::F64));
    assert_eq!(failed(a.div(b, &empty, 0)), EvalError::TypeMismatch(NumType::U8, NumType::F64));
    assert_eq!(failed(a.powf(b, &empty, 0)), EvalError::TypeMismatch(NumType::U8, NumType::F64));
}

#[test]
fn float_addition_requests_then_consumes_reply() {
    let empty: Vec<u64> = Vec::new();
    let a = Value::F64(1.5f64.to_bits());
    let b = Value::F64(2.25f64.to_bits());
    match a.add(b, &empty, 0) {
        (Outcome::Need(FloatReq::Bin64(FloatOp::Add, x, y)), 0) => {
            assert_eq!(f64::from_bits(x), 1.5);
            assert_eq!(f64::from_bits(y), 2.25);
        }
        other => panic!("expected a request, got {:?}", other),
    }
    let replies = vec![(1.5f64 + 2.25f64).to_bits()];
    assert_eq!(
        done(a.add(b, &replies, 0)),
        (Value::F64(3.75f64.to_bits()), 1)
    );
}

#[test]
fn pow_requests_then_reads_reply_in_kind() {
    let empty: Vec<u64> = Vec::new();
    let a = Value::U8(2);
    let b = Value::U8(10);
    match a.powf(b, &empty, 0) {
        (Outcome::Need(FloatReq::Pow(x, y)), 0) => {
            assert_eq!(x, Value::U8(2));
            assert_eq!(y, Value::U8(10));
        }
        other => panic!("expected a request, got {:?}", other),
    }
    // The host computes 2^10 = 1024.0 and casts back to u8, which
    // saturates at 255; the reply carries that payload.
    let reply = ((2.0f64).powf(10.0) as u8) as u64;
    assert_eq!(done(a.powf(b, &vec![reply], 0)), (Value::U8(255), 1));
    // A signed payload travels in the reply's low bits, two's complement.
    let reply = (((-2.0f64).powf(3.0)) as i8) as u8 as u64;
    assert_eq!(
        done(Value::I8(-2).powf(Value::I8(3), &vec![reply], 0)),
        (Value::I8(-8), 1)
    );
}

#[test]
fn result_keeps_the_common_kind() {
    let replies = vec![7u64];
    for (a, b) in [
        (Value::U8(1), Value::U8(2)),
        (Value::I32(-1), Value::I32(5)),
        (Value::F64(1.0f64.to_bits()), Value::F64(2.0f64.to_bits())),
    ] {
        let (v, _) = done(a.add(b, &replies, 0));
        assert_eq!(v.kind(), a.kind());
        let (v, _) = done(a.powf(b, &replies, 0));
        assert_eq!(v.kind(), a.kind());
    }
}

#[test]
fn integer_kinds_render_in_decimal() {
    assert_eq!(Value::U8(0).int_text(), "0");
    assert_eq!(Value::U8(200).int_text(), "200");
    assert_eq!(Value::I8(-128).int_text(), "-128");
    assert_eq!(Value::I16(-1).int_text(), "-1");
    assert_eq!(Value::U64(u64::MAX).int_text(), "18446744073709551615");
    assert_eq!(Value::I64(i64::MIN).int_text(), "-9223372036854775808");
    assert_eq!(Value::I64(i64::MAX).int_text(), "9223372036854775807");
    assert_eq!(Value::U32(1000000).int_text(), "1000000");
}

#[test]
fn kind_tags_spell_their_names() {
    assert_eq!(NumType::U8.name(), "u8");
    assert_eq!(NumType::I8.name(), "i8");
    assert_eq!(NumType::U16.name(), "u16");
    assert_eq!(NumType::I16.name(), "i16");
    assert_eq!(NumType::U32.name(), "u32");
    assert_eq!(NumType::I32.name(), "i32");
    assert_eq!(NumType::U64.name(), "u64");
    assert_eq!(NumType::I64.name(), "i64");
    assert_eq!(NumType::F32.name(), "f32");
    assert_eq!(NumType::F64.name(), "f64");
    assert!(NumType::F32.is_float() && NumType::F64.is_float());
    assert!(!NumType::U8.is_float() && !NumType::I64.is_float());
}

#[test]
fn environment_defines_overwrites_and_looks_up() {
    let mut env = Environment::new();
    assert_eq!(
        env.lookup(&"x".to_string()),
        Err(EvalError::UndefinedVariable("x".to_string()))
    );
    env.define("x".to_string(), Value::U8(1));
    assert_eq!(env.lookup(&"x".to_string()), Ok(Value::U8(1)));
    env.assign("x".to_string(), Value::I64(-3));
    assert_eq!(env.lookup(&"x".to_string()), Ok(Value::I64(-3)));
    env.define("y".to_string(), Value::F64(0));
    assert_eq!(env.lookup(&"x".to_string()), Ok(Value::I64(-3)));
    assert_eq!(env.lookup(&"y".to_string()), Ok(Value::F64(0)));
    assert_eq!(
        env.lookup(&"z".to_string()),
        Err(EvalError::UndefinedVariable("z".to_string()))
    );
}

#[test]
fn float_values_render_through_the_oracle_only() {
    // The library itself gives float kinds no text; the caller renders
    // them, as the interpreter tests exercise end to end.
    assert_eq!(Value::F32(1.5f32.to_bits()).int_text(), "");
    assert_eq!(Value::F64(1.5f64.to_bits()).int_text(), "");
}
