//! The typed numeric value model: a payload tagged with its kind, and the
//! arithmetic that respects the kind.
//!
//! Binary operations require both operands to share one kind and keep that
//! kind in the result. Integer arithmetic follows the host machine's
//! two's-complement arithmetic of the operands' width: addition,
//! subtraction and multiplication wrap, and division truncates toward zero
//! with the one overflowing quotient (`MIN / -1`) wrapping back to `MIN`.
//! Integer division by zero, which the machine has no result for, is pinned
//! down as the explicit fatal error [`EvalError::DivisionByZero`]. The
//! floating-point kinds and the exponent operator go through the caller's
//! oracle streams, as described in [`crate::oracle`].

use vstd::prelude::*;
use vstd::math::abs;
use vstd::wrapping::i16_specs;
use vstd::wrapping::i32_specs;
use vstd::wrapping::i64_specs;
use vstd::wrapping::i8_specs;
use vstd::wrapping::u16_specs;
use vstd::wrapping::u32_specs;
use vstd::wrapping::u64_specs;
use vstd::wrapping::u8_specs;
use crate::decimal::dec_chars;
use crate::decimal::dec_chars_int;
use crate::decimal::i64_to_string;
use crate::decimal::u64_to_string;
use crate::error::ErrorModel;
use crate::error::EvalError;
use crate::kind::NumType;
use crate::oracle::FloatOp;
use crate::oracle::FloatReq;
use crate::oracle::Outcome;

verus! {

/// A numeric value: one variant per kind, each carrying a payload of the
/// matching width and signedness. The two floating-point variants carry
/// their payload as its IEEE 754 bit pattern, since the library never
/// performs floating-point arithmetic itself.
#[derive(Clone, Copy, Debug, PartialEq, Eq, Structural)]
pub enum Value {
    U8(u8),
    I8(i8),
    U16(u16),
    I16(i16),
    U32(u32),
    I32(i32),
    U64(u64),
    I64(i64),
    /// A 32-bit float, by IEEE 754 bit pattern.
    F32(u32),
    /// A 64-bit float, by IEEE 754 bit pattern.
    F64(u64),
}

/// The mathematical shadow of an [`Outcome`]: identifier text in errors as
/// a sequence of characters. Contracts speak of this form.
pub enum OutcomeModel<T> {
    Done(T),
    Fail(ErrorModel),
    Need(FloatReq),
}

/// The [`OutcomeModel`] of an exec [`Outcome`].
pub open spec fn outcome_model<T>(o: Outcome<T>) -> OutcomeModel<T> {
    match o {
        Outcome::Done(v) => OutcomeModel::Done(v),
        Outcome::Fail(e) => OutcomeModel::Fail(e@),
        Outcome::Need(r) => OutcomeModel::Need(r),
    }
}

/// What one binary operation produced: its outcome, and the numeric-stream
/// cursor after it (one past the consumed reply, or unchanged).
pub struct OpStep {
    pub out: OutcomeModel<Value>,
    pub k: nat,
}

/// Quotient of truncated division (toward zero), the host machine's integer
/// division.
pub open spec fn trunc_div(x: int, d: int) -> int {
    if (x >= 0) == (d >= 0) {
        abs(x) as int / abs(d) as int
    } else {
        -(abs(x) as int / abs(d) as int)
    }
}

/// The low 8 bits of an oracle reply read as a two's-complement `i8`.
pub open spec fn low_i8(bits: u64) -> i8 {
    if bits % 0x100 < 0x80 {
        (bits % 0x100) as i8
    } else {
        (bits % 0x100 - 0x100) as i8
    }
}

/// The low 16 bits of an oracle reply read as a two's-complement `i16`.
pub open spec fn low_i16(bits: u64) -> i16 {
    if bits % 0x1_0000 < 0x8000 {
        (bits % 0x1_0000) as i16
    } else {
        (bits % 0x1_0000 - 0x1_0000) as i16
    }
}

/// The low 32 bits of an oracle reply read as a two's-complement `i32`.
pub open spec fn low_i32(bits: u64) -> i32 {
    if bits % 0x1_0000_0000 < 0x8000_0000 {
        (bits % 0x1_0000_0000) as i32
    } else {
        (bits % 0x1_0000_0000 - 0x1_0000_0000) as i32
    }
}

/// An oracle reply's 64 bits read as a two's-complement `i64`.
pub open spec fn low_i64(bits: u64) -> i64 {
    if bits < 0x8000_0000_0000_0000 {
        bits as i64
    } else {
        (bits - 0x1_0000_0000_0000_0000) as i64
    }
}

/// The value of the given kind whose payload sits in the low bits of an
/// oracle reply: the exponent operator's result arrives this way.
pub open spec fn decode_reply(kind: NumType, bits: u64) -> Value {
    match kind {
        NumType::U8 => Value::U8((bits % 0x100) as u8),
        NumType::I8 => Value::I8(low_i8(bits)),
        NumType::U16 => Value::U16((bits % 0x1_0000) as u16),
        NumType::I16 => Value::I16(low_i16(bits)),
        NumType::U32 => Value::U32((bits % 0x1_0000_0000) as u32),
        NumType::I32 => Value::I32(low_i32(bits)),
        NumType::U64 => Value::U64(bits),
        NumType::I64 => Value::I64(low_i64(bits)),
        NumType::F32 => Value::F32((bits % 0x1_0000_0000) as u32),
        NumType::F64 => Value::F64(bits),
    }
}

impl Value {
    /// The value's kind tag.
    pub open spec fn kind_spec(&self) -> NumType {
        match self {
            Value::U8(_) => NumType::U8,
            Value::I8(_) => NumType::I8,
            Value::U16(_) => NumType::U16,
            Value::I16(_) => NumType::I16,
            Value::U32(_) => NumType::U32,
            Value::I32(_) => NumType::I32,
            Value::U64(_) => NumType::U64,
            Value::I64(_) => NumType::I64,
            Value::F32(_) => NumType::F32,
            Value::F64(_) => NumType::F64,
        }
    }

    /// Returns the value's kind tag.
    #[verifier::when_used_as_spec(kind_spec)]
    pub fn kind(&self) -> (k: NumType)
        ensures
            k == self.kind_spec(),
    {
        match self {
            Value::U8(_) => NumType::U8,
            Value::I8(_) => NumType::I8,
            Value::U16(_) => NumType::U16,
            Value::I16(_) => NumType::I16,
            Value::U32(_) => NumType::U32,
            Value::I32(_) => NumType::I32,
            Value::U64(_) => NumType::U64,
            Value::I64(_) => NumType::I64,
            Value::F32(_) => NumType::F32,
            Value::F64(_) => NumType::F64,
        }
    }
}

/// A float binary operation on 32-bit operands: consume the next numeric
/// reply as the result's bit pattern, or request one.
pub open spec fn float_bin32_spec(op: FloatOp, x: u32, y: u32, nums: Seq<u64>, k: nat) -> OpStep {
    if k < nums.len() {
        OpStep { out: OutcomeModel::Done(Value::F32((nums[k as int] % 0x1_0000_0000) as u32)), k: k + 1 }
    } else {
        OpStep { out: OutcomeModel::Need(FloatReq::Bin32(op, x, y)), k }
    }
}

/// A float binary operation on 64-bit operands: consume the next numeric
/// reply as the result's bit pattern, or request one.
pub open spec fn float_bin64_spec(op: FloatOp, x: u64, y: u64, nums: Seq<u64>, k: nat) -> OpStep {
    if k < nums.len() {
        OpStep { out: OutcomeModel::Done(Value::F64(nums[k as int])), k: k + 1 }
    } else {
        OpStep { out: OutcomeModel::Need(FloatReq::Bin64(op, x, y)), k }
    }
}

/// Addition: operands must share one kind; integer kinds wrap, float kinds
/// go to the oracle; differing kinds are a type mismatch.
pub open spec fn add_spec(a: Value, b: Value, nums: Seq<u64>, k: nat) -> OpStep {
    match (a, b) {
        (Value::U8(x), Value::U8(y)) => OpStep {
            out: OutcomeModel::Done(Value::U8(u8_specs::wrapping_add(x, y))),
            k,
        },
        (Value::I8(x), Value::I8(y)) => OpStep {
            out: OutcomeModel::Done(Value::I8(i8_specs::wrapping_add(x, y))),
            k,
        },
        (Value::U16(x), Value::U16(y)) => OpStep {
            out: OutcomeModel::Done(Value::U16(u16_specs::wrapping_add(x, y))),
            k,
        },
        (Value::I16(x), Value::I16(y)) => OpStep {
            out: OutcomeModel::Done(Value::I16(i16_specs::wrapping_add(x, y))),
            k,
        },
        (Value::U32(x), Value::U32(y)) => OpStep {
            out: OutcomeModel::Done(Value::U32(u32_specs::wrapping_add(x, y))),
            k,
        },
        (Value::I32(x), Value::I32(y)) => OpStep {
            out: OutcomeModel::Done(Value::I32(i32_specs::wrapping_add(x, y))),
            k,
        },
        (Value::U64(x), Value::U64(y)) => OpStep {
            out: OutcomeModel::Done(Value::U64(u64_specs::wrapping_add(x, y))),
            k,
        },
        (Value::I64(x), Value::I64(y)) => OpStep {
            out: OutcomeModel::Done(Value::I64(i64_specs::wrapping_add(x, y))),
            k,
        },
        (Value::F32(x), Value::F32(y)) => float_bin32_spec(FloatOp::Add, x, y, nums, k),
        (Value::F64(x), Value::F64(y)) => float_bin64_spec(FloatOp::Add, x, y, nums, k),
        _ => OpStep {
            out: OutcomeModel::Fail(ErrorModel::TypeMismatch(a.kind(), b.kind())),
            k,
        },
    }
}

/// Subtraction: same kind discipline as [`add_spec`].
pub open spec fn sub_spec(a: Value, b: Value, nums: Seq<u64>, k: nat) -> OpStep {
    match (a, b) {
        (Value::U8(x), Value::U8(y)) => OpStep {
            out: OutcomeModel::Done(Value::U8(u8_specs::wrapping_sub(x, y))),
            k,
        },
        (Value::I8(x), Value::I8(y)) => OpStep {
            out: OutcomeModel::Done(Value::I8(i8_specs::wrapping_sub(x, y))),
            k,
        },
        (Value::U16(x), Value::U16(y)) => OpStep {
            out: OutcomeModel::Done(Value::U16(u16_specs::wrapping_sub(x, y))),
            k,
        },
        (Value::I16(x), Value::I16(y)) => OpStep {
            out: OutcomeModel::Done(Value::I16(i16_specs::wrapping_sub(x, y))),
            k,
        },
        (Value::U32(x), Value::U32(y)) => OpStep {
            out: OutcomeModel::Done(Value::U32(u32_specs::wrapping_sub(x, y))),
            k,
        },
        (Value::I32(x), Value::I32(y)) => OpStep {
            out: OutcomeModel::Done(Value::I32(i32_specs::wrapping_sub(x, y))),
            k,
        },
        (Value::U64(x), Value::U64(y)) => OpStep {
            out: OutcomeModel::Done(Value::U64(u64_specs::wrapping_sub(x, y))),
            k,
        },
        (Value::I64(x), Value::I64(y)) => OpStep {
            out: OutcomeModel::Done(Value::I64(i64_specs::wrapping_sub(x, y))),
            k,
        },
        (Value::F32(x), Value::F32(y)) => float_bin32_spec(FloatOp::Sub, x, y, nums, k),
        (Value::F64(x), Value::F64(y)) => float_bin64_spec(FloatOp::Sub, x, y, nums, k),
        _ => OpStep {
            out: OutcomeModel::Fail(ErrorModel::TypeMismatch(a.kind(), b.kind())),
            k,
        },
    }
}

/// Multiplication: same kind discipline as [`add_spec`].
pub open spec fn mul_spec(a: Value, b: Value, nums: Seq<u64>, k: nat) -> OpStep {
    match (a, b) {
        (Value::U8(x), Value::U8(y)) => OpStep {
            out: OutcomeModel::Done(Value::U8(u8_specs::wrapping_mul(x, y))),
            k,
        },
        (Value::I8(x), Value::I8(y)) => OpStep {
            out: OutcomeModel::Done(Value::I8(i8_specs::wrapping_mul(x, y))),
            k,
        },
        (Value::U16(x), Value::U16(y)) => OpStep {
            out: OutcomeModel::Done(Value::U16(u16_specs::wrapping_mul(x, y))),
            k,
        },
        (Value::I16(x), Value::I16(y)) => OpStep {
            out: OutcomeModel::Done(Value::I16(i16_specs::wrapping_mul(x, y))),
            k,
        },
        (Value::U32(x), Value::U32(y)) => OpStep {
            out: OutcomeModel::Done(Value::U32(u32_specs::wrapping_mul(x, y))),
            k,
        },
        (Value::I32(x), Value::I32(y)) => OpStep {
            out: OutcomeModel::Done(Value::I32(i32_specs::wrapping_mul(x, y))),
            k,
        },
        (Value::U64(x), Value::U64(y)) => OpStep {
            out: OutcomeModel::Done(Value::U64(u64_specs::wrapping_mul(x, y))),
            k,
        },
        (Value::I64(x), Value::I64(y)) => OpStep {
            out: OutcomeModel::Done(Value::I64(i64_specs::wrapping_mul(x, y))),
            k,
        },
        (Value::F32(x), Value::F32(y)) => float_bin32_spec(FloatOp::Mul, x, y, nums, k),
        (Value::F64(x), Value::F64(y)) => float_bin64_spec(FloatOp::Mul, x, y, nums, k),
        _ => OpStep {
            out: OutcomeModel::Fail(ErrorModel::TypeMismatch(a.kind(), b.kind())),
            k,
        },
    }
}

/// Division: integer kinds divide truncating toward zero, wrap the one
/// overflowing quotient, and fail fatally on a zero divisor; float kinds go
/// to the oracle (IEEE 754 division has a result for every operand pair).
pub open spec fn div_spec(a: Value, b: Value, nums: Seq<u64>, k: nat) -> OpStep {
    match (a, b) {
        (Value::U8(x), Value::U8(y)) => OpStep {
            out: if y == 0 {
                OutcomeModel::Fail(ErrorModel::DivisionByZero(NumType::U8))
            } else {
                OutcomeModel::Done(Value::U8((x as int / y as int) as u8))
            },
            k,
        },
        (Value::I8(x), Value::I8(y)) => OpStep {
            out: if y == 0 {
                OutcomeModel::Fail(ErrorModel::DivisionByZero(NumType::I8))
            } else {
                OutcomeModel::Done(Value::I8(i8_specs::signed_crop(trunc_div(x as int, y as int))))
            },
            k,
        },
        (Value::U16(x), Value::U16(y)) => OpStep {
            out: if y == 0 {
                OutcomeModel::Fail(ErrorModel::DivisionByZero(NumType::U16))
            } else {
                OutcomeModel::Done(Value::U16((x as int / y as int) as u16))
            },
            k,
        },
        (Value::I16(x), Value::I16(y)) => OpStep {
            out: if y == 0 {
                OutcomeModel::Fail(ErrorModel::DivisionByZero(NumType::I16))
            } else {
                OutcomeModel::Done(Value::I16(i16_specs::signed_crop(trunc_div(x as int, y as int))))
            },
            k,
        },
        (Value::U32(x), Value::U32(y)) => OpStep {
            out: if y == 0 {
                OutcomeModel::Fail(ErrorModel::DivisionByZero(NumType::U32))
            } else {
                OutcomeModel::Done(Value::U32((x as int / y as int) as u32))
            },
            k,
        },
        (Value::I32(x), Value::I32(y)) => OpStep {
            out: if y == 0 {
                OutcomeModel::Fail(ErrorModel::DivisionByZero(NumType::I32))
            } else {
                OutcomeModel::Done(Value::I32(i32_specs::signed_crop(trunc_div(x as int, y as int))))
            },
            k,
        },
        (Value::U64(x), Value::U64(y)) => OpStep {
            out: if y == 0 {
                OutcomeModel::Fail(ErrorModel::DivisionByZero(NumType::U64))
            } else {
                OutcomeModel::Done(Value::U64((x as int / y as int) as u64))
            },
            k,
        },
        (Value::I64(x), Value::I64(y)) => OpStep {
            out: if y == 0 {
                OutcomeModel::Fail(ErrorModel::DivisionByZero(NumType::I64))
            } else {
                OutcomeModel::Done(Value::I64(i64_specs::signed_crop(trunc_div(x as int, y as int))))
            },
            k,
        },
        (Value::F32(x), Value::F32(y)) => float_bin32_spec(FloatOp::Div, x, y, nums, k),
        (Value::F64(x), Value::F64(y)) => float_bin64_spec(FloatOp::Div, x, y, nums, k),
        _ => OpStep {
            out: OutcomeModel::Fail(ErrorModel::TypeMismatch(a.kind(), b.kind())),
            k,
        },
    }
}

/// The exponent operator: every kind is promoted through 64-bit floats, so
/// every application consults the oracle; the reply's low bits are read
/// back in the operands' common kind.
pub open spec fn pow_spec(a: Value, b: Value, nums: Seq<u64>, k: nat) -> OpStep {
    if a.kind() != b.kind() {
        OpStep { out: OutcomeModel::Fail(ErrorModel::TypeMismatch(a.kind(), b.kind())), k }
    } else if k < nums.len() {
        OpStep { out: OutcomeModel::Done(decode_reply(a.kind(), nums[k as int])), k: k + 1 }
    } else {
        OpStep { out: OutcomeModel::Need(FloatReq::Pow(a, b)), k }
    }
}

impl Value {
    /// Adds two values, per [`add_spec`].
    pub fn add(self, rhs: Value, nums: &Vec<u64>, k: usize) -> (r: (Outcome<Value>, usize))
        requires
            k <= nums@.len(),
        ensures
            outcome_model(r.0) == add_spec(self, rhs, nums@, k as nat).out,
            r.1 as nat == add_spec(self, rhs, nums@, k as nat).k,
    {
        match (self, rhs) {
            (Value::U8(x), Value::U8(y)) => (Outcome::Done(Value::U8(x.wrapping_add(y))), k),
            (Value::I8(x), Value::I8(y)) => (Outcome::Done(Value::I8(x.wrapping_add(y))), k),
            (Value::U16(x), Value::U16(y)) => (Outcome::Done(Value::U16(x.wrapping_add(y))), k),
            (Value::I16(x), Value::I16(y)) => (Outcome::Done(Value::I16(x.wrapping_add(y))), k),
            (Value::U32(x), Value::U32(y)) => (Outcome::Done(Value::U32(x.wrapping_add(y))), k),
            (Value::I32(x), Value::I32(y)) => (Outcome::Done(Value::I32(x.wrapping_add(y))), k),
            (Value::U64(x), Value::U64(y)) => (Outcome::Done(Value::U64(x.wrapping_add(y))), k),
            (Value::I64(x), Value::I64(y)) => (Outcome::Done(Value::I64(x.wrapping_add(y))), k),
            (Value::F32(x), Value::F32(y)) => float_bin32(FloatOp::Add, x, y, nums, k),
            (Value::F64(x), Value::F64(y)) => float_bin64(FloatOp::Add, x, y, nums, k),
            _ => (Outcome::Fail(EvalError::TypeMismatch(self.kind(), rhs.kind())), k),
        }
    }

    /// Subtracts two values, per [`sub_spec`].
    pub fn sub(self, rhs: Value, nums: &Vec<u64>, k: usize) -> (r: (Outcome<Value>, usize))
        requires
            k <= nums@.len(),
        ensures
            outcome_model(r.0) == sub_spec(self, rhs, nums@, k as nat).out,
            r.1 as nat == sub_spec(self, rhs, nums@, k as nat).k,
    {
        match (self, rhs) {
            (Value::U8(x), Value::U8(y)) => (Outcome::Done(Value::U8(x.wrapping_sub(y))), k),
            (Value::I8(x), Value::I8(y)) => (Outcome::Done(Value::I8(x.wrapping_sub(y))), k),
            (Value::U16(x), Value::U16(y)) => (Outcome::Done(Value::U16(x.wrapping_sub(y))), k),
            (Value::I16(x), Value::I16(y)) => (Outcome::Done(Value::I16(x.wrapping_sub(y))), k),
            (Value::U32(x), Value::U32(y)) => (Outcome::Done(Value::U32(x.wrapping_sub(y))), k),
            (Value::I32(x), Value::I32(y)) => (Outcome::Done(Value::I32(x.wrapping_sub(y))), k),
            (Value::U64(x), Value::U64(y)) => (Outcome::Done(Value::U64(x.wrapping_sub(y))), k),
            (Value::I64(x), Value::I64(y)) => (Outcome::Done(Value::I64(x.wrapping_sub(y))), k),
            (Value::F32(x), Value::F32(y)) => float_bin32(FloatOp::Sub, x, y, nums, k),
            (Value::F64(x), Value::F64(y)) => float_bin64(FloatOp::Sub, x, y, nums, k),
            _ => (Outcome::Fail(EvalError::TypeMismatch(self.kind(), rhs.kind())), k),
        }
    }

    /// Multiplies two values, per [`mul_spec`].
    pub fn mul(self, rhs: Value, nums: &Vec<u64>, k: usize) -> (r: (Outcome<Value>, usize))
        requires
            k <= nums@.len(),
        ensures
            outcome_model(r.0) == mul_spec(self, rhs, nums@, k as nat).out,
            r.1 as nat == mul_spec(self, rhs, nums@, k as nat).k,
    {
        match (self, rhs) {
            (Value::U8(x), Value::U8(y)) => (Outcome::Done(Value::U8(x.wrapping_mul(y))), k),
            (Value::I8(x), Value::I8(y)) => (Outcome::Done(Value::I8(x.wrapping_mul(y))), k),
            (Value::U16(x), Value::U16(y)) => (Outcome::Done(Value::U16(x.wrapping_mul(y))), k),
            (Value::I16(x), Value::I16(y)) => (Outcome::Done(Value::I16(x.wrapping_mul(y))), k),
            (Value::U32(x), Value::U32(y)) => (Outcome::Done(Value::U32(x.wrapping_mul(y))), k),
            (Value::I32(x), Value::I32(y)) => (Outcome::Done(Value::I32(x.wrapping_mul(y))), k),
            (Value::U64(x), Value::U64(y)) => (Outcome::Done(Value::U64(x.wrapping_mul(y))), k),
            (Value::I64(x), Value::I64(y)) => (Outcome::Done(Value::I64(x.wrapping_mul(y))), k),
            (Value::F32(x), Value::F32(y)) => float_bin32(FloatOp::Mul, x, y, nums, k),
            (Value::F64(x), Value::F64(y)) => float_bin64(FloatOp::Mul, x, y, nums, k),
            _ => (Outcome::Fail(EvalError::TypeMismatch(self.kind(), rhs.kind())), k),
        }
    }

    /// Divides two values, per [`div_spec`].
    pub fn div(self, rhs: Value, nums: &Vec<u64>, k: usize) -> (r: (Outcome<Value>, usize))
        requires
            k <= nums@.len(),
        ensures
            outcome_model(r.0) == div_spec(self, rhs, nums@, k as nat).out,
            r.1 as nat == div_spec(self, rhs, nums@, k as nat).k,
    {
        match (self, rhs) {
            (Value::U8(x), Value::U8(y)) => (div_u8(x, y), k),
            (Value::I8(x), Value::I8(y)) => (div_i8(x, y), k),
            (Value::U16(x), Value::U16(y)) => (div_u16(x, y), k),
            (Value::I16(x), Value::I16(y)) => (div_i16(x, y), k),
            (Value::U32(x), Value::U32(y)) => (div_u32(x, y), k),
            (Value::I32(x), Value::I32(y)) => (div_i32(x, y), k),
            (Value::U64(x), Value::U64(y)) => (div_u64(x, y), k),
            (Value::I64(x), Value::I64(y)) => (div_i64(x, y), k),
            (Value::F32(x), Value::F32(y)) => float_bin32(FloatOp::Div, x, y, nums, k),
            (Value::F64(x), Value::F64(y)) => float_bin64(FloatOp::Div, x, y, nums, k),
            _ => (Outcome::Fail(EvalError::TypeMismatch(self.kind(), rhs.kind())), k),
        }
    }

    /// Raises `self` to `rhs`, per [`pow_spec`].
    pub fn powf(self, rhs: Value, nums: &Vec<u64>, k: usize) -> (r: (Outcome<Value>, usize))
        requires
            k <= nums@.len(),
        ensures
            outcome_model(r.0) == pow_spec(self, rhs, nums@, k as nat).out,
            r.1 as nat == pow_spec(self, rhs, nums@, k as nat).k,
    {
        if self.kind() != rhs.kind() {
            (Outcome::Fail(EvalError::TypeMismatch(self.kind(), rhs.kind())), k)
        } else if k < nums.len() {
            (Outcome::Done(decode(self.kind(), nums[k])), k + 1)
        } else {
            (Outcome::Need(FloatReq::Pow(self, rhs)), k)
        }
    }
}

/// Reads an oracle reply's low bits back as a value of the given kind, per
/// [`decode_reply`].
fn decode(kind: NumType, bits: u64) -> (v: Value)
    ensures
        v == decode_reply(kind, bits),
{
    match kind {
        NumType::U8 => Value::U8((bits % 0x100) as u8),
        NumType::I8 => {
            let low: u64 = bits % 0x100;
            Value::I8(if low < 0x80 { low as i8 } else { (low as i16 - 0x100) as i8 })
        },
        NumType::U16 => Value::U16((bits % 0x1_0000) as u16),
        NumType::I16 => {
            let low: u64 = bits % 0x1_0000;
            Value::I16(if low < 0x8000 { low as i16 } else { (low as i32 - 0x1_0000) as i16 })
        },
        NumType::U32 => Value::U32((bits % 0x1_0000_0000) as u32),
        NumType::I32 => {
            let low: u64 = bits % 0x1_0000_0000;
            Value::I32(if low < 0x8000_0000 { low as i32 } else { (low as i64 - 0x1_0000_0000) as i32 })
        },
        NumType::U64 => Value::U64(bits),
        NumType::I64 => {
            Value::I64(
                if bits < 0x8000_0000_0000_0000 {
                    bits as i64
                } else {
                    (bits - 0x8000_0000_0000_0000) as i64 + i64::MIN
                },
            )
        },
        NumType::F32 => Value::F32((bits % 0x1_0000_0000) as u32),
        NumType::F64 => Value::F64(bits),
    }
}

impl Value {
    /// Decimal text of an integer-kind value: the payload rendered in its
    /// kind's natural decimal form. The two float kinds render through the
    /// caller's oracle instead and yield empty text here.
    pub open spec fn int_text_spec(&self) -> Seq<char> {
        match self {
            Value::U8(x) => dec_chars(*x as nat),
            Value::I8(x) => dec_chars_int(*x as int),
            Value::U16(x) => dec_chars(*x as nat),
            Value::I16(x) => dec_chars_int(*x as int),
            Value::U32(x) => dec_chars(*x as nat),
            Value::I32(x) => dec_chars_int(*x as int),
            Value::U64(x) => dec_chars(*x as nat),
            Value::I64(x) => dec_chars_int(*x as int),
            Value::F32(_) => Seq::<char>::empty(),
            Value::F64(_) => Seq::<char>::empty(),
        }
    }

    /// Renders an integer-kind value in decimal, per [`int_text_spec`].
    pub fn int_text(&self) -> (s: String)
        ensures
            s@ == self.int_text_spec(),
    {
        match self {
            Value::U8(x) => u64_to_string(*x as u64),
            Value::I8(x) => i64_to_string(*x as i64),
            Value::U16(x) => u64_to_string(*x as u64),
            Value::I16(x) => i64_to_string(*x as i64),
            Value::U32(x) => u64_to_string(*x as u64),
            Value::I32(x) => i64_to_string(*x as i64),
            Value::U64(x) => u64_to_string(*x),
            Value::I64(x) => i64_to_string(*x),
            Value::F32(_) => String::new(),
            Value::F64(_) => String::new(),
        }
    }
}

/// A float binary operation on 32-bit operands, per [`float_bin32_spec`].
fn float_bin32(op: FloatOp, x: u32, y: u32, nums: &Vec<u64>, k: usize) -> (r: (
    Outcome<Value>,
    usize,
))
    requires
        k <= nums@.len(),
    ensures
        outcome_model(r.0) == float_bin32_spec(op, x, y, nums@, k as nat).out,
        r.1 as nat == float_bin32_spec(op, x, y, nums@, k as nat).k,
{
    if k < nums.len() {
        (Outcome::Done(Value::F32((nums[k] % 0x1_0000_0000) as u32)), k + 1)
    } else {
        (Outcome::Need(FloatReq::Bin32(op, x, y)), k)
    }
}

/// A float binary operation on 64-bit operands, per [`float_bin64_spec`].
fn float_bin64(op: FloatOp, x: u64, y: u64, nums: &Vec<u64>, k: usize) -> (r: (
    Outcome<Value>,
    usize,
))
    requires
        k <= nums@.len(),
    ensures
        outcome_model(r.0) == float_bin64_spec(op, x, y, nums@, k as nat).out,
        r.1 as nat == float_bin64_spec(op, x, y, nums@, k as nat).k,
{
    if k < nums.len() {
        (Outcome::Done(Value::F64(nums[k])), k + 1)
    } else {
        (Outcome::Need(FloatReq::Bin64(op, x, y)), k)
    }
}

/// Unsigned division of `u8` payloads: fatal on a zero divisor.
fn div_u8(x: u8, y: u8) -> (r: Outcome<Value>)
    ensures
        outcome_model(r) == (if y == 0 {
            OutcomeModel::Fail(ErrorModel::DivisionByZero(NumType::U8))
        } else {
            OutcomeModel::Done(Value::U8((x as int / y as int) as u8))
        }),
{
    if y == 0 {
        Outcome::Fail(EvalError::DivisionByZero(NumType::U8))
    } else {
        Outcome::Done(Value::U8(x / y))
    }
}

/// Unsigned division of `u16` payloads: fatal on a zero divisor.
fn div_u16(x: u16, y: u16) -> (r: Outcome<Value>)
    ensures
        outcome_model(r) == (if y == 0 {
            OutcomeModel::Fail(ErrorModel::DivisionByZero(NumType::U16))
        } else {
            OutcomeModel::Done(Value::U16((x as int / y as int) as u16))
        }),
{
    if y == 0 {
        Outcome::Fail(EvalError::DivisionByZero(NumType::U16))
    } else {
        Outcome::Done(Value::U16(x / y))
    }
}

/// Unsigned division of `u32` payloads: fatal on a zero divisor.
fn div_u32(x: u32, y: u32) -> (r: Outcome<Value>)
    ensures
        outcome_model(r) == (if y == 0 {
            OutcomeModel::Fail(ErrorModel::DivisionByZero(NumType::U32))
        } else {
            OutcomeModel::Done(Value::U32((x as int / y as int) as u32))
        }),
{
    if y == 0 {
        Outcome::Fail(EvalError::DivisionByZero(NumType::U32))
    } else {
        Outcome::Done(Value::U32(x / y))
    }
}

/// Unsigned division of `u64` payloads: fatal on a zero divisor.
fn div_u64(x: u64, y: u64) -> (r: Outcome<Value>)
    ensures
        outcome_model(r) == (if y == 0 {
            OutcomeModel::Fail(ErrorModel::DivisionByZero(NumType::U64))
        } else {
            OutcomeModel::Done(Value::U64((x as int / y as int) as u64))
        }),
{
    if y == 0 {
        Outcome::Fail(EvalError::DivisionByZero(NumType::U64))
    } else {
        Outcome::Done(Value::U64(x / y))
    }
}

/// Signed division of `i8` payloads: truncates toward zero, wraps `MIN / -1`
/// back to `MIN`, fatal on a zero divisor.
fn div_i8(x: i8, y: i8) -> (r: Outcome<Value>)
    ensures
        outcome_model(r) == (if y == 0 {
            OutcomeModel::Fail(ErrorModel::DivisionByZero(NumType::I8))
        } else {
            OutcomeModel::Done(Value::I8(i8_specs::signed_crop(trunc_div(x as int, y as int))))
        }),
{
    match x.checked_div(y) {
        Some(q) => Outcome::Done(Value::I8(q)),
        None => {
            if y == 0 {
                Outcome::Fail(EvalError::DivisionByZero(NumType::I8))
            } else {
                Outcome::Done(Value::I8(i8::MIN))
            }
        },
    }
}

/// Signed division of `i16` payloads, as [`div_i8`].
fn div_i16(x: i16, y: i16) -> (r: Outcome<Value>)
    ensures
        outcome_model(r) == (if y == 0 {
            OutcomeModel::Fail(ErrorModel::DivisionByZero(NumType::I16))
        } else {
            OutcomeModel::Done(Value::I16(i16_specs::signed_crop(trunc_div(x as int, y as int))))
        }),
{
    match x.checked_div(y) {
        Some(q) => Outcome::Done(Value::I16(q)),
        None => {
            if y == 0 {
                Outcome::Fail(EvalError::DivisionByZero(NumType::I16))
            } else {
                Outcome::Done(Value::I16(i16::MIN))
            }
        },
    }
}

/// Signed division of `i32` payloads, as [`div_i8`].
fn div_i32(x: i32, y: i32) -> (r: Outcome<Value>)
    ensures
        outcome_model(r) == (if y == 0 {
            OutcomeModel::Fail(ErrorModel::DivisionByZero(NumType::I32))
        } else {
            OutcomeModel::Done(Value::I32(i32_specs::signed_crop(trunc_div(x as int, y as int))))
        }),
{
    match x.checked_div(y) {
        Some(q) => Outcome::Done(Value::I32(q)),
        None => {
            if y == 0 {
                Outcome::Fail(EvalError::DivisionByZero(NumType::I32))
            } else {
                Outcome::Done(Value::I32(i32::MIN))
            }
        },
    }
}

/// Signed division of `i64` payloads, as [`div_i8`].
fn div_i64(x: i64, y: i64) -> (r: Outcome<Value>)
    ensures
        outcome_model(r) == (if y == 0 {
            OutcomeModel::Fail(ErrorModel::DivisionByZero(NumType::I64))
        } else {
            OutcomeModel::Done(Value::I64(i64_specs::signed_crop(trunc_div(x as int, y as int))))
        }),
{
    match x.checked_div(y) {
        Some(q) => Outcome::Done(Value::I64(q)),
        None => {
            if y == 0 {
                Outcome::Fail(EvalError::DivisionByZero(NumType::I64))
            } else {
                Outcome::Done(Value::I64(i64::MIN))
            }
        },
    }
}

} // verus!
