//! The numeric kind tag: which representation a value's payload uses.

use vstd::prelude::*;

verus! {

/// Tag identifying a value's numeric representation: width and signedness
/// for the integer kinds, or the floating-point format.
#[derive(Clone, Copy, Debug, PartialEq, Eq, Structural)]
pub enum NumType {
    U8,
    I8,
    U16,
    I16,
    U32,
    I32,
    U64,
    I64,
    F32,
    F64,
}

impl NumType {
    /// The tag's lower-case source-language spelling.
    pub open spec fn name_spec(self) -> Seq<char> {
        match self {
            NumType::U8 => "u8"@,
            NumType::I8 => "i8"@,
            NumType::U16 => "u16"@,
            NumType::I16 => "i16"@,
            NumType::U32 => "u32"@,
            NumType::I32 => "i32"@,
            NumType::U64 => "u64"@,
            NumType::I64 => "i64"@,
            NumType::F32 => "f32"@,
            NumType::F64 => "f64"@,
        }
    }

    /// The tag's lower-case spelling, as it appears in source programs.
    pub fn name(&self) -> (s: &'static str)
        ensures
            s@ == self.name_spec(),
    {
        match self {
            NumType::U8 => "u8",
            NumType::I8 => "i8",
            NumType::U16 => "u16",
            NumType::I16 => "i16",
            NumType::U32 => "u32",
            NumType::I32 => "i32",
            NumType::U64 => "u64",
            NumType::I64 => "i64",
            NumType::F32 => "f32",
            NumType::F64 => "f64",
        }
    }

    /// Whether the tag names one of the two floating-point representations.
    pub open spec fn is_float_spec(self) -> bool {
        self == NumType::F32 || self == NumType::F64
    }

    /// Returns whether the tag names a floating-point representation.
    pub fn is_float(&self) -> (b: bool)
        ensures
            b == self.is_float_spec(),
    {
        match self {
            NumType::F32 => true,
            NumType::F64 => true,
            _ => false,
        }
    }
}

} // verus!
