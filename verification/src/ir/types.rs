//! Scalar value kinds.

use vstd::prelude::*;

verus! {

/// A scalar value kind of an argument or of a return value: an integer of 8 to
/// 64 bits, signed or not, or a floating-point number of 32 or 64 bits.
#[allow(non_camel_case_types)]
#[derive(Debug, Clone, Copy, PartialEq, Eq, Structural)]
pub enum Type {
    u64,
    u32,
    u16,
    u8,
    i64,
    i32,
    i16,
    i8,
    F64,
    F32,
}

impl Type {
    /// The width of a value of this kind in bytes.
    pub open spec fn spec_size(self) -> nat {
        match self {
            Type::u64 | Type::i64 | Type::F64 => 8,
            Type::u32 | Type::i32 | Type::F32 => 4,
            Type::u16 | Type::i16 => 2,
            Type::u8 | Type::i8 => 1,
        }
    }

    /// Whether a value of this kind is a floating-point number.
    pub open spec fn spec_float(self) -> bool {
        self == Type::F64 || self == Type::F32
    }

    /// The name of this kind, as it is written in a mangled symbol.
    pub open spec fn spec_name(self) -> Seq<char> {
        match self {
            Type::u64 => seq!['u', '6', '4'],
            Type::u32 => seq!['u', '3', '2'],
            Type::u16 => seq!['u', '1', '6'],
            Type::u8 => seq!['u', '8'],
            Type::i64 => seq!['i', '6', '4'],
            Type::i32 => seq!['i', '3', '2'],
            Type::i16 => seq!['i', '1', '6'],
            Type::i8 => seq!['i', '8'],
            Type::F64 => seq!['f', '6', '4'],
            Type::F32 => seq!['f', '3', '2'],
        }
    }

    /// The width of a value of this kind in bytes.
    pub fn size(&self) -> (n: usize)
        ensures
            n == self.spec_size(),
    {
        match self {
            Type::u64 | Type::i64 => 8,
            Type::u32 | Type::i32 => 4,
            Type::u16 | Type::i16 => 2,
            Type::u8 | Type::i8 => 1,
            Type::F64 => 8,
            Type::F32 => 4,
        }
    }

    /// Whether a value of this kind is a floating-point number.
    pub fn is_float(&self) -> (float: bool)
        ensures
            float == self.spec_float(),
    {
        match self {
            Type::F64 | Type::F32 => true,
            _ => false,
        }
    }

    /// Whether a value of this kind normally lives on the stack: none does.
    pub fn stack(&self) -> (on_stack: bool)
        ensures
            !on_stack,
    {
        false
    }

    /// Whether a value of this kind normally lives in a register: each does.
    pub fn reg(&self) -> (in_reg: bool)
        ensures
            in_reg,
    {
        true
    }

    /// The name of this kind.
    pub fn name(&self) -> (name: &'static str)
        ensures
            name@ == self.spec_name(),
    {
        proof {
            reveal_strlit("u64");
            reveal_strlit("u32");
            reveal_strlit("u16");
            reveal_strlit("u8");
            reveal_strlit("i64");
            reveal_strlit("i32");
            reveal_strlit("i16");
            reveal_strlit("i8");
            reveal_strlit("f\u{36}4");
            reveal_strlit("f\u{33}2");
        }
        let name = match self {
            Type::u64 => "u64",
            Type::u32 => "u32",
            Type::u16 => "u16",
            Type::u8 => "u8",
            Type::i64 => "i64",
            Type::i32 => "i32",
            Type::i16 => "i16",
            Type::i8 => "i8",
            Type::F64 => "f\u{36}4",
            Type::F32 => "f\u{33}2",
        };
        assert(name@ =~= self.spec_name());
        name
    }
}

} // verus!
