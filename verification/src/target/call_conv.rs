//! Calling conventions: where arguments and results live.

use vstd::prelude::*;
use crate::ir::types::Type;
use crate::target::registers::{Reg, RegClass, AX, CX, DI, DX, R8, R9, SI};

verus! {

/// A calling convention of x86-64.
#[derive(Debug, Clone, Copy, PartialEq, Eq, Structural)]
pub enum CallConv {
    /// The convention of the System V ABI, as on Linux and macOS.
    SystemV,
    /// The convention of 64-bit Windows.
    WindowsFastcall,
}

/// The stack space that a framed function reserves.
pub const SHADOW_SPACE: usize = 32;

/// The table of a calling convention: the registers of the arguments, by class
/// and in order, the register of the result, by class, and the stack space that
/// a framed function reserves.
#[derive(Debug, Clone, Copy, PartialEq, Eq, Structural)]
pub struct TargetCallConv {
    pub conv: CallConv,
    pub shadow: usize,
}

/// The indices of the general-purpose registers that carry arguments, in order.
pub open spec fn int_arg_indices(conv: CallConv) -> Seq<u8> {
    match conv {
        CallConv::SystemV => seq![DI, SI, DX, CX, R8, R9],
        CallConv::WindowsFastcall => seq![CX, DX, R8, R9],
    }
}

/// How many vector registers carry arguments: the first so many.
pub open spec fn float_arg_count(conv: CallConv) -> nat {
    match conv {
        CallConv::SystemV => 8,
        CallConv::WindowsFastcall => 4,
    }
}

/// The class of the register that carries an argument of the given kind: a
/// general-purpose register of the width of the kind, or a vector register.
pub open spec fn arg_class(typ: Type) -> RegClass {
    match typ {
        Type::u64 | Type::i64 => RegClass::Gpr64,
        Type::u32 | Type::i32 => RegClass::Gpr32,
        Type::u16 | Type::i16 => RegClass::Gpr16,
        Type::u8 | Type::i8 => RegClass::Gpr8,
        Type::F64 | Type::F32 => RegClass::Xmm,
    }
}

/// How many of the first `nr` arguments are floating-point numbers, if `float`,
/// or whole numbers, if not.
pub open spec fn earlier_of_file(args: Seq<Type>, float: bool, nr: int) -> nat
    decreases nr,
{
    if nr <= 0 {
        0
    } else {
        earlier_of_file(args, float, nr - 1) + if args[nr - 1].spec_float() == float {
            1nat
        } else {
            0nat
        }
    }
}

/// The slot of argument `nr` among the registers of its file. System V counts
/// whole numbers and floating-point numbers apart: the slot is the number of
/// earlier arguments of the same file. Windows gives each argument the slot of
/// its position, whatever the file.
pub open spec fn arg_slot(conv: CallConv, args: Seq<Type>, nr: int) -> nat {
    match conv {
        CallConv::SystemV => earlier_of_file(args, args[nr].spec_float(), nr),
        CallConv::WindowsFastcall => nr as nat,
    }
}

/// The class of the register that carries a result of the given kind.
pub open spec fn ret_class(typ: Type) -> RegClass {
    match typ {
        Type::u64 | Type::i64 => RegClass::Gpr64,
        Type::u32 | Type::i32 => RegClass::Gpr32,
        Type::u16 | Type::i16 => RegClass::Gpr16,
        Type::u8 | Type::i8 => RegClass::Gpr8,
        Type::F64 | Type::F32 => RegClass::Xmm,
    }
}

/// The register of class `class` in slot `nr` of the arguments, if the
/// convention has one.
pub open spec fn arg_reg(conv: CallConv, class: RegClass, nr: nat) -> Option<Reg> {
    match class {
        RegClass::Xmm => if nr < float_arg_count(conv) {
            Some(Reg { class, index: nr as u8 })
        } else {
            None
        },
        RegClass::Gpr8 | RegClass::Gpr16 | RegClass::Gpr32 | RegClass::Gpr64 => if nr
            < int_arg_indices(conv).len() {
            Some(Reg { class, index: int_arg_indices(conv)[nr as int] })
        } else {
            None
        },
        RegClass::Ip => None,
    }
}

/// The register of class `class` that carries a result: the accumulator, or the
/// first vector register.
pub open spec fn ret_reg(class: RegClass) -> Reg {
    match class {
        RegClass::Xmm => Reg { class, index: 0 },
        _ => Reg { class, index: AX },
    }
}

impl TargetCallConv {
    /// The table of the convention `conv`.
    pub fn new(conv: CallConv) -> (table: Self)
        ensures
            table == (TargetCallConv { conv, shadow: SHADOW_SPACE }),
    {
        match conv {
            CallConv::SystemV => TargetCallConv::linux(),
            CallConv::WindowsFastcall => TargetCallConv::windows(),
        }
    }

    /// The table of the System V convention.
    pub fn linux() -> (table: Self)
        ensures
            table == (TargetCallConv { conv: CallConv::SystemV, shadow: SHADOW_SPACE }),
    {
        TargetCallConv { conv: CallConv::SystemV, shadow: SHADOW_SPACE }
    }

    /// The table of the convention of 64-bit Windows.
    pub fn windows() -> (table: Self)
        ensures
            table == (TargetCallConv { conv: CallConv::WindowsFastcall, shadow: SHADOW_SPACE }),
    {
        TargetCallConv { conv: CallConv::WindowsFastcall, shadow: SHADOW_SPACE }
    }

    /// The register of class `class` in slot `nr` of the arguments.
    pub fn arg(&self, class: RegClass, nr: usize) -> (reg: Option<Reg>)
        ensures
            reg == arg_reg(self.conv, class, nr as nat),
            reg matches Some(r) ==> r.wf(),
    {
        match class {
            RegClass::Xmm => {
                let count: usize = match self.conv {
                    CallConv::SystemV => 8,
                    CallConv::WindowsFastcall => 4,
                };
                if nr < count {
                    Some(Reg { class, index: nr as u8 })
                } else {
                    None
                }
            },
            RegClass::Gpr8 | RegClass::Gpr16 | RegClass::Gpr32 | RegClass::Gpr64 => match self.conv {
                CallConv::SystemV => {
                    let table: [u8; 6] = [DI, SI, DX, CX, R8, R9];
                    assert(table@ =~= int_arg_indices(self.conv));
                    if nr < 6 {
                        Some(Reg { class, index: table[nr] })
                    } else {
                        None
                    }
                },
                CallConv::WindowsFastcall => {
                    let table: [u8; 4] = [CX, DX, R8, R9];
                    assert(table@ =~= int_arg_indices(self.conv));
                    if nr < 4 {
                        Some(Reg { class, index: table[nr] })
                    } else {
                        None
                    }
                },
            },
            RegClass::Ip => None,
        }
    }

    /// The byte register in slot `nr` of the arguments.
    pub fn arg8(&self, nr: usize) -> (reg: Option<Reg>)
        ensures
            reg == arg_reg(self.conv, RegClass::Gpr8, nr as nat),
    {
        self.arg(RegClass::Gpr8, nr)
    }

    /// The word register in slot `nr` of the arguments.
    pub fn arg16(&self, nr: usize) -> (reg: Option<Reg>)
        ensures
            reg == arg_reg(self.conv, RegClass::Gpr16, nr as nat),
    {
        self.arg(RegClass::Gpr16, nr)
    }

    /// The double word register in slot `nr` of the arguments.
    pub fn arg32(&self, nr: usize) -> (reg: Option<Reg>)
        ensures
            reg == arg_reg(self.conv, RegClass::Gpr32, nr as nat),
    {
        self.arg(RegClass::Gpr32, nr)
    }

    /// The whole register in slot `nr` of the arguments.
    pub fn arg64(&self, nr: usize) -> (reg: Option<Reg>)
        ensures
            reg == arg_reg(self.conv, RegClass::Gpr64, nr as nat),
    {
        self.arg(RegClass::Gpr64, nr)
    }

    /// The vector register in slot `nr` of the arguments.
    pub fn argf(&self, nr: usize) -> (reg: Option<Reg>)
        ensures
            reg == arg_reg(self.conv, RegClass::Xmm, nr as nat),
    {
        self.arg(RegClass::Xmm, nr)
    }

    /// The register of class `class` that carries a result.
    pub fn ret(&self, class: RegClass) -> (reg: Reg)
        ensures
            reg == ret_reg(class),
            class != RegClass::Ip ==> reg.wf(),
    {
        match class {
            RegClass::Xmm => Reg { class, index: 0 },
            _ => Reg { class, index: AX },
        }
    }

    /// The byte register of a result.
    pub fn ret8(&self) -> (reg: Reg)
        ensures
            reg == ret_reg(RegClass::Gpr8),
    {
        self.ret(RegClass::Gpr8)
    }

    /// The word register of a result.
    pub fn ret16(&self) -> (reg: Reg)
        ensures
            reg == ret_reg(RegClass::Gpr16),
    {
        self.ret(RegClass::Gpr16)
    }

    /// The double word register of a result.
    pub fn ret32(&self) -> (reg: Reg)
        ensures
            reg == ret_reg(RegClass::Gpr32),
    {
        self.ret(RegClass::Gpr32)
    }

    /// The whole register of a result.
    pub fn ret64(&self) -> (reg: Reg)
        ensures
            reg == ret_reg(RegClass::Gpr64),
    {
        self.ret(RegClass::Gpr64)
    }

    /// The vector register of a result.
    pub fn retf(&self) -> (reg: Reg)
        ensures
            reg == ret_reg(RegClass::Xmm),
    {
        self.ret(RegClass::Xmm)
    }
}

/// The class of the register that carries an argument of the given kind.
pub fn class_of_arg(typ: Type) -> (class: RegClass)
    ensures
        class == arg_class(typ),
{
    match typ {
        Type::u64 | Type::i64 => RegClass::Gpr64,
        Type::u32 | Type::i32 => RegClass::Gpr32,
        Type::u16 | Type::i16 => RegClass::Gpr16,
        Type::u8 | Type::i8 => RegClass::Gpr8,
        Type::F64 | Type::F32 => RegClass::Xmm,
    }
}

/// The class of the register that carries a result of the given kind.
pub fn class_of_ret(typ: Type) -> (class: RegClass)
    ensures
        class == ret_class(typ),
{
    match typ {
        Type::u64 | Type::i64 => RegClass::Gpr64,
        Type::u32 | Type::i32 => RegClass::Gpr32,
        Type::u16 | Type::i16 => RegClass::Gpr16,
        Type::u8 | Type::i8 => RegClass::Gpr8,
        Type::F64 | Type::F32 => RegClass::Xmm,
    }
}

} // verus!
