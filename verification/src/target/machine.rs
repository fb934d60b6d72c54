//! A model of the general-purpose registers, and of what the instructions for
//! whole numbers do to them.

use vstd::prelude::*;
use crate::target::isa::{Insn, Opcode, Operands};
use crate::target::registers::{Reg, RegClass};

verus! {

/// The sixteen general-purpose registers: each holds a number of 64 bits.
pub struct Machine {
    pub gpr: Seq<int>,
}

impl Machine {
    /// Sixteen registers, each with a number of 64 bits.
    pub open spec fn wf(self) -> bool {
        &&& self.gpr.len() == 16
        &&& forall|i: int| 0 <= i < 16 ==> 0 <= #[trigger] self.gpr[i] < 0x1_0000_0000_0000_0000
    }
}

/// One more than the largest number that a register of the class `class` holds.
pub open spec fn modulus(class: RegClass) -> int {
    match class {
        RegClass::Gpr8 => 0x100,
        RegClass::Gpr16 => 0x1_0000,
        RegClass::Gpr32 => 0x1_0000_0000,
        _ => 0x1_0000_0000_0000_0000,
    }
}

/// The number that the register `reg` holds: the low bits of the whole register.
pub open spec fn value_of(m: Machine, reg: Reg) -> int {
    m.gpr[reg.index as int] % modulus(reg.class)
}

/// The machine after `value` was written to `reg`, cut to the register's width.
/// A byte or a word leaves the rest of the whole register as it was; a double
/// word clears it.
pub open spec fn with_value(m: Machine, reg: Reg, value: int) -> Machine {
    let whole = m.gpr[reg.index as int];
    let low = value % modulus(reg.class);
    Machine {
        gpr: m.gpr.update(
            reg.index as int,
            match reg.class {
                RegClass::Gpr8 | RegClass::Gpr16 => whole - whole % modulus(reg.class) + low,
                _ => low,
            },
        ),
    }
}

/// The machine after one instruction. Instructions that do not compute with
/// whole numbers in registers leave the registers as they are.
pub open spec fn step(m: Machine, insn: Insn) -> Machine {
    match insn.operands {
        Operands::RegReg(dst, src) => match insn.op {
            Opcode::AddRm8R8 | Opcode::AddRm16R16 | Opcode::AddRm32R32 | Opcode::AddRm64R64 => {
                with_value(m, dst, value_of(m, dst) + value_of(m, src))
            },
            Opcode::SubRm8R8 | Opcode::SubRm16R16 | Opcode::SubRm32R32 | Opcode::SubRm64R64 => {
                with_value(m, dst, value_of(m, dst) - value_of(m, src))
            },
            Opcode::ImulR16Rm16 | Opcode::ImulR32Rm32 | Opcode::ImulR64Rm64 => with_value(
                m,
                dst,
                value_of(m, dst) * value_of(m, src),
            ),
            Opcode::MovRm8R8 | Opcode::MovRm16R16 | Opcode::MovRm32R32 | Opcode::MovRm64R64 => {
                with_value(m, dst, value_of(m, src))
            },
            _ => m,
        },
        Operands::RegImm(dst, value) => match insn.op {
            Opcode::MovR32Imm32 | Opcode::MovR64Imm64 => with_value(m, dst, value as int),
            _ => m,
        },
        _ => m,
    }
}

/// The machine after the instructions `insns`, one after another.
pub open spec fn run(m: Machine, insns: Seq<Insn>) -> Machine
    decreases insns.len(),
{
    if insns.len() == 0 {
        m
    } else {
        step(run(m, insns.drop_last()), insns.last())
    }
}

} // verus!
