//! The instructions that generated code is made of.

use vstd::prelude::*;
use crate::target::registers::Reg;

verus! {

/// An instruction form: a mnemonic with the kinds of its operands.
#[derive(Debug, Clone, Copy, PartialEq, Eq, Structural)]
pub enum Opcode {
    AddRm8R8,
    AddRm16R16,
    AddRm32R32,
    AddRm64R64,
    SubRm8R8,
    SubRm16R16,
    SubRm32R32,
    SubRm64R64,
    ImulR16Rm16,
    ImulR32Rm32,
    ImulR64Rm64,
    AddssXmmXmmm32,
    AddsdXmmXmmm64,
    SubssXmmXmmm32,
    SubsdXmmXmmm64,
    MulssXmmXmmm32,
    MulsdXmmXmmm64,
    DivssXmmXmmm32,
    DivsdXmmXmmm64,
    MovRm8R8,
    MovRm16R16,
    MovRm32R32,
    MovRm64R64,
    MovssXmmXmmm32,
    MovssXmmm32Xmm,
    MovsdXmmm64Xmm,
    MovqXmmXmmm64,
    MovdXmmRm32,
    MovqXmmRm64,
    MovR32Imm32,
    MovR64Imm64,
    PushR64,
    PopR64,
    AddRm64Imm8,
    AddRm64Imm32,
    SubRm64Imm8,
    SubRm64Imm32,
    Retnq,
    Endbr64,
}

impl Opcode {
    /// The number by which the encoder knows this form.
    pub open spec fn spec_number(self) -> u16 {
        match self {
            Opcode::AddRm8R8 => 5,
            Opcode::AddRm16R16 => 6,
            Opcode::AddRm32R32 => 7,
            Opcode::AddRm64R64 => 8,
            Opcode::SubRm8R8 => 81,
            Opcode::SubRm16R16 => 82,
            Opcode::SubRm32R32 => 83,
            Opcode::SubRm64R64 => 84,
            Opcode::ImulR16Rm16 => 2070,
            Opcode::ImulR32Rm32 => 2071,
            Opcode::ImulR64Rm64 => 2072,
            Opcode::AddssXmmXmmm32 => 1348,
            Opcode::AddsdXmmXmmm64 => 1351,
            Opcode::SubssXmmXmmm32 => 1423,
            Opcode::SubsdXmmXmmm64 => 1426,
            Opcode::MulssXmmXmmm32 => 1366,
            Opcode::MulsdXmmXmmm64 => 1369,
            Opcode::DivssXmmXmmm32 => 1459,
            Opcode::DivsdXmmXmmm64 => 1462,
            Opcode::MovRm8R8 => 279,
            Opcode::MovRm16R16 => 280,
            Opcode::MovRm32R32 => 281,
            Opcode::MovRm64R64 => 282,
            Opcode::MovssXmmXmmm32 => 905,
            Opcode::MovssXmmm32Xmm => 927,
            Opcode::MovsdXmmm64Xmm => 932,
            Opcode::MovqXmmXmmm64 => 1826,
            Opcode::MovdXmmRm32 => 1581,
            Opcode::MovqXmmRm64 => 1582,
            Opcode::MovR32Imm32 => 357,
            Opcode::MovR64Imm64 => 358,
            Opcode::PushR64 => 126,
            Opcode::PopR64 => 129,
            Opcode::AddRm64Imm8 => 249,
            Opcode::AddRm64Imm32 => 217,
            Opcode::SubRm64Imm8 => 264,
            Opcode::SubRm64Imm32 => 232,
            Opcode::Retnq => 396,
            Opcode::Endbr64 => 1054,
        }
    }

    /// How many operands this form takes.
    pub open spec fn spec_arity(self) -> nat {
        match self {
            Opcode::Retnq | Opcode::Endbr64 => 0,
            Opcode::PushR64 | Opcode::PopR64 => 1,
            _ => 2,
        }
    }

    /// The number by which the encoder knows this form.
    pub fn number(&self) -> (n: u16)
        ensures
            n == self.spec_number(),
    {
        match self {
            Opcode::AddRm8R8 => 5,
            Opcode::AddRm16R16 => 6,
            Opcode::AddRm32R32 => 7,
            Opcode::AddRm64R64 => 8,
            Opcode::SubRm8R8 => 81,
            Opcode::SubRm16R16 => 82,
            Opcode::SubRm32R32 => 83,
            Opcode::SubRm64R64 => 84,
            Opcode::ImulR16Rm16 => 2070,
            Opcode::ImulR32Rm32 => 2071,
            Opcode::ImulR64Rm64 => 2072,
            Opcode::AddssXmmXmmm32 => 1348,
            Opcode::AddsdXmmXmmm64 => 1351,
            Opcode::SubssXmmXmmm32 => 1423,
            Opcode::SubsdXmmXmmm64 => 1426,
            Opcode::MulssXmmXmmm32 => 1366,
            Opcode::MulsdXmmXmmm64 => 1369,
            Opcode::DivssXmmXmmm32 => 1459,
            Opcode::DivsdXmmXmmm64 => 1462,
            Opcode::MovRm8R8 => 279,
            Opcode::MovRm16R16 => 280,
            Opcode::MovRm32R32 => 281,
            Opcode::MovRm64R64 => 282,
            Opcode::MovssXmmXmmm32 => 905,
            Opcode::MovssXmmm32Xmm => 927,
            Opcode::MovsdXmmm64Xmm => 932,
            Opcode::MovqXmmXmmm64 => 1826,
            Opcode::MovdXmmRm32 => 1581,
            Opcode::MovqXmmRm64 => 1582,
            Opcode::MovR32Imm32 => 357,
            Opcode::MovR64Imm64 => 358,
            Opcode::PushR64 => 126,
            Opcode::PopR64 => 129,
            Opcode::AddRm64Imm8 => 249,
            Opcode::AddRm64Imm32 => 217,
            Opcode::SubRm64Imm8 => 264,
            Opcode::SubRm64Imm32 => 232,
            Opcode::Retnq => 396,
            Opcode::Endbr64 => 1054,
        }
    }

    /// How many operands this form takes.
    pub fn arity(&self) -> (n: usize)
        ensures
            n == self.spec_arity(),
    {
        match self {
            Opcode::Retnq | Opcode::Endbr64 => 0,
            Opcode::PushR64 | Opcode::PopR64 => 1,
            _ => 2,
        }
    }
}

/// A place in memory: `disp` bytes from where `base` points. With the
/// instruction pointer as base, `disp` is the address itself, counted from the
/// address at which the instruction is encoded.
#[derive(Debug, Clone, Copy, PartialEq, Eq, Structural)]
pub struct Mem {
    pub base: Reg,
    pub disp: i64,
}

/// The operands of an instruction, the destination first.
#[derive(Debug, Clone, Copy, PartialEq, Eq, Structural)]
pub enum Operands {
    Bare,
    Reg(Reg),
    RegReg(Reg, Reg),
    RegImm(Reg, i64),
    RegMem(Reg, Mem),
    MemReg(Mem, Reg),
}

/// The operands of an instruction as the encoder takes them: each register by
/// its number, a place in memory by the number of its base and its displacement.
#[derive(Debug, Clone, Copy, PartialEq, Eq, Structural)]
pub enum RawOperands {
    Bare,
    Reg(u8),
    RegReg(u8, u8),
    RegImm(u8, i64),
    RegMem(u8, u8, i64),
    MemReg(u8, i64, u8),
}

impl Operands {
    /// How many operands these are.
    pub open spec fn spec_count(self) -> nat {
        match self {
            Operands::Bare => 0,
            Operands::Reg(_) => 1,
            _ => 2,
        }
    }

    /// Whether each register among them exists.
    pub open spec fn wf(self) -> bool {
        match self {
            Operands::Bare => true,
            Operands::Reg(a) => a.wf(),
            Operands::RegReg(a, b) => a.wf() && b.wf(),
            Operands::RegImm(a, _) => a.wf(),
            Operands::RegMem(a, mem) => a.wf() && mem.base.wf(),
            Operands::MemReg(mem, b) => mem.base.wf() && b.wf(),
        }
    }

    /// The operands as the encoder takes them.
    pub open spec fn raw(self) -> RawOperands {
        match self {
            Operands::Bare => RawOperands::Bare,
            Operands::Reg(a) => RawOperands::Reg(a.spec_number() as u8),
            Operands::RegReg(a, b) => RawOperands::RegReg(
                a.spec_number() as u8,
                b.spec_number() as u8,
            ),
            Operands::RegImm(a, imm) => RawOperands::RegImm(a.spec_number() as u8, imm),
            Operands::RegMem(a, mem) => RawOperands::RegMem(
                a.spec_number() as u8,
                mem.base.spec_number() as u8,
                mem.disp,
            ),
            Operands::MemReg(mem, b) => RawOperands::MemReg(
                mem.base.spec_number() as u8,
                mem.disp,
                b.spec_number() as u8,
            ),
        }
    }
}

/// One instruction.
#[derive(Debug, Clone, Copy, PartialEq, Eq, Structural)]
pub struct Insn {
    pub op: Opcode,
    pub operands: Operands,
}

impl Insn {
    /// Whether the instruction has as many operands as its form takes, and each
    /// register among them exists.
    pub open spec fn wf(self) -> bool {
        self.operands.spec_count() == self.op.spec_arity() && self.operands.wf()
    }
}

} // verus!
