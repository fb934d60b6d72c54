//! Variables: values with a place in a register or on the stack.

use vstd::prelude::*;
use crate::ir::compile::CompileError;
use crate::ir::node::{BinKind, BinaryOp};
use crate::ir::types::Type;
use crate::target::isa::{Insn, Mem, Opcode, Operands};
use crate::target::registers::{frame_pointer, Reg, RegClass, BP};

verus! {

/// A value during lowering: where it lives, and of what kind it is.
#[derive(Debug, Clone, Copy, PartialEq, Eq, Structural)]
pub struct VarGen {
    pub on_stack: bool,
    pub in_reg: bool,
    pub stack_adr: usize,
    pub reg: Option<Reg>,
    pub typ: Type,
}

/// The form that moves a value of the given kind from register to register.
pub open spec fn move_op(typ: Type) -> Opcode {
    match typ {
        Type::u64 | Type::i64 => Opcode::MovRm64R64,
        Type::u32 | Type::i32 => Opcode::MovRm32R32,
        Type::u16 | Type::i16 => Opcode::MovRm16R16,
        Type::u8 | Type::i8 => Opcode::MovRm8R8,
        Type::F32 => Opcode::MovssXmmXmmm32,
        Type::F64 => Opcode::MovqXmmXmmm64,
    }
}

/// The form that stores a value of the given kind from a register to memory.
pub open spec fn store_op(typ: Type) -> Opcode {
    match typ {
        Type::u64 | Type::i64 => Opcode::MovRm64R64,
        Type::u32 | Type::i32 => Opcode::MovRm32R32,
        Type::u16 | Type::i16 => Opcode::MovRm16R16,
        Type::u8 | Type::i8 => Opcode::MovRm8R8,
        Type::F32 => Opcode::MovssXmmm32Xmm,
        Type::F64 => Opcode::MovsdXmmm64Xmm,
    }
}

/// The form that moves a value of the given kind from register to register.
pub fn move_opcode(typ: Type) -> (op: Opcode)
    ensures
        op == move_op(typ),
{
    match typ {
        Type::u64 | Type::i64 => Opcode::MovRm64R64,
        Type::u32 | Type::i32 => Opcode::MovRm32R32,
        Type::u16 | Type::i16 => Opcode::MovRm16R16,
        Type::u8 | Type::i8 => Opcode::MovRm8R8,
        Type::F32 => Opcode::MovssXmmXmmm32,
        Type::F64 => Opcode::MovqXmmXmmm64,
    }
}

/// The form that stores a value of the given kind from a register to memory.
pub fn store_opcode(typ: Type) -> (op: Opcode)
    ensures
        op == store_op(typ),
{
    match typ {
        Type::u64 | Type::i64 => Opcode::MovRm64R64,
        Type::u32 | Type::i32 => Opcode::MovRm32R32,
        Type::u16 | Type::i16 => Opcode::MovRm16R16,
        Type::u8 | Type::i8 => Opcode::MovRm8R8,
        Type::F32 => Opcode::MovssXmmm32Xmm,
        Type::F64 => Opcode::MovsdXmmm64Xmm,
    }
}

impl VarGen {
    /// A variable of the given kind that has no place yet.
    pub fn new(typ: Type) -> (var: Self)
        ensures
            var == (VarGen { on_stack: false, in_reg: true, stack_adr: 0, reg: None, typ }),
    {
        Self { on_stack: typ.stack(), in_reg: typ.reg(), stack_adr: 0, reg: None, typ }
    }

    /// A variable of the given kind that lives in `reg`.
    pub fn new_reg(typ: Type, reg: Reg) -> (var: Self)
        ensures
            var == (VarGen { on_stack: false, in_reg: true, stack_adr: 0, reg: Some(reg), typ }),
    {
        Self { on_stack: typ.stack(), in_reg: true, stack_adr: 0, reg: Some(reg), typ }
    }

    /// A variable of the given kind that lives on the stack, `adr` bytes below
    /// where the frame pointer points.
    pub fn new_stack(typ: Type, adr: usize) -> (var: Self)
        ensures
            var == (VarGen { on_stack: true, in_reg: false, stack_adr: adr, reg: None, typ }),
    {
        Self { on_stack: true, in_reg: false, stack_adr: adr, reg: None, typ }
    }

    /// Moves the value of the register `target` into the register of this
    /// variable: one instruction behind `insns`. Fails, and adds nothing, where the
    /// variable has no register.
    pub fn set_reg(&mut self, target: Reg, insns: &mut Vec<Insn>) -> (done: Result<
        (),
        CompileError,
    >)
        ensures
            *final(self) == *old(self),
            match old(self).reg {
                Some(own) => done is Ok && final(insns)@ == old(insns)@.push(
                    Insn { op: move_op(old(self).typ), operands: Operands::RegReg(own, target) },
                ),
                None => done == Err::<(), CompileError>(CompileError::NoRegister)
                    && final(insns)@ == old(insns)@,
            },
    {
        match self.reg {
            Some(own) => {
                insns.push(
                    Insn { op: move_opcode(self.typ), operands: Operands::RegReg(own, target) },
                );
                Ok(())
            },
            None => Err(CompileError::NoRegister),
        }
    }

    /// Moves this variable onto the stack, at `stack_base` bytes below where the
    /// frame pointer points: one store behind `insns`, and the variable lives
    /// there from now on. Gives the base for the next variable and the place of
    /// this one.
    ///
    /// A variable that is on the stack already stays where it is. Fails, and
    /// changes nothing, where the variable has no register, or the next base or
    /// the place cannot be written as a number of the machine.
    pub fn mov_to_stack(&mut self, stack_base: usize, insns: &mut Vec<Insn>) -> (moved: Result<
        (usize, usize),
        CompileError,
    >)
        ensures
            moved == spill_result(*old(self), stack_base),
            moved is Err ==> *final(self) == *old(self) && final(insns)@ == old(insns)@,
            moved is Ok ==> *final(self) == spilled(*old(self), stack_base) && final(insns)@
                == old(insns)@ + spill_code(*old(self), stack_base),
    {
        let size = self.typ.size();
        if stack_base > usize::MAX - 8 || stack_base as u64 > 0x7fff_ffff_ffff_fff7u64 {
            return Err(CompileError::OutOfRange);
        }
        let new_base = stack_base + size;
        if self.on_stack {
            assert(insns@ + Seq::<Insn>::empty() =~= insns@);
            return Ok((new_base, self.stack_adr));
        }
        let own = match self.reg {
            Some(own) => own,
            None => {
                return Err(CompileError::NoRegister);
            },
        };
        self.in_reg = false;
        self.on_stack = true;
        self.stack_adr = stack_base;
        let place = Mem { base: Reg { class: RegClass::Gpr64, index: BP }, disp: -(stack_base as i64) };
        let ghost before = insns@;
        insns.push(Insn { op: store_opcode(self.typ), operands: Operands::MemReg(place, own) });
        assert(insns@ =~= before + spill_code(*old(self), stack_base));
        Ok((new_base, stack_base))
    }

    /// The sum of this variable and `rhs`, as a node to be lowered.
    pub fn add(self, rhs: VarGen) -> (op: BinaryOp)
        ensures
            op == (BinaryOp { kind: BinKind::Add, left: self, right: rhs }),
    {
        BinaryOp { kind: BinKind::Add, left: self, right: rhs }
    }

    /// The difference of this variable and `rhs`, as a node to be lowered.
    pub fn sub(self, rhs: VarGen) -> (op: BinaryOp)
        ensures
            op == (BinaryOp { kind: BinKind::Sub, left: self, right: rhs }),
    {
        BinaryOp { kind: BinKind::Sub, left: self, right: rhs }
    }

    /// The product of this variable and `rhs`, as a node to be lowered.
    pub fn mul(self, rhs: VarGen) -> (op: BinaryOp)
        ensures
            op == (BinaryOp { kind: BinKind::Mul, left: self, right: rhs }),
    {
        BinaryOp { kind: BinKind::Mul, left: self, right: rhs }
    }

    /// The quotient of this variable and `rhs`, as a node to be lowered.
    pub fn div(self, rhs: VarGen) -> (op: BinaryOp)
        ensures
            op == (BinaryOp { kind: BinKind::Div, left: self, right: rhs }),
    {
        BinaryOp { kind: BinKind::Div, left: self, right: rhs }
    }
}

/// The largest base of the stack at which a variable can still be placed: the
/// next base and the displacement of the place must be numbers of the machine.
pub open spec fn max_stack_base() -> int {
    if usize::MAX < i64::MAX {
        usize::MAX - 8
    } else {
        i64::MAX - 8
    }
}

/// What moving `var` onto the stack at `stack_base` gives: the next base and
/// the place of the variable.
pub open spec fn spill_result(var: VarGen, stack_base: usize) -> Result<
    (usize, usize),
    CompileError,
> {
    if stack_base > max_stack_base() {
        Err(CompileError::OutOfRange)
    } else if var.on_stack {
        Ok(((stack_base + var.typ.spec_size()) as usize, var.stack_adr))
    } else if var.reg is None {
        Err(CompileError::NoRegister)
    } else {
        Ok(((stack_base + var.typ.spec_size()) as usize, stack_base))
    }
}

/// The variable after it was moved onto the stack at `stack_base`.
pub open spec fn spilled(var: VarGen, stack_base: usize) -> VarGen {
    if var.on_stack {
        var
    } else {
        VarGen { on_stack: true, in_reg: false, stack_adr: stack_base, ..var }
    }
}

/// The instructions that move `var` onto the stack at `stack_base`.
pub open spec fn spill_code(var: VarGen, stack_base: usize) -> Seq<Insn> {
    if var.on_stack || var.reg is None {
        Seq::empty()
    } else {
        seq![
            Insn {
                op: store_op(var.typ),
                operands: Operands::MemReg(
                    Mem { base: frame_pointer(), disp: (-(stack_base as int)) as i64 },
                    var.reg->0,
                ),
            },
        ]
    }
}

} // verus!
