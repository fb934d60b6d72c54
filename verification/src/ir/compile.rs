//! Lowering: from nodes to instructions.

use vstd::prelude::*;
use vstd::string::StringExecFns;
use crate::contxt::link::bytes::{displacement_bytes, le_bytes};
use crate::ir::node::{BinKind, BinaryOp, Node, Operand};
use crate::ir::types::Type;
use crate::target::call_conv::{ret_reg, TargetCallConv};
use crate::target::isa::{Insn, Mem, Opcode, Operands};
use crate::target::registers::{Reg, RegClass};

verus! {

/// Why a function cannot be compiled.
#[derive(Debug, Clone, Copy, PartialEq, Eq, Structural)]
pub enum CompileError {
    /// The encoder refused this instruction.
    Unencodable(Insn),
    /// There is no instruction of two registers for this arithmetic on
    /// registers of this class.
    Unsupported(BinKind, RegClass),
    /// A variable that has no register was to be read or written in one.
    NoRegister,
    /// A variable on the stack was to be returned.
    OnStack,
    /// A frame was asked for in a function that holds a return without it.
    LateFrame,
    /// An offset, an address or a count is more than the machine can write.
    OutOfRange,
}

impl CompileError {
    /// The message for this error.
    pub open spec fn spec_message(self) -> Seq<char> {
        match self {
            CompileError::Unencodable(_) => "instruction cannot be encoded"@,
            CompileError::Unsupported(_, _) => "no instruction for this arithmetic"@,
            CompileError::NoRegister => "variable has no register"@,
            CompileError::OnStack => "variable on the stack cannot be returned"@,
            CompileError::LateFrame => "frame asked for behind a return"@,
            CompileError::OutOfRange => "offset out of range"@,
        }
    }

    /// The message for this error.
    pub fn message(&self) -> (text: String)
        ensures
            text@ == self.spec_message(),
    {
        match self {
            CompileError::Unencodable(_) => String::from_str("instruction cannot be encoded"),
            CompileError::Unsupported(_, _) => String::from_str(
                "no instruction for this arithmetic",
            ),
            CompileError::NoRegister => String::from_str("variable has no register"),
            CompileError::OnStack => String::from_str("variable on the stack cannot be returned"),
            CompileError::LateFrame => String::from_str("frame asked for behind a return"),
            CompileError::OutOfRange => String::from_str("offset out of range"),
        }
    }
}

/// The length of the load of a double word relative to the instruction pointer:
/// as its address, it makes the load's field zero.
pub const LOAD32_LEN: i64 = 8;

/// The length of the load of a quad word relative to the instruction pointer.
pub const LOAD64_LEN: i64 = 9;

/// How far before the end of a load its field starts.
pub const FIELD_BACK: usize = 4;

/// The width of the relocation of a load's field: the field's four bytes, of
/// which the linker writes the low three.
pub const FIELD_SIZE: usize = 4;

/// What a node lowers to: instructions, whether the function needs a frame, and
/// a constant, if the node brings one. The last four bytes of the first
/// instruction are then the field that refers to the constant.
#[derive(Debug, Clone, PartialEq, Eq)]
pub struct Lowering {
    pub insns: Vec<Insn>,
    pub frame: bool,
    pub constant: Option<Vec<u8>>,
}

/// A lowering as plain values.
pub struct LoweringView {
    pub insns: Seq<Insn>,
    pub frame: bool,
    pub constant: Option<Seq<u8>>,
}

impl View for Lowering {
    type V = LoweringView;

    open spec fn view(&self) -> LoweringView {
        LoweringView {
            insns: self.insns@,
            frame: self.frame,
            constant: match self.constant {
                Some(bytes) => Some(bytes@),
                None => None,
            },
        }
    }
}

/// The form for arithmetic of the kind `kind` between two registers of the
/// class `class` that hold values of the kind `typ`, if there is one: there is
/// none to divide integers, and none to multiply bytes.
pub open spec fn arith_op(kind: BinKind, class: RegClass, typ: Type) -> Option<Opcode> {
    match (kind, class) {
        (BinKind::Add, RegClass::Gpr64) => Some(Opcode::AddRm64R64),
        (BinKind::Add, RegClass::Gpr32) => Some(Opcode::AddRm32R32),
        (BinKind::Add, RegClass::Gpr16) => Some(Opcode::AddRm16R16),
        (BinKind::Add, RegClass::Gpr8) => Some(Opcode::AddRm8R8),
        (BinKind::Sub, RegClass::Gpr64) => Some(Opcode::SubRm64R64),
        (BinKind::Sub, RegClass::Gpr32) => Some(Opcode::SubRm32R32),
        (BinKind::Sub, RegClass::Gpr16) => Some(Opcode::SubRm16R16),
        (BinKind::Sub, RegClass::Gpr8) => Some(Opcode::SubRm8R8),
        (BinKind::Mul, RegClass::Gpr64) => Some(Opcode::ImulR64Rm64),
        (BinKind::Mul, RegClass::Gpr32) => Some(Opcode::ImulR32Rm32),
        (BinKind::Mul, RegClass::Gpr16) => Some(Opcode::ImulR16Rm16),
        (BinKind::Add, RegClass::Xmm) => Some(
            if typ == Type::F64 {
                Opcode::AddsdXmmXmmm64
            } else {
                Opcode::AddssXmmXmmm32
            },
        ),
        (BinKind::Sub, RegClass::Xmm) => Some(
            if typ == Type::F64 {
                Opcode::SubsdXmmXmmm64
            } else {
                Opcode::SubssXmmXmmm32
            },
        ),
        (BinKind::Mul, RegClass::Xmm) => Some(
            if typ == Type::F64 {
                Opcode::MulsdXmmXmmm64
            } else {
                Opcode::MulssXmmXmmm32
            },
        ),
        (BinKind::Div, RegClass::Xmm) => Some(
            if typ == Type::F64 {
                Opcode::DivsdXmmXmmm64
            } else {
                Opcode::DivssXmmXmmm32
            },
        ),
        _ => None,
    }
}

/// The form that moves a register of the class `class` that holds a value of the
/// kind `typ` to another of that class, if there is one.
pub open spec fn class_move(class: RegClass, typ: Type) -> Option<Opcode> {
    match class {
        RegClass::Gpr64 => Some(Opcode::MovRm64R64),
        RegClass::Gpr32 => Some(Opcode::MovRm32R32),
        RegClass::Gpr16 => Some(Opcode::MovRm16R16),
        RegClass::Gpr8 => Some(Opcode::MovRm8R8),
        RegClass::Xmm => Some(
            if typ == Type::F64 {
                Opcode::MovqXmmXmmm64
            } else {
                Opcode::MovssXmmXmmm32
            },
        ),
        RegClass::Ip => None,
    }
}

/// What binary arithmetic lowers to. Between two variables in registers it is
/// the one instruction of the class of the left register, from the right
/// register into the left. Where one of the variables is on the stack, the
/// function needs a frame.
pub open spec fn lowered_binary(op: BinaryOp) -> Result<LoweringView, CompileError> {
    let frame = op.left.on_stack || op.right.on_stack;
    if op.left.in_reg && op.right.in_reg {
        match (op.left.reg, op.right.reg) {
            (Some(left), Some(right)) => match arith_op(op.kind, left.class, op.left.typ) {
                Some(code) => Ok(
                    LoweringView {
                        insns: seq![Insn { op: code, operands: Operands::RegReg(left, right) }],
                        frame,
                        constant: None,
                    },
                ),
                None => Err(CompileError::Unsupported(op.kind, left.class)),
            },
            _ => Err(CompileError::NoRegister),
        }
    } else {
        Ok(LoweringView { insns: Seq::empty(), frame, constant: None })
    }
}

/// The move of a result from `from` to where results of its class go: nothing,
/// where it is there already, or there is no register to move from.
pub open spec fn result_move(from: Option<Reg>, typ: Type) -> Seq<Insn> {
    match from {
        Some(reg) => match class_move(reg.class, typ) {
            Some(code) => if reg == ret_reg(reg.class) {
                Seq::empty()
            } else {
                seq![Insn { op: code, operands: Operands::RegReg(ret_reg(reg.class), reg) }]
            },
            None => Seq::empty(),
        },
        None => Seq::empty(),
    }
}

/// The return instruction.
pub open spec fn ret_insn() -> Insn {
    Insn { op: Opcode::Retnq, operands: Operands::Bare }
}

/// The load of a constant into the register for floating-point results, of a
/// quad word if `wide`, else of a double word: relative to the instruction
/// pointer, with a field of zero.
pub open spec fn constant_load(wide: bool) -> Insn {
    Insn {
        op: if wide {
            Opcode::MovqXmmRm64
        } else {
            Opcode::MovdXmmRm32
        },
        operands: Operands::RegMem(
            ret_reg(RegClass::Xmm),
            Mem {
                base: Reg { class: RegClass::Ip, index: 0 },
                disp: if wide {
                    LOAD64_LEN
                } else {
                    LOAD32_LEN
                },
            },
        ),
    }
}

/// What a return lowers to: the operand is put where results of its kind go,
/// then comes the return instruction. A whole number is moved in as an
/// immediate; a floating-point number is loaded from a constant of its bits,
/// least significant byte first; a variable or the result of arithmetic is
/// moved over from its register, unless it is there already.
pub open spec fn lowered_return(operand: Operand) -> Result<LoweringView, CompileError> {
    match operand {
        Operand::Int32(value) => Ok(
            LoweringView {
                insns: seq![
                    Insn {
                        op: Opcode::MovR32Imm32,
                        operands: Operands::RegImm(ret_reg(RegClass::Gpr32), value as i64),
                    },
                    ret_insn(),
                ],
                frame: false,
                constant: None,
            },
        ),
        Operand::Int64(value) => Ok(
            LoweringView {
                insns: seq![
                    Insn {
                        op: Opcode::MovR64Imm64,
                        operands: Operands::RegImm(ret_reg(RegClass::Gpr64), value),
                    },
                    ret_insn(),
                ],
                frame: false,
                constant: None,
            },
        ),
        Operand::Float32(bits) => Ok(
            LoweringView {
                insns: seq![constant_load(false), ret_insn()],
                frame: false,
                constant: Some(le_bytes(bits as int, 4)),
            },
        ),
        Operand::Float64(bits) => Ok(
            LoweringView {
                insns: seq![constant_load(true), ret_insn()],
                frame: false,
                constant: Some(le_bytes(bits as int, 8)),
            },
        ),
        Operand::Var(var) => if var.on_stack && !var.in_reg {
            Err(CompileError::OnStack)
        } else {
            Ok(
                LoweringView {
                    insns: result_move(var.reg, var.typ).push(ret_insn()),
                    frame: false,
                    constant: None,
                },
            )
        },
        Operand::Op(op) => match lowered_binary(op) {
            Err(e) => Err(e),
            Ok(inner) => Ok(
                LoweringView {
                    insns: inner.insns + result_move(op.left.reg, op.left.typ).push(ret_insn()),
                    frame: inner.frame,
                    constant: None,
                },
            ),
        },
    }
}

/// What a node lowers to.
pub open spec fn lowered(node: Node) -> Result<LoweringView, CompileError> {
    match node {
        Node::Return(operand) => lowered_return(operand),
        Node::BinaryOp(op) => lowered_binary(op),
    }
}

/// The form for arithmetic of the kind `kind` between two registers of the
/// class `class` that hold values of the kind `typ`, if there is one.
fn arith_opcode(kind: BinKind, class: RegClass, typ: Type) -> (code: Option<Opcode>)
    ensures
        code == arith_op(kind, class, typ),
{
    let wide = match typ {
        Type::F64 => true,
        _ => false,
    };
    match (kind, class) {
        (BinKind::Add, RegClass::Gpr64) => Some(Opcode::AddRm64R64),
        (BinKind::Add, RegClass::Gpr32) => Some(Opcode::AddRm32R32),
        (BinKind::Add, RegClass::Gpr16) => Some(Opcode::AddRm16R16),
        (BinKind::Add, RegClass::Gpr8) => Some(Opcode::AddRm8R8),
        (BinKind::Sub, RegClass::Gpr64) => Some(Opcode::SubRm64R64),
        (BinKind::Sub, RegClass::Gpr32) => Some(Opcode::SubRm32R32),
        (BinKind::Sub, RegClass::Gpr16) => Some(Opcode::SubRm16R16),
        (BinKind::Sub, RegClass::Gpr8) => Some(Opcode::SubRm8R8),
        (BinKind::Mul, RegClass::Gpr64) => Some(Opcode::ImulR64Rm64),
        (BinKind::Mul, RegClass::Gpr32) => Some(Opcode::ImulR32Rm32),
        (BinKind::Mul, RegClass::Gpr16) => Some(Opcode::ImulR16Rm16),
        (BinKind::Add, RegClass::Xmm) => Some(
            if wide {
                Opcode::AddsdXmmXmmm64
            } else {
                Opcode::AddssXmmXmmm32
            },
        ),
        (BinKind::Sub, RegClass::Xmm) => Some(
            if wide {
                Opcode::SubsdXmmXmmm64
            } else {
                Opcode::SubssXmmXmmm32
            },
        ),
        (BinKind::Mul, RegClass::Xmm) => Some(
            if wide {
                Opcode::MulsdXmmXmmm64
            } else {
                Opcode::MulssXmmXmmm32
            },
        ),
        (BinKind::Div, RegClass::Xmm) => Some(
            if wide {
                Opcode::DivsdXmmXmmm64
            } else {
                Opcode::DivssXmmXmmm32
            },
        ),
        _ => None,
    }
}

/// The form that moves a register of the class `class` that holds a value of the
/// kind `typ` to another of that class, if there is one.
fn class_move_opcode(class: RegClass, typ: Type) -> (code: Option<Opcode>)
    ensures
        code == class_move(class, typ),
{
    match class {
        RegClass::Gpr64 => Some(Opcode::MovRm64R64),
        RegClass::Gpr32 => Some(Opcode::MovRm32R32),
        RegClass::Gpr16 => Some(Opcode::MovRm16R16),
        RegClass::Gpr8 => Some(Opcode::MovRm8R8),
        RegClass::Xmm => Some(
            match typ {
                Type::F64 => Opcode::MovqXmmXmmm64,
                _ => Opcode::MovssXmmXmmm32,
            },
        ),
        RegClass::Ip => None,
    }
}

/// Adds the move of a result from `from` to where results go behind `insns`.
fn push_result_move(insns: &mut Vec<Insn>, call: &TargetCallConv, from: Option<Reg>, typ: Type)
    ensures
        final(insns)@ == old(insns)@ + result_move(from, typ),
{
    let ghost before = insns@;
    match from {
        Some(reg) => match class_move_opcode(reg.class, typ) {
            Some(code) => {
                let home = call.ret(reg.class);
                if !(reg == home) {
                    insns.push(Insn { op: code, operands: Operands::RegReg(home, reg) });
                }
            },
            None => {},
        },
        None => {},
    }
    assert(insns@ =~= before + result_move(from, typ));
}

impl BinaryOp {
    /// Lowers this arithmetic.
    pub fn lower(&self) -> (plan: Result<Lowering, CompileError>)
        ensures
            match plan {
                Ok(lowering) => lowered_binary(*self) == Ok::<LoweringView, CompileError>(
                    lowering@,
                ),
                Err(e) => lowered_binary(*self) == Err::<LoweringView, CompileError>(e),
            },
    {
        let frame = self.left.on_stack || self.right.on_stack;
        if self.left.in_reg && self.right.in_reg {
            match (self.left.reg, self.right.reg) {
                (Some(left), Some(right)) => match arith_opcode(
                    self.kind,
                    left.class,
                    self.left.typ,
                ) {
                    Some(code) => {
                        let mut insns: Vec<Insn> = Vec::new();
                        insns.push(Insn { op: code, operands: Operands::RegReg(left, right) });
                        assert(insns@ =~= seq![
                            Insn { op: code, operands: Operands::RegReg(left, right) },
                        ]);
                        Ok(Lowering { insns, frame, constant: None })
                    },
                    None => Err(CompileError::Unsupported(self.kind, left.class)),
                },
                _ => Err(CompileError::NoRegister),
            }
        } else {
            Ok(Lowering { insns: Vec::new(), frame, constant: None })
        }
    }

    /// The register in which the result is left: that of the left operand.
    pub fn out_reg(&self) -> (reg: Option<Reg>)
        ensures
            reg == self.left.reg,
    {
        self.left.reg
    }
}

impl Node {
    /// A node that returns `operand`.
    pub fn ret(operand: Operand) -> (node: Self)
        ensures
            node == Node::Return(operand),
    {
        Node::Return(operand)
    }

    /// Lowers this node under the calling convention `call`.
    pub fn lower(&self, call: &TargetCallConv) -> (plan: Result<Lowering, CompileError>)
        ensures
            match plan {
                Ok(lowering) => lowered(*self) == Ok::<LoweringView, CompileError>(lowering@),
                Err(e) => lowered(*self) == Err::<LoweringView, CompileError>(e),
            },
    {
        let ret = Insn { op: Opcode::Retnq, operands: Operands::Bare };
        match self {
            Node::BinaryOp(op) => op.lower(),
            Node::Return(Operand::Int32(value)) => {
                let mut insns: Vec<Insn> = Vec::new();
                insns.push(
                    Insn {
                        op: Opcode::MovR32Imm32,
                        operands: Operands::RegImm(call.ret32(), *value as i64),
                    },
                );
                insns.push(ret);
                assert(insns@ =~= lowered(*self)->Ok_0.insns);
                Ok(Lowering { insns, frame: false, constant: None })
            },
            Node::Return(Operand::Int64(value)) => {
                let mut insns: Vec<Insn> = Vec::new();
                insns.push(
                    Insn {
                        op: Opcode::MovR64Imm64,
                        operands: Operands::RegImm(call.ret64(), *value),
                    },
                );
                insns.push(ret);
                assert(insns@ =~= lowered(*self)->Ok_0.insns);
                Ok(Lowering { insns, frame: false, constant: None })
            },
            Node::Return(Operand::Float32(bits)) => {
                let mut insns: Vec<Insn> = Vec::new();
                insns.push(
                    Insn {
                        op: Opcode::MovdXmmRm32,
                        operands: Operands::RegMem(
                            call.retf(),
                            Mem { base: Reg { class: RegClass::Ip, index: 0 }, disp: LOAD32_LEN },
                        ),
                    },
                );
                insns.push(ret);
                assert(insns@ =~= lowered(*self)->Ok_0.insns);
                let constant = displacement_bytes(*bits as i128, 4);
                Ok(Lowering { insns, frame: false, constant: Some(constant) })
            },
            Node::Return(Operand::Float64(bits)) => {
                let mut insns: Vec<Insn> = Vec::new();
                insns.push(
                    Insn {
                        op: Opcode::MovqXmmRm64,
                        operands: Operands::RegMem(
                            call.retf(),
                            Mem { base: Reg { class: RegClass::Ip, index: 0 }, disp: LOAD64_LEN },
                        ),
                    },
                );
                insns.push(ret);
                assert(insns@ =~= lowered(*self)->Ok_0.insns);
                let constant = displacement_bytes(*bits as i128, 8);
                Ok(Lowering { insns, frame: false, constant: Some(constant) })
            },
            Node::Return(Operand::Var(var)) => {
                if var.on_stack && !var.in_reg {
                    return Err(CompileError::OnStack);
                }
                let mut insns: Vec<Insn> = Vec::new();
                push_result_move(&mut insns, call, var.reg, var.typ);
                insns.push(ret);
                assert(insns@ =~= lowered(*self)->Ok_0.insns);
                Ok(Lowering { insns, frame: false, constant: None })
            },
            Node::Return(Operand::Op(op)) => match op.lower() {
                Err(e) => Err(e),
                Ok(inner) => {
                    let mut insns = inner.insns;
                    push_result_move(&mut insns, call, op.left.reg, op.left.typ);
                    insns.push(ret);
                    assert(insns@ =~= lowered(*self)->Ok_0.insns);
                    Ok(Lowering { insns, frame: inner.frame, constant: None })
                },
            },
        }
    }
}

} // verus!
