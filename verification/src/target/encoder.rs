//! The encoder of instructions. The bytes of an instruction are what the
//! assembler of `iced_x86` gives for it; nothing here says what they are.

use vstd::prelude::*;
use iced_x86::code_asm::CodeAssembler;
use iced_x86::{Code, IcedError, Instruction, MemoryOperand, Register};
use crate::target::isa::{Insn, Opcode, Operands, RawOperands};
use crate::target::registers::{Reg, RegClass};

verus! {

/// The error of `iced_x86`. Nothing is known of what it holds.
#[verifier::external_type_specification]
#[verifier::external_body]
pub struct ExIcedError(IcedError);

/// The width in bits of the addresses of the target.
pub const BITNESS: u32 = 64;

/// The address at which each instruction is encoded.
pub const ORIGIN: u64 = 0;

/// The bytes that the assembler of `iced_x86` gives for the one instruction of
/// the form numbered `code` with the operands `operands`, encoded for a machine
/// of `bitness` bits at the address `ip`; nothing, where the assembler fails.
pub uninterp spec fn encoding(code: u16, operands: RawOperands, bitness: u32, ip: u64) -> Option<
    Seq<u8>,
>;

/// Whether `answer` is what `expected` names: the same bytes, or a failure where
/// there are none.
pub open spec fn is_answer(answer: Result<Vec<u8>, IcedError>, expected: Option<Seq<u8>>) -> bool {
    match answer {
        Ok(bytes) => expected == Some(bytes@),
        Err(_) => expected is None,
    }
}

/// Whether `code` is the number of a form of this library that takes `n` operands.
pub open spec fn takes(code: u16, n: nat) -> bool {
    exists|op: Opcode| #[trigger] op.spec_number() == code && op.spec_arity() == n
}

/// Assembles one instruction without operands: `Instruction::with`, then
/// `CodeAssembler::add_instruction` and `CodeAssembler::assemble` on a new
/// assembler. The result is the encoding of that instruction; `code` must be a
/// form without operands.
#[verifier::external_body]
fn assemble_bare(code: u16, bitness: u32, ip: u64) -> (answer: Result<Vec<u8>, IcedError>)
    requires
        takes(code, 0),
    ensures
        is_answer(answer, encoding(code, RawOperands::Bare, bitness, ip)),
{
    let mut assembler = CodeAssembler::new(bitness)?;
    assembler.add_instruction(Instruction::with(Code::try_from(code as usize)?))?;
    assembler.assemble(ip)
}

/// Assembles one instruction on one register: `Instruction::with1`, then
/// `CodeAssembler::add_instruction` and `CodeAssembler::assemble` on a new
/// assembler. The result is the encoding of that instruction; `code` must be a
/// form with one operand.
#[verifier::external_body]
fn assemble_reg(code: u16, reg: u8, bitness: u32, ip: u64) -> (answer: Result<Vec<u8>, IcedError>)
    requires
        takes(code, 1),
    ensures
        is_answer(answer, encoding(code, RawOperands::Reg(reg), bitness, ip)),
{
    let mut assembler = CodeAssembler::new(bitness)?;
    let reg = Register::try_from(reg as usize)?;
    assembler.add_instruction(Instruction::with1(Code::try_from(code as usize)?, reg)?)?;
    assembler.assemble(ip)
}

/// Assembles one instruction on two registers: `Instruction::with2`, then
/// `CodeAssembler::add_instruction` and `CodeAssembler::assemble` on a new
/// assembler. The result is the encoding of that instruction; `code` must be a
/// form with two operands.
#[verifier::external_body]
fn assemble_reg_reg(code: u16, dst: u8, src: u8, bitness: u32, ip: u64) -> (answer: Result<
    Vec<u8>,
    IcedError,
>)
    requires
        takes(code, 2),
    ensures
        is_answer(answer, encoding(code, RawOperands::RegReg(dst, src), bitness, ip)),
{
    let mut assembler = CodeAssembler::new(bitness)?;
    let dst = Register::try_from(dst as usize)?;
    let src = Register::try_from(src as usize)?;
    assembler.add_instruction(Instruction::with2(Code::try_from(code as usize)?, dst, src)?)?;
    assembler.assemble(ip)
}

/// Assembles one instruction on a register and a signed immediate:
/// `Instruction::with2`, then `CodeAssembler::add_instruction` and
/// `CodeAssembler::assemble` on a new assembler. The result is the encoding of
/// that instruction; `code` must be a form with two operands.
#[verifier::external_body]
fn assemble_reg_imm(code: u16, dst: u8, imm: i64, bitness: u32, ip: u64) -> (answer: Result<
    Vec<u8>,
    IcedError,
>)
    requires
        takes(code, 2),
    ensures
        is_answer(answer, encoding(code, RawOperands::RegImm(dst, imm), bitness, ip)),
{
    let mut assembler = CodeAssembler::new(bitness)?;
    let dst = Register::try_from(dst as usize)?;
    assembler.add_instruction(Instruction::with2(Code::try_from(code as usize)?, dst, imm)?)?;
    assembler.assemble(ip)
}

/// Assembles one instruction that reads memory into a register: the place is
/// made by `MemoryOperand::with_base_displ`, the instruction by
/// `Instruction::with2`, then come `CodeAssembler::add_instruction` and
/// `CodeAssembler::assemble` on a new assembler. The result is the encoding of
/// that instruction; `code` must be a form with two operands.
#[verifier::external_body]
fn assemble_reg_mem(code: u16, dst: u8, base: u8, disp: i64, bitness: u32, ip: u64) -> (answer:
    Result<Vec<u8>, IcedError>)
    requires
        takes(code, 2),
    ensures
        is_answer(answer, encoding(code, RawOperands::RegMem(dst, base, disp), bitness, ip)),
{
    let mut assembler = CodeAssembler::new(bitness)?;
    let dst = Register::try_from(dst as usize)?;
    let mem = MemoryOperand::with_base_displ(Register::try_from(base as usize)?, disp);
    assembler.add_instruction(Instruction::with2(Code::try_from(code as usize)?, dst, mem)?)?;
    assembler.assemble(ip)
}

/// Assembles one instruction that writes a register to memory: the place is
/// made by `MemoryOperand::with_base_displ`, the instruction by
/// `Instruction::with2`, then come `CodeAssembler::add_instruction` and
/// `CodeAssembler::assemble` on a new assembler. The result is the encoding of
/// that instruction; `code` must be a form with two operands.
#[verifier::external_body]
fn assemble_mem_reg(code: u16, base: u8, disp: i64, src: u8, bitness: u32, ip: u64) -> (answer:
    Result<Vec<u8>, IcedError>)
    requires
        takes(code, 2),
    ensures
        is_answer(answer, encoding(code, RawOperands::MemReg(base, disp, src), bitness, ip)),
{
    let mut assembler = CodeAssembler::new(bitness)?;
    let src = Register::try_from(src as usize)?;
    let mem = MemoryOperand::with_base_displ(Register::try_from(base as usize)?, disp);
    assembler.add_instruction(Instruction::with2(Code::try_from(code as usize)?, mem, src)?)?;
    assembler.assemble(ip)
}

/// The bytes of `insn`, encoded at the origin; nothing, where the instruction
/// is not well formed or the encoder refuses it.
pub open spec fn machine_code(insn: Insn) -> Option<Seq<u8>> {
    if insn.wf() {
        encoding(insn.op.spec_number(), insn.operands.raw(), BITNESS, ORIGIN)
    } else {
        None
    }
}

/// The bytes of the instructions `insns`, one after another; nothing, where one
/// of them has none.
pub open spec fn machine_code_of(insns: Seq<Insn>) -> Option<Seq<u8>>
    decreases insns.len(),
{
    if insns.len() == 0 {
        Some(Seq::empty())
    } else {
        match (machine_code_of(insns.drop_last()), machine_code(insns.last())) {
            (Some(front), Some(last)) => Some(front + last),
            _ => None,
        }
    }
}

/// The first of `insns` that has no bytes.
pub open spec fn first_rejected(insns: Seq<Insn>) -> Option<Insn>
    decreases insns.len(),
{
    if insns.len() == 0 {
        None
    } else {
        match first_rejected(insns.drop_last()) {
            Some(insn) => Some(insn),
            None => if machine_code(insns.last()) is None {
                Some(insns.last())
            } else {
                None
            },
        }
    }
}

/// Whether there is a register of this class with this index.
fn reg_exists(reg: Reg) -> (yes: bool)
    ensures
        yes == reg.wf(),
{
    reg.index < 16 && (reg.index == 0 || match reg.class {
        RegClass::Ip => false,
        _ => true,
    })
}

/// Whether the instruction has as many operands as its form takes, and each
/// register among them exists.
pub fn well_formed(insn: &Insn) -> (yes: bool)
    ensures
        yes == insn.wf(),
{
    match insn.operands {
        Operands::Bare => insn.op.arity() == 0,
        Operands::Reg(a) => insn.op.arity() == 1 && reg_exists(a),
        Operands::RegReg(a, b) => insn.op.arity() == 2 && reg_exists(a) && reg_exists(b),
        Operands::RegImm(a, _) => insn.op.arity() == 2 && reg_exists(a),
        Operands::RegMem(a, mem) => insn.op.arity() == 2 && reg_exists(a) && reg_exists(mem.base),
        Operands::MemReg(mem, b) => insn.op.arity() == 2 && reg_exists(mem.base) && reg_exists(b),
    }
}

/// Encodes one instruction at the origin. Fails where the instruction is not
/// well formed or the encoder refuses it.
pub fn encode(insn: &Insn) -> (bytes: Option<Vec<u8>>)
    ensures
        match bytes {
            Some(bytes) => machine_code(*insn) == Some(bytes@),
            None => machine_code(*insn) is None,
        },
{
    if !well_formed(insn) {
        return None;
    }
    let code = insn.op.number();
    let answer = match insn.operands {
        Operands::Bare => assemble_bare(code, BITNESS, ORIGIN),
        Operands::Reg(a) => assemble_reg(code, a.number(), BITNESS, ORIGIN),
        Operands::RegReg(a, b) => assemble_reg_reg(code, a.number(), b.number(), BITNESS, ORIGIN),
        Operands::RegImm(a, imm) => assemble_reg_imm(code, a.number(), imm, BITNESS, ORIGIN),
        Operands::RegMem(a, mem) => assemble_reg_mem(
            code,
            a.number(),
            mem.base.number(),
            mem.disp,
            BITNESS,
            ORIGIN,
        ),
        Operands::MemReg(mem, b) => assemble_mem_reg(
            code,
            mem.base.number(),
            mem.disp,
            b.number(),
            BITNESS,
            ORIGIN,
        ),
    };
    match answer {
        Ok(bytes) => Some(bytes),
        Err(_) => None,
    }
}

/// Encodes `insns`, one after another, each at the origin. Fails with the first
/// instruction that cannot be encoded.
pub fn encode_all(insns: &Vec<Insn>) -> (bytes: Result<Vec<u8>, Insn>)
    ensures
        match bytes {
            Ok(code) => machine_code_of(insns@) == Some(code@) && first_rejected(insns@) is None,
            Err(insn) => machine_code_of(insns@) is None && first_rejected(insns@) == Some(insn),
        },
{
    let n = insns.len();
    let mut code: Vec<u8> = Vec::new();
    let mut i: usize = 0;
    while i < n
        invariant
            i <= n == insns.len(),
            machine_code_of(insns@.take(i as int)) == Some(code@),
            first_rejected(insns@.take(i as int)) is None,
        decreases n - i,
    {
        proof {
            assert(insns@.take(i + 1).drop_last() =~= insns@.take(i as int));
        }
        match encode(&insns[i]) {
            Some(bytes) => {
                let mut bytes = bytes;
                code.append(&mut bytes);
            },
            None => {
                proof {
                    assert(first_rejected(insns@.take(i + 1)) == Some(insns@[i as int]));
                    lemma_rejected_stays(insns@, i + 1, n as int);
                    assert(insns@.take(n as int) =~= insns@);
                }
                return Err(insns[i]);
            },
        }
        i += 1;
    }
    assert(insns@.take(n as int) =~= insns@);
    Ok(code)
}

/// Once an instruction is rejected, the code of the whole is, and the first
/// rejected instruction stays the first.
proof fn lemma_rejected_stays(insns: Seq<Insn>, k: int, n: int)
    requires
        0 <= k <= n <= insns.len(),
        first_rejected(insns.take(k)) is Some,
    ensures
        first_rejected(insns.take(n)) == first_rejected(insns.take(k)),
        machine_code_of(insns.take(n)) is None,
    decreases n,
{
    if n > k {
        lemma_rejected_stays(insns, k, n - 1);
        assert(insns.take(n).drop_last() =~= insns.take(n - 1));
    } else {
        lemma_rejected_has_no_code(insns.take(k));
    }
}

/// Where an instruction is rejected, the whole has no code.
proof fn lemma_rejected_has_no_code(insns: Seq<Insn>)
    requires
        first_rejected(insns) is Some,
    ensures
        machine_code_of(insns) is None,
    decreases insns.len(),
{
    if insns.len() > 0 && first_rejected(insns.drop_last()) is Some {
        lemma_rejected_has_no_code(insns.drop_last());
    }
}

} // verus!
