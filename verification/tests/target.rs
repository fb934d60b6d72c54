use rllvm::ir::types::Type;
use rllvm::target::call_conv::{class_of_arg, class_of_ret, CallConv, TargetCallConv};
use rllvm::target::encoder::{encode, encode_all, well_formed};
use rllvm::target::isa::{Insn, Mem, Opcode, Operands};
use rllvm::target::registers::{Reg, RegClass, AX, BP, BX, CX, DI, DX, R8, R9, SI, SP};

fn reg(class: RegClass, index: u8) -> Reg {
    Reg { class, index }
}

#[test]
fn registers_have_the_numbers_of_the_encoder() {
    let names16 = ["AX", "CX", "DX", "BX", "SP", "BP", "SI", "DI"];
    let names8 = ["AL", "CL", "DL", "BL", "SPL", "BPL", "SIL", "DIL"];
    for index in 0..16u8 {
        let (n8, n16, n32, n64) = if index < 8 {
            let n = names16[index as usize];
            (names8[index as usize].to_string(), n.to_string(), format!("E{}", n), format!("R{}", n))
        } else {
            (format!("R{}L", index), format!("R{}W", index), format!("R{}D", index), format!("R{}", index))
        };
        let named = |class: RegClass| {
            let number = reg(class, index).number();
            format!("{:?}", iced_x86::Register::try_from(number as usize).unwrap())
        };
        assert_eq!(named(RegClass::Gpr8), n8);
        assert_eq!(named(RegClass::Gpr16), n16);
        assert_eq!(named(RegClass::Gpr32), n32);
        assert_eq!(named(RegClass::Gpr64), n64);
        assert_eq!(named(RegClass::Xmm), format!("XMM{}", index));
    }
    let rip = reg(RegClass::Ip, 0).number();
    assert_eq!(iced_x86::Register::try_from(rip as usize).unwrap(), iced_x86::Register::RIP);
    assert_eq!([AX, CX, DX, BX, SP, BP, SI, DI, R8, R9], [0, 1, 2, 3, 4, 5, 6, 7, 8, 9]);
}

#[test]
fn forms_have_the_numbers_of_the_encoder() {
    let forms = [
        (Opcode::AddRm8R8, "Add_rm8_r8", 2),
        (Opcode::AddRm16R16, "Add_rm16_r16", 2),
        (Opcode::AddRm32R32, "Add_rm32_r32", 2),
        (Opcode::AddRm64R64, "Add_rm64_r64", 2),
        (Opcode::SubRm8R8, "Sub_rm8_r8", 2),
        (Opcode::SubRm16R16, "Sub_rm16_r16", 2),
        (Opcode::SubRm32R32, "Sub_rm32_r32", 2),
        (Opcode::SubRm64R64, "Sub_rm64_r64", 2),
        (Opcode::ImulR16Rm16, "Imul_r16_rm16", 2),
        (Opcode::ImulR32Rm32, "Imul_r32_rm32", 2),
        (Opcode::ImulR64Rm64, "Imul_r64_rm64", 2),
        (Opcode::AddssXmmXmmm32, "Addss_xmm_xmmm32", 2),
        (Opcode::AddsdXmmXmmm64, "Addsd_xmm_xmmm64", 2),
        (Opcode::SubssXmmXmmm32, "Subss_xmm_xmmm32", 2),
        (Opcode::SubsdXmmXmmm64, "Subsd_xmm_xmmm64", 2),
        (Opcode::MulssXmmXmmm32, "Mulss_xmm_xmmm32", 2),
        (Opcode::MulsdXmmXmmm64, "Mulsd_xmm_xmmm64", 2),
        (Opcode::DivssXmmXmmm32, "Divss_xmm_xmmm32", 2),
        (Opcode::DivsdXmmXmmm64, "Divsd_xmm_xmmm64", 2),
        (Opcode::MovRm8R8, "Mov_rm8_r8", 2),
        (Opcode::MovRm16R16, "Mov_rm16_r16", 2),
        (Opcode::MovRm32R32, "Mov_rm32_r32", 2),
        (Opcode::MovRm64R64, "Mov_rm64_r64", 2),
        (Opcode::MovssXmmXmmm32, "Movss_xmm_xmmm32", 2),
        (Opcode::MovssXmmm32Xmm, "Movss_xmmm32_xmm", 2),
        (Opcode::MovsdXmmm64Xmm, "Movsd_xmmm64_xmm", 2),
        (Opcode::MovqXmmXmmm64, "Movq_xmm_xmmm64", 2),
        (Opcode::MovdXmmRm32, "Movd_xmm_rm32", 2),
        (Opcode::MovqXmmRm64, "Movq_xmm_rm64", 2),
        (Opcode::MovR32Imm32, "Mov_r32_imm32", 2),
        (Opcode::MovR64Imm64, "Mov_r64_imm64", 2),
        (Opcode::PushR64, "Push_r64", 1),
        (Opcode::PopR64, "Pop_r64", 1),
        (Opcode::AddRm64Imm8, "Add_rm64_imm8", 2),
        (Opcode::AddRm64Imm32, "Add_rm64_imm32", 2),
        (Opcode::SubRm64Imm8, "Sub_rm64_imm8", 2),
        (Opcode::SubRm64Imm32, "Sub_rm64_imm32", 2),
        (Opcode::Retnq, "Retnq", 0),
        (Opcode::Endbr64, "Endbr64", 0),
    ];
    for (form, name, arity) in forms {
        let code = iced_x86::Code::try_from(form.number() as usize).unwrap();
        assert_eq!(format!("{:?}", code), name);
        assert_eq!(form.arity(), arity);
        let mut instruction = iced_x86::Instruction::default();
        instruction.set_code(code);
        assert_eq!(instruction.op_count() as usize, arity);
    }
}

#[test]
fn each_shape_of_operands_is_encoded() {
    let rax = reg(RegClass::Gpr64, AX);
    let rbp = reg(RegClass::Gpr64, BP);
    let rsp = reg(RegClass::Gpr64, SP);
    let eax = reg(RegClass::Gpr32, AX);
    let edi = reg(RegClass::Gpr32, DI);
    let xmm0 = reg(RegClass::Xmm, 0);
    let rip = reg(RegClass::Ip, 0);
    let code = |op, operands| encode(&Insn { op, operands });

    assert_eq!(code(Opcode::Retnq, Operands::Bare), Some(vec![0xc3]));
    assert_eq!(code(Opcode::Endbr64, Operands::Bare), Some(vec![0xf3, 0x0f, 0x1e, 0xfa]));
    assert_eq!(code(Opcode::PushR64, Operands::Reg(rbp)), Some(vec![0x55]));
    assert_eq!(code(Opcode::PopR64, Operands::Reg(rbp)), Some(vec![0x5d]));
    assert_eq!(code(Opcode::MovRm64R64, Operands::RegReg(rbp, rsp)), Some(vec![0x48, 0x89, 0xe5]));
    assert_eq!(code(Opcode::MovRm32R32, Operands::RegReg(eax, edi)), Some(vec![0x89, 0xf8]));
    assert_eq!(
        code(Opcode::MovR32Imm32, Operands::RegImm(eax, 5)),
        Some(vec![0xb8, 5, 0, 0, 0])
    );
    assert_eq!(
        code(Opcode::MovR64Imm64, Operands::RegImm(rax, 0x0102_0304_0506_0708)),
        Some(vec![0x48, 0xb8, 8, 7, 6, 5, 4, 3, 2, 1])
    );
    assert_eq!(
        code(Opcode::SubRm64Imm8, Operands::RegImm(rsp, 32)),
        Some(vec![0x48, 0x83, 0xec, 0x20])
    );
    assert_eq!(
        code(Opcode::AddRm64Imm32, Operands::RegImm(rsp, 0x1000)),
        Some(vec![0x48, 0x81, 0xc4, 0, 0x10, 0, 0])
    );
    // A load relative to the instruction pointer, with its own length as the
    // address: the field is zero.
    assert_eq!(
        code(Opcode::MovdXmmRm32, Operands::RegMem(xmm0, Mem { base: rip, disp: 8 })),
        Some(vec![0x66, 0x0f, 0x6e, 0x05, 0, 0, 0, 0])
    );
    assert_eq!(
        code(Opcode::MovqXmmRm64, Operands::RegMem(xmm0, Mem { base: rip, disp: 9 })),
        Some(vec![0x66, 0x48, 0x0f, 0x6e, 0x05, 0, 0, 0, 0])
    );
    // mov [rbp - 8], eax
    assert_eq!(
        code(Opcode::MovRm32R32, Operands::MemReg(Mem { base: rbp, disp: -8 }, eax)),
        Some(vec![0x89, 0x45, 0xf8])
    );
    // movsd [rbp - 16], xmm0
    assert_eq!(
        code(Opcode::MovsdXmmm64Xmm, Operands::MemReg(Mem { base: rbp, disp: -16 }, xmm0)),
        Some(vec![0xf2, 0x0f, 0x11, 0x45, 0xf0])
    );
}

#[test]
fn instructions_that_cannot_be_encoded() {
    let eax = reg(RegClass::Gpr32, AX);
    let rax = reg(RegClass::Gpr64, AX);
    // Too few and too many operands.
    let few = Insn { op: Opcode::AddRm32R32, operands: Operands::Reg(eax) };
    let many = Insn { op: Opcode::Retnq, operands: Operands::Reg(eax) };
    assert!(!well_formed(&few));
    assert!(!well_formed(&many));
    assert_eq!(encode(&few), None);
    assert_eq!(encode(&many), None);
    // No such register.
    let ghost = Insn { op: Opcode::PushR64, operands: Operands::Reg(reg(RegClass::Gpr64, 16)) };
    assert!(!well_formed(&ghost));
    assert_eq!(encode(&ghost), None);
    let ghost = Insn { op: Opcode::PushR64, operands: Operands::Reg(reg(RegClass::Ip, 1)) };
    assert!(!well_formed(&ghost));
    // Registers of the wrong width: well formed, and refused by the encoder.
    let wide = Insn { op: Opcode::AddRm32R32, operands: Operands::RegReg(rax, eax) };
    assert!(well_formed(&wide));
    assert_eq!(encode(&wide), None);
    // An immediate that does not fit.
    let big = Insn { op: Opcode::SubRm64Imm8, operands: Operands::RegImm(rax, 1000) };
    assert!(well_formed(&big));
    assert_eq!(encode(&big), None);
}

#[test]
fn encoding_of_a_sequence() {
    let eax = reg(RegClass::Gpr32, AX);
    let rax = reg(RegClass::Gpr64, AX);
    let ret = Insn { op: Opcode::Retnq, operands: Operands::Bare };
    let load = Insn { op: Opcode::MovR32Imm32, operands: Operands::RegImm(eax, 5) };
    let wrong = Insn { op: Opcode::AddRm32R32, operands: Operands::RegReg(rax, eax) };
    let other = Insn { op: Opcode::SubRm64Imm8, operands: Operands::RegImm(rax, 1000) };
    assert_eq!(encode_all(&vec![]), Ok(vec![]));
    assert_eq!(encode_all(&vec![load, ret]), Ok(vec![0xb8, 5, 0, 0, 0, 0xc3]));
    assert_eq!(encode_all(&vec![load, wrong, other, ret]), Err(wrong));
    assert_eq!(encode_all(&vec![other, wrong]), Err(other));
}

#[test]
fn argument_registers_of_system_v() {
    let call = TargetCallConv::linux();
    assert_eq!(call, TargetCallConv::new(CallConv::SystemV));
    assert_eq!(call.shadow, 32);
    let order = [DI, SI, DX, CX, R8, R9];
    for (nr, index) in order.iter().enumerate() {
        assert_eq!(call.arg8(nr), Some(reg(RegClass::Gpr8, *index)));
        assert_eq!(call.arg16(nr), Some(reg(RegClass::Gpr16, *index)));
        assert_eq!(call.arg32(nr), Some(reg(RegClass::Gpr32, *index)));
        assert_eq!(call.arg64(nr), Some(reg(RegClass::Gpr64, *index)));
    }
    assert_eq!(call.arg8(6), None);
    assert_eq!(call.arg16(6), None);
    assert_eq!(call.arg32(6), None);
    assert_eq!(call.arg64(6), None);
    for nr in 0..8 {
        assert_eq!(call.argf(nr), Some(reg(RegClass::Xmm, nr as u8)));
    }
    assert_eq!(call.argf(8), None);
    assert_eq!(call.arg(RegClass::Ip, 0), None);
    assert_eq!(call.arg64(usize::MAX), None);
}

#[test]
fn argument_registers_of_windows() {
    let call = TargetCallConv::windows();
    assert_eq!(call, TargetCallConv::new(CallConv::WindowsFastcall));
    assert_eq!(call.shadow, 32);
    let order = [CX, DX, R8, R9];
    for (nr, index) in order.iter().enumerate() {
        assert_eq!(call.arg8(nr), Some(reg(RegClass::Gpr8, *index)));
        assert_eq!(call.arg16(nr), Some(reg(RegClass::Gpr16, *index)));
        assert_eq!(call.arg32(nr), Some(reg(RegClass::Gpr32, *index)));
        assert_eq!(call.arg64(nr), Some(reg(RegClass::Gpr64, *index)));
        assert_eq!(call.argf(nr), Some(reg(RegClass::Xmm, nr as u8)));
    }
    assert_eq!(call.arg8(4), None);
    assert_eq!(call.arg16(4), None);
    assert_eq!(call.arg32(4), None);
    assert_eq!(call.arg64(4), None);
    assert_eq!(call.argf(4), None);
}

#[test]
fn result_registers() {
    for call in [TargetCallConv::linux(), TargetCallConv::windows()] {
        assert_eq!(call.ret8(), reg(RegClass::Gpr8, AX));
        assert_eq!(call.ret16(), reg(RegClass::Gpr16, AX));
        assert_eq!(call.ret32(), reg(RegClass::Gpr32, AX));
        assert_eq!(call.ret64(), reg(RegClass::Gpr64, AX));
        assert_eq!(call.retf(), reg(RegClass::Xmm, 0));
    }
}

#[test]
fn classes_of_the_kinds() {
    assert_eq!(class_of_arg(Type::u64), RegClass::Gpr64);
    assert_eq!(class_of_arg(Type::i32), RegClass::Gpr32);
    assert_eq!(class_of_arg(Type::u16), RegClass::Gpr16);
    assert_eq!(class_of_arg(Type::i8), RegClass::Gpr8);
    assert_eq!(class_of_arg(Type::u8), RegClass::Gpr8);
    assert_eq!(class_of_arg(Type::F32), RegClass::Xmm);
    assert_eq!(class_of_ret(Type::i64), RegClass::Gpr64);
    assert_eq!(class_of_ret(Type::u32), RegClass::Gpr32);
    assert_eq!(class_of_ret(Type::i16), RegClass::Gpr16);
    assert_eq!(class_of_ret(Type::u8), RegClass::Gpr8);
    assert_eq!(class_of_ret(Type::F64), RegClass::Xmm);
}
