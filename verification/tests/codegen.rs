use rllvm::contxt::contxt::Context;
use rllvm::contxt::jit::JitFunction;
use rllvm::ir::node::{Node, Operand};
use rllvm::ir::types::Type;
use rllvm::target::call_conv::{CallConv, TargetCallConv};
use rllvm::target::isa::{Insn, Opcode, Operands};
use rllvm::target::registers::RegClass;
use rllvm::target::triple::Arch;
use rllvm::contxt::obj::BinFormat;

/// Runs an image as the processor would, as far as the instructions go that
/// the tests need: moves, additions, subtractions and multiplications between
/// registers, moves of immediates, calls and returns. Gives what the
/// accumulator holds when the image returns to its caller.
fn execute(image: &[u8], mut regs: [u64; 16]) -> u64 {
    let mut stack: Vec<usize> = Vec::new();
    let mut ip = 0usize;
    for _ in 0..10_000 {
        let mut wide = false;
        let mut high_reg = 0usize;
        let mut high_rm = 0usize;
        let mut byte = image[ip];
        if byte & 0xf0 == 0x40 {
            wide = byte & 8 != 0;
            high_reg = ((byte as usize) & 4) << 1;
            high_rm = ((byte as usize) & 1) << 3;
            ip += 1;
            byte = image[ip];
        }
        let cut = |value: u64| if wide { value } else { value & 0xffff_ffff };
        match byte {
            0xc3 => match stack.pop() {
                Some(back) => ip = back,
                None => return regs[0],
            },
            0xe8 => {
                let rel = i32::from_le_bytes([image[ip + 1], image[ip + 2], image[ip + 3], image[ip + 4]]);
                stack.push(ip + 5);
                ip = (ip as i64 + 5 + rel as i64) as usize;
            }
            0xb8..=0xbf => {
                let dst = (byte as usize & 7) | high_rm;
                if wide {
                    let mut imm = [0u8; 8];
                    imm.copy_from_slice(&image[ip + 1..ip + 9]);
                    regs[dst] = u64::from_le_bytes(imm);
                    ip += 9;
                } else {
                    let mut imm = [0u8; 4];
                    imm.copy_from_slice(&image[ip + 1..ip + 5]);
                    regs[dst] = u32::from_le_bytes(imm) as u64;
                    ip += 5;
                }
            }
            0x01 | 0x29 | 0x89 => {
                let modrm = image[ip + 1] as usize;
                assert_eq!(modrm >> 6, 3, "only registers are operands here");
                let src = ((modrm >> 3) & 7) | high_reg;
                let dst = (modrm & 7) | high_rm;
                regs[dst] = cut(match byte {
                    0x01 => regs[dst].wrapping_add(regs[src]),
                    0x29 => regs[dst].wrapping_sub(regs[src]),
                    _ => regs[src],
                });
                ip += 2;
            }
            0x0f if image[ip + 1] == 0xaf => {
                let modrm = image[ip + 2] as usize;
                assert_eq!(modrm >> 6, 3, "only registers are operands here");
                let dst = ((modrm >> 3) & 7) | high_reg;
                let src = (modrm & 7) | high_rm;
                regs[dst] = cut(regs[dst].wrapping_mul(regs[src]));
                ip += 3;
            }
            other => panic!("no such instruction in these tests: {:#x}", other),
        }
    }
    panic!("the image does not return");
}

/// Calls an image with two arguments, passed as the calling convention says.
fn call2(image: &[u8], conv: CallConv, a: u64, b: u64) -> u64 {
    let mut regs = [0x5555_5555_5555_5555u64; 16];
    match conv {
        // rdi, rsi
        CallConv::SystemV => {
            regs[7] = a;
            regs[6] = b;
        }
        // rcx, rdx
        CallConv::WindowsFastcall => {
            regs[1] = a;
            regs[2] = b;
        }
    }
    execute(image, regs)
}

fn context(conv: CallConv) -> Context {
    Context::for_target(Arch::X86_64, "x86_64".to_string(), Ok(conv), BinFormat::Elf).unwrap()
}

#[test]
fn asm_function_jit() {
    let mut contxt = Context::new(target_lexicon::Triple::host()).unwrap();
    let call: TargetCallConv = contxt.call.clone();

    let add = contxt.add_function("add", vec![Type::u32, Type::u32], Type::u32);

    let add = add.asm_func().unwrap();

    let arg1 = call.arg32(0).unwrap();
    let arg2 = call.arg32(1).unwrap();

    add.push(Insn { op: Opcode::AddRm32R32, operands: Operands::RegReg(arg1, arg2) }).unwrap();
    add.push(Insn { op: Opcode::MovRm32R32, operands: Operands::RegReg(call.ret32(), arg1) }).unwrap();
    add.push(Insn { op: Opcode::Retnq, operands: Operands::Bare }).unwrap();

    let func: JitFunction<fn(u32, u32) -> u32> = contxt.get_jit_function("add").unwrap();

    // add edi, esi; mov eax, edi; ret; and the separator
    if call.conv == CallConv::SystemV {
        assert_eq!(func.code, vec![0x01, 0xf7, 0x89, 0xf8, 0xc3, 0xc3]);
    } else {
        assert_eq!(func.code, vec![0x01, 0xd1, 0x89, 0xc8, 0xc3, 0xc3]);
    }

    let out = call2(&func.code, call.conv, 69, 69) as u32;

    println!("main() -> {}", out);

    assert_eq!(out, 138);
}

#[test]
fn return_of_a_constant() {
    let mut contxt = context(CallConv::SystemV);
    let func = contxt.add_function("main", vec![], Type::u32);
    func.ir.push(Node::ret(Operand::Int32(5)));
    let func: JitFunction<fn() -> u32> = contxt.get_jit_function("main").unwrap();
    // mov eax, 5; ret; and the separator
    assert_eq!(func.code, vec![0xb8, 0x05, 0x00, 0x00, 0x00, 0xc3, 0xc3]);
    assert_eq!(execute(&func.code, [0; 16]), 5);
}

#[test]
fn add_of_two_arguments_system_v() {
    let mut contxt = context(CallConv::SystemV);
    let func = contxt.add_function("add", vec![Type::u32, Type::u32], Type::u32);
    let buffer = func.asm_func().unwrap();
    let x = buffer.arg(0).unwrap();
    let y = buffer.arg(1).unwrap();
    func.ir.push(Node::ret(Operand::Op(x.add(y))));
    let func: JitFunction<fn(u32, u32) -> u32> = contxt.get_jit_function("add").unwrap();
    // add edi, esi; mov eax, edi; ret; and the separator
    assert_eq!(func.code, vec![0x01, 0xf7, 0x89, 0xf8, 0xc3, 0xc3]);
    assert_eq!(call2(&func.code, CallConv::SystemV, 5, 5), 10);
    assert_eq!(call2(&func.code, CallConv::SystemV, u32::MAX as u64, 2), 1);
}

#[test]
fn add_of_two_arguments_windows() {
    let mut contxt = context(CallConv::WindowsFastcall);
    let func = contxt.add_function("add", vec![Type::u32, Type::u32], Type::u32);
    let buffer = func.asm_func().unwrap();
    let x = buffer.arg(0).unwrap();
    let y = buffer.arg(1).unwrap();
    func.ir.push(Node::ret(Operand::Op(x.add(y))));
    let func: JitFunction<fn(u32, u32) -> u32> = contxt.get_jit_function("add").unwrap();
    // add ecx, edx; mov eax, ecx; ret; and the separator
    assert_eq!(func.code, vec![0x01, 0xd1, 0x89, 0xc8, 0xc3, 0xc3]);
    assert_eq!(call2(&func.code, CallConv::WindowsFastcall, 5, 5), 10);
    assert_eq!(call2(&func.code, CallConv::WindowsFastcall, u32::MAX as u64, 2), 1);
}

#[test]
fn return_types() {
    let mut contxt = Context::new(target_lexicon::Triple::host()).unwrap();
    let func = contxt.add_function("test_f32", vec![], Type::F32);
    func.ir.push(Node::ret(Operand::Float32(0.5f32.to_bits())));

    let func: JitFunction<fn() -> f32> = contxt.get_jit_function("test_f32").unwrap();
    let code = &func.code;
    println!("out: {:x?}", code);
    // movd xmm0, [rip + d]; ret; the separator; the constant
    assert_eq!(&code[0..4], &[0x66, 0x0f, 0x6e, 0x05]);
    let rel = i32::from_le_bytes([code[4], code[5], code[6], code[7]]);
    assert_eq!(code[8], 0xc3);
    assert_eq!(code[9], 0xc3);
    let at = (8 + rel) as usize;
    let out = f32::from_bits(u32::from_le_bytes([code[at], code[at + 1], code[at + 2], code[at + 3]]));
    assert_eq!(out, 0.5);
    assert_eq!(code.len(), 14);
}

/// What the instructions for whole numbers do to sixteen registers of 64 bits.
fn interpret(insns: &[Insn], regs: &mut [u64; 16]) {
    let mask = |class: RegClass| match class {
        RegClass::Gpr8 => 0xffu64,
        RegClass::Gpr16 => 0xffff,
        RegClass::Gpr32 => 0xffff_ffff,
        _ => u64::MAX,
    };
    for insn in insns {
        match (insn.op, insn.operands) {
            (Opcode::Retnq, Operands::Bare) => return,
            (op, Operands::RegReg(dst, src)) => {
                let a = regs[dst.index as usize] & mask(dst.class);
                let b = regs[src.index as usize] & mask(src.class);
                let value = match op {
                    Opcode::AddRm8R8 | Opcode::AddRm16R16 | Opcode::AddRm32R32
                    | Opcode::AddRm64R64 => a.wrapping_add(b),
                    Opcode::MovRm8R8 | Opcode::MovRm16R16 | Opcode::MovRm32R32
                    | Opcode::MovRm64R64 => b,
                    _ => panic!("an instruction that the sum does not need"),
                } & mask(dst.class);
                let whole = &mut regs[dst.index as usize];
                *whole = match dst.class {
                    RegClass::Gpr8 | RegClass::Gpr16 => (*whole & !mask(dst.class)) | value,
                    _ => value,
                };
            }
            _ => panic!("an instruction that the sum does not need"),
        }
    }
    panic!("the code does not return");
}

#[test]
fn generated_add_returns_the_sum() {
    let kinds = [
        (Type::u8, 0xffu64), (Type::i8, 0xff),
        (Type::u16, 0xffff), (Type::i16, 0xffff),
        (Type::u32, 0xffff_ffff), (Type::i32, 0xffff_ffff),
        (Type::u64, u64::MAX), (Type::i64, u64::MAX),
    ];
    let pairs = [
        (5u64, 5u64), (0, 0), (1, u64::MAX), (0xff, 1), (0x7f, 0x7f), (0xffff, 0xffff),
        (0x8000_0000, 0x8000_0000), (u64::MAX, u64::MAX), (0x1234_5678_9abc_def0, 0x0fed_cba9_8765_4321),
    ];
    for conv in [CallConv::SystemV, CallConv::WindowsFastcall] {
        for (typ, mask) in kinds {
            let mut contxt = context(conv);
            let call = contxt.call;
            let func = contxt.add_function("add", vec![typ, typ], typ);
            let buffer = func.asm_func().unwrap();
            let x = buffer.arg(0).unwrap();
            let y = buffer.arg(1).unwrap();
            let plan = Node::ret(Operand::Op(x.add(y))).lower(&call).unwrap();
            assert!(!plan.frame);
            assert_eq!(plan.constant, None);
            for (a, b) in pairs {
                // Whatever else the registers hold, the low bits count.
                let mut regs = [0xdead_beef_dead_beefu64; 16];
                regs[x.reg.unwrap().index as usize] = a;
                regs[y.reg.unwrap().index as usize] = b;
                interpret(&plan.insns, &mut regs);
                assert_eq!(regs[0] & mask, (a & mask).wrapping_add(b & mask) & mask);
            }
            // The code can be encoded, and ends with the return.
            func.push(Node::ret(Operand::Op(x.add(y))));
            let image: JitFunction<fn()> = contxt.get_jit_function("add").unwrap();
            assert_eq!(image.code[image.code.len() - 2..], [0xc3, 0xc3]);
        }
    }
}

#[test]
fn building_again_gives_the_same_image() {
    let mut contxt = context(CallConv::SystemV);
    let main = contxt.add_function("main", vec![], Type::F64);
    main.push(Node::ret(Operand::Float64(1.0f64.to_bits())));
    let other = contxt.add_function("other", vec![Type::u64, Type::u64], Type::u64);
    let buffer = other.asm_func().unwrap();
    let x = buffer.arg(0).unwrap();
    let y = buffer.arg(1).unwrap();
    other.push(Node::ret(Operand::Op(x.mul(y))));
    let first: JitFunction<fn() -> f64> = contxt.get_jit_function("main").unwrap();
    let second: JitFunction<fn() -> f64> = contxt.get_jit_function("main").unwrap();
    assert_eq!(first, second);
    let code = &first.code;
    // movq xmm0, [rip + d]; ret; imul rdi, rsi; mov rax, rdi; ret; the separator; the constant
    assert_eq!(code.len(), 10 + 4 + 3 + 1 + 1 + 8);
    assert_eq!(&code[0..5], &[0x66, 0x48, 0x0f, 0x6e, 0x05]);
    let rel = i32::from_le_bytes([code[5], code[6], code[7], code[8]]);
    let at = (9 + rel) as usize;
    assert_eq!(&code[at..at + 8], &1.0f64.to_le_bytes());
    assert_eq!(&code[9..19], &[0xc3, 0x48, 0x0f, 0xaf, 0xfe, 0x48, 0x89, 0xf8, 0xc3, 0xc3]);
}

#[test]
fn arguments_arrive_in_the_order_of_the_convention() {
    for conv in [CallConv::SystemV, CallConv::WindowsFastcall] {
        for (typ, mask) in [(Type::u32, 0xffff_ffffu64), (Type::i64, u64::MAX)] {
            let mut contxt = context(conv);
            let func = contxt.add_function("f", vec![typ, typ], typ);
            let buffer = func.asm_func().unwrap();
            let x = buffer.arg(0).unwrap();
            let y = buffer.arg(1).unwrap();
            func.push(Node::ret(Operand::Op(x.sub(y))));
            let sub: JitFunction<fn()> = contxt.get_jit_function("f").unwrap();
            assert_eq!(call2(&sub.code, conv, 10, 3), 7);
            assert_eq!(call2(&sub.code, conv, 3, 10), 7u64.wrapping_neg() & mask);

            let mut contxt = context(conv);
            let func = contxt.add_function("g", vec![typ, typ], typ);
            let buffer = func.asm_func().unwrap();
            let x = buffer.arg(0).unwrap();
            let y = buffer.arg(1).unwrap();
            func.push(Node::ret(Operand::Op(x.mul(y))));
            let mul: JitFunction<fn()> = contxt.get_jit_function("g").unwrap();
            assert_eq!(call2(&mul.code, conv, 6, 7), 42);
            assert_eq!(call2(&mul.code, conv, u64::MAX, 2), (u64::MAX - 1) & mask);
        }
    }
}

#[test]
fn constants_of_two_functions_stay_apart() {
    let mut contxt = context(CallConv::SystemV);
    contxt.add_function("half", vec![], Type::F32).push(Node::ret(Operand::Float32(0.5f32.to_bits())));
    contxt.add_function("two", vec![], Type::F32).push(Node::ret(Operand::Float32(2.0f32.to_bits())));
    let image: JitFunction<fn() -> f32> = contxt.get_jit_function("half").unwrap();
    let code = &image.code;
    // Two loads with their returns, the separator, two constants.
    assert_eq!(code.len(), 9 + 9 + 1 + 4 + 4);
    let constant = |load: usize| {
        let rel = i32::from_le_bytes([code[load + 4], code[load + 5], code[load + 6], code[load + 7]]);
        let at = (load as i32 + 8 + rel) as usize;
        f32::from_bits(u32::from_le_bytes([code[at], code[at + 1], code[at + 2], code[at + 3]]))
    };
    assert_eq!(constant(0), 0.5);
    assert_eq!(constant(9), 2.0);

    let buffer = contxt.add_function("third", vec![], Type::F32).asm_func().unwrap();
    assert_eq!(buffer.label_of("0"), "third.0");
}
