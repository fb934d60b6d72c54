use rllvm::contxt::contxt::{BuildError, Context, ContextError};
use rllvm::contxt::jit::JitFunction;
use rllvm::contxt::link::LinkError;
use rllvm::contxt::obj::{BinFormat, Decl, ObjectError, Scope, SymbolScope};
use rllvm::ir::compile::CompileError;
use rllvm::ir::node::{BinKind, Node, Operand};
use rllvm::ir::types::Type;
use rllvm::target::call_conv::{CallConv, TargetCallConv};
use rllvm::target::isa::{Insn, Opcode, Operands};
use rllvm::target::registers::{Reg, RegClass, AX};
use rllvm::target::triple::Arch;
use std::str::FromStr;
use target_lexicon::Triple;

fn system_v() -> Context {
    Context::for_target(Arch::X86_64, "x86_64".to_string(), Ok(CallConv::SystemV), BinFormat::Elf).unwrap()
}

const RET: Insn = Insn { op: Opcode::Retnq, operands: Operands::Bare };

#[test]
fn contexts_for_supported_targets() {
    for (triple, conv, format) in [
        ("x86_64-unknown-linux-gnu", CallConv::SystemV, BinFormat::Elf),
        ("x86_64-pc-windows-msvc", CallConv::WindowsFastcall, BinFormat::Coff),
        ("x86_64-apple-darwin", CallConv::SystemV, BinFormat::Macho),
        ("i686-unknown-linux-gnu", CallConv::SystemV, BinFormat::Elf),
        ("i586-unknown-linux-gnu", CallConv::SystemV, BinFormat::Elf),
        ("i386-unknown-linux-gnu", CallConv::SystemV, BinFormat::Elf),
        ("i686-pc-windows-msvc", CallConv::WindowsFastcall, BinFormat::Coff),
    ] {
        let contxt = Context::new(Triple::from_str(triple).unwrap()).unwrap();
        assert_eq!(contxt.call, TargetCallConv::new(conv));
        assert_eq!(contxt.call_conv(), contxt.call);
        assert_eq!(contxt.format(), format);
        assert_ne!(contxt.arch(), Arch::Other);
    }
    assert_eq!(Context::new(Triple::from_str("x86_64-unknown-linux-gnu").unwrap()).unwrap().arch(), Arch::X86_64);
    assert_eq!(Context::new(Triple::from_str("i686-unknown-linux-gnu").unwrap()).unwrap().arch(), Arch::X86_32);
}

#[test]
fn contexts_for_unsupported_targets() {
    let failed = |triple: &str| Context::new(Triple::from_str(triple).unwrap()).err();
    assert_eq!(
        failed("aarch64-unknown-linux-gnu"),
        Some(ContextError::UnsupportedArchitecture("aarch64".into()))
    );
    assert_eq!(
        failed("riscv64gc-unknown-linux-gnu"),
        Some(ContextError::UnsupportedArchitecture("riscv64gc".into()))
    );
    assert_eq!(
        failed("wasm32-unknown-unknown"),
        Some(ContextError::UnsupportedArchitecture("wasm32".into()))
    );
    assert_eq!(
        failed("x86_64-unknown-none"),
        Some(ContextError::UnsupportedCallingConvention("unknown".into()))
    );
    assert_eq!(
        Context::for_target(Arch::Other, "mips".to_string(), Err(String::new()), BinFormat::Elf).err(),
        Some(ContextError::UnsupportedArchitecture("mips".into()))
    );
    assert_eq!(
        Context::for_target(Arch::X86_32, "i686".to_string(), Err(String::new()), BinFormat::Elf).err(),
        Some(ContextError::UnsupportedCallingConvention("unknown".into()))
    );
    assert_eq!(
        Context::for_target(Arch::X86_64, "x86_64".to_string(), Err("AppleAarch64".to_string()), BinFormat::Elf).err(),
        Some(ContextError::UnsupportedCallingConvention("AppleAarch64".into()))
    );
}

#[test]
fn messages_of_context_errors() {
    assert_eq!(
        ContextError::UnsupportedArchitecture("aarch64".into()).message(),
        "given architecture aarch64 isn't currently supported"
    );
    assert_eq!(
        ContextError::UnsupportedCallingConvention("unknown".into()).message(),
        "given calling convention unknown isn't currently supported"
    );
    assert_eq!(
        BuildError::Compile(CompileError::NoRegister).message(),
        CompileError::NoRegister.message()
    );
    assert_eq!(
        BuildError::Link(LinkError::UnknownFunction("f".into())).message(),
        "unknown function f"
    );
}

#[test]
fn entry_function_is_placed_first() {
    let mut contxt = system_v();
    contxt.add_function("one", vec![], Type::u32).push(Node::ret(Operand::Int32(1)));
    contxt.add_function("two", vec![], Type::u32).push(Node::ret(Operand::Int32(2)));
    contxt.add_function("three", vec![], Type::u32).push(Node::ret(Operand::Int32(3)));
    let image = |contxt: &mut Context, name: &str| {
        let func: JitFunction<fn() -> u32> = contxt.get_jit_function(name).unwrap();
        func.code
    };
    let one = [0xb8, 1, 0, 0, 0, 0xc3];
    let two = [0xb8, 2, 0, 0, 0, 0xc3];
    let three = [0xb8, 3, 0, 0, 0, 0xc3];
    assert_eq!(image(&mut contxt, "two"), [two, one, three].concat().into_iter().chain([0xc3]).collect::<Vec<u8>>());
    // Each node is lowered once, whatever the number of builds.
    assert_eq!(image(&mut contxt, "three"), [three, one, two].concat().into_iter().chain([0xc3]).collect::<Vec<u8>>());
    assert_eq!(image(&mut contxt, "nobody"), [one, two, three].concat().into_iter().chain([0xc3]).collect::<Vec<u8>>());
}

#[test]
fn nodes_added_later_are_lowered_later() {
    let mut contxt = system_v();
    let func = contxt.add_function("f", vec![], Type::u32);
    func.push(Node::ret(Operand::Int32(1)));
    assert_eq!(func.lower(), Ok(()));
    assert_eq!(func.lower(), Ok(()));
    func.ir.push(Node::ret(Operand::Int32(2)));
    assert_eq!(func.asm_func().unwrap().compile(), Ok(vec![0xb8, 1, 0, 0, 0, 0xc3, 0xb8, 2, 0, 0, 0, 0xc3]));
    assert_eq!(func.buffer().code(), Ok(vec![0xb8, 1, 0, 0, 0, 0xc3, 0xb8, 2, 0, 0, 0, 0xc3]));
}

#[test]
fn first_fault_of_compiling_is_reported() {
    let mut contxt = system_v();
    let x = rllvm::ir::var::VarGen::new_reg(Type::u32, Reg { class: RegClass::Gpr32, index: 1 });
    contxt.add_function("good", vec![], Type::u32).push(Node::ret(Operand::Int32(1)));
    let bad = contxt.add_function("bad", vec![], Type::u32);
    bad.push(Node::ret(Operand::Int32(2)));
    bad.push(Node::BinaryOp(x.div(x)));
    bad.push(Node::ret(Operand::Int32(3)));
    contxt.add_function("late", vec![], Type::u32).push(Node::BinaryOp(x.mul(x.add(x).left)));
    let failed: Result<JitFunction<fn()>, BuildError> = contxt.get_jit_function("good");
    assert_eq!(
        failed.err(),
        Some(BuildError::Compile(CompileError::Unsupported(BinKind::Div, RegClass::Gpr32)))
    );
}

#[test]
fn fault_of_linking_is_reported() {
    let mut contxt = system_v();
    let main = contxt.add_function("main", vec![], Type::u32);
    let buffer = main.asm_func().unwrap();
    buffer.push(RET).unwrap();
    buffer.reloc_at_current_pos("helper", -1, 2).unwrap();
    let failed: Result<JitFunction<fn()>, BuildError> = contxt.get_jit_function("main");
    assert_eq!(
        failed.err(),
        Some(BuildError::Link(LinkError::UnknownTargetSymbol("helper".into())))
    );
}

#[test]
fn later_function_of_a_name_replaces_the_earlier() {
    let mut contxt = system_v();
    contxt.add_function("f", vec![], Type::u32).push(Node::ret(Operand::Int32(1)));
    contxt.add_function("g", vec![], Type::u32).push(Node::ret(Operand::Int32(2)));
    contxt.add_function("f", vec![], Type::u32).push(Node::ret(Operand::Int32(3)));
    let func: JitFunction<fn() -> u32> = contxt.get_jit_function("g").unwrap();
    assert_eq!(func.code, vec![0xb8, 2, 0, 0, 0, 0xc3, 0xb8, 3, 0, 0, 0, 0xc3, 0xc3]);
}

#[test]
fn exported_functions_are_renamed() {
    let mut contxt = system_v();
    let func = contxt.add_function("add", vec![Type::u32, Type::u32], Type::u32);
    assert_eq!(func.name(), "add");
    assert!(!func.is_public());
    func.maybe_renaming();
    assert_eq!(func.name(), "add");
    func.public();
    assert!(func.is_public());
    assert!(func.export);
    func.maybe_renaming();
    assert_eq!(func.name(), "_R0Z0Z3addZ3u323u32Z3u32");
    let main = contxt.add_function("main", vec![], Type::F64);
    main.public();
    main.maybe_renaming();
    assert_eq!(main.name(), "_R0Z0Z4mainZ0Z3f64");
}

#[test]
fn contents_of_an_object_file() {
    let mut contxt = system_v();
    let main = contxt.add_function("main", vec![], Type::F32);
    main.public();
    main.push(Node::ret(Operand::Float32(2.5f32.to_bits())));
    let buffer = main.asm_func().unwrap();
    buffer.push(Insn { op: Opcode::MovR32Imm32, operands: Operands::RegImm(Reg { class: RegClass::Gpr32, index: AX }, 0) }).unwrap();
    buffer.reloc_at_current_pos("helper", -4, 4).unwrap();
    buffer.reloc_at_current_pos("main", -4, 4).unwrap();
    let helper = contxt.add_function("helper", vec![], Type::u32);
    helper.push(Node::ret(Operand::Int32(4)));

    let builder = contxt.object("out.o").unwrap();
    let plan = builder.plan().unwrap();
    assert_eq!(plan.file, "out.o");
    let names: Vec<&str> = plan.symbols.iter().map(|s| s.name.as_str()).collect();
    assert_eq!(names, vec!["_R0Z0Z4mainZ0Z3f32", ".Lmain.0", "helper"]);
    assert_eq!(plan.symbols[0].scope, SymbolScope::Linkage);
    assert_eq!(plan.symbols[0].data, vec![0x66, 0x0f, 0x6e, 0x05, 0, 0, 0, 0, 0xc3, 0xb8, 0, 0, 0, 0]);
    assert_eq!(plan.symbols[1].scope, SymbolScope::Compilation);
    assert_eq!(plan.symbols[1].data, 2.5f32.to_le_bytes().to_vec());
    assert_eq!(plan.symbols[2].scope, SymbolScope::Compilation);
    assert_eq!(plan.symbols[2].data, vec![0xb8, 4, 0, 0, 0, 0xc3]);
    let links: Vec<(usize, usize, usize)> = plan.relocs.iter().map(|r| (r.from, r.to, r.at)).collect();
    assert_eq!(links, vec![(0, 1, 4), (0, 2, 10), (0, 0, 10)]);
}

#[test]
fn object_of_functions_that_cannot_be_compiled() {
    let mut contxt = system_v();
    let x = rllvm::ir::var::VarGen::new(Type::u32);
    contxt.add_function("bad", vec![], Type::u32).push(Node::BinaryOp(x.add(x)));
    assert_eq!(contxt.object("out.o").err(), Some(CompileError::NoRegister));
    // What a builder holds can be planned or not, whatever it was built from.
    let mut contxt = system_v();
    let main = contxt.add_function("main", vec![], Type::u32);
    main.asm_func().unwrap().reloc_at_current_pos("nowhere", 0, 4).unwrap();
    let mut builder = contxt.object("out.o").unwrap();
    assert_eq!(builder.plan().err(), Some(ObjectError::UnknownTargetSymbol("nowhere".into())));
    builder.add_decl("nowhere", Decl::Function(Scope::Import));
    assert!(builder.plan().is_ok());
}

#[test]
fn unknown_target_gives_no_function() {
    let mut contxt = system_v();
    let main = contxt.add_function("main", vec![], Type::u32);
    let buffer = main.asm_func().unwrap();
    // An instruction with a field of four bytes, which is to refer to "add".
    buffer.push(Insn { op: Opcode::MovR32Imm32, operands: Operands::RegImm(Reg { class: RegClass::Gpr32, index: AX }, 0) }).unwrap();
    buffer.reloc_at_current_pos("add", -4, 4).unwrap();
    buffer.push(RET).unwrap();
    let failed: Result<JitFunction<fn() -> u32>, BuildError> = contxt.get_jit_function("main");
    assert_eq!(
        failed.err(),
        Some(BuildError::Link(LinkError::UnknownTargetSymbol("add".into())))
    );
    // With a function of that name there is an image.
    contxt.add_function("add", vec![], Type::u32).push(Node::ret(Operand::Int32(1)));
    let built: Result<JitFunction<fn() -> u32>, BuildError> = contxt.get_jit_function("main");
    assert!(built.is_ok());
}

#[test]
fn format_of_a_context_is_that_of_its_triple() {
    for (triple, format) in [
        ("x86_64-unknown-linux-gnu", BinFormat::Elf),
        ("x86_64-pc-windows-msvc", BinFormat::Coff),
        ("x86_64-apple-darwin", BinFormat::Macho),
    ] {
        let target = Triple::from_str(triple).unwrap();
        assert_eq!(BinFormat::of_triple(&target), format);
        assert_eq!(Context::new(target).unwrap().format(), format);
    }
}
