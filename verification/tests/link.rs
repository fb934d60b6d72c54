use rllvm::contxt::jit::JitFunction;
use rllvm::contxt::link::bytes::displacement_bytes;
use rllvm::contxt::link::{JitLinker, Link, LinkError};

/// Runs an image as the processor would, as far as the instructions go that
/// the tests need: moves, additions, subtractions and multiplications between
/// registers, moves of immediates, calls and returns. Gives what the
/// accumulator holds when the image returns to its caller.
fn execute(image: &[u8], mut regs: [u64; 16]) -> u64 {
    let mut stack: Vec<usize> = Vec::new();
    let mut ip = 0usize;
    for _ in 0..10_000 {
        let mut wide = false;
        let mut high_reg = 0usize;
        let mut high_rm = 0usize;
        let mut byte = image[ip];
        if byte & 0xf0 == 0x40 {
            wide = byte & 8 != 0;
            high_reg = ((byte as usize) & 4) << 1;
            high_rm = ((byte as usize) & 1) << 3;
            ip += 1;
            byte = image[ip];
        }
        let cut = |value: u64| if wide { value } else { value & 0xffff_ffff };
        match byte {
            0xc3 => match stack.pop() {
                Some(back) => ip = back,
                None => return regs[0],
            },
            0xe8 => {
                let rel = i32::from_le_bytes([image[ip + 1], image[ip + 2], image[ip + 3], image[ip + 4]]);
                stack.push(ip + 5);
                ip = (ip as i64 + 5 + rel as i64) as usize;
            }
            0xb8..=0xbf => {
                let dst = (byte as usize & 7) | high_rm;
                if wide {
                    let mut imm = [0u8; 8];
                    imm.copy_from_slice(&image[ip + 1..ip + 9]);
                    regs[dst] = u64::from_le_bytes(imm);
                    ip += 9;
                } else {
                    let mut imm = [0u8; 4];
                    imm.copy_from_slice(&image[ip + 1..ip + 5]);
                    regs[dst] = u32::from_le_bytes(imm) as u64;
                    ip += 5;
                }
            }
            0x01 | 0x29 | 0x89 => {
                let modrm = image[ip + 1] as usize;
                assert_eq!(modrm >> 6, 3, "only registers are operands here");
                let src = ((modrm >> 3) & 7) | high_reg;
                let dst = (modrm & 7) | high_rm;
                regs[dst] = cut(match byte {
                    0x01 => regs[dst].wrapping_add(regs[src]),
                    0x29 => regs[dst].wrapping_sub(regs[src]),
                    _ => regs[src],
                });
                ip += 2;
            }
            0x0f if image[ip + 1] == 0xaf => {
                let modrm = image[ip + 2] as usize;
                assert_eq!(modrm >> 6, 3, "only registers are operands here");
                let dst = ((modrm >> 3) & 7) | high_reg;
                let src = (modrm & 7) | high_rm;
                regs[dst] = cut(regs[dst].wrapping_mul(regs[src]));
                ip += 3;
            }
            other => panic!("no such instruction in these tests: {:#x}", other),
        }
    }
    panic!("the image does not return");
}

fn reloc(from: &str, to: &str, at: usize, size: usize, replace: bool) -> Link {
    Link { from: from.into(), to: to.into(), at, size, replace }
}

#[test]
fn jit_linker() {
    let mut linker = JitLinker::new();

    linker.add_func("main", vec![
        0xe8, 0x00, 0x00, 0x00, 0x00,   // call test
        0xc3,                           // ret
    ], true);

    linker.add_func("test", vec![
        0xb8, 0x05, 0x00, 0x00, 0x00,   // eax = 5
        0xc3,                           // ret
    ], false);

    linker.add_reloc(Link { from: "main".into(), to: "test".into(), at: 1, size: 4, replace: false });

    let func: JitFunction<fn() -> u32> = linker.engine().unwrap();

    // The call at the start of the image leads to the code that loads 5.
    let code = &func.code;
    assert_eq!(code[0], 0xe8);
    let rel = i32::from_le_bytes([code[1], code[2], code[3], code[4]]);
    let target = (5 + rel) as usize;
    assert_eq!(code[target], 0xb8);
    let out = u32::from_le_bytes([code[target + 1], code[target + 2], code[target + 3], code[target + 4]]);
    assert_eq!(out, 5);

    let out = execute(&func.code, [0; 16]);
    assert_eq!(out, 5);
}

#[test]
fn single_entry_function_is_followed_by_the_separator() {
    let mut linker = JitLinker::new();
    linker.add_func("main", vec![0xb8, 0x05, 0x00, 0x00, 0x00, 0xc3], true);
    assert_eq!(linker.link(), Ok(vec![0xb8, 0x05, 0x00, 0x00, 0x00, 0xc3, 0xc3]));
}

#[test]
fn empty_linker_gives_the_separator() {
    let mut linker = JitLinker::new();
    assert_eq!(linker.link(), Ok(vec![0xc3]));
}

#[test]
fn entry_functions_come_first() {
    let mut linker = JitLinker::new();
    linker.add_func("a", vec![1, 1], false);
    linker.add_func("b", vec![2, 2, 2], true);
    linker.add_func("c", vec![3], false);
    linker.add_func("d", vec![4], true);
    linker.add_label("x", vec![9, 9]);
    linker.add_label("y", vec![8]);
    assert_eq!(linker.link(), Ok(vec![2, 2, 2, 4, 1, 1, 3, 0xc3, 9, 9, 8]));
}

#[test]
fn linking_twice_gives_the_same_image() {
    let mut linker = JitLinker::new();
    linker.add_func("main", vec![0xe8, 0, 0, 0, 0, 0xc3], true);
    linker.add_func("test", vec![0xb8, 0, 0, 0, 0, 0xc3], false);
    linker.add_reloc(reloc("main", "test", 1, 4, false));
    linker.add_reloc(reloc("test", "test_data", 1, 4, true));
    linker.add_label("test_data", vec![5]);
    let first = linker.link();
    let second = linker.link();
    assert_eq!(first, second);
    assert_eq!(
        first,
        Ok(vec![0xe8, 1, 0, 0, 0, 0xc3, 0xb8, 5, 0, 0, 0, 0xc3, 0xc3, 5])
    );
    assert_eq!(execute(&first.clone().unwrap(), [0; 16]), 5);

    let mut other = JitLinker::new();
    other.add_func("main", vec![0xe8, 0, 0, 0, 0, 0xc3], true);
    other.add_func("test", vec![0xb8, 0, 0, 0, 0, 0xc3], false);
    other.add_reloc(reloc("main", "test", 1, 4, false));
    other.add_reloc(reloc("test", "test_data", 1, 4, true));
    other.add_label("test_data", vec![5]);
    assert_eq!(other.link(), first);
}

#[test]
fn pc_relative_field_holds_the_displacement() {
    // target T = 6, width W = 4, site S = 1: the field holds 6 - 4 - 1 = 1.
    let mut linker = JitLinker::new();
    linker.add_func("main", vec![0xe8, 0xaa, 0xaa, 0xaa, 0xaa, 0xc3], true);
    linker.add_func("test", vec![0xc3], false);
    linker.add_reloc(reloc("main", "test", 1, 4, false));
    let image = linker.link().unwrap();
    // Three bytes are written, the fourth stays.
    assert_eq!(image, vec![0xe8, 1, 0, 0, 0xaa, 0xc3, 0xc3, 0xc3]);
}

#[test]
fn pc_relative_field_backwards_is_negative() {
    // from "late" at offset 2, field at 2 + 1 = 3, width 5, target "early" at 0:
    // the field holds 0 - 5 - 3 = -8 in four bytes.
    let mut linker = JitLinker::new();
    linker.add_func("early", vec![0x90, 0xc3], true);
    linker.add_func("late", vec![0xe9, 0, 0, 0, 0], false);
    linker.add_reloc(reloc("late", "early", 1, 5, false));
    let image = linker.link().unwrap();
    assert_eq!(image, vec![0x90, 0xc3, 0xe9, 0xf8, 0xff, 0xff, 0xff, 0xc3]);
    assert_eq!(i32::from_le_bytes([image[3], image[4], image[5], image[6]]), -8);
}

#[test]
fn wide_fields_are_sign_extended() {
    let mut linker = JitLinker::new();
    linker.add_func("early", vec![0xc3], true);
    linker.add_func("late", vec![0; 9], false);
    linker.add_reloc(reloc("late", "early", 0, 9, false));
    let image = linker.link().unwrap();
    // 0 - 9 - 1 = -10 in eight bytes
    assert_eq!(&image[1..9], &(-10i64).to_le_bytes());
}

#[test]
fn raw_substitute_copies_the_target() {
    let mut linker = JitLinker::new();
    linker.add_func("main", vec![0xb8, 0xaa, 0xaa, 0xaa, 0xaa, 0xc3], true);
    linker.add_label("five", vec![5]);
    linker.add_reloc(reloc("main", "five", 1, 4, true));
    // One byte of the target, zeros up to the field's three bytes.
    assert_eq!(linker.link(), Ok(vec![0xb8, 5, 0, 0, 0xaa, 0xc3, 0xc3, 5]));

    let mut linker = JitLinker::new();
    linker.add_func("main", vec![0xb8, 0xaa, 0xaa, 0xaa, 0xaa, 0xc3], true);
    linker.add_label("long", vec![1, 2, 3, 4, 5, 6]);
    linker.add_reloc(reloc("main", "long", 1, 3, true));
    assert_eq!(linker.link(), Ok(vec![0xb8, 1, 2, 0xaa, 0xaa, 0xc3, 0xc3, 1, 2, 3, 4, 5, 6]));
}

#[test]
fn later_relocations_write_over_earlier_ones() {
    let mut linker = JitLinker::new();
    linker.add_func("main", vec![0, 0, 0, 0], true);
    linker.add_label("a", vec![1, 1, 1]);
    linker.add_label("b", vec![2]);
    linker.add_reloc(reloc("main", "a", 0, 4, true));
    linker.add_reloc(reloc("main", "b", 1, 2, true));
    assert_eq!(linker.link(), Ok(vec![1, 2, 1, 0, 0xc3, 1, 1, 1, 2]));
}

#[test]
fn unknown_symbols_are_reported() {
    let mut linker = JitLinker::new();
    linker.add_func("main", vec![0xe8, 0, 0, 0, 0, 0xc3], true);
    linker.add_reloc(reloc("main", "nowhere", 1, 4, false));
    assert_eq!(linker.link(), Err(LinkError::UnknownTargetSymbol("nowhere".into())));

    let mut linker = JitLinker::new();
    linker.add_func("main", vec![0xe8, 0, 0, 0, 0, 0xc3], true);
    linker.add_reloc(reloc("nobody", "main", 1, 4, false));
    assert_eq!(linker.link(), Err(LinkError::UnknownFunction("nobody".into())));

    // The symbol that is patched is looked up first.
    let mut linker = JitLinker::new();
    linker.add_reloc(reloc("nobody", "nowhere", 1, 4, true));
    assert_eq!(linker.link(), Err(LinkError::UnknownFunction("nobody".into())));
}

#[test]
fn first_faulty_relocation_is_reported() {
    let mut linker = JitLinker::new();
    linker.add_func("main", vec![0, 0, 0, 0], true);
    linker.add_reloc(reloc("main", "main", 0, 4, false));
    linker.add_reloc(reloc("main", "b", 0, 4, false));
    linker.add_reloc(reloc("a", "main", 0, 4, false));
    assert_eq!(linker.link(), Err(LinkError::UnknownTargetSymbol("b".into())));
    let failed: Result<JitFunction<fn()>, LinkError> = linker.engine();
    assert_eq!(failed.err(), Some(LinkError::UnknownTargetSymbol("b".into())));
}

#[test]
fn fields_must_lie_inside_the_image() {
    let mut linker = JitLinker::new();
    linker.add_func("main", vec![0, 0, 0, 0], true);
    linker.add_reloc(reloc("main", "main", 3, 4, false));
    assert_eq!(linker.link(), Err(LinkError::FieldOutOfImage("main".into())));

    // The image has five bytes with the separator: a field of three at 2 fits.
    let mut linker = JitLinker::new();
    linker.add_func("main", vec![0, 0, 0, 0], true);
    linker.add_reloc(reloc("main", "main", 2, 4, true));
    assert_eq!(linker.link(), Ok(vec![0, 0, 0, 0, 0]));

    let mut linker = JitLinker::new();
    linker.add_func("main", vec![0, 0, 0, 0], true);
    linker.add_reloc(reloc("main", "main", 0, 0, false));
    assert_eq!(linker.link(), Err(LinkError::FieldOutOfImage("main".into())));

    let mut linker = JitLinker::new();
    linker.add_func("main", vec![0, 0, 0, 0], true);
    linker.add_reloc(reloc("main", "main", usize::MAX, 4, false));
    assert_eq!(linker.link(), Err(LinkError::FieldOutOfImage("main".into())));
}

#[test]
fn empty_fields_write_nothing() {
    let mut linker = JitLinker::new();
    linker.add_func("main", vec![7, 7], true);
    linker.add_reloc(reloc("main", "main", 100, 1, false));
    linker.add_reloc(reloc("main", "main", usize::MAX, 1, true));
    assert_eq!(linker.link(), Ok(vec![7, 7, 0xc3]));
}

#[test]
fn adding_a_name_again_replaces_it() {
    let mut linker = JitLinker::new();
    linker.add_func("a", vec![1], false);
    linker.add_func("b", vec![2], false);
    linker.add_func("a", vec![3, 3], false);
    linker.add_label("x", vec![4]);
    linker.add_label("x", vec![5, 5]);
    assert_eq!(linker.link(), Ok(vec![3, 3, 2, 0xc3, 5, 5]));
}

#[test]
fn a_label_hides_a_function_of_its_name() {
    let mut linker = JitLinker::new();
    linker.add_func("main", vec![0, 0, 0, 0], true);
    linker.add_func("x", vec![1, 1], false);
    linker.add_label("x", vec![2, 2]);
    linker.add_reloc(reloc("main", "x", 0, 3, true));
    assert_eq!(linker.link(), Ok(vec![2, 2, 0, 0, 1, 1, 0xc3, 2, 2]));
}

#[test]
fn messages_of_link_errors() {
    assert_eq!(LinkError::UnknownFunction("f".into()).message(), "unknown function f");
    assert_eq!(LinkError::UnknownTargetSymbol("t".into()).message(), "unknown target symbol t");
    assert_eq!(
        LinkError::FieldOutOfImage("g".into()).message(),
        "relocation outside the image in g"
    );
}

#[test]
fn bytes_of_displacements() {
    assert_eq!(displacement_bytes(1, 3), vec![1, 0, 0]);
    assert_eq!(displacement_bytes(-1, 3), vec![0xff, 0xff, 0xff]);
    assert_eq!(displacement_bytes(0x1234_5678, 4), vec![0x78, 0x56, 0x34, 0x12]);
    assert_eq!(displacement_bytes(-2, 0), Vec::<u8>::new());
    assert_eq!(displacement_bytes(300, 1), vec![44]);
    assert_eq!(displacement_bytes(i128::MIN, 17)[16], 0xff);
    assert_eq!(displacement_bytes(i128::MAX, 17)[16], 0);
    assert_eq!(displacement_bytes(-129, 2), (-129i16).to_le_bytes().to_vec());
}

#[test]
fn relocations_can_be_read() {
    let mut linker = JitLinker::new();
    assert!(linker.relocs().is_empty());
    linker.add_reloc(reloc("main", "test", 1, 4, false));
    linker.add_reloc(reloc("test", "data", 2, 3, true));
    assert_eq!(
        linker.relocs(),
        vec![reloc("main", "test", 1, 4, false), reloc("test", "data", 2, 3, true)]
    );
    // Reading changes nothing.
    assert_eq!(linker.relocs().len(), 2);
}
