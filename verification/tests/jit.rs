use rllvm::contxt::exec_engine::ExecEngine;
use rllvm::contxt::jit::{Action, CallError, Event, Invocation, JitFunction, Stage};

/// Runs an image as the processor would, as far as the instructions go that
/// the tests need: moves, additions, subtractions and multiplications between
/// registers, moves of immediates, calls and returns. Gives what the
/// accumulator holds when the image returns to its caller.
fn execute(image: &[u8], mut regs: [u64; 16]) -> u64 {
    let mut stack: Vec<usize> = Vec::new();
    let mut ip = 0usize;
    for _ in 0..10_000 {
        let mut wide = false;
        let mut high_reg = 0usize;
        let mut high_rm = 0usize;
        let mut byte = image[ip];
        if byte & 0xf0 == 0x40 {
            wide = byte & 8 != 0;
            high_reg = ((byte as usize) & 4) << 1;
            high_rm = ((byte as usize) & 1) << 3;
            ip += 1;
            byte = image[ip];
        }
        let cut = |value: u64| if wide { value } else { value & 0xffff_ffff };
        match byte {
            0xc3 => match stack.pop() {
                Some(back) => ip = back,
                None => return regs[0],
            },
            0xe8 => {
                let rel = i32::from_le_bytes([image[ip + 1], image[ip + 2], image[ip + 3], image[ip + 4]]);
                stack.push(ip + 5);
                ip = (ip as i64 + 5 + rel as i64) as usize;
            }
            0xb8..=0xbf => {
                let dst = (byte as usize & 7) | high_rm;
                if wide {
                    let mut imm = [0u8; 8];
                    imm.copy_from_slice(&image[ip + 1..ip + 9]);
                    regs[dst] = u64::from_le_bytes(imm);
                    ip += 9;
                } else {
                    let mut imm = [0u8; 4];
                    imm.copy_from_slice(&image[ip + 1..ip + 5]);
                    regs[dst] = u32::from_le_bytes(imm) as u64;
                    ip += 5;
                }
            }
            0x01 | 0x29 | 0x89 => {
                let modrm = image[ip + 1] as usize;
                assert_eq!(modrm >> 6, 3, "only registers are operands here");
                let src = ((modrm >> 3) & 7) | high_reg;
                let dst = (modrm & 7) | high_rm;
                regs[dst] = cut(match byte {
                    0x01 => regs[dst].wrapping_add(regs[src]),
                    0x29 => regs[dst].wrapping_sub(regs[src]),
                    _ => regs[src],
                });
                ip += 2;
            }
            0x0f if image[ip + 1] == 0xaf => {
                let modrm = image[ip + 2] as usize;
                assert_eq!(modrm >> 6, 3, "only registers are operands here");
                let dst = ((modrm >> 3) & 7) | high_reg;
                let src = (modrm & 7) | high_rm;
                regs[dst] = cut(regs[dst].wrapping_mul(regs[src]));
                ip += 3;
            }
            other => panic!("no such instruction in these tests: {:#x}", other),
        }
    }
    panic!("the image does not return");
}

#[test]
pub fn jit_function() {
    let func: JitFunction<fn() -> u32> = JitFunction::new(
        vec![
                0xb8, 0x05, 0x00, 0x00, 0x00,   // mov eax, 5
                0xc3,                           // ret
            ],
    );
    // The image is what was handed in: it loads 5 and returns.
    assert_eq!(func.code, vec![0xb8, 0x05, 0x00, 0x00, 0x00, 0xc3]);
    assert_eq!(func.code(), &vec![0xb8, 0x05, 0x00, 0x00, 0x00, 0xc3]);
    let out = execute(&func.code, [0; 16]);
    assert_eq!(out, 5);

    // A call of it acquires memory for the image, loads it, invokes it, and
    // releases the memory before it finishes.
    let mut call = func.invocation();
    assert_eq!(call.step(Event::Begin), Action::Acquire(6));
    assert_eq!(call.step(Event::Acquired), Action::Load);
    assert_eq!(call.step(Event::Loaded), Action::Invoke);
    assert_eq!(call.step(Event::Returned), Action::Release);
    assert_eq!(call.step(Event::Released), Action::Finish);
    assert_eq!(call.stage, Stage::Idle);
}

#[test]
fn refused_memory_fails_the_call() {
    let func: JitFunction<fn()> = JitFunction::new(vec![0xc3]);
    let mut call = func.invocation();
    assert_eq!(call.step(Event::Begin), Action::Acquire(1));
    assert_eq!(call.step(Event::Refused), Action::Fail(CallError::AllocationFailed));
    assert_eq!(call.stage, Stage::Idle);
    assert_eq!(CallError::AllocationFailed.message(), "Error allocating memory");
}

#[test]
fn events_out_of_place_are_ignored() {
    let mut call = Invocation { stage: Stage::Idle, size: 4 };
    for event in [Event::Acquired, Event::Refused, Event::Loaded, Event::Returned, Event::Released] {
        assert_eq!(call.step(event), Action::Ignore);
        assert_eq!(call.stage, Stage::Idle);
    }
    assert_eq!(call.step(Event::Begin), Action::Acquire(4));
    assert_eq!(call.step(Event::Begin), Action::Ignore);
    assert_eq!(call.step(Event::Loaded), Action::Ignore);
    assert_eq!(call.stage, Stage::Acquiring);
    assert_eq!(call.step(Event::Acquired), Action::Load);
    assert_eq!(call.step(Event::Released), Action::Ignore);
    assert_eq!(call.stage, Stage::Loading);
}

#[test]
fn repeated_calls_acquire_and_release_in_turn() {
    let func: JitFunction<fn()> = JitFunction::new(vec![0x90, 0xc3]);
    let mut call = func.invocation();
    let mut held = 0;
    let mut log = Vec::new();
    for _ in 0..5 {
        let mut event = Event::Begin;
        loop {
            event = match call.step(event) {
                Action::Acquire(size) => {
                    assert_eq!(size, 2);
                    held += 1;
                    log.push('a');
                    Event::Acquired
                }
                Action::Load => Event::Loaded,
                Action::Invoke => {
                    assert_eq!(held, 1);
                    Event::Returned
                }
                Action::Release => {
                    held -= 1;
                    log.push('r');
                    Event::Released
                }
                Action::Finish => break,
                Action::Fail(_) | Action::Ignore => panic!("the call goes its course"),
            };
            assert!(held == 0 || held == 1);
        }
        assert_eq!(held, 0);
    }
    assert_eq!(log, vec!['a', 'r', 'a', 'r', 'a', 'r', 'a', 'r', 'a', 'r']);
}

#[test]
fn engine_holds_its_function() {
    fn five() -> u32 {
        5
    }
    let engine = ExecEngine { inner: five as fn() -> u32 };
    assert_eq!((engine.inner)(), 5);
}
