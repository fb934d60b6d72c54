//! What holds of every lowering.

use vstd::prelude::*;
use crate::func::asmfunc::arg_of;
use crate::ir::compile::{lowered, ret_insn, CompileError, LoweringView};
use crate::ir::node::{BinKind, BinaryOp, Node, Operand};
use crate::ir::types::Type;
use crate::target::call_conv::{
    arg_class, arg_slot, earlier_of_file, ret_class, ret_reg, CallConv, TargetCallConv,
};
use crate::target::isa::{Insn, Opcode, Operands};
use crate::target::machine::{modulus, run, step, value_of, with_value, Machine};
use crate::target::registers::{Reg, RegClass};

verus! {

/// One more than the largest whole number of the kind `typ`.
pub open spec fn type_modulus(typ: Type) -> int {
    match typ {
        Type::u8 | Type::i8 => 0x100,
        Type::u16 | Type::i16 => 0x1_0000,
        Type::u32 | Type::i32 => 0x1_0000_0000,
        _ => 0x1_0000_0000_0000_0000,
    }
}

/// The whole number of the kind `typ` in the register with the index `index`:
/// the low bits of the register.
pub open spec fn value_in(m: Machine, index: u8, typ: Type) -> int {
    m.gpr[index as int] % type_modulus(typ)
}

/// The node that returns the sum of the first two arguments of a function
/// with two arguments of the kind `typ`.
pub open spec fn sum_of_arguments(call: TargetCallConv, typ: Type) -> Node {
    Node::Return(
        Operand::Op(
            BinaryOp {
                kind: BinKind::Add,
                left: arg_of(call, seq![typ, typ], 0)->0,
                right: arg_of(call, seq![typ, typ], 1)->0,
            },
        ),
    )
}

/// The code for the sum of two arguments: the addition into the register of
/// the first, the move to where results go, and the return instruction.
pub open spec fn sum_code(left: Reg, right: Reg) -> Seq<Insn> {
    seq![
        Insn {
            op: match left.class {
                RegClass::Gpr8 => Opcode::AddRm8R8,
                RegClass::Gpr16 => Opcode::AddRm16R16,
                RegClass::Gpr32 => Opcode::AddRm32R32,
                _ => Opcode::AddRm64R64,
            },
            operands: Operands::RegReg(left, right),
        },
        Insn {
            op: match left.class {
                RegClass::Gpr8 => Opcode::MovRm8R8,
                RegClass::Gpr16 => Opcode::MovRm16R16,
                RegClass::Gpr32 => Opcode::MovRm32R32,
                _ => Opcode::MovRm64R64,
            },
            operands: Operands::RegReg(ret_reg(left.class), left),
        },
        ret_insn(),
    ]
}

/// What the sum of two arguments lowers to, under each calling convention and
/// for each kind of whole number: the two arguments live in two registers of
/// one class, neither of them the accumulator, and the code is `sum_code`.
proof fn lemma_sum_is_lowered(conv: CallConv, shadow: usize, typ: Type)
    requires
        !typ.spec_float(),
    ensures
        ({
            let call = TargetCallConv { conv, shadow };
            let x = arg_of(call, seq![typ, typ], 0);
            let y = arg_of(call, seq![typ, typ], 1);
            &&& x matches Some(x) && x.reg matches Some(left) && y matches Some(y)
                && y.reg matches Some(right) && {
                &&& left.class == arg_class(typ)
                &&& right.class == arg_class(typ)
                &&& 0 < left.index < 16
                &&& 0 < right.index < 16
                &&& left.index != right.index
                &&& lowered(sum_of_arguments(call, typ)) == Ok::<LoweringView, CompileError>(
                    LoweringView { insns: sum_code(left, right), frame: false, constant: None },
                )
            }
        }),
{
    let call = TargetCallConv { conv, shadow };
    let args = seq![typ, typ];
    assert(args[0] == typ && args[1] == typ);
    assert(earlier_of_file(args, typ.spec_float(), 0) == 0);
    assert(earlier_of_file(args, typ.spec_float(), 1) == 1);
    assert(arg_slot(conv, args, 0) == 0);
    assert(arg_slot(conv, args, 1) == 1);
    let x = arg_of(call, args, 0)->0;
    let y = arg_of(call, args, 1)->0;
    let left = x.reg->0;
    let right = y.reg->0;
    let plan = lowered(sum_of_arguments(call, typ))->Ok_0;
    assert(plan.insns =~= sum_code(left, right));
}

/// What `sum_code` does: it leaves the sum of the two registers, wrapped to
/// their width, in the accumulator of their class.
proof fn lemma_sum_code_adds(m: Machine, left: Reg, right: Reg)
    requires
        m.wf(),
        left.class == right.class,
        left.class == RegClass::Gpr8 || left.class == RegClass::Gpr16 || left.class
            == RegClass::Gpr32 || left.class == RegClass::Gpr64,
        0 < left.index < 16,
        0 < right.index < 16,
        left.index != right.index,
    ensures
        run(m, sum_code(left, right)).gpr[0] % modulus(left.class) == (m.gpr[left.index as int]
            % modulus(left.class) + m.gpr[right.index as int] % modulus(left.class)) % modulus(
            left.class,
        ),
{
    let code = sum_code(left, right);
    lemma_run_three(m, code);
    let home = ret_reg(left.class);
    assert(home.index == 0);
    let sum = value_of(m, left) + value_of(m, right);
    let one = step(m, code[0]);
    assert(one == with_value(m, left, sum));
    assert(one.gpr[left.index as int] % modulus(left.class) == sum % modulus(left.class)) by {
        lemma_written_is_read(m, left, sum);
    }
    let two = step(one, code[1]);
    assert(two == with_value(one, home, value_of(one, left)));
    assert(two.gpr[0] % modulus(left.class) == value_of(one, left) % modulus(left.class)) by {
        lemma_written_is_read(one, home, value_of(one, left));
    }
    assert(value_of(one, left) % modulus(left.class) == value_of(one, left)) by {
        vstd::arithmetic::div_mod::lemma_mod_twice(one.gpr[left.index as int], modulus(left.class));
    }
    assert(step(two, code[2]) == two);
}

/// A register holds what was written to it, cut to its width.
proof fn lemma_written_is_read(m: Machine, reg: Reg, value: int)
    requires
        m.gpr.len() == 16,
        reg.index < 16,
        reg.class == RegClass::Gpr8 || reg.class == RegClass::Gpr16 || reg.class
            == RegClass::Gpr32 || reg.class == RegClass::Gpr64,
    ensures
        with_value(m, reg, value).gpr[reg.index as int] % modulus(reg.class) == value % modulus(
            reg.class,
        ),
        with_value(m, reg, value).gpr.len() == 16,
{
    let whole = m.gpr[reg.index as int];
    let wide = modulus(reg.class);
    let low = value % wide;
    if reg.class == RegClass::Gpr8 || reg.class == RegClass::Gpr16 {
        // The rest of the register is a multiple of the modulus.
        let rest = whole - whole % wide;
        assert(rest == wide * (whole / wide)) by {
            vstd::arithmetic::div_mod::lemma_fundamental_div_mod(whole, wide);
        }
        assert((rest + low) % wide == low % wide) by {
            vstd::arithmetic::div_mod::lemma_mod_multiples_vanish(whole / wide, low, wide);
        }
        vstd::arithmetic::div_mod::lemma_mod_twice(value, wide);
    } else {
        vstd::arithmetic::div_mod::lemma_mod_twice(value, wide);
    }
}

/// A function that returns the sum of its two arguments returns that sum:
/// under each calling convention and for each kind of whole number, the code
/// that `arg 0 + arg 1` lowers to ends with the return instruction and leaves,
/// where results of that kind go, the sum of what the two argument registers
/// held, wrapped to the width of the kind.
pub proof fn law_add_returns_the_sum(conv: CallConv, shadow: usize, typ: Type, m: Machine)
    requires
        m.wf(),
        !typ.spec_float(),
    ensures
        ({
            let call = TargetCallConv { conv, shadow };
            let x = arg_of(call, seq![typ, typ], 0);
            let y = arg_of(call, seq![typ, typ], 1);
            &&& x is Some
            &&& y is Some
            &&& lowered(sum_of_arguments(call, typ)) matches Ok(plan) && {
                &&& !plan.frame
                &&& plan.constant is None
                &&& plan.insns.len() > 0
                &&& plan.insns.last() == ret_insn()
                &&& value_in(run(m, plan.insns), ret_reg(ret_class(typ)).index, typ) == (value_in(
                    m,
                    x->0.reg->0.index,
                    typ,
                ) + value_in(m, y->0.reg->0.index, typ)) % type_modulus(typ)
            }
        }),
{
    let call = TargetCallConv { conv, shadow };
    lemma_sum_is_lowered(conv, shadow, typ);
    let x = arg_of(call, seq![typ, typ], 0)->0;
    let y = arg_of(call, seq![typ, typ], 1)->0;
    let left = x.reg->0;
    let right = y.reg->0;
    lemma_sum_code_adds(m, left, right);
    let a = m.gpr[left.index as int];
    let b = m.gpr[right.index as int];
    let wide = modulus(left.class);
    let narrow = type_modulus(typ);
    let out = run(m, sum_code(left, right)).gpr[0];
    assert(ret_reg(ret_class(typ)).index == 0);
    assert(out % wide == (a % wide + b % wide) % wide);
    lemma_sum_low_bits(a, b, wide, narrow);
    assert((out % wide) % narrow == out % narrow) by {
        lemma_low_bits(out, wide, narrow);
    }
}

/// A function that returns a number returns that number: the code that the
/// return of a whole number lowers to ends with the return instruction and
/// leaves the number in the accumulator, as a number without sign of its width.
pub proof fn law_return_gives_the_number(operand: Operand, m: Machine)
    requires
        m.wf(),
        operand is Int32 || operand is Int64,
    ensures
        lowered(Node::Return(operand)) matches Ok(plan) && {
            &&& !plan.frame
            &&& plan.constant is None
            &&& plan.insns.len() > 0
            &&& plan.insns.last() == ret_insn()
            &&& operand matches Operand::Int32(value) ==> run(m, plan.insns).gpr[0] == value
                as int % 0x1_0000_0000
            &&& operand matches Operand::Int64(value) ==> run(m, plan.insns).gpr[0] == value
                as int % 0x1_0000_0000_0000_0000
        },
{
    let plan = lowered(Node::Return(operand))->Ok_0;
    let code = plan.insns;
    assert(code.len() == 2);
    let one = code.drop_last();
    assert(one.drop_last() =~= Seq::<Insn>::empty());
    assert(run(m, one.drop_last()) == m);
    assert(run(m, one) == step(m, code[0]));
    assert(run(m, code) == step(run(m, one), code[1]));
}

/// The machine after three instructions.
proof fn lemma_run_three(m: Machine, insns: Seq<Insn>)
    requires
        insns.len() == 3,
    ensures
        run(m, insns) == step(step(step(m, insns[0]), insns[1]), insns[2]),
{
    let two = insns.drop_last();
    let one = two.drop_last();
    assert(one.drop_last() =~= Seq::<Insn>::empty());
    assert(run(m, one.drop_last()) == m);
    assert(run(m, one) == step(m, insns[0]));
    assert(run(m, two) == step(run(m, one), insns[1]));
}

/// The low bits of the low bits are the low bits.
proof fn lemma_low_bits(x: int, wide: int, narrow: int)
    requires
        narrow == 0x100 || narrow == 0x1_0000 || narrow == 0x1_0000_0000 || narrow
            == 0x1_0000_0000_0000_0000,
        wide == 0x100 || wide == 0x1_0000 || wide == 0x1_0000_0000 || wide
            == 0x1_0000_0000_0000_0000,
        narrow <= wide,
    ensures
        (x % wide) % narrow == x % narrow,
{
    let k = wide / narrow;
    assert(wide == narrow * k);
    vstd::arithmetic::div_mod::lemma_mod_mod(x, narrow, k);
}

/// The low bits of a sum that was wrapped to more bits are the sum of the low
/// bits, wrapped.
proof fn lemma_sum_low_bits(a: int, b: int, wide: int, narrow: int)
    requires
        narrow == 0x100 || narrow == 0x1_0000 || narrow == 0x1_0000_0000 || narrow
            == 0x1_0000_0000_0000_0000,
        wide == 0x100 || wide == 0x1_0000 || wide == 0x1_0000_0000 || wide
            == 0x1_0000_0000_0000_0000,
        narrow <= wide,
    ensures
        ((a % wide + b % wide) % wide) % narrow == (a % narrow + b % narrow) % narrow,
{
    let s = a % wide + b % wide;
    lemma_low_bits(s, wide, narrow);
    lemma_low_bits(a, wide, narrow);
    lemma_low_bits(b, wide, narrow);
    vstd::arithmetic::div_mod::lemma_add_mod_noop(a % wide, b % wide, narrow);
}

} // verus!
