//! What holds of every function and its buffer.

use vstd::prelude::*;
use crate::func::asmfunc::{arg_of, constant_label, emitted, framed, pushed, AsmView};
use crate::func::func::{
    lemma_fault_ends_lowering, lower_nodes, lowered_function, lowered_into, lowering_fault,
    signed_buffer, FunctionView,
};
use crate::ir::compile::{CompileError, LoweringView};
use crate::ir::node::Node;
use crate::ir::types::Type;
use crate::target::call_conv::{
    arg_class, arg_reg, arg_slot, earlier_of_file, float_arg_count, int_arg_indices, CallConv,
    TargetCallConv,
};

verus! {

/// Taking a lowering in changes neither the name of a buffer nor what it is
/// compiled for, and the code it held stays in it.
pub proof fn law_emit_keeps_the_signature(a: AsmView, plan: LoweringView)
    requires
        emitted(a, plan) is Ok,
    ensures
        emitted(a, plan)->Ok_0.name == a.name,
        emitted(a, plan)->Ok_0.call == a.call,
        emitted(a, plan)->Ok_0.args == a.args,
        emitted(a, plan)->Ok_0.ret == a.ret,
        emitted(a, plan)->Ok_0.names >= a.names,
        emitted(a, plan)->Ok_0.code.len() >= a.code.len(),
        a.framed ==> emitted(a, plan)->Ok_0.framed && emitted(a, plan)->Ok_0.code.subrange(
            0,
            a.code.len() as int,
        ) == a.code,
{
    let b = emitted(a, plan)->Ok_0;
    if a.framed {
        assert(b.code.subrange(0, a.code.len() as int) =~= a.code);
    }
}

/// What lowering a range of nodes gives: the signature stays; without a fault
/// every node of the range is lowered; with a fault the nodes before the failing
/// one are lowered, and the failing one fails on the buffer that is left.
proof fn lemma_lower_nodes(a: AsmView, ir: Seq<Node>, from: nat, to: nat)
    ensures
        ({
            let done = lower_nodes(a, ir, from, to);
            &&& done.0.args == a.args
            &&& done.0.ret == a.ret
            &&& match done.2 {
                None => done.1 == (if to <= from {
                    from
                } else {
                    to
                }),
                Some(e) => {
                    &&& from <= done.1 < to
                    &&& lower_nodes(a, ir, from, done.1) == (done.0, done.1, None::<CompileError>)
                    &&& lowered_into(done.0, ir[done.1 as int]) == Err::<AsmView, CompileError>(e)
                },
            }
        }),
    decreases to,
{
    if to > from {
        lemma_lower_nodes(a, ir, from, (to - 1) as nat);
        let before = lower_nodes(a, ir, from, (to - 1) as nat);
        if before.2 is None {
            match lowered_into(before.0, ir[to - 1]) {
                Ok(b) => {
                    law_emit_keeps_the_signature(before.0, crate::ir::compile::lowered(ir[to - 1])->Ok_0);
                },
                Err(e) => {},
            }
        }
    }
}

/// Lowering a function again changes nothing: each node is lowered once, and a
/// node that failed fails again in the same way.
pub proof fn law_lowering_once(f: FunctionView)
    ensures
        lowered_function(lowered_function(f)) == lowered_function(f),
        lowering_fault(lowered_function(f)) == lowering_fault(f),
{
    let n = f.ir.len();
    let start = signed_buffer(f);
    let done = lower_nodes(start, f.ir, f.lowered, n);
    let g = lowered_function(f);
    lemma_lower_nodes(start, f.ir, f.lowered, n);
    assert(signed_buffer(g) == done.0);
    match done.2 {
        None => {},
        Some(e) => {
            let k = done.1;
            assert(lower_nodes(done.0, f.ir, k, k) == (done.0, k, None::<CompileError>));
            assert(lower_nodes(done.0, f.ir, k, (k + 1) as nat) == (done.0, k, Some(e)));
            lemma_fault_ends_lowering(done.0, f.ir, k, (k + 1) as nat, n);
        },
    }
}

/// How many registers the convention has for arguments of the file of `typ`.
pub open spec fn registers_for(conv: CallConv, typ: Type) -> nat {
    if typ.spec_float() {
        float_arg_count(conv)
    } else {
        int_arg_indices(conv).len()
    }
}

/// An argument has a variable where its slot has a register, and there alone:
/// the variable is of the argument's kind and lives in the register of the
/// slot, of the class of the kind.
pub proof fn law_argument_is_in_its_register(call: TargetCallConv, args: Seq<Type>, nr: int)
    requires
        0 <= nr < args.len(),
    ensures
        arg_of(call, args, nr) is Some <==> arg_slot(call.conv, args, nr) < registers_for(
            call.conv,
            args[nr],
        ),
        arg_of(call, args, nr) matches Some(var) ==> {
            &&& var.typ == args[nr]
            &&& var.in_reg
            &&& !var.on_stack
            &&& var.reg matches Some(reg) && reg.wf() && reg.class == arg_class(args[nr])
                && Some(reg) == arg_reg(
                call.conv,
                arg_class(args[nr]),
                arg_slot(call.conv, args, nr),
            )
        },
{
}

/// The count of the earlier arguments of a file grows with the position, and
/// by one at each argument of the file.
proof fn lemma_earlier_grows(args: Seq<Type>, float: bool, i: int, j: int)
    requires
        0 <= i < j <= args.len(),
        args[i].spec_float() == float,
    ensures
        earlier_of_file(args, float, i) < earlier_of_file(args, float, j),
    decreases j - i,
{
    if j > i + 1 {
        lemma_earlier_grows(args, float, i, j - 1);
    }
}

/// Two arguments of one file, whole numbers or floating-point numbers, never
/// share a register.
pub proof fn law_arguments_have_their_own_registers(
    call: TargetCallConv,
    args: Seq<Type>,
    i: int,
    j: int,
)
    requires
        0 <= i < j < args.len(),
        args[i].spec_float() == args[j].spec_float(),
        arg_of(call, args, i) is Some,
        arg_of(call, args, j) is Some,
    ensures
        arg_of(call, args, i)->0.reg->0.index != arg_of(call, args, j)->0.reg->0.index,
{
    lemma_earlier_grows(args, args[j].spec_float(), i, j);
    law_argument_is_in_its_register(call, args, i);
    law_argument_is_in_its_register(call, args, j);
    let a = arg_slot(call.conv, args, i);
    let b = arg_slot(call.conv, args, j);
    assert(a < b);
    if !args[i].spec_float() {
        let table = int_arg_indices(call.conv);
        assert(forall|x: int, y: int| 0 <= x < y < table.len() ==> table[x] != table[y]);
    }
}

/// The constants of two functions stay apart: under one name, two functions
/// of different names have constants with different labels.
pub proof fn law_constants_stay_apart(first: Seq<char>, second: Seq<char>, constant: Seq<char>)
    requires
        first != second,
    ensures
        constant_label(first, constant) != constant_label(second, constant),
{
    let a = constant_label(first, constant);
    let b = constant_label(second, constant);
    if a == b {
        assert(a.len() == first.len() + "."@.len() + constant.len());
        assert(b.len() == second.len() + "."@.len() + constant.len());
        assert(first =~= a.subrange(0, first.len() as int));
        assert(second =~= b.subrange(0, second.len() as int));
    }
}

/// A frame is whole: a buffer that is framed holds no return without the
/// frame's exit, and taking a lowering in keeps it so. A new buffer is so.
pub proof fn law_frame_is_whole(a: AsmView, plan: LoweringView)
    requires
        !(a.framed && a.returned),
        emitted(a, plan) is Ok,
    ensures
        !(emitted(a, plan)->Ok_0.framed && emitted(a, plan)->Ok_0.returned),
        framed(a) matches Ok(b) ==> b.framed && !b.returned,
        forall|insns: Seq<crate::target::isa::Insn>|
            #[trigger] pushed(a, insns) matches Ok(b) ==> !(b.framed && b.returned),
{
}

} // verus!
