//! The assembly buffer of a function: its code, the relocations in it, and the
//! constants it refers to.

use std::collections::VecDeque;
use vstd::prelude::*;
use vstd::string::StringExecFns;
use crate::contxt::contxt::Context;
use crate::contxt::link::bytes::copy_bytes;
use crate::contxt::link::linker::{copy_link, Link};
use crate::contxt::link::model::{find, find_from, label_names, with_label, DataView, LinkView};
use crate::ir::compile::{
    ret_insn, CompileError, Lowering, LoweringView, FIELD_BACK, FIELD_SIZE,
};
use crate::ir::types::Type;
use crate::ir::var::VarGen;
use crate::naming::{decimal, push_decimal};
use crate::target::call_conv::{
    arg_class, arg_reg, arg_slot, class_of_arg, earlier_of_file, CallConv, TargetCallConv,
};
use crate::target::encoder::{encode_all, first_rejected, machine_code_of};
use crate::target::isa::{Insn, Opcode, Operands};
use crate::target::registers::{frame_pointer, stack_pointer, Reg, RegClass, BP, SP};

verus! {

#[derive(Debug, Clone)]
struct Block {
    name: String,
    data: Vec<u8>,
}

impl View for Block {
    type V = DataView;

    closed spec fn view(&self) -> DataView {
        DataView { name: self.name@, data: self.data@ }
    }
}

/// The assembly buffer of one function.
///
/// The code holds the frame's entry in front once the function is framed. From
/// then on every return that is put into the buffer undoes the frame first, and
/// the frame's exit is added once more when the function is compiled, for code
/// that runs to its end. A buffer that holds a return already cannot be framed.
/// Relocations count from the start of the code.
#[derive(Debug, Clone)]
pub struct AsmFunction {
    name: String,
    gen: VecDeque<u8>,
    relocs: Vec<Link>,
    data: Vec<Block>,
    call: TargetCallConv,
    req_names: usize,
    stack_safe: bool,
    returned: bool,
    args: Vec<Type>,
    ret: Type,
}

/// A buffer as plain values.
pub struct AsmView {
    pub name: Seq<char>,
    pub code: Seq<u8>,
    pub relocs: Seq<LinkView>,
    pub data: Seq<DataView>,
    pub call: TargetCallConv,
    pub names: nat,
    pub framed: bool,
    pub returned: bool,
    pub args: Seq<Type>,
    pub ret: Type,
}

impl View for AsmFunction {
    type V = AsmView;

    closed spec fn view(&self) -> AsmView {
        AsmView {
            name: self.name@,
            code: self.gen@,
            relocs: self.relocs@.map_values(|l: Link| l@),
            data: self.data@.map_values(|b: Block| b@),
            call: self.call,
            names: self.req_names as nat,
            framed: self.stack_safe,
            returned: self.returned,
            args: self.args@,
            ret: self.ret,
        }
    }
}

/// The largest reservation that an instruction can hold as an immediate.
pub open spec fn max_shadow() -> int {
    i32::MAX as int
}

/// The entry of a frame that reserves `shadow` bytes: a landing pad for
/// indirect branches, the old frame pointer saved, the new one set, the stack
/// pointer lowered.
pub open spec fn frame_entry(shadow: usize) -> Seq<Insn> {
    seq![
        Insn { op: Opcode::Endbr64, operands: Operands::Bare },
        Insn { op: Opcode::PushR64, operands: Operands::Reg(frame_pointer()) },
        Insn {
            op: Opcode::MovRm64R64,
            operands: Operands::RegReg(frame_pointer(), stack_pointer()),
        },
        Insn {
            op: if shadow <= i8::MAX {
                Opcode::SubRm64Imm8
            } else {
                Opcode::SubRm64Imm32
            },
            operands: Operands::RegImm(stack_pointer(), shadow as i64),
        },
    ]
}

/// The exit of a frame that reserved `shadow` bytes: the stack pointer raised,
/// the old frame pointer restored, and the return.
pub open spec fn frame_exit(shadow: usize) -> Seq<Insn> {
    seq![
        Insn {
            op: if shadow <= i8::MAX {
                Opcode::AddRm64Imm8
            } else {
                Opcode::AddRm64Imm32
            },
            operands: Operands::RegImm(stack_pointer(), shadow as i64),
        },
        Insn { op: Opcode::PopR64, operands: Operands::Reg(frame_pointer()) },
        Insn { op: Opcode::Retnq, operands: Operands::Bare },
    ]
}

/// The relocations `relocs`, each moved `by` bytes further on.
pub open spec fn shifted(relocs: Seq<LinkView>, by: nat) -> Seq<LinkView> {
    relocs.map_values(|l: LinkView| LinkView { at: l.at + by, ..l })
}

/// Whether each of `relocs` can be moved `by` bytes further on.
pub open spec fn can_shift(relocs: Seq<LinkView>, by: nat) -> bool {
    forall|i: int| 0 <= i < relocs.len() ==> (#[trigger] relocs[i]).at + by <= usize::MAX
}

/// What the encoder makes of `insns`: their bytes, or the first instruction
/// that it refuses.
pub open spec fn assembled(insns: Seq<Insn>) -> Result<Seq<u8>, CompileError> {
    match machine_code_of(insns) {
        Some(code) => Ok(code),
        None => Err(
            CompileError::Unencodable(
                match first_rejected(insns) {
                    Some(insn) => insn,
                    None => insns[0],
                },
            ),
        ),
    }
}

/// The instructions `insns` with the frame undone before each return: each
/// return instruction is replaced by the frame's exit, which ends in it.
pub open spec fn with_exits(insns: Seq<Insn>, shadow: usize) -> Seq<Insn>
    decreases insns.len(),
{
    if insns.len() == 0 {
        Seq::empty()
    } else {
        with_exits(insns.drop_last(), shadow) + if insns.last() == ret_insn() {
            frame_exit(shadow)
        } else {
            seq![insns.last()]
        }
    }
}

/// Whether a return instruction is among `insns`.
pub open spec fn has_return(insns: Seq<Insn>) -> bool
    decreases insns.len(),
{
    insns.len() > 0 && (insns.last() == ret_insn() || has_return(insns.drop_last()))
}

/// The bytes of `insns` in a buffer for the convention `call`: as they are in
/// a buffer without a frame, and with the frame undone before each return in a
/// framed one.
pub open spec fn encoded_in(call: TargetCallConv, framed: bool, insns: Seq<Insn>) -> Result<
    Seq<u8>,
    CompileError,
> {
    if !framed {
        assembled(insns)
    } else if call.shadow > max_shadow() {
        Err(CompileError::OutOfRange)
    } else {
        assembled(with_exits(insns, call.shadow))
    }
}

/// The buffer with a frame. A framed buffer stays as it is. A buffer that
/// holds a return without the frame's exit cannot have a frame any more.
/// Another receives the frame's entry in front of its code, and its
/// relocations move on by the length of that entry.
pub open spec fn framed(a: AsmView) -> Result<AsmView, CompileError> {
    if a.framed {
        Ok(a)
    } else if a.returned {
        Err(CompileError::LateFrame)
    } else if a.call.shadow > max_shadow() {
        Err(CompileError::OutOfRange)
    } else {
        match assembled(frame_entry(a.call.shadow)) {
            Err(e) => Err(e),
            Ok(entry) => if can_shift(a.relocs, entry.len()) {
                Ok(
                    AsmView {
                        code: entry + a.code,
                        relocs: shifted(a.relocs, entry.len()),
                        framed: true,
                        ..a
                    },
                )
            } else {
                Err(CompileError::OutOfRange)
            },
        }
    }
}

/// The code of the whole function: the buffer's code, and the frame's exit
/// behind it where the function is framed.
pub open spec fn compiled(a: AsmView) -> Result<Seq<u8>, CompileError> {
    if !a.framed {
        Ok(a.code)
    } else if a.call.shadow > max_shadow() {
        Err(CompileError::OutOfRange)
    } else {
        match assembled(frame_exit(a.call.shadow)) {
            Err(e) => Err(e),
            Ok(exit) => Ok(a.code + exit),
        }
    }
}

/// The buffer with `insns` encoded behind its code. In a framed buffer each
/// return among them undoes the frame first; in another the buffer holds a
/// return from then on, if there is one among them.
pub open spec fn pushed(a: AsmView, insns: Seq<Insn>) -> Result<AsmView, CompileError> {
    match encoded_in(a.call, a.framed, insns) {
        Err(e) => Err(e),
        Ok(bytes) => Ok(
            AsmView {
                code: a.code + bytes,
                returned: a.returned || (!a.framed && has_return(insns)),
                ..a
            },
        ),
    }
}

/// The buffer with a relocation to `to` of the width `size`, whose field starts
/// `rel` bytes from the end of the code.
pub open spec fn with_reloc(a: AsmView, to: Seq<char>, rel: int, size: nat) -> Result<
    AsmView,
    CompileError,
> {
    let at = a.code.len() + rel;
    if 0 <= at <= usize::MAX {
        Ok(
            AsmView {
                relocs: a.relocs.push(
                    LinkView { from: a.name, to, at: at as nat, size, replace: false },
                ),
                ..a
            },
        )
    } else {
        Err(CompileError::OutOfRange)
    }
}

/// The buffer with the constant `bytes` under a new name, referred to by the
/// last four bytes of the code.
pub open spec fn with_constant(a: AsmView, bytes: Seq<u8>) -> Result<AsmView, CompileError> {
    if a.names >= usize::MAX {
        Err(CompileError::OutOfRange)
    } else {
        match with_reloc(a, decimal(a.names), -(FIELD_BACK as int), FIELD_SIZE as nat) {
            Err(e) => Err(e),
            Ok(b) => Ok(
                AsmView {
                    data: with_label(b.data, DataView { name: decimal(a.names), data: bytes }),
                    names: a.names + 1,
                    ..b
                },
            ),
        }
    }
}

/// The buffer after a lowering was taken in: the frame first, if the lowering
/// needs one; then the instructions. Where the lowering brings a constant, the
/// constant is recorded behind the first instruction, whose last four bytes
/// refer to it.
pub open spec fn emitted(a: AsmView, plan: LoweringView) -> Result<AsmView, CompileError> {
    match (if plan.frame {
        framed(a)
    } else {
        Ok(a)
    }) {
        Err(e) => Err(e),
        Ok(b) => match plan.constant {
            None => pushed(b, plan.insns),
            Some(bytes) => if plan.insns.len() == 0 {
                Err(CompileError::OutOfRange)
            } else {
                match pushed(b, plan.insns.take(1)) {
                    Err(e) => Err(e),
                    Ok(c) => match with_constant(c, bytes) {
                        Err(e) => Err(e),
                        Ok(d) => pushed(d, plan.insns.skip(1)),
                    },
                }
            },
        },
    }
}

/// The label under which the constant `constant` of the function `function`
/// is known outside the function: the two names with a dot between them, so
/// that the constants of two functions stay apart.
pub open spec fn constant_label(function: Seq<char>, constant: Seq<char>) -> Seq<char> {
    function + "."@ + constant
}

/// The constants of a buffer, each under its label.
pub open spec fn linked_data(a: AsmView) -> Seq<DataView> {
    a.data.map_values(
        |d: DataView| DataView { name: constant_label(a.name, d.name), data: d.data },
    )
}

/// A relocation of a buffer as the linker takes it: where it refers to a
/// constant of the buffer, it refers to the constant's label.
pub open spec fn linked_reloc(a: AsmView, l: LinkView) -> LinkView {
    LinkView {
        to: if find(label_names(a.data), l.to) is Some {
            constant_label(a.name, l.to)
        } else {
            l.to
        },
        ..l
    }
}

/// The relocations of a buffer as the linker takes them.
pub open spec fn linked_relocs(a: AsmView) -> Seq<LinkView> {
    a.relocs.map_values(|l: LinkView| linked_reloc(a, l))
}

/// The variable for argument `nr` of a function with arguments of the kinds
/// `args`: in the register of its class in its slot, if there is such an
/// argument and the calling convention has such a register.
pub open spec fn arg_of(call: TargetCallConv, args: Seq<Type>, nr: int) -> Option<VarGen> {
    if 0 <= nr < args.len() {
        match arg_reg(call.conv, arg_class(args[nr]), arg_slot(call.conv, args, nr)) {
            Some(reg) => Some(
                VarGen { on_stack: false, in_reg: true, stack_adr: 0, reg: Some(reg), typ: args[nr] },
            ),
            None => None,
        }
    } else {
        None
    }
}

/// Puts `bytes` behind what `gen` holds.
fn push_back_all(gen: &mut VecDeque<u8>, bytes: &Vec<u8>)
    ensures
        final(gen)@ == old(gen)@ + bytes@,
{
    let n = bytes.len();
    let mut i: usize = 0;
    while i < n
        invariant
            i <= n == bytes.len(),
            gen@ == old(gen)@ + bytes@.take(i as int),
        decreases n - i,
    {
        gen.push_back(bytes[i]);
        i += 1;
    }
    assert(bytes@.take(n as int) =~= bytes@);
}

/// Puts `bytes` in front of what `gen` holds, in their order.
fn push_front_all(gen: &mut VecDeque<u8>, bytes: &Vec<u8>)
    ensures
        final(gen)@ == bytes@ + old(gen)@,
{
    let n = bytes.len();
    let mut i: usize = n;
    while i > 0
        invariant
            i <= n == bytes.len(),
            gen@ == bytes@.subrange(i as int, n as int) + old(gen)@,
        decreases i,
    {
        i -= 1;
        gen.push_front(bytes[i]);
        assert(gen@ =~= bytes@.subrange(i as int, n as int) + old(gen)@);
    }
    assert(bytes@.subrange(0, n as int) =~= bytes@);
}

/// The bytes that `gen` holds, from front to back.
fn all_bytes(gen: &VecDeque<u8>) -> (bytes: Vec<u8>)
    ensures
        bytes@ == gen@,
{
    let n = gen.len();
    let mut bytes: Vec<u8> = Vec::new();
    let mut i: usize = 0;
    while i < n
        invariant
            i <= n == gen@.len(),
            bytes@ == gen@.take(i as int),
        decreases n - i,
    {
        bytes.push(gen[i]);
        i += 1;
    }
    assert(gen@.take(n as int) =~= gen@);
    bytes
}

/// Whether a return instruction is among `insns`.
fn holds_return(insns: &Vec<Insn>) -> (found: bool)
    ensures
        found == has_return(insns@),
{
    let ret = Insn { op: Opcode::Retnq, operands: Operands::Bare };
    let n = insns.len();
    let mut found = false;
    let mut i: usize = 0;
    while i < n
        invariant
            i <= n == insns.len(),
            ret == ret_insn(),
            found == has_return(insns@.take(i as int)),
        decreases n - i,
    {
        assert(insns@.take(i + 1).drop_last() =~= insns@.take(i as int));
        if insns[i] == ret {
            found = true;
        }
        i += 1;
    }
    assert(insns@.take(n as int) =~= insns@);
    found
}

/// Encodes `insns`, one after another.
fn assemble(insns: &Vec<Insn>) -> (bytes: Result<Vec<u8>, CompileError>)
    ensures
        match bytes {
            Ok(code) => assembled(insns@) == Ok::<Seq<u8>, CompileError>(code@),
            Err(e) => assembled(insns@) == Err::<Seq<u8>, CompileError>(e),
        },
{
    match encode_all(insns) {
        Ok(code) => Ok(code),
        Err(insn) => Err(CompileError::Unencodable(insn)),
    }
}

/// The entry of a frame that reserves `shadow` bytes.
fn entry_insns(shadow: usize) -> (insns: Vec<Insn>)
    requires
        shadow <= max_shadow(),
    ensures
        insns@ == frame_entry(shadow),
{
    let sp = Reg { class: RegClass::Gpr64, index: SP };
    let bp = Reg { class: RegClass::Gpr64, index: BP };
    let mut insns: Vec<Insn> = Vec::new();
    insns.push(Insn { op: Opcode::Endbr64, operands: Operands::Bare });
    insns.push(Insn { op: Opcode::PushR64, operands: Operands::Reg(bp) });
    insns.push(Insn { op: Opcode::MovRm64R64, operands: Operands::RegReg(bp, sp) });
    let lower = if shadow <= 127 {
        Opcode::SubRm64Imm8
    } else {
        Opcode::SubRm64Imm32
    };
    insns.push(Insn { op: lower, operands: Operands::RegImm(sp, shadow as i64) });
    assert(insns@ =~= frame_entry(shadow));
    insns
}

/// The exit of a frame that reserved `shadow` bytes.
fn exit_insns(shadow: usize) -> (insns: Vec<Insn>)
    requires
        shadow <= max_shadow(),
    ensures
        insns@ == frame_exit(shadow),
{
    let sp = Reg { class: RegClass::Gpr64, index: SP };
    let bp = Reg { class: RegClass::Gpr64, index: BP };
    let mut insns: Vec<Insn> = Vec::new();
    let raise = if shadow <= 127 {
        Opcode::AddRm64Imm8
    } else {
        Opcode::AddRm64Imm32
    };
    insns.push(Insn { op: raise, operands: Operands::RegImm(sp, shadow as i64) });
    insns.push(Insn { op: Opcode::PopR64, operands: Operands::Reg(bp) });
    insns.push(Insn { op: Opcode::Retnq, operands: Operands::Bare });
    assert(insns@ =~= frame_exit(shadow));
    insns
}

/// The relocations `relocs`, each moved `by` bytes further on; nothing, where
/// one of them cannot be moved so far.
fn shift_relocs(relocs: &Vec<Link>, by: usize) -> (moved: Option<Vec<Link>>)
    ensures
        match moved {
            Some(out) => can_shift(relocs@.map_values(|l: Link| l@), by as nat)
                && out@.map_values(|l: Link| l@) == shifted(
                relocs@.map_values(|l: Link| l@),
                by as nat,
            ),
            None => !can_shift(relocs@.map_values(|l: Link| l@), by as nat),
        },
{
    let n = relocs.len();
    let ghost views = relocs@.map_values(|l: Link| l@);
    let mut out: Vec<Link> = Vec::new();
    let mut i: usize = 0;
    while i < n
        invariant
            i <= n == relocs.len(),
            views == relocs@.map_values(|l: Link| l@),
            out.len() == i,
            forall|k: int| 0 <= k < i ==> (#[trigger] views[k]).at + by <= usize::MAX,
            forall|k: int|
                0 <= k < i ==> (#[trigger] out[k])@ == (LinkView {
                    at: views[k].at + by as nat,
                    ..views[k]
                }),
        decreases n - i,
    {
        let link = &relocs[i];
        match link.at.checked_add(by) {
            Some(at) => {
                out.push(
                    Link {
                        from: link.from.clone(),
                        to: link.to.clone(),
                        at,
                        size: link.size,
                        replace: link.replace,
                    },
                );
            },
            None => {
                assert(views[i as int].at + by > usize::MAX);
                return None;
            },
        }
        i += 1;
    }
    assert(out@.map_values(|l: Link| l@) =~= shifted(views, by as nat));
    Some(out)
}

impl AsmFunction {
    /// An empty buffer for the function `name`, with the calling convention of
    /// `contxt`, no arguments and a result of 32 bits without sign.
    pub fn new(name: &str, contxt: &Context) -> (buffer: Self)
        ensures
            buffer@ == (AsmView {
                name: name@,
                code: Seq::empty(),
                relocs: Seq::empty(),
                data: Seq::empty(),
                call: contxt.spec_call(),
                names: 0,
                framed: false,
                returned: false,
                args: Seq::empty(),
                ret: Type::u32,
            }),
    {
        let buffer = Self {
            name: String::from_str(name),
            gen: VecDeque::new(),
            relocs: Vec::new(),
            data: Vec::new(),
            call: contxt.call_conv(),
            req_names: 0,
            stack_safe: false,
            returned: false,
            args: Vec::new(),
            ret: Type::u32,
        };
        assert(buffer@.relocs =~= Seq::<LinkView>::empty());
        assert(buffer@.data =~= Seq::<DataView>::empty());
        buffer
    }

    /// The name of the function.
    pub fn name(&self) -> (name: &str)
        ensures
            name@ == self@.name,
    {
        self.name.as_str()
    }

    /// The calling convention that the function is compiled for.
    pub fn call(&self) -> (call: TargetCallConv)
        ensures
            call == self@.call,
    {
        self.call
    }

    /// Sets the kinds of the arguments and of the result.
    pub fn set_signature(&mut self, args: Vec<Type>, ret: Type)
        ensures
            final(self)@ == (AsmView { args: args@, ret, ..old(self)@ }),
    {
        self.args = args;
        self.ret = ret;
    }

    /// What a frame would change: the entry's bytes and the relocations moved on
    /// by their length; nothing, where the buffer is framed already.
    fn plan_frame(&self) -> (change: Result<Option<(Vec<u8>, Vec<Link>)>, CompileError>)
        ensures
            match change {
                Ok(Some((entry, relocs))) => framed(self@) == Ok::<AsmView, CompileError>(
                    AsmView {
                        code: entry@ + self@.code,
                        relocs: relocs@.map_values(|l: Link| l@),
                        framed: true,
                        ..self@
                    },
                ) && !self@.framed,
                Ok(None) => framed(self@) == Ok::<AsmView, CompileError>(self@) && self@.framed,
                Err(e) => framed(self@) == Err::<AsmView, CompileError>(e),
            },
    {
        if self.stack_safe {
            return Ok(None);
        }
        if self.returned {
            return Err(CompileError::LateFrame);
        }
        if self.call.shadow as u64 > 0x7fff_ffffu64 {
            return Err(CompileError::OutOfRange);
        }
        let entry = match assemble(&entry_insns(self.call.shadow)) {
            Ok(entry) => entry,
            Err(e) => {
                return Err(e);
            },
        };
        match shift_relocs(&self.relocs, entry.len()) {
            Some(relocs) => Ok(Some((entry, relocs))),
            None => Err(CompileError::OutOfRange),
        }
    }

    /// Gives the function a frame: it saves the frame pointer and reserves the
    /// stack space of the calling convention on entry, and undoes both before it
    /// returns. A function that has a frame keeps it.
    ///
    /// Fails, and changes nothing, where the buffer holds a return without the
    /// frame's exit, the frame's entry cannot be encoded, or a relocation cannot
    /// be moved behind it.
    pub fn make_stack_safe(&mut self) -> (done: Result<(), CompileError>)
        ensures
            match done {
                Ok(()) => framed(old(self)@) == Ok::<AsmView, CompileError>(final(self)@),
                Err(e) => framed(old(self)@) == Err::<AsmView, CompileError>(e) && final(self)@
                    == old(self)@,
            },
    {
        match self.plan_frame() {
            Err(e) => Err(e),
            Ok(None) => Ok(()),
            Ok(Some((entry, relocs))) => {
                push_front_all(&mut self.gen, &entry);
                self.relocs = relocs;
                self.stack_safe = true;
                Ok(())
            },
        }
    }

    /// Encodes one instruction behind the code; in a framed buffer a return
    /// undoes the frame first. Fails, and changes nothing, where the encoder
    /// refuses the instruction.
    pub fn push(&mut self, insn: Insn) -> (done: Result<(), CompileError>)
        ensures
            match done {
                Ok(()) => pushed(old(self)@, seq![insn]) == Ok::<AsmView, CompileError>(
                    final(self)@,
                ),
                Err(e) => pushed(old(self)@, seq![insn]) == Err::<AsmView, CompileError>(e)
                    && final(self)@ == old(self)@,
            },
    {
        let mut insns: Vec<Insn> = Vec::new();
        insns.push(insn);
        assert(insns@ =~= seq![insn]);
        match self.encode_in(self.stack_safe, &insns) {
            Ok(bytes) => {
                push_back_all(&mut self.gen, &bytes);
                self.returned = self.returned || (!self.stack_safe && holds_return(&insns));
                Ok(())
            },
            Err(e) => Err(e),
        }
    }

    /// Encodes `insns` for this buffer, framed or not as `framed` says.
    fn encode_in(&self, framed: bool, insns: &Vec<Insn>) -> (bytes: Result<Vec<u8>, CompileError>)
        ensures
            match bytes {
                Ok(code) => encoded_in(self@.call, framed, insns@) == Ok::<Seq<u8>, CompileError>(
                    code@,
                ),
                Err(e) => encoded_in(self@.call, framed, insns@) == Err::<Seq<u8>, CompileError>(
                    e,
                ),
            },
    {
        if !framed {
            return assemble(insns);
        }
        if self.call.shadow as u64 > 0x7fff_ffffu64 {
            return Err(CompileError::OutOfRange);
        }
        let shadow = self.call.shadow;
        let ret = Insn { op: Opcode::Retnq, operands: Operands::Bare };
        let n = insns.len();
        let mut out: Vec<Insn> = Vec::new();
        let mut i: usize = 0;
        while i < n
            invariant
                i <= n == insns.len(),
                shadow <= max_shadow(),
                ret == ret_insn(),
                out@ == with_exits(insns@.take(i as int), shadow),
            decreases n - i,
        {
            assert(insns@.take(i + 1).drop_last() =~= insns@.take(i as int));
            if insns[i] == ret {
                let mut exit = exit_insns(shadow);
                out.append(&mut exit);
            } else {
                let ghost before = out@;
                out.push(insns[i]);
                assert(out@ =~= before + seq![insns@[i as int]]);
            }
            i += 1;
        }
        assert(insns@.take(n as int) =~= insns@);
        assemble(&out)
    }

    /// Records a relocation to `to` of the width `size`, whose field starts `rel`
    /// bytes from the end of the code as it stands. Fails, and changes nothing,
    /// where the field would start before the code or beyond what the machine can
    /// count.
    pub fn reloc_at_current_pos(&mut self, to: &str, rel: isize, size: usize) -> (done: Result<
        (),
        CompileError,
    >)
        ensures
            match done {
                Ok(()) => with_reloc(old(self)@, to@, rel as int, size as nat) == Ok::<
                    AsmView,
                    CompileError,
                >(final(self)@),
                Err(e) => with_reloc(old(self)@, to@, rel as int, size as nat) == Err::<
                    AsmView,
                    CompileError,
                >(e) && final(self)@ == old(self)@,
            },
    {
        let at = self.gen.len() as i128 + rel as i128;
        if at < 0 || at > usize::MAX as i128 {
            return Err(CompileError::OutOfRange);
        }
        let ghost before = self@;
        let link = Link {
            from: self.name.clone(),
            to: String::from_str(to),
            at: at as usize,
            size,
            replace: false,
        };
        self.relocs.push(link);
        assert(self@.relocs =~= before.relocs.push(link@));
        assert(self@.data =~= before.data);
        Ok(())
    }

    /// The index of the data block `name`.
    fn block_index(&self, name: &String) -> (found: Option<usize>)
        ensures
            match found {
                Some(i) => find(label_names(self@.data), name@) == Some(i as int) && i
                    < self.data.len(),
                None => find(label_names(self@.data), name@) is None,
            },
    {
        let n = self.data.len();
        let ghost names = label_names(self@.data);
        let mut i: usize = 0;
        while i < n
            invariant
                i <= n == self.data.len(),
                names == label_names(self@.data),
                names.len() == n,
                find(names, name@) == find_from(names, name@, i as int),
            decreases n - i,
        {
            if self.data[i].name == *name {
                return Some(i);
            }
            i += 1;
        }
        None
    }

    /// Whether the code refers to a constant called `name`.
    pub fn has_constant(&self, name: &String) -> (yes: bool)
        ensures
            yes == (find(label_names(self@.data), name@) is Some),
    {
        match self.block_index(name) {
            Some(_) => true,
            None => false,
        }
    }

    /// Sets the data block `name` to `bytes`.
    fn set_block(&mut self, name: String, bytes: Vec<u8>)
        ensures
            final(self)@ == (AsmView {
                data: with_label(old(self)@.data, DataView { name: name@, data: bytes@ }),
                ..old(self)@
            }),
    {
        let ghost before = self@;
        let found = self.block_index(&name);
        let block = Block { name, data: bytes };
        match found {
            Some(i) => {
                self.data.set(i, block);
                assert(self@.data =~= before.data.update(i as int, block@));
            },
            None => {
                self.data.push(block);
                assert(self@.data =~= before.data.push(block@));
            },
        }
        assert(self@.relocs =~= before.relocs);
    }

    /// A new name for a constant: the count of the names given so far, in decimal.
    pub fn req_name(&mut self) -> (name: String)
        requires
            old(self)@.names < usize::MAX,
        ensures
            name@ == decimal(old(self)@.names),
            final(self)@ == (AsmView { names: old(self)@.names + 1, ..old(self)@ }),
    {
        let ghost before = self@;
        let mut name = String::new();
        push_decimal(&mut name, self.req_names);
        assert(name@ =~= decimal(before.names));
        self.req_names = self.req_names + 1;
        assert(self@.relocs =~= before.relocs);
        assert(self@.data =~= before.data);
        name
    }

    /// Takes a lowering in: the frame first, if the lowering needs one, then the
    /// instructions, encoded behind the code, each return with the frame's exit
    /// before it where the buffer is framed; and the constant, if it brings one,
    /// under a new name, with a relocation of the last four bytes of the first
    /// instruction.
    ///
    /// Fails, and changes nothing, where an instruction cannot be encoded, the
    /// frame cannot be had, a constant comes without an instruction, or a count
    /// runs over.
    pub fn emit(&mut self, plan: &Lowering) -> (done: Result<(), CompileError>)
        ensures
            match done {
                Ok(()) => emitted(old(self)@, plan@) == Ok::<AsmView, CompileError>(
                    final(self)@,
                ),
                Err(e) => emitted(old(self)@, plan@) == Err::<AsmView, CompileError>(e)
                    && final(self)@ == old(self)@,
            },
    {
        let ghost a = self@;
        let frame = if plan.frame {
            match self.plan_frame() {
                Ok(change) => change,
                Err(e) => {
                    return Err(e);
                },
            }
        } else {
            None
        };
        let ghost b = if plan.frame {
            framed(a)->Ok_0
        } else {
            a
        };
        let entry_len: usize = match &frame {
            Some((entry, _)) => entry.len(),
            None => 0,
        };
        assert(b.code.len() == entry_len + a.code.len());
        let in_frame = plan.frame || self.stack_safe;
        assert(in_frame == b.framed);
        match &plan.constant {
            None => {
                let bytes = match self.encode_in(in_frame, &plan.insns) {
                    Ok(bytes) => bytes,
                    Err(e) => {
                        return Err(e);
                    },
                };
                self.commit_frame(frame);
                assert(self@ == b);
                push_back_all(&mut self.gen, &bytes);
                self.returned = self.returned || (!in_frame && holds_return(&plan.insns));
                Ok(())
            },
            Some(constant) => {
                if plan.insns.len() == 0 {
                    return Err(CompileError::OutOfRange);
                }
                let mut head: Vec<Insn> = Vec::new();
                head.push(plan.insns[0]);
                assert(head@ =~= plan@.insns.take(1));
                let head_bytes = match self.encode_in(in_frame, &head) {
                    Ok(bytes) => bytes,
                    Err(e) => {
                        return Err(e);
                    },
                };
                if self.req_names == usize::MAX {
                    return Err(CompileError::OutOfRange);
                }
                let at = entry_len as i128 + self.gen.len() as i128 + head_bytes.len() as i128
                    - FIELD_BACK as i128;
                if at < 0 || at > usize::MAX as i128 {
                    return Err(CompileError::OutOfRange);
                }
                let mut tail: Vec<Insn> = Vec::new();
                let n = plan.insns.len();
                let mut i: usize = 1;
                while i < n
                    invariant
                        1 <= i <= n == plan.insns.len(),
                        tail@ == plan.insns@.subrange(1, i as int),
                    decreases n - i,
                {
                    tail.push(plan.insns[i]);
                    i += 1;
                }
                assert(tail@ =~= plan@.insns.skip(1));
                let tail_bytes = match self.encode_in(in_frame, &tail) {
                    Ok(bytes) => bytes,
                    Err(e) => {
                        return Err(e);
                    },
                };
                self.commit_frame(frame);
                assert(self@ == b);
                push_back_all(&mut self.gen, &head_bytes);
                self.returned = self.returned || (!in_frame && holds_return(&head));
                let ghost c = self@;
                assert(pushed(b, plan@.insns.take(1)) == Ok::<AsmView, CompileError>(c));
                let label = self.req_name();
                let link = Link {
                    from: self.name.clone(),
                    to: label.clone(),
                    at: at as usize,
                    size: FIELD_SIZE,
                    replace: false,
                };
                let ghost before = self@;
                self.relocs.push(link);
                assert(self@.relocs =~= before.relocs.push(link@));
                assert(self@.data =~= before.data);
                self.set_block(label, copy_bytes(constant));
                assert(with_constant(c, constant@) == Ok::<AsmView, CompileError>(self@));
                push_back_all(&mut self.gen, &tail_bytes);
                self.returned = self.returned || (!in_frame && holds_return(&tail));
                Ok(())
            },
        }
    }

    /// Puts a planned frame in place.
    fn commit_frame(&mut self, frame: Option<(Vec<u8>, Vec<Link>)>)
        ensures
            match frame {
                Some((entry, relocs)) => final(self)@ == (AsmView {
                    code: entry@ + old(self)@.code,
                    relocs: relocs@.map_values(|l: Link| l@),
                    framed: true,
                    ..old(self)@
                }),
                None => final(self)@ == old(self)@,
            },
    {
        match frame {
            Some((entry, relocs)) => {
                push_front_all(&mut self.gen, &entry);
                self.relocs = relocs;
                self.stack_safe = true;
            },
            None => {},
        }
    }

    /// The code of the whole function: the buffer's code, and the frame's exit
    /// behind it where the function is framed. The buffer stays as it is.
    pub fn compile(&mut self) -> (code: Result<Vec<u8>, CompileError>)
        ensures
            final(self)@ == old(self)@,
            match code {
                Ok(bytes) => compiled(old(self)@) == Ok::<Seq<u8>, CompileError>(bytes@),
                Err(e) => compiled(old(self)@) == Err::<Seq<u8>, CompileError>(e),
            },
    {
        self.code()
    }

    /// The code of the whole function, as `compile` gives it.
    pub fn code(&self) -> (code: Result<Vec<u8>, CompileError>)
        ensures
            match code {
                Ok(bytes) => compiled(self@) == Ok::<Seq<u8>, CompileError>(bytes@),
                Err(e) => compiled(self@) == Err::<Seq<u8>, CompileError>(e),
            },
    {
        let mut code = all_bytes(&self.gen);
        if self.stack_safe {
            if self.call.shadow as u64 > 0x7fff_ffffu64 {
                return Err(CompileError::OutOfRange);
            }
            match assemble(&exit_insns(self.call.shadow)) {
                Ok(exit) => {
                    let mut exit = exit;
                    code.append(&mut exit);
                },
                Err(e) => {
                    return Err(e);
                },
            }
        }
        Ok(code)
    }

    /// The relocations, counted from the start of the code.
    pub fn relocs(&self) -> (relocs: Vec<Link>)
        ensures
            relocs@.map_values(|l: Link| l@) == self@.relocs,
    {
        let n = self.relocs.len();
        let mut relocs: Vec<Link> = Vec::new();
        let mut i: usize = 0;
        while i < n
            invariant
                i <= n == self.relocs.len(),
                relocs.len() == i,
                forall|k: int| 0 <= k < i ==> (#[trigger] relocs[k])@ == self.relocs[k]@,
            decreases n - i,
        {
            relocs.push(copy_link(&self.relocs[i]));
            i += 1;
        }
        assert(relocs@.map_values(|l: Link| l@) =~= self@.relocs);
        relocs
    }

    /// The constants that the code refers to, each with its name.
    pub fn data(&self) -> (data: Vec<(String, Vec<u8>)>)
        ensures
            data@.map_values(|d: (String, Vec<u8>)| DataView { name: d.0@, data: d.1@ })
                == self@.data,
    {
        let n = self.data.len();
        let mut data: Vec<(String, Vec<u8>)> = Vec::new();
        let mut i: usize = 0;
        while i < n
            invariant
                i <= n == self.data.len(),
                data.len() == i,
                forall|k: int|
                    0 <= k < i ==> (#[trigger] data[k]).0@ == self.data[k].name@ && data[k].1@
                        == self.data[k].data@,
            decreases n - i,
        {
            data.push((self.data[i].name.clone(), copy_bytes(&self.data[i].data)));
            i += 1;
        }
        assert(data@.map_values(|d: (String, Vec<u8>)| DataView { name: d.0@, data: d.1@ })
            =~= self@.data);
        data
    }

    /// The label of the constant `constant` of this function.
    pub fn label_of(&self, constant: &str) -> (label: String)
        ensures
            label@ == constant_label(self@.name, constant@),
    {
        String::from_str(self.name.as_str()).concat(".").concat(constant)
    }

    /// The relocations as the linker takes them: one that refers to a constant
    /// of this function refers to the constant's label.
    pub fn linked_relocs(&self) -> (relocs: Vec<Link>)
        ensures
            relocs@.map_values(|l: Link| l@) == linked_relocs(self@),
    {
        let n = self.relocs.len();
        let mut relocs: Vec<Link> = Vec::new();
        let mut i: usize = 0;
        while i < n
            invariant
                i <= n == self.relocs.len(),
                relocs.len() == i,
                forall|k: int|
                    0 <= k < i ==> (#[trigger] relocs[k])@ == linked_reloc(self@, self.relocs[k]@),
            decreases n - i,
        {
            let link = &self.relocs[i];
            let to = if self.has_constant(&link.to) {
                self.label_of(link.to.as_str())
            } else {
                link.to.clone()
            };
            relocs.push(
                Link {
                    from: link.from.clone(),
                    to,
                    at: link.at,
                    size: link.size,
                    replace: link.replace,
                },
            );
            i += 1;
        }
        assert(relocs@.map_values(|l: Link| l@) =~= linked_relocs(self@));
        relocs
    }

    /// The constants that the code refers to, each with its label.
    pub fn linked_data(&self) -> (data: Vec<(String, Vec<u8>)>)
        ensures
            data@.map_values(|d: (String, Vec<u8>)| DataView { name: d.0@, data: d.1@ })
                == linked_data(self@),
    {
        let n = self.data.len();
        let mut data: Vec<(String, Vec<u8>)> = Vec::new();
        let mut i: usize = 0;
        while i < n
            invariant
                i <= n == self.data.len(),
                data.len() == i,
                forall|k: int|
                    0 <= k < i ==> (#[trigger] data[k]).0@ == constant_label(
                        self.name@,
                        self.data[k].name@,
                    ) && data[k].1@ == self.data[k].data@,
            decreases n - i,
        {
            data.push((self.label_of(self.data[i].name.as_str()), copy_bytes(&self.data[i].data)));
            i += 1;
        }
        assert(data@.map_values(|d: (String, Vec<u8>)| DataView { name: d.0@, data: d.1@ })
            =~= linked_data(self@));
        data
    }

    /// The variable for argument `nr`: in the register of its class in its slot.
    /// Under System V the slot is the number of earlier arguments of the same
    /// file, whole numbers or floating-point numbers; under Windows it is the
    /// position. There is none where the function has no such argument, or the
    /// calling convention no register for the slot.
    pub fn arg(&self, nr: usize) -> (var: Option<VarGen>)
        ensures
            var == arg_of(self@.call, self@.args, nr as int),
    {
        if nr >= self.args.len() {
            return None;
        }
        let typ = self.args[nr];
        let float = typ.is_float();
        let mut index: usize = 0;
        let mut earlier: usize = 0;
        while index < nr
            invariant
                index <= nr < self.args.len(),
                earlier <= index,
                earlier == earlier_of_file(self.args@, float, index as int),
            decreases nr - index,
        {
            if self.args[index].is_float() == float {
                earlier += 1;
            }
            index += 1;
        }
        let slot = match self.call.conv {
            CallConv::SystemV => earlier,
            CallConv::WindowsFastcall => nr,
        };
        match self.call.arg(class_of_arg(typ), slot) {
            Some(reg) => Some(VarGen::new_reg(typ, reg)),
            None => None,
        }
    }

}

} // verus!
