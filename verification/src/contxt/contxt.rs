//! The context: the functions of a session and its calling convention.

use vstd::prelude::*;
use vstd::string::StringExecFns;
use target_lexicon::Triple;
use crate::contxt::jit::JitFunction;
use crate::contxt::link::linker::{copy_link, JitLinker, Link, LinkError};
use crate::contxt::link::model::{
    link_result, with_func, with_label, DataView, FuncView, LinkFault, LinkerView,
};
use crate::contxt::obj::decl::{Decl, Scope};
use crate::contxt::obj::object_builder::{BinFormat, ObjectBuilder};
use crate::contxt::obj::plan::BuilderView;
use crate::contxt::object::{
    all_links, declared, lemma_all_prepared, lemma_declare_fault_stays,
    lemma_declared_has_no_links, lemma_prepared_keeps, lemma_prepared_step, new_name,
    object_links, object_of, prepared,
    prepared_count, prepared_first, renamed_function, with_constants, with_function,
};
use crate::contxt::link::bytes::copy_bytes;
use crate::func::asmfunc::{compiled, linked_data, linked_relocs, AsmView};
use crate::func::func::{lowered_function, lowering_fault, Function, FunctionView};
use crate::ir::compile::CompileError;
use crate::ir::types::Type;
use crate::target::call_conv::{CallConv, TargetCallConv, SHADOW_SPACE};
use crate::target::triple::{
    arch_name_of, arch_of, call_conv_of, format_of, triple_arch, triple_arch_name,
    triple_call_conv, Arch,
};

verus! {

/// Why there is no context for a target.
#[derive(Debug, Clone, PartialEq, Eq)]
pub enum ContextError {
    /// The architecture, named here, is not x86.
    UnsupportedArchitecture(String),
    /// The calling convention is neither that of System V nor that of Windows.
    UnsupportedCallingConvention(String),
}

/// A context error as plain values.
pub enum ContextFault {
    UnsupportedArchitecture(Seq<char>),
    UnsupportedCallingConvention(Seq<char>),
}

impl View for ContextError {
    type V = ContextFault;

    open spec fn view(&self) -> ContextFault {
        match self {
            ContextError::UnsupportedArchitecture(arch) => ContextFault::UnsupportedArchitecture(
                arch@,
            ),
            ContextError::UnsupportedCallingConvention(call) => {
                ContextFault::UnsupportedCallingConvention(call@)
            },
        }
    }
}

impl ContextError {
    /// The message for this error.
    pub open spec fn spec_message(self) -> Seq<char> {
        match self {
            ContextError::UnsupportedArchitecture(arch) => "given architecture "@ + arch@
                + " isn't currently supported"@,
            ContextError::UnsupportedCallingConvention(call) => "given calling convention "@
                + call@ + " isn't currently supported"@,
        }
    }

    /// The message for this error.
    pub fn message(&self) -> (text: String)
        ensures
            text@ == self.spec_message(),
    {
        match self {
            ContextError::UnsupportedArchitecture(arch) => {
                String::from_str("given architecture ").concat(arch.as_str()).concat(
                    " isn't currently supported",
                )
            },
            ContextError::UnsupportedCallingConvention(call) => {
                String::from_str("given calling convention ").concat(call.as_str()).concat(
                    " isn't currently supported",
                )
            },
        }
    }
}

/// Why a function cannot be had from a context.
#[derive(Debug, Clone, PartialEq, Eq)]
pub enum BuildError {
    /// A function cannot be compiled.
    Compile(CompileError),
    /// The compiled functions cannot be linked.
    Link(LinkError),
}

/// A build error as plain values.
pub enum BuildFault {
    Compile(CompileError),
    Link(LinkFault),
}

impl View for BuildError {
    type V = BuildFault;

    open spec fn view(&self) -> BuildFault {
        match self {
            BuildError::Compile(e) => BuildFault::Compile(*e),
            BuildError::Link(e) => BuildFault::Link(e@),
        }
    }
}

impl BuildError {
    /// The message for this error: that of the fault it holds.
    pub open spec fn spec_message(self) -> Seq<char> {
        match self {
            BuildError::Compile(e) => e.spec_message(),
            BuildError::Link(e) => e.spec_message(),
        }
    }

    /// The message for this error.
    pub fn message(&self) -> (text: String)
        ensures
            text@ == self.spec_message(),
    {
        match self {
            BuildError::Compile(e) => e.message(),
            BuildError::Link(e) => e.message(),
        }
    }
}

/// Holds the functions of a session, and the calling convention and the target
/// that they are compiled for.
pub struct Context {
    funcs: Vec<Function>,
    pub call: TargetCallConv,
    arch: Arch,
    format: BinFormat,
}

/// A calling convention, or the name of one that is not supported, as plain values.
pub open spec fn call_view(call: Result<CallConv, String>) -> Result<CallConv, Seq<char>> {
    match call {
        Ok(conv) => Ok(conv),
        Err(name) => Err(name@),
    }
}

/// A context as plain values.
pub struct ContextView {
    pub funcs: Seq<FunctionView>,
    pub call: TargetCallConv,
    pub arch: Arch,
    pub format: BinFormat,
}

impl View for Context {
    type V = ContextView;

    closed spec fn view(&self) -> ContextView {
        ContextView {
            funcs: self.funcs@.map_values(|f: Function| f@),
            call: self.call,
            arch: self.arch,
            format: self.format,
        }
    }
}

/// The name by which an unsupported calling convention is reported: its own,
/// and `unknown` where it has none.
pub open spec fn reported_name(name: Seq<char>) -> Seq<char> {
    if name.len() == 0 {
        "unknown"@
    } else {
        name
    }
}

/// What is asked of a target: the context, or why there is none. The
/// architecture must be x86, and the calling convention that of System V or
/// that of Windows; of another there is only the name.
pub open spec fn context_for(
    arch: Arch,
    arch_name: Seq<char>,
    call: Result<CallConv, Seq<char>>,
    format: BinFormat,
) -> Result<ContextView, ContextFault> {
    if arch == Arch::Other {
        Err(ContextFault::UnsupportedArchitecture(arch_name))
    } else {
        match call {
            Err(name) => Err(ContextFault::UnsupportedCallingConvention(reported_name(name))),
            Ok(conv) => Ok(
                ContextView {
                    funcs: Seq::empty(),
                    call: TargetCallConv { conv, shadow: SHADOW_SPACE },
                    arch,
                    format,
                },
            ),
        }
    }
}

/// The labels `labels` with the first `k` of `data` added, one after another.
pub open spec fn with_labels(labels: Seq<DataView>, data: Seq<DataView>, k: nat) -> Seq<DataView>
    decreases k,
{
    if k == 0 {
        labels
    } else {
        with_label(with_labels(labels, data, (k - 1) as nat), data[k - 1])
    }
}

/// The linker `l` with the function `f` in it: `f` is lowered and compiled; its
/// code goes in under the name of its buffer, as entry if that is `name`; its
/// relocations go behind those there, and its constants among the labels, each
/// under the label that keeps it apart from the constants of other functions.
pub open spec fn gathered_one(l: LinkerView, f: FunctionView, name: Seq<char>) -> Result<
    LinkerView,
    CompileError,
> {
    match lowering_fault(f) {
        Some(e) => Err(e),
        None => {
            let buffer = lowered_function(f).buffer;
            match compiled(buffer) {
                Err(e) => Err(e),
                Ok(code) => Ok(
                    LinkerView {
                        funcs: with_func(
                            l.funcs,
                            FuncView { name: buffer.name, code, entry: buffer.name == name },
                        ),
                        labels: with_labels(l.labels, linked_data(buffer), buffer.data.len()),
                        relocs: l.relocs + linked_relocs(buffer),
                    },
                ),
            }
        },
    }
}

/// The linker that holds the first `k` functions of `funcs`, or the first fault
/// of compiling them.
pub open spec fn gathered(funcs: Seq<FunctionView>, name: Seq<char>, k: nat) -> Result<
    LinkerView,
    CompileError,
>
    decreases k,
{
    if k == 0 {
        Ok(LinkerView { funcs: Seq::empty(), labels: Seq::empty(), relocs: Seq::empty() })
    } else {
        match gathered(funcs, name, (k - 1) as nat) {
            Err(e) => Err(e),
            Ok(l) => gathered_one(l, funcs[k - 1], name),
        }
    }
}

/// The image of all functions of `funcs`, with the function `name` as entry: each
/// function is lowered and compiled, in order, and all are linked.
pub open spec fn jit_image(funcs: Seq<FunctionView>, name: Seq<char>) -> Result<
    Seq<u8>,
    BuildFault,
> {
    match gathered(funcs, name, funcs.len()) {
        Err(e) => Err(BuildFault::Compile(e)),
        Ok(l) => match link_result(l) {
            Err(e) => Err(BuildFault::Link(e)),
            Ok(image) => Ok(image),
        },
    }
}

/// How many functions of `funcs` are lowered when they are compiled in order:
/// all, or those up to the first that fails.
pub open spec fn reached(funcs: Seq<FunctionView>, name: Seq<char>, k: nat) -> nat
    decreases k,
{
    if k == 0 {
        0
    } else if gathered(funcs, name, (k - 1) as nat) is Err {
        reached(funcs, name, (k - 1) as nat)
    } else {
        k
    }
}

/// The functions `funcs` with the first `k` lowered.
pub open spec fn lowered_first(funcs: Seq<FunctionView>, k: nat) -> Seq<FunctionView> {
    Seq::new(
        funcs.len(),
        |i: int|
            if i < k {
                lowered_function(funcs[i])
            } else {
                funcs[i]
            },
    )
}

impl Context {
    /// The calling convention of the session.
    pub closed spec fn spec_call(&self) -> TargetCallConv {
        self.call
    }

    /// The calling convention of the session.
    pub fn call_conv(&self) -> (call: TargetCallConv)
        ensures
            call == self.spec_call(),
            call == self@.call,
    {
        self.call
    }

    /// The architecture of the target.
    pub fn arch(&self) -> (arch: Arch)
        ensures
            arch == self@.arch,
    {
        self.arch
    }

    /// The format of the object files of the target.
    pub fn format(&self) -> (format: BinFormat)
        ensures
            format == self@.format,
    {
        self.format
    }

    /// The context for the target `target`: its architecture must be x86, and its
    /// calling convention that of System V or that of Windows. The context holds
    /// no function; its object files have the format that the triple names, if
    /// it names one of the three.
    ///
    /// Fails with `UnsupportedArchitecture` and the architecture's name where the
    /// architecture is another, else with `UnsupportedCallingConvention` and the
    /// convention's name where the calling convention is.
    pub fn new(target: Triple) -> (contxt: Result<Self, ContextError>)
        ensures
            contxt is Ok <==> arch_of(target) != Arch::Other && call_conv_of(target) is Ok,
            match contxt {
                Ok(c) => {
                    &&& context_for(
                        arch_of(target),
                        arch_name_of(target),
                        call_conv_of(target),
                        c@.format,
                    ) == Ok::<ContextView, ContextFault>(c@)
                    &&& format_of(target) matches Some(named) ==> c@.format == named
                },
                Err(e) => context_for(
                    arch_of(target),
                    arch_name_of(target),
                    call_conv_of(target),
                    BinFormat::Elf,
                ) == Err::<ContextView, ContextFault>(e@),
            },
    {
        let arch = triple_arch(&target);
        let arch_name = triple_arch_name(&target);
        let call = triple_call_conv(&target);
        let format = BinFormat::of_triple(&target);
        Context::for_target(arch, arch_name, call, format)
    }

    /// The context for a target of the architecture `arch`, called `arch_name`,
    /// with the calling convention `call`, or the name of a convention that is
    /// not supported, and object files of the format `format`.
    pub fn for_target(
        arch: Arch,
        arch_name: String,
        call: Result<CallConv, String>,
        format: BinFormat,
    ) -> (contxt: Result<Self, ContextError>)
        ensures
            match contxt {
                Ok(c) => context_for(arch, arch_name@, call_view(call), format) == Ok::<
                    ContextView,
                    ContextFault,
                >(c@),
                Err(e) => context_for(arch, arch_name@, call_view(call), format) == Err::<
                    ContextView,
                    ContextFault,
                >(e@),
            },
    {
        match arch {
            Arch::Other => {
                return Err(ContextError::UnsupportedArchitecture(arch_name));
            },
            _ => {},
        }
        match call {
            Err(name) => {
                if name.as_str().is_empty() {
                    Err(ContextError::UnsupportedCallingConvention(String::from_str("unknown")))
                } else {
                    Err(ContextError::UnsupportedCallingConvention(name))
                }
            },
            Ok(conv) => {
                let contxt = Self {
                    funcs: Vec::new(),
                    call: TargetCallConv::new(conv),
                    arch,
                    format,
                };
                assert(contxt@.funcs =~= Seq::<FunctionView>::empty());
                Ok(contxt)
            },
        }
    }

    /// Adds a function called `name` with arguments of the kinds `args` and a
    /// result of the kind `ret`, behind those already there, and hands it out.
    pub fn add_function(&mut self, name: &str, args: Vec<Type>, ret: Type) -> (func: &mut Function)
        ensures
            func@ == (FunctionView {
                name: name@,
                buffer: AsmView {
                    name: name@,
                    code: Seq::empty(),
                    relocs: Seq::empty(),
                    data: Seq::empty(),
                    call: old(self)@.call,
                    names: 0,
                    framed: false,
                    returned: false,
                    args: Seq::empty(),
                    ret: Type::u32,
                },
                ir: Seq::empty(),
                args: args@,
                ret,
                export: false,
                lowered: 0,
            }),
            final(self)@ == (ContextView {
                funcs: old(self)@.funcs.push(final(func)@),
                ..old(self)@
            }),
    {
        let func = Function::new(name, &*self, args, ret);
        self.funcs.push(func);
        let last = self.funcs.len() - 1;
        let ghost before = self.funcs@;
        let handle = &mut self.funcs[last];
        proof {
            assert(forall|after: Seq<Function>|
                after == before.update(last as int, #[trigger] after[last as int])
                    ==> after.map_values(|f: Function| f@) =~= before.take(
                    last as int,
                ).map_values(|f: Function| f@).push(after[last as int]@));
            assert(before.take(last as int).map_values(|f: Function| f@) =~= old(self)@.funcs);
        }
        handle
    }

    /// Lowers function `i`.
    fn lower_at(&mut self, i: usize) -> (done: Result<(), CompileError>)
        requires
            i < old(self)@.funcs.len(),
        ensures
            final(self)@ == (ContextView {
                funcs: old(self)@.funcs.update(i as int, lowered_function(old(self)@.funcs[i as int])),
                ..old(self)@
            }),
            match done {
                Ok(()) => lowering_fault(old(self)@.funcs[i as int]) is None,
                Err(e) => lowering_fault(old(self)@.funcs[i as int]) == Some(e),
            },
    {
        let ghost before = self.funcs@;
        let func = &mut self.funcs[i];
        let done = func.lower();
        assert(self.funcs@ =~= before.update(i as int, self.funcs@[i as int]));
        assert(self@.funcs =~= old(self)@.funcs.update(
            i as int,
            lowered_function(old(self)@.funcs[i as int]),
        ));
        done
    }

    /// Puts function `i`, which has been lowered, into `linker`: its code, under
    /// the name of its buffer and as entry if that is `name`, its relocations and
    /// its constants.
    fn gather_at(&self, i: usize, name: &String, linker: &mut JitLinker) -> (done: Result<
        (),
        CompileError,
    >)
        requires
            i < self@.funcs.len(),
        ensures
            match done {
                Ok(()) => compiled(self@.funcs[i as int].buffer) matches Ok(code) && final(linker)@
                    == (LinkerView {
                    funcs: with_func(
                        old(linker)@.funcs,
                        FuncView {
                            name: self@.funcs[i as int].buffer.name,
                            code,
                            entry: self@.funcs[i as int].buffer.name == name@,
                        },
                    ),
                    labels: with_labels(
                        old(linker)@.labels,
                        linked_data(self@.funcs[i as int].buffer),
                        self@.funcs[i as int].buffer.data.len(),
                    ),
                    relocs: old(linker)@.relocs + linked_relocs(self@.funcs[i as int].buffer),
                }),
                Err(e) => compiled(self@.funcs[i as int].buffer) == Err::<Seq<u8>, CompileError>(
                    e,
                ) && final(linker)@ == old(linker)@,
            },
    {
        let buffer = self.funcs[i].buffer();
        let code = match buffer.code() {
            Ok(code) => code,
            Err(e) => {
                return Err(e);
            },
        };
        let func_name = String::from_str(buffer.name());
        let entry = func_name == *name;
        linker.add_func(func_name.as_str(), code, entry);
        let ghost mid = linker@;
        let relocs = buffer.linked_relocs();
        let ghost links = linked_relocs(buffer@);
        let n = relocs.len();
        let mut j: usize = 0;
        while j < n
            invariant
                j <= n == relocs.len(),
                relocs@.map_values(|l: Link| l@) == links,
                linker@.funcs == mid.funcs,
                linker@.labels == mid.labels,
                linker@.relocs == mid.relocs + links.take(j as int),
            decreases n - j,
        {
            linker.add_reloc(copy_link(&relocs[j]));
            assert(linker@.relocs =~= mid.relocs + links.take(j + 1));
            j += 1;
        }
        assert(links.take(n as int) =~= links);
        let data = buffer.linked_data();
        let ghost labels = linked_data(buffer@);
        let m = data.len();
        assert(labels.len() == buffer@.data.len());
        assert(data@.map_values(|d: (String, Vec<u8>)| DataView { name: d.0@, data: d.1@ }).len()
            == data@.len());
        let mut k: usize = 0;
        while k < m
            invariant
                k <= m == data.len(),
                m == buffer@.data.len(),
                data@.map_values(|d: (String, Vec<u8>)| DataView { name: d.0@, data: d.1@ })
                    == labels,
                linker@.funcs == mid.funcs,
                linker@.relocs == mid.relocs + links,
                linker@.labels == with_labels(mid.labels, labels, k as nat),
            decreases m - k,
        {
            assert(labels[k as int] == (DataView { name: data[k as int].0@, data: data[k as int].1@ }));
            linker.add_label(data[k].0.as_str(), copy_bytes(&data[k].1));
            k += 1;
        }
        Ok(())
    }

    /// Compiles every function and links them all, with the function `name` as
    /// entry, into a function of type `T`.
    ///
    /// Every function is lowered, unless one fails: then those after it are left
    /// as they are. Fails with the first fault of compiling, else with the fault
    /// of linking.
    pub fn get_jit_function<T>(&mut self, name: &str) -> (func: Result<JitFunction<T>, BuildError>)
        ensures
            match func {
                Ok(f) => jit_image(old(self)@.funcs, name@) == Ok::<Seq<u8>, BuildFault>(f@),
                Err(e) => jit_image(old(self)@.funcs, name@) == Err::<Seq<u8>, BuildFault>(e@),
            },
            final(self)@ == (ContextView {
                funcs: lowered_first(
                    old(self)@.funcs,
                    reached(old(self)@.funcs, name@, old(self)@.funcs.len()),
                ),
                ..old(self)@
            }),
    {
        let ghost funcs = self@.funcs;
        let key = String::from_str(name);
        let mut linker = JitLinker::new();
        let n = self.funcs.len();
        let mut i: usize = 0;
        assert(self@.funcs =~= lowered_first(funcs, 0));
        while i < n
            invariant
                i <= n == funcs.len(),
                funcs == old(self)@.funcs,
                key@ == name@,
                self@ == (ContextView { funcs: lowered_first(funcs, i as nat), ..old(self)@ }),
                gathered(funcs, name@, i as nat) == Ok::<LinkerView, CompileError>(linker@),
                reached(funcs, name@, i as nat) == i,
            decreases n - i,
        {
            let ghost before = self@.funcs;
            let lowering = self.lower_at(i);
            proof {
                lemma_lowered_step(funcs, i as int, before, self@.funcs);
            }
            match lowering {
                Ok(()) => {},
                Err(e) => {
                    proof {
                        lemma_gather_fault_stays(funcs, name@, (i + 1) as nat, n as nat);
                    }
                    return Err(BuildError::Compile(e));
                },
            }
            match self.gather_at(i, &key, &mut linker) {
                Ok(()) => {},
                Err(e) => {
                    proof {
                        lemma_gather_fault_stays(funcs, name@, (i + 1) as nat, n as nat);
                    }
                    return Err(BuildError::Compile(e));
                },
            }
            i += 1;
        }
        match linker.engine() {
            Ok(func) => Ok(func),
            Err(e) => Err(BuildError::Link(e)),
        }
    }

    /// Renames function `i`, if it is exported, and lowers it.
    fn prepare_at(&mut self, i: usize) -> (done: Result<(), CompileError>)
        requires
            i < old(self)@.funcs.len(),
        ensures
            final(self)@ == (ContextView {
                funcs: old(self)@.funcs.update(i as int, prepared(old(self)@.funcs[i as int])),
                ..old(self)@
            }),
            match done {
                Ok(()) => lowering_fault(renamed_function(old(self)@.funcs[i as int])) is None,
                Err(e) => lowering_fault(renamed_function(old(self)@.funcs[i as int])) == Some(e),
            },
    {
        let ghost before = self.funcs@;
        let func = &mut self.funcs[i];
        func.maybe_renaming();
        let done = func.lower();
        assert(self.funcs@ =~= before.update(i as int, self.funcs@[i as int]));
        assert(self@.funcs =~= old(self)@.funcs.update(
            i as int,
            prepared(old(self)@.funcs[i as int]),
        ));
        done
    }

    /// Defines and declares function `i`, which has been prepared, and its
    /// constants in `builder`.
    fn declare_at(&self, i: usize, builder: &mut ObjectBuilder) -> (done: Result<
        (),
        CompileError,
    >)
        requires
            i < self@.funcs.len(),
        ensures
            match done {
                Ok(()) => with_function(old(builder)@, self@.funcs[i as int]) == Ok::<
                    BuilderView,
                    CompileError,
                >(final(builder)@),
                Err(e) => with_function(old(builder)@, self@.funcs[i as int]) == Err::<
                    BuilderView,
                    CompileError,
                >(e) && final(builder)@ == old(builder)@,
            },
    {
        let func = &self.funcs[i];
        let buffer = func.buffer();
        let code = match buffer.code() {
            Ok(code) => code,
            Err(e) => {
                return Err(e);
            },
        };
        let scope = if func.is_public() {
            Scope::Export
        } else {
            Scope::Private
        };
        builder.define(func.name(), code);
        builder.add_decl(func.name(), Decl::Function(scope));
        let ghost first = builder@;
        let data = buffer.linked_data();
        let ghost labels = linked_data(buffer@);
        let m = data.len();
        assert(labels.len() == buffer@.data.len());
        assert(data@.map_values(|d: (String, Vec<u8>)| DataView { name: d.0@, data: d.1@ }).len()
            == data@.len());
        let mut k: usize = 0;
        while k < m
            invariant
                k <= m == data.len(),
                m == buffer@.data.len(),
                data@.map_values(|d: (String, Vec<u8>)| DataView { name: d.0@, data: d.1@ })
                    == labels,
                builder@ == with_constants(first, labels, k as nat),
            decreases m - k,
        {
            assert(labels[k as int] == (DataView { name: data[k as int].0@, data: data[k as int].1@ }));
            let local = String::from_str(".L").concat(data[k].0.as_str());
            builder.define(local.as_str(), copy_bytes(&data[k].1));
            builder.add_decl(local.as_str(), Decl::RData(Scope::Private));
            k += 1;
        }
        Ok(())
    }

    /// The name that a link gives for the symbol `name`: the new name of the
    /// first exported function that was called so before it was renamed.
    fn rename(&self, old_names: &Vec<String>, name: &String, Ghost(funcs): Ghost<
        Seq<FunctionView>,
    >) -> (renamed: String)
        requires
            self.has_names(old_names@, funcs),
        ensures
            renamed@ == new_name(funcs, name@, 0),
    {
        let n = self.funcs.len();
        let mut j: usize = 0;
        while j < n
            invariant
                j <= n == self.funcs.len(),
                self.has_names(old_names@, funcs),
                new_name(funcs, name@, 0) == new_name(funcs, name@, j as int),
            decreases n - j,
        {
            assert(old_names@[j as int]@ == funcs[j as int].name);
            if self.funcs[j].is_public() && old_names[j] == *name {
                return String::from_str(self.funcs[j].name());
            }
            j += 1;
        }
        name.clone()
    }

    /// Whether `old_names` holds the names that the functions `funcs` had before
    /// they were prepared into the functions held now.
    spec fn has_names(&self, old_names: Seq<String>, funcs: Seq<FunctionView>) -> bool {
        &&& old_names.len() == funcs.len()
        &&& self.funcs.len() == funcs.len()
        &&& forall|j: int|
            0 <= j < funcs.len() ==> {
                &&& (#[trigger] old_names[j])@ == funcs[j].name
                &&& self@.funcs[j].export == funcs[j].export
                &&& self@.funcs[j].name == renamed_function(funcs[j]).name
            }
    }

    /// Adds the links for the relocations of function `i`, which has been
    /// prepared, to `builder`.
    fn link_at(
        &self,
        i: usize,
        old_names: &Vec<String>,
        builder: &mut ObjectBuilder,
        Ghost(funcs): Ghost<Seq<FunctionView>>,
    )
        requires
            i < self@.funcs.len(),
            self.has_names(old_names@, funcs),
        ensures
            final(builder)@ == (BuilderView {
                links: old(builder)@.links + object_links(funcs, self@.funcs[i as int]),
                ..old(builder)@
            }),
    {
        let buffer = self.funcs[i].buffer();
        let ghost f = self@.funcs[i as int];
        let ghost first = builder@;
        let relocs = buffer.relocs();
        let n = relocs.len();
        let mut j: usize = 0;
        assert(first.links + object_links(funcs, f).take(0) =~= first.links);
        while j < n
            invariant
                j <= n == relocs.len(),
                relocs@.map_values(|l: Link| l@) == buffer@.relocs,
                buffer@ == f.buffer,
                self.has_names(old_names@, funcs),
                builder@ == (BuilderView {
                    links: first.links + object_links(funcs, f).take(j as int),
                    ..first
                }),
            decreases n - j,
        {
            let reloc = &relocs[j];
            assert(buffer@.relocs[j as int] == reloc@);
            let from = self.rename(old_names, &reloc.from, Ghost(funcs));
            let to = if buffer.has_constant(&reloc.to) {
                String::from_str(".L").concat(buffer.label_of(reloc.to.as_str()).as_str())
            } else {
                self.rename(old_names, &reloc.to, Ghost(funcs))
            };
            let link = crate::contxt::obj::link::Link { from, to, at: reloc.at };
            assert(link@ == object_links(funcs, f)[j as int]);
            builder.link(link);
            assert(first.links + object_links(funcs, f).take(j as int + 1) =~= (first.links
                + object_links(funcs, f).take(j as int)).push(link@));
            j += 1;
        }
        assert(object_links(funcs, f).take(n as int) =~= object_links(funcs, f));
    }

    /// Prepares every function and declares it in a new builder of the file
    /// `path`; gives the builder and the names that the functions had before.
    fn declare_all(&mut self, path: &str) -> (done: Result<(ObjectBuilder, Vec<String>), CompileError>)
        ensures
            match done {
                Ok((builder, old_names)) => {
                    &&& declared(old(self)@.funcs, path@, old(self)@.funcs.len()) == Ok::<
                        BuilderView,
                        CompileError,
                    >(builder@)
                    &&& final(self).has_names(old_names@, old(self)@.funcs)
                },
                Err(e) => declared(old(self)@.funcs, path@, old(self)@.funcs.len()) == Err::<
                    BuilderView,
                    CompileError,
                >(e),
            },
            final(self)@ == (ContextView {
                funcs: prepared_first(
                    old(self)@.funcs,
                    prepared_count(old(self)@.funcs, path@, old(self)@.funcs.len()),
                ),
                ..old(self)@
            }),
    {
        let ghost funcs = self@.funcs;
        let mut builder = ObjectBuilder::new(path);
        let mut old_names: Vec<String> = Vec::new();
        let n = self.funcs.len();
        let mut i: usize = 0;
        assert(self@.funcs =~= prepared_first(funcs, 0));
        assert(builder@ == (BuilderView {
            decls: Seq::empty(),
            syms: Seq::empty(),
            links: Seq::empty(),
            outpath: path@,
        }));
        while i < n
            invariant
                i <= n == funcs.len(),
                n == self.funcs.len(),
                funcs == old(self)@.funcs,
                self@ == (ContextView { funcs: prepared_first(funcs, i as nat), ..old(self)@ }),
                declared(funcs, path@, i as nat) == Ok::<BuilderView, CompileError>(builder@),
                prepared_count(funcs, path@, i as nat) == i,
                old_names.len() == i,
                forall|j: int| 0 <= j < i ==> (#[trigger] old_names[j])@ == funcs[j].name,
            decreases n - i,
        {
            old_names.push(String::from_str(self.funcs[i].name()));
            let ghost before = self@.funcs;
            let declaring = self.declare_next(i, &mut builder);
            proof {
                lemma_prepared_step(funcs, i as int, before, self@.funcs);
                assert(self.funcs@.len() == self@.funcs.len());
            }
            match declaring {
                Ok(()) => {},
                Err(e) => {
                    proof {
                        lemma_declare_fault_stays(funcs, path@, (i + 1) as nat, n as nat);
                    }
                    return Err(e);
                },
            }
            i += 1;
        }
        proof {
            assert forall|j: int| 0 <= j < funcs.len() implies {
                &&& (#[trigger] old_names[j])@ == funcs[j].name
                &&& self@.funcs[j].export == funcs[j].export
                &&& self@.funcs[j].name == renamed_function(funcs[j]).name
            } by {
                lemma_prepared_keeps(funcs[j]);
            }
        }
        Ok((builder, old_names))
    }

    /// Prepares function `i` and declares it in `builder`.
    fn declare_next(&mut self, i: usize, builder: &mut ObjectBuilder) -> (done: Result<
        (),
        CompileError,
    >)
        requires
            i < old(self)@.funcs.len(),
        ensures
            final(self)@ == (ContextView {
                funcs: old(self)@.funcs.update(i as int, prepared(old(self)@.funcs[i as int])),
                ..old(self)@
            }),
            match done {
                Ok(()) => lowering_fault(renamed_function(old(self)@.funcs[i as int])) is None
                    && with_function(old(builder)@, prepared(old(self)@.funcs[i as int])) == Ok::<
                    BuilderView,
                    CompileError,
                >(final(builder)@),
                Err(e) => match lowering_fault(renamed_function(old(self)@.funcs[i as int])) {
                    Some(fault) => e == fault,
                    None => with_function(old(builder)@, prepared(old(self)@.funcs[i as int]))
                        == Err::<BuilderView, CompileError>(e),
                },
            },
    {
        match self.prepare_at(i) {
            Ok(()) => self.declare_at(i, builder),
            Err(e) => Err(e),
        }
    }

    /// Adds the links for the relocations of all functions, which have been
    /// prepared, to `builder`.
    fn link_all(
        &self,
        old_names: &Vec<String>,
        builder: &mut ObjectBuilder,
        Ghost(funcs): Ghost<Seq<FunctionView>>,
    )
        requires
            self.has_names(old_names@, funcs),
            forall|j: int| 0 <= j < funcs.len() ==> self@.funcs[j] == prepared(#[trigger] funcs[j]),
        ensures
            final(builder)@ == (BuilderView {
                links: old(builder)@.links + all_links(funcs, funcs.len()),
                ..old(builder)@
            }),
    {
        let ghost first = builder@;
        let n = self.funcs.len();
        let mut i: usize = 0;
        assert(first.links + all_links(funcs, 0) =~= first.links);
        while i < n
            invariant
                i <= n == funcs.len(),
                n == self@.funcs.len(),
                self.has_names(old_names@, funcs),
                forall|j: int|
                    0 <= j < funcs.len() ==> self@.funcs[j] == prepared(#[trigger] funcs[j]),
                builder@ == (BuilderView {
                    links: first.links + all_links(funcs, i as nat),
                    ..first
                }),
            decreases n - i,
        {
            self.link_at(i, old_names, builder, Ghost(funcs));
            assert(self@.funcs[i as int] == prepared(funcs[i as int]));
            assert(first.links + all_links(funcs, (i + 1) as nat) =~= first.links + all_links(
                funcs,
                i as nat,
            ) + object_links(funcs, prepared(funcs[i as int])));
            i += 1;
        }
    }

    /// What goes into the object file `path`: each function is renamed, if it is
    /// exported, lowered and compiled; its code is defined under its name and
    /// declared with its scope, its constants under local names; then the
    /// relocations of all functions become links, with the new names.
    ///
    /// Every function is prepared, unless one fails: then those after it are left
    /// as they are. Fails with the first fault of compiling.
    pub fn object(&mut self, path: &str) -> (builder: Result<ObjectBuilder, CompileError>)
        ensures
            match builder {
                Ok(b) => object_of(old(self)@.funcs, path@) == Ok::<BuilderView, CompileError>(
                    b@,
                ),
                Err(e) => object_of(old(self)@.funcs, path@) == Err::<BuilderView, CompileError>(
                    e,
                ),
            },
            final(self)@ == (ContextView {
                funcs: prepared_first(
                    old(self)@.funcs,
                    prepared_count(old(self)@.funcs, path@, old(self)@.funcs.len()),
                ),
                ..old(self)@
            }),
    {
        let ghost funcs = self@.funcs;
        match self.declare_all(path) {
            Err(e) => Err(e),
            Ok((builder, old_names)) => {
                let mut builder = builder;
                proof {
                    lemma_all_prepared(funcs, path@, funcs.len());
                    lemma_declared_has_no_links(funcs, path@, funcs.len());
                }
                let ghost first = builder@;
                self.link_all(&old_names, &mut builder, Ghost(funcs));
                assert(first.links + all_links(funcs, funcs.len()) =~= all_links(
                    funcs,
                    funcs.len(),
                ));
                Ok(builder)
            },
        }
    }
}

/// Lowering function `i` of functions of which the first `i` are lowered leaves
/// the first `i + 1` lowered.
proof fn lemma_lowered_step(
    funcs: Seq<FunctionView>,
    i: int,
    before: Seq<FunctionView>,
    after: Seq<FunctionView>,
)
    requires
        0 <= i < funcs.len(),
        before == lowered_first(funcs, i as nat),
        after == before.update(i, lowered_function(before[i])),
    ensures
        after == lowered_first(funcs, (i + 1) as nat),
{
    assert(after =~= lowered_first(funcs, (i + 1) as nat));
}

/// Once a function has failed, gathering has failed, and no further function
/// is reached.
proof fn lemma_gather_fault_stays(funcs: Seq<FunctionView>, name: Seq<char>, k: nat, n: nat)
    requires
        1 <= k <= n,
        gathered(funcs, name, (k - 1) as nat) is Ok,
        gathered(funcs, name, k) is Err,
    ensures
        gathered(funcs, name, n) == gathered(funcs, name, k),
        reached(funcs, name, n) == k,
    decreases n,
{
    if n > k {
        lemma_gather_fault_stays(funcs, name, k, (n - 1) as nat);
    }
}

} // verus!
