//! Functions: a name, a signature and the nodes to be lowered.

use vstd::prelude::*;
use vstd::string::StringExecFns;
use crate::contxt::contxt::Context;
use crate::func::asmfunc::{emitted, AsmFunction, AsmView};
use crate::ir::compile::{lowered, CompileError};
use crate::ir::node::Node;
use crate::ir::types::Type;
use crate::naming::{mangled, views, NamingGenerator};

verus! {

/// A function: its name, the kinds of its arguments and of its result, its
/// nodes, and the buffer into which they are lowered, each node once.
#[derive(Debug, Clone)]
pub struct Function {
    name: String,
    buffer: AsmFunction,
    pub ir: Vec<Node>,
    args: Vec<Type>,
    ret: Type,
    pub export: bool,
    lowered: usize,
}

/// A function as plain values. Of its nodes, the first `lowered` have been
/// lowered into the buffer.
pub struct FunctionView {
    pub name: Seq<char>,
    pub buffer: AsmView,
    pub ir: Seq<Node>,
    pub args: Seq<Type>,
    pub ret: Type,
    pub export: bool,
    pub lowered: nat,
}

impl View for Function {
    type V = FunctionView;

    closed spec fn view(&self) -> FunctionView {
        FunctionView {
            name: self.name@,
            buffer: self.buffer@,
            ir: self.ir@,
            args: self.args@,
            ret: self.ret,
            export: self.export,
            lowered: self.lowered as nat,
        }
    }
}

/// The buffer `a` after the node `node` was lowered into it.
pub open spec fn lowered_into(a: AsmView, node: Node) -> Result<AsmView, CompileError> {
    match lowered(node) {
        Err(e) => Err(e),
        Ok(plan) => emitted(a, plan),
    }
}

/// What lowering the nodes of `ir` from `from` up to `to` into `a` gives, one
/// after another: the buffer, the count of the nodes of `ir` that are lowered
/// then, and the first fault, if a node fails. Nothing is lowered after a fault.
pub open spec fn lower_nodes(a: AsmView, ir: Seq<Node>, from: nat, to: nat) -> (
    AsmView,
    nat,
    Option<CompileError>,
)
    decreases to,
{
    if to <= from {
        (a, from, None)
    } else {
        let before = lower_nodes(a, ir, from, (to - 1) as nat);
        if before.2 is Some {
            before
        } else {
            match lowered_into(before.0, ir[to - 1]) {
                Ok(b) => (b, to, None),
                Err(e) => (before.0, before.1, Some(e)),
            }
        }
    }
}

/// The buffer of `f` with the signature of `f`.
pub open spec fn signed_buffer(f: FunctionView) -> AsmView {
    AsmView { args: f.args, ret: f.ret, ..f.buffer }
}

/// The function after the nodes that were not lowered yet have been: the buffer
/// has the function's signature and holds their code, and they count as
/// lowered. Where a node fails, those before it stay lowered.
pub open spec fn lowered_function(f: FunctionView) -> FunctionView {
    let done = lower_nodes(signed_buffer(f), f.ir, f.lowered, f.ir.len());
    FunctionView { buffer: done.0, lowered: done.1, ..f }
}

/// The fault of lowering the nodes of `f` that were not lowered yet, if there is one.
pub open spec fn lowering_fault(f: FunctionView) -> Option<CompileError> {
    lower_nodes(signed_buffer(f), f.ir, f.lowered, f.ir.len()).2
}

/// The names of the kinds `types`.
pub open spec fn type_names(types: Seq<Type>) -> Seq<Seq<char>> {
    types.map_values(|t: Type| t.spec_name())
}

/// A copy of `types`.
fn copy_types(types: &Vec<Type>) -> (copy: Vec<Type>)
    ensures
        copy@ == types@,
{
    let n = types.len();
    let mut copy: Vec<Type> = Vec::new();
    let mut i: usize = 0;
    while i < n
        invariant
            i <= n == types.len(),
            copy@ == types@.take(i as int),
        decreases n - i,
    {
        copy.push(types[i]);
        i += 1;
    }
    assert(types@.take(n as int) =~= types@);
    copy
}

impl Function {
    /// A function called `name` with arguments of the kinds `args` and a result
    /// of the kind `ret`, compiled for the calling convention of `contxt`. It has
    /// no nodes yet, and is not exported.
    pub fn new(name: &str, contxt: &Context, args: Vec<Type>, ret: Type) -> (func: Self)
        ensures
            func@ == (FunctionView {
                name: name@,
                buffer: AsmView {
                    name: name@,
                    code: Seq::empty(),
                    relocs: Seq::empty(),
                    data: Seq::empty(),
                    call: contxt.spec_call(),
                    names: 0,
                    framed: false,
                    returned: false,
                    args: Seq::empty(),
                    ret: Type::u32,
                },
                ir: Seq::empty(),
                args: args@,
                ret,
                export: false,
                lowered: 0,
            }),
    {
        Self {
            name: String::from_str(name),
            buffer: AsmFunction::new(name, contxt),
            ir: Vec::new(),
            args,
            ret,
            export: false,
            lowered: 0,
        }
    }

    /// The name of the function.
    pub fn name(&self) -> (name: &str)
        ensures
            name@ == self@.name,
    {
        self.name.as_str()
    }

    /// The buffer of the function.
    pub fn buffer(&self) -> (buffer: &AsmFunction)
        ensures
            buffer@ == self@.buffer,
    {
        &self.buffer
    }

    /// Whether the function is visible to other objects.
    pub fn is_public(&self) -> (export: bool)
        ensures
            export == self@.export,
    {
        self.export
    }

    /// Adds a node behind those already there.
    pub fn push(&mut self, node: Node)
        ensures
            final(self)@ == (FunctionView { ir: old(self)@.ir.push(node), ..old(self)@ }),
    {
        self.ir.push(node);
    }

    /// Lowers the nodes that were not lowered yet into the buffer, one after
    /// another, after giving the buffer the function's signature.
    ///
    /// Fails at the first node that cannot be lowered: the nodes before it stay
    /// lowered, and the buffer holds their code.
    pub fn lower(&mut self) -> (done: Result<(), CompileError>)
        ensures
            final(self)@ == lowered_function(old(self)@),
            match done {
                Ok(()) => lowering_fault(old(self)@) is None,
                Err(e) => lowering_fault(old(self)@) == Some(e),
            },
    {
        let ghost f = self@;
        let ghost start = signed_buffer(f);
        self.buffer.set_signature(copy_types(&self.args), self.ret);
        let n = self.ir.len();
        let first = self.lowered;
        if first >= n {
            return Ok(());
        }
        let call = self.buffer.call();
        let mut i: usize = first;
        while i < n
            invariant
                first <= i <= n == self.ir.len(),
                first == f.lowered,
                f == old(self)@,
                start == signed_buffer(f),
                self.name@ == f.name,
                self.ir@ == f.ir,
                self.args@ == f.args,
                self.ret == f.ret,
                self.export == f.export,
                self.lowered == i,
                call == self.buffer@.call,
                lower_nodes(start, f.ir, f.lowered, i as nat) == (self.buffer@, i as nat, None::<
                    CompileError,
                >),
            decreases n - i,
        {
            let node = self.ir[i];
            let ghost before = self.buffer@;
            assert(lower_nodes(start, f.ir, f.lowered, (i + 1) as nat) == (match lowered_into(
                before,
                node,
            ) {
                Ok(b) => (b, (i + 1) as nat, None::<CompileError>),
                Err(e) => (before, i as nat, Some(e)),
            }));
            let plan = match node.lower(&call) {
                Ok(plan) => plan,
                Err(e) => {
                    proof {
                        lemma_fault_ends_lowering(start, f.ir, f.lowered, (i + 1) as nat, n as nat);
                    }
                    return Err(e);
                },
            };
            match self.buffer.emit(&plan) {
                Ok(()) => {},
                Err(e) => {
                    proof {
                        lemma_fault_ends_lowering(start, f.ir, f.lowered, (i + 1) as nat, n as nat);
                    }
                    return Err(e);
                },
            }
            i += 1;
            self.lowered = i;
        }
        Ok(())
    }

    /// Lowers the nodes that were not lowered yet, as `lower` does, and hands the
    /// buffer out, to be read and to be written.
    pub fn asm_func(&mut self) -> (buffer: Result<&mut AsmFunction, CompileError>)
        ensures
            match buffer {
                Ok(b) => {
                    &&& lowering_fault(old(self)@) is None
                    &&& b@ == lowered_function(old(self)@).buffer
                    &&& final(self)@ == (FunctionView {
                        buffer: final(b)@,
                        ..lowered_function(old(self)@)
                    })
                },
                Err(e) => {
                    &&& lowering_fault(old(self)@) == Some(e)
                    &&& final(self)@ == lowered_function(old(self)@)
                },
            },
    {
        match self.lower() {
            Ok(()) => Ok(&mut self.buffer),
            Err(e) => Err(e),
        }
    }

    /// Makes the function visible to other objects.
    pub fn public(&mut self)
        ensures
            final(self)@ == (FunctionView { export: true, ..old(self)@ }),
    {
        self.export = true
    }

    /// Gives an exported function the name that the naming convention makes of
    /// its name and signature; leaves any other as it is.
    pub fn maybe_renaming(&mut self)
        ensures
            final(self)@ == (FunctionView {
                name: if old(self)@.export {
                    mangled(
                        Seq::empty(),
                        None,
                        old(self)@.name,
                        type_names(old(self)@.args),
                        old(self)@.ret.spec_name(),
                    )
                } else {
                    old(self)@.name
                },
                ..old(self)@
            }),
    {
        if !self.export {
            return ;
        }
        let name_gen = NamingGenerator::new();
        let fmt_ret: &str = self.ret.name();
        let mut fmt_args: Vec<&str> = Vec::new();
        let n = self.args.len();
        let mut i: usize = 0;
        while i < n
            invariant
                i <= n == self.args.len(),
                fmt_args.len() == i,
                forall|k: int| 0 <= k < i ==> (#[trigger] fmt_args[k])@ == self.args[k].spec_name(),
            decreases n - i,
        {
            fmt_args.push(self.args[i].name());
            i += 1;
        }
        assert(views(fmt_args@) =~= type_names(self.args@));
        let no_namespaces: Vec<&str> = Vec::new();
        assert(views(no_namespaces@) =~= Seq::<Seq<char>>::empty());
        let new_name = name_gen.generate(no_namespaces, None, self.name.as_str(), fmt_args, fmt_ret);
        self.name = new_name;
    }
}

/// Once a node has failed, lowering has ended.
pub proof fn lemma_fault_ends_lowering(a: AsmView, ir: Seq<Node>, from: nat, k: nat, n: nat)
    requires
        k <= n,
        lower_nodes(a, ir, from, k).2 is Some,
    ensures
        lower_nodes(a, ir, from, n) == lower_nodes(a, ir, from, k),
    decreases n,
{
    if n > k {
        lemma_fault_ends_lowering(a, ir, from, k, (n - 1) as nat);
    }
}

} // verus!
