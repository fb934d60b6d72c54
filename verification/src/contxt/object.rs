//! From a context to the contents of an object file.

use vstd::prelude::*;
use crate::contxt::link::model::{find, label_names, DataView, LinkView};
use crate::contxt::obj::decl::{Decl, Scope};
use crate::contxt::obj::plan::{with_content, BuilderView, ContentView, DeclView};
use crate::func::asmfunc::{compiled, constant_label, linked_data};
use crate::func::func::{lowered_function, lowering_fault, type_names, FunctionView};
use crate::ir::compile::CompileError;
use crate::naming::mangled;

verus! {

/// The function after `maybe_renaming`: an exported function has the name that
/// the naming convention makes of its name and signature.
pub open spec fn renamed_function(f: FunctionView) -> FunctionView {
    FunctionView {
        name: if f.export {
            mangled(Seq::empty(), None, f.name, type_names(f.args), f.ret.spec_name())
        } else {
            f.name
        },
        ..f
    }
}

/// The function as it goes into an object file: renamed, then lowered.
pub open spec fn prepared(f: FunctionView) -> FunctionView {
    lowered_function(renamed_function(f))
}

/// The name under which a constant goes into an object file: its label, made
/// the name of a local symbol.
pub open spec fn local_name(label: Seq<char>) -> Seq<char> {
    ".L"@ + label
}

/// The scope of a function in an object file.
pub open spec fn scope_of(f: FunctionView) -> Scope {
    if f.export {
        Scope::Export
    } else {
        Scope::Private
    }
}

/// The builder `b` with the first `k` of the constants `data`, which come under
/// their labels: each is defined under its local name and declared as private
/// read-only data.
pub open spec fn with_constants(b: BuilderView, data: Seq<DataView>, k: nat) -> BuilderView
    decreases k,
{
    if k == 0 {
        b
    } else {
        let before = with_constants(b, data, (k - 1) as nat);
        BuilderView {
            syms: with_content(
                before.syms,
                ContentView { name: local_name(data[k - 1].name), data: data[k - 1].data },
            ),
            decls: before.decls.push(
                DeclView { name: local_name(data[k - 1].name), decl: Decl::RData(Scope::Private) },
            ),
            ..before
        }
    }
}

/// The builder `b` with the prepared function `f`: its code is defined under its
/// name and declared as a function of its scope, then come its constants.
pub open spec fn with_function(b: BuilderView, f: FunctionView) -> Result<
    BuilderView,
    CompileError,
> {
    match compiled(f.buffer) {
        Err(e) => Err(e),
        Ok(code) => Ok(
            with_constants(
                BuilderView {
                    syms: with_content(b.syms, ContentView { name: f.name, data: code }),
                    decls: b.decls.push(
                        DeclView { name: f.name, decl: Decl::Function(scope_of(f)) },
                    ),
                    ..b
                },
                linked_data(f.buffer),
                f.buffer.data.len(),
            ),
        ),
    }
}

/// The builder of the file `path` with the first `k` functions of `funcs`, each
/// prepared; or the first fault of preparing or compiling one.
pub open spec fn declared(funcs: Seq<FunctionView>, path: Seq<char>, k: nat) -> Result<
    BuilderView,
    CompileError,
>
    decreases k,
{
    if k == 0 {
        Ok(
            BuilderView {
                decls: Seq::empty(),
                syms: Seq::empty(),
                links: Seq::empty(),
                outpath: path,
            },
        )
    } else {
        match declared(funcs, path, (k - 1) as nat) {
            Err(e) => Err(e),
            Ok(b) => match lowering_fault(renamed_function(funcs[k - 1])) {
                Some(e) => Err(e),
                None => with_function(b, prepared(funcs[k - 1])),
            },
        }
    }
}

/// The name that a link gives for the symbol `name`, from the function `i`
/// on: the new name of the first exported function that was called so.
pub open spec fn new_name(funcs: Seq<FunctionView>, name: Seq<char>, i: int) -> Seq<char>
    decreases funcs.len() - i,
{
    if i < 0 || i >= funcs.len() {
        name
    } else if funcs[i].export && funcs[i].name == name {
        renamed_function(funcs[i]).name
    } else {
        new_name(funcs, name, i + 1)
    }
}

/// The link of an object file for the relocation `l` of the prepared function
/// `f`: a constant of `f` is called by its local name, any other symbol by its
/// new name, if it has one.
pub open spec fn object_link(funcs: Seq<FunctionView>, f: FunctionView, l: LinkView) -> crate::contxt::obj::link::LinkView {
    crate::contxt::obj::link::LinkView {
        from: new_name(funcs, l.from, 0),
        to: if find(label_names(f.buffer.data), l.to) is Some {
            local_name(constant_label(f.buffer.name, l.to))
        } else {
            new_name(funcs, l.to, 0)
        },
        at: l.at,
    }
}

/// The links of an object file for the relocations of the prepared function `f`.
pub open spec fn object_links(funcs: Seq<FunctionView>, f: FunctionView) -> Seq<
    crate::contxt::obj::link::LinkView,
> {
    f.buffer.relocs.map_values(|l: LinkView| object_link(funcs, f, l))
}

/// The links of an object file for the first `k` functions of `funcs`.
pub open spec fn all_links(funcs: Seq<FunctionView>, k: nat) -> Seq<
    crate::contxt::obj::link::LinkView,
>
    decreases k,
{
    if k == 0 {
        Seq::empty()
    } else {
        all_links(funcs, (k - 1) as nat) + object_links(funcs, prepared(funcs[k - 1]))
    }
}

/// What goes into the object file `path` for the functions `funcs`: for each
/// function, in order, its code and its constants, defined and declared; then,
/// for each function, in order, the links of its relocations. Or the first
/// fault of preparing or compiling a function.
pub open spec fn object_of(funcs: Seq<FunctionView>, path: Seq<char>) -> Result<
    BuilderView,
    CompileError,
> {
    match declared(funcs, path, funcs.len()) {
        Err(e) => Err(e),
        Ok(b) => Ok(BuilderView { links: all_links(funcs, funcs.len()), ..b }),
    }
}

/// How many functions of `funcs` are prepared when they are declared in order:
/// all, or those up to the first that fails.
pub open spec fn prepared_count(funcs: Seq<FunctionView>, path: Seq<char>, k: nat) -> nat
    decreases k,
{
    if k == 0 {
        0
    } else if declared(funcs, path, (k - 1) as nat) is Err {
        prepared_count(funcs, path, (k - 1) as nat)
    } else {
        k
    }
}

/// The functions `funcs` with the first `k` prepared.
pub open spec fn prepared_first(funcs: Seq<FunctionView>, k: nat) -> Seq<FunctionView> {
    Seq::new(
        funcs.len(),
        |i: int|
            if i < k {
                prepared(funcs[i])
            } else {
                funcs[i]
            },
    )
}

/// Once a function has failed, declaring has failed, and no further function
/// is prepared.
pub proof fn lemma_declare_fault_stays(funcs: Seq<FunctionView>, path: Seq<char>, k: nat, n: nat)
    requires
        1 <= k <= n,
        declared(funcs, path, (k - 1) as nat) is Ok,
        declared(funcs, path, k) is Err,
    ensures
        declared(funcs, path, n) == declared(funcs, path, k),
        prepared_count(funcs, path, n) == k,
    decreases n,
{
    if n > k {
        lemma_declare_fault_stays(funcs, path, k, (n - 1) as nat);
    }
}

/// Preparing function `i` of functions of which the first `i` are prepared
/// leaves the first `i + 1` prepared.
pub proof fn lemma_prepared_step(
    funcs: Seq<FunctionView>,
    i: int,
    before: Seq<FunctionView>,
    after: Seq<FunctionView>,
)
    requires
        0 <= i < funcs.len(),
        before == prepared_first(funcs, i as nat),
        after == before.update(i, prepared(before[i])),
    ensures
        after == prepared_first(funcs, (i + 1) as nat),
{
    assert(after =~= prepared_first(funcs, (i + 1) as nat));
}

/// Preparing a function changes neither its new name nor whether it is exported.
pub proof fn lemma_prepared_keeps(f: FunctionView)
    ensures
        prepared(f).name == renamed_function(f).name,
        prepared(f).export == f.export,
{
}

/// Declaring adds no link, and keeps the path.
pub proof fn lemma_declared_has_no_links(funcs: Seq<FunctionView>, path: Seq<char>, k: nat)
    requires
        declared(funcs, path, k) is Ok,
    ensures
        declared(funcs, path, k)->Ok_0.links == Seq::<crate::contxt::obj::link::LinkView>::empty(),
        declared(funcs, path, k)->Ok_0.outpath == path,
    decreases k,
{
    if k > 0 {
        lemma_declared_has_no_links(funcs, path, (k - 1) as nat);
        let f = prepared(funcs[k - 1]);
        let b = declared(funcs, path, (k - 1) as nat)->Ok_0;
        let code = compiled(f.buffer)->Ok_0;
        let with_code = BuilderView {
            syms: with_content(b.syms, ContentView { name: f.name, data: code }),
            decls: b.decls.push(DeclView { name: f.name, decl: Decl::Function(scope_of(f)) }),
            ..b
        };
        lemma_constants_add_no_links(with_code, linked_data(f.buffer), f.buffer.data.len());
    }
}

/// Constants add no link, and keep the path.
pub proof fn lemma_constants_add_no_links(b: BuilderView, data: Seq<DataView>, k: nat)
    ensures
        with_constants(b, data, k).links == b.links,
        with_constants(b, data, k).outpath == b.outpath,
    decreases k,
{
    if k > 0 {
        lemma_constants_add_no_links(b, data, (k - 1) as nat);
    }
}

/// Where every function can be declared, every function is prepared.
pub proof fn lemma_all_prepared(funcs: Seq<FunctionView>, path: Seq<char>, n: nat)
    requires
        declared(funcs, path, n) is Ok,
    ensures
        prepared_count(funcs, path, n) == n,
    decreases n,
{
    if n > 0 {
        lemma_all_prepared(funcs, path, (n - 1) as nat);
    }
}

} // verus!
