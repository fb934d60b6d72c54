//! What holds of every context.

use vstd::prelude::*;
use crate::contxt::contxt::{
    gathered, gathered_one, jit_image, lowered_first, with_labels, BuildFault,
};
use crate::contxt::link::laws::{law_first_unknown_symbol_is_reported, law_unknown_symbol_no_image};
use crate::contxt::link::model::{
    find, func_names, label_names, lemma_find_from, patched, resolve, with_func, with_label,
    DataView, FuncView, LinkFault, LinkerView,
};
use crate::func::asmfunc::{compiled, linked_data, linked_reloc, linked_relocs, AsmView};
use crate::func::func::{lowered_function, FunctionView};
use crate::func::laws::law_lowering_once;

verus! {

/// A function that was lowered goes into a linker as it did before.
proof fn lemma_gathered_again(l: LinkerView, f: FunctionView, name: Seq<char>)
    ensures
        gathered_one(l, crate::func::func::lowered_function(f), name) == gathered_one(l, f, name),
{
    law_lowering_once(f);
}

/// Functions of which some were lowered go into a linker as they did before.
proof fn lemma_gathered_all_again(funcs: Seq<FunctionView>, name: Seq<char>, done: nat, k: nat)
    requires
        k <= funcs.len(),
    ensures
        gathered(lowered_first(funcs, done), name, k) == gathered(funcs, name, k),
    decreases k,
{
    if k > 0 {
        lemma_gathered_all_again(funcs, name, done, (k - 1) as nat);
        match gathered(funcs, name, (k - 1) as nat) {
            Ok(l) => {
                lemma_gathered_again(l, funcs[k - 1], name);
            },
            Err(_) => {},
        }
    }
}

/// Building again gives the same: whichever functions a build has lowered, the
/// image of the functions, or the fault, is what it was before.
pub proof fn law_rebuild_gives_the_same(funcs: Seq<FunctionView>, name: Seq<char>, done: nat)
    ensures
        jit_image(lowered_first(funcs, done), name) == jit_image(funcs, name),
{
    lemma_gathered_all_again(funcs, name, done, funcs.len());
}

/// The buffer of a function after its nodes were lowered.
pub open spec fn buffer_of(f: FunctionView) -> AsmView {
    lowered_function(f).buffer
}

/// Whether one of the first `k` functions has a buffer called `symbol`.
pub open spec fn is_function(funcs: Seq<FunctionView>, k: nat, symbol: Seq<char>) -> bool {
    exists|i: int| 0 <= i < k && #[trigger] buffer_of(funcs[i]).name == symbol
}

/// Whether one of the first `k` functions has a constant whose label is `symbol`.
pub open spec fn is_constant(funcs: Seq<FunctionView>, k: nat, symbol: Seq<char>) -> bool {
    exists|i: int, d: int|
        0 <= i < k && 0 <= d < buffer_of(funcs[i]).data.len() && #[trigger] linked_data(
            buffer_of(funcs[i]),
        )[d].name == symbol
}

/// How many relocations the first `k` functions have.
pub open spec fn reloc_count(funcs: Seq<FunctionView>, k: nat) -> nat
    decreases k,
{
    if k == 0 {
        0
    } else {
        reloc_count(funcs, (k - 1) as nat) + buffer_of(funcs[k - 1]).relocs.len()
    }
}

/// A name is found among names where it is one of them, and there alone.
proof fn lemma_found_is_contained(names: Seq<Seq<char>>, name: Seq<char>)
    ensures
        find(names, name) is Some <==> names.contains(name),
{
    lemma_find_from(names, name, 0);
    if names.contains(name) {
        let i = choose|i: int| 0 <= i < names.len() && names[i] == name;
        assert(names[i] == name);
    }
    if find(names, name) is Some {
        assert(names[find(names, name)->0] == name);
    }
}

/// The functions with one added are called as before, and as the one added.
proof fn lemma_with_func_names(funcs: Seq<FuncView>, f: FuncView, name: Seq<char>)
    ensures
        func_names(with_func(funcs, f)).contains(name) <==> func_names(funcs).contains(name)
            || name == f.name,
{
    let before = func_names(funcs);
    let after = func_names(with_func(funcs, f));
    lemma_find_from(before, f.name, 0);
    match find(before, f.name) {
        Some(at) => {
            assert(after =~= before);
            assert(before[at] == f.name);
        },
        None => {
            assert(after =~= before.push(f.name));
            assert(after[before.len() as int] == f.name);
            if before.contains(name) {
                let i = choose|i: int| 0 <= i < before.len() && before[i] == name;
                assert(after[i] == name);
            }
        },
    }
}

/// The labels with one added are called as before, and as the one added.
proof fn lemma_with_label_names(labels: Seq<DataView>, l: DataView, name: Seq<char>)
    ensures
        label_names(with_label(labels, l)).contains(name) <==> label_names(labels).contains(name)
            || name == l.name,
{
    let before = label_names(labels);
    let after = label_names(with_label(labels, l));
    lemma_find_from(before, l.name, 0);
    match find(before, l.name) {
        Some(at) => {
            assert(after =~= before);
            assert(before[at] == l.name);
        },
        None => {
            assert(after =~= before.push(l.name));
            assert(after[before.len() as int] == l.name);
            if before.contains(name) {
                let i = choose|i: int| 0 <= i < before.len() && before[i] == name;
                assert(after[i] == name);
            }
        },
    }
}

/// The labels with the first `k` of `data` added are called as before, and as
/// those added.
proof fn lemma_with_labels_names(labels: Seq<DataView>, data: Seq<DataView>, k: nat, name: Seq<char>)
    requires
        k <= data.len(),
    ensures
        label_names(with_labels(labels, data, k)).contains(name) <==> label_names(
            labels,
        ).contains(name) || exists|d: int| 0 <= d < k && #[trigger] data[d].name == name,
    decreases k,
{
    if k > 0 {
        lemma_with_labels_names(labels, data, (k - 1) as nat, name);
        lemma_with_label_names(with_labels(labels, data, (k - 1) as nat), data[k - 1], name);
        if name == data[k - 1].name {
            assert(data[k - 1].name == name);
        }
    }
}

/// The linker that holds the first `k` functions is the linker that holds the
/// first `k - 1` with function `k - 1` added: its code under the name of its
/// buffer, its constants, its relocations.
proof fn lemma_gathered_step(funcs: Seq<FunctionView>, name: Seq<char>, k: nat)
    requires
        0 < k <= funcs.len(),
        gathered(funcs, name, k) is Ok,
    ensures
        gathered(funcs, name, (k - 1) as nat) is Ok,
        ({
            let before = gathered(funcs, name, (k - 1) as nat)->Ok_0;
            let after = gathered(funcs, name, k)->Ok_0;
            let buffer = buffer_of(funcs[k - 1]);
            &&& after.funcs == with_func(
                before.funcs,
                FuncView {
                    name: buffer.name,
                    code: compiled(buffer)->Ok_0,
                    entry: buffer.name == name,
                },
            )
            &&& after.labels == with_labels(before.labels, linked_data(buffer), buffer.data.len())
            &&& after.relocs == before.relocs + linked_relocs(buffer)
        }),
{
}

/// A linker that holds the first `k` functions knows the names of their
/// buffers as functions, and no others.
proof fn lemma_gathered_functions(
    funcs: Seq<FunctionView>,
    name: Seq<char>,
    k: nat,
    symbol: Seq<char>,
)
    requires
        k <= funcs.len(),
        gathered(funcs, name, k) is Ok,
    ensures
        func_names(gathered(funcs, name, k)->Ok_0.funcs).contains(symbol) <==> is_function(
            funcs,
            k,
            symbol,
        ),
    decreases k,
{
    let l = gathered(funcs, name, k)->Ok_0;
    if k == 0 {
        assert(!func_names(l.funcs).contains(symbol));
    } else {
        lemma_gathered_step(funcs, name, k);
        lemma_gathered_functions(funcs, name, (k - 1) as nat, symbol);
        let before = gathered(funcs, name, (k - 1) as nat)->Ok_0;
        let buffer = buffer_of(funcs[k - 1]);
        lemma_with_func_names(
            before.funcs,
            FuncView {
                name: buffer.name,
                code: compiled(buffer)->Ok_0,
                entry: buffer.name == name,
            },
            symbol,
        );
        lemma_is_function_step(funcs, k, symbol);
    }
}

/// One of the first `k` functions is called `symbol` where one of the first
/// `k - 1` is, or function `k - 1`.
proof fn lemma_is_function_step(funcs: Seq<FunctionView>, k: nat, symbol: Seq<char>)
    requires
        0 < k <= funcs.len(),
    ensures
        is_function(funcs, k, symbol) <==> is_function(funcs, (k - 1) as nat, symbol) || buffer_of(
            funcs[k - 1],
        ).name == symbol,
{
    if is_function(funcs, (k - 1) as nat, symbol) {
        let i = choose|i: int| 0 <= i < k - 1 && #[trigger] buffer_of(funcs[i]).name == symbol;
        assert(buffer_of(funcs[i]).name == symbol);
    }
    if buffer_of(funcs[k - 1]).name == symbol {
        assert(is_function(funcs, k, symbol));
    }
    if is_function(funcs, k, symbol) {
        let i = choose|i: int| 0 <= i < k && #[trigger] buffer_of(funcs[i]).name == symbol;
        if i < k - 1 {
            assert(buffer_of(funcs[i]).name == symbol);
        }
    }
}

/// One of the first `k` functions has a constant with the label `symbol` where
/// one of the first `k - 1` has, or function `k - 1`.
proof fn lemma_is_constant_step(funcs: Seq<FunctionView>, k: nat, symbol: Seq<char>)
    requires
        0 < k <= funcs.len(),
    ensures
        is_constant(funcs, k, symbol) <==> is_constant(funcs, (k - 1) as nat, symbol) || exists|
            d: int,
        |
            0 <= d < buffer_of(funcs[k - 1]).data.len() && #[trigger] linked_data(
                buffer_of(funcs[k - 1]),
            )[d].name == symbol,
{
    let last = linked_data(buffer_of(funcs[k - 1]));
    let count = buffer_of(funcs[k - 1]).data.len();
    if is_constant(funcs, (k - 1) as nat, symbol) {
        let (i, d) = choose|i: int, d: int|
            0 <= i < k - 1 && 0 <= d < buffer_of(funcs[i]).data.len() && #[trigger] linked_data(
                buffer_of(funcs[i]),
            )[d].name == symbol;
        assert(linked_data(buffer_of(funcs[i]))[d].name == symbol);
    }
    if exists|d: int| 0 <= d < count && #[trigger] last[d].name == symbol {
        let d = choose|d: int| 0 <= d < count && #[trigger] last[d].name == symbol;
        assert(linked_data(buffer_of(funcs[k - 1]))[d].name == symbol);
    }
    if is_constant(funcs, k, symbol) {
        let (i, d) = choose|i: int, d: int|
            0 <= i < k && 0 <= d < buffer_of(funcs[i]).data.len() && #[trigger] linked_data(
                buffer_of(funcs[i]),
            )[d].name == symbol;
        if i < k - 1 {
            assert(linked_data(buffer_of(funcs[i]))[d].name == symbol);
        } else {
            assert(last[d].name == symbol);
        }
    }
}

/// A linker that holds the first `k` functions knows the names of their
/// constants as labels, and no others.
proof fn lemma_gathered_constants(
    funcs: Seq<FunctionView>,
    name: Seq<char>,
    k: nat,
    symbol: Seq<char>,
)
    requires
        k <= funcs.len(),
        gathered(funcs, name, k) is Ok,
    ensures
        label_names(gathered(funcs, name, k)->Ok_0.labels).contains(symbol) <==> is_constant(
            funcs,
            k,
            symbol,
        ),
    decreases k,
{
    let l = gathered(funcs, name, k)->Ok_0;
    if k == 0 {
        assert(!label_names(l.labels).contains(symbol));
    } else {
        lemma_gathered_step(funcs, name, k);
        lemma_gathered_constants(funcs, name, (k - 1) as nat, symbol);
        let before = gathered(funcs, name, (k - 1) as nat)->Ok_0;
        let buffer = buffer_of(funcs[k - 1]);
        lemma_with_labels_names(before.labels, linked_data(buffer), buffer.data.len(), symbol);
        lemma_is_constant_step(funcs, k, symbol);
    }
}

/// A linker that holds the first `k` functions holds relocation `j` of function
/// `i` behind the relocations of the functions before `i`.
proof fn lemma_gathered_relocs(funcs: Seq<FunctionView>, name: Seq<char>, k: nat, i: int, j: int)
    requires
        k <= funcs.len(),
        gathered(funcs, name, k) is Ok,
        0 <= i < k,
        0 <= j < buffer_of(funcs[i]).relocs.len(),
    ensures
        gathered(funcs, name, k)->Ok_0.relocs.len() == reloc_count(funcs, k),
        reloc_count(funcs, i as nat) + j < reloc_count(funcs, k),
        gathered(funcs, name, k)->Ok_0.relocs[reloc_count(funcs, i as nat) + j] == linked_reloc(
            buffer_of(funcs[i]),
            buffer_of(funcs[i]).relocs[j],
        ),
    decreases k,
{
    lemma_gathered_step(funcs, name, k);
    lemma_gathered_count(funcs, name, (k - 1) as nat);
    if i < k - 1 {
        lemma_gathered_relocs(funcs, name, (k - 1) as nat, i, j);
    }
}

/// A linker that holds the first `k` functions holds as many relocations as
/// they have.
proof fn lemma_gathered_count(funcs: Seq<FunctionView>, name: Seq<char>, k: nat)
    requires
        k <= funcs.len(),
        gathered(funcs, name, k) is Ok,
    ensures
        gathered(funcs, name, k)->Ok_0.relocs.len() == reloc_count(funcs, k),
    decreases k,
{
    if k > 0 {
        lemma_gathered_step(funcs, name, k);
        lemma_gathered_count(funcs, name, (k - 1) as nat);
    }
}

/// A relocation, as the linker takes it, to a symbol that is no function's
/// name and no constant's label gives no function: where every function can be compiled, the link
/// fails, and nothing is handed out to be called.
pub proof fn law_unknown_symbol_no_function(
    funcs: Seq<FunctionView>,
    name: Seq<char>,
    i: int,
    j: int,
)
    requires
        0 <= i < funcs.len(),
        0 <= j < buffer_of(funcs[i]).relocs.len(),
        ({
            let to = linked_reloc(buffer_of(funcs[i]), buffer_of(funcs[i]).relocs[j]).to;
            !is_function(funcs, funcs.len(), to) && !is_constant(funcs, funcs.len(), to)
        }),
    ensures
        jit_image(funcs, name) is Err,
        gathered(funcs, name, funcs.len()) is Ok ==> jit_image(funcs, name) matches Err(
            BuildFault::Link(_),
        ),
{
    let n = funcs.len();
    if gathered(funcs, name, n) is Ok {
        let l = gathered(funcs, name, n)->Ok_0;
        let to = linked_reloc(buffer_of(funcs[i]), buffer_of(funcs[i]).relocs[j]).to;
        let at = reloc_count(funcs, i as nat) + j;
        lemma_gathered_relocs(funcs, name, n, i, j);
        lemma_gathered_functions(funcs, name, n, to);
        lemma_gathered_constants(funcs, name, n, to);
        lemma_found_is_contained(func_names(l.funcs), to);
        lemma_found_is_contained(label_names(l.labels), to);
        assert(resolve(l, to) is None);
        law_unknown_symbol_no_image(l, at);
    }
}

/// The first relocation that fails, where it is one from a known symbol to a
/// symbol that is no function's name and no constant's label, is reported
/// with the symbol's name: where every function can be compiled and every
/// relocation before this one can be applied, building fails with
/// `UnknownTargetSymbol` and that name.
pub proof fn law_unknown_target_is_reported(
    funcs: Seq<FunctionView>,
    name: Seq<char>,
    i: int,
    j: int,
)
    requires
        0 <= i < funcs.len(),
        0 <= j < buffer_of(funcs[i]).relocs.len(),
        gathered(funcs, name, funcs.len()) is Ok,
        patched(
            gathered(funcs, name, funcs.len())->Ok_0,
            reloc_count(funcs, i as nat) + j as nat,
        ) is Ok,
        ({
            let link = linked_reloc(buffer_of(funcs[i]), buffer_of(funcs[i]).relocs[j]);
            &&& is_function(funcs, funcs.len(), link.from) || is_constant(
                funcs,
                funcs.len(),
                link.from,
            )
            &&& !is_function(funcs, funcs.len(), link.to)
            &&& !is_constant(funcs, funcs.len(), link.to)
        }),
    ensures
        jit_image(funcs, name) == Err::<Seq<u8>, BuildFault>(
            BuildFault::Link(
                LinkFault::UnknownTargetSymbol(
                    linked_reloc(buffer_of(funcs[i]), buffer_of(funcs[i]).relocs[j]).to,
                ),
            ),
        ),
{
    let n = funcs.len();
    let l = gathered(funcs, name, n)->Ok_0;
    let link = linked_reloc(buffer_of(funcs[i]), buffer_of(funcs[i]).relocs[j]);
    let at = reloc_count(funcs, i as nat) + j;
    lemma_gathered_relocs(funcs, name, n, i, j);
    lemma_gathered_functions(funcs, name, n, link.to);
    lemma_gathered_constants(funcs, name, n, link.to);
    lemma_gathered_functions(funcs, name, n, link.from);
    lemma_gathered_constants(funcs, name, n, link.from);
    lemma_found_is_contained(func_names(l.funcs), link.to);
    lemma_found_is_contained(label_names(l.labels), link.to);
    lemma_found_is_contained(func_names(l.funcs), link.from);
    lemma_found_is_contained(label_names(l.labels), link.from);
    assert(resolve(l, link.to) is None);
    assert(resolve(l, link.from) is Some);
    law_first_unknown_symbol_is_reported(l, at);
}

} // verus!
