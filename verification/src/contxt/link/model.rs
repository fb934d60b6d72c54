//! The mathematical model of a link: named blobs, where each is placed, and what
//! each relocation writes.

use vstd::prelude::*;
use crate::contxt::link::bytes::le_bytes;

verus! {

/// The byte that parts the code from the data: a near return.
pub const SEPARATOR: u8 = 0xC3;

/// A named blob of machine code. An entry blob is placed before all others.
pub struct FuncView {
    pub name: Seq<char>,
    pub code: Seq<u8>,
    pub entry: bool,
}

/// A named blob of constant data.
pub struct DataView {
    pub name: Seq<char>,
    pub data: Seq<u8>,
}

/// A relocation: a field of `size - 1` bytes, `at` bytes into the symbol `from`,
/// that is to refer to the symbol `to`.
pub struct LinkView {
    pub from: Seq<char>,
    pub to: Seq<char>,
    pub at: nat,
    pub size: nat,
    pub replace: bool,
}

/// All that a link depends on.
pub struct LinkerView {
    pub funcs: Seq<FuncView>,
    pub labels: Seq<DataView>,
    pub relocs: Seq<LinkView>,
}

/// Why a link fails.
pub enum LinkFault {
    /// The symbol that a relocation patches is not known.
    UnknownFunction(Seq<char>),
    /// The symbol that a relocation refers to is not known.
    UnknownTargetSymbol(Seq<char>),
    /// The field of a relocation of the named symbol is empty by less than nothing,
    /// or does not lie inside the image.
    FieldOutOfImage(Seq<char>),
}

/// A symbol after layout: where it starts in the image, and the bytes it was declared with.
pub struct Placed {
    pub offset: nat,
    pub bytes: Seq<u8>,
}

/// The code of those functions whose entry flag is `entry`, one after another.
pub open spec fn code_of(funcs: Seq<FuncView>, entry: bool) -> Seq<u8>
    decreases funcs.len(),
{
    if funcs.len() == 0 {
        Seq::empty()
    } else {
        let front = code_of(funcs.drop_last(), entry);
        if funcs.last().entry == entry {
            front + funcs.last().code
        } else {
            front
        }
    }
}

/// The data of all labels, one after another.
pub open spec fn data_of(labels: Seq<DataView>) -> Seq<u8>
    decreases labels.len(),
{
    if labels.len() == 0 {
        Seq::empty()
    } else {
        data_of(labels.drop_last()) + labels.last().data
    }
}

/// The length of the code region: every function, entry or not.
pub open spec fn code_len(funcs: Seq<FuncView>) -> nat {
    code_of(funcs, true).len() + code_of(funcs, false).len()
}

/// Where function `i` starts: entry functions come first, each kind in the order
/// in which the functions were added.
pub open spec fn func_offset(funcs: Seq<FuncView>, i: int) -> nat {
    if funcs[i].entry {
        code_of(funcs.take(i), true).len()
    } else {
        code_of(funcs, true).len() + code_of(funcs.take(i), false).len()
    }
}

/// Where label `j` starts: behind the code and the separator.
pub open spec fn label_offset(v: LinkerView, j: int) -> nat {
    code_len(v.funcs) + 1 + data_of(v.labels.take(j)).len()
}

/// The image before any relocation is applied.
pub open spec fn base_image(v: LinkerView) -> Seq<u8> {
    code_of(v.funcs, true) + code_of(v.funcs, false) + seq![SEPARATOR] + data_of(v.labels)
}

/// The first index from `k` on at which `names` holds `name`.
pub open spec fn find_from(names: Seq<Seq<char>>, name: Seq<char>, k: int) -> Option<int>
    decreases names.len() - k,
{
    if k < 0 || k >= names.len() {
        None
    } else if names[k] == name {
        Some(k)
    } else {
        find_from(names, name, k + 1)
    }
}

/// The first index at which `names` holds `name`.
pub open spec fn find(names: Seq<Seq<char>>, name: Seq<char>) -> Option<int> {
    find_from(names, name, 0)
}

pub open spec fn func_names(funcs: Seq<FuncView>) -> Seq<Seq<char>> {
    funcs.map_values(|f: FuncView| f.name)
}

pub open spec fn label_names(labels: Seq<DataView>) -> Seq<Seq<char>> {
    labels.map_values(|l: DataView| l.name)
}

/// No name occurs twice.
pub open spec fn distinct(names: Seq<Seq<char>>) -> bool {
    forall|i: int, j: int| 0 <= i < j < names.len() ==> names[i] != names[j]
}

/// The functions `funcs` with `f` added: in the place of the function of its
/// name, if there is one, else behind all.
pub open spec fn with_func(funcs: Seq<FuncView>, f: FuncView) -> Seq<FuncView> {
    match find(func_names(funcs), f.name) {
        Some(i) => funcs.update(i, f),
        None => funcs.push(f),
    }
}

/// The labels `labels` with `l` added: in the place of the label of its name,
/// if there is one, else behind all.
pub open spec fn with_label(labels: Seq<DataView>, l: DataView) -> Seq<DataView> {
    match find(label_names(labels), l.name) {
        Some(j) => labels.update(j, l),
        None => labels.push(l),
    }
}

/// What `name` stands for. A data label hides a function of the same name.
pub open spec fn resolve(v: LinkerView, name: Seq<char>) -> Option<Placed> {
    match find(label_names(v.labels), name) {
        Some(j) => Some(Placed { offset: label_offset(v, j), bytes: v.labels[j].data }),
        None => match find(func_names(v.funcs), name) {
            Some(i) => Some(Placed { offset: func_offset(v.funcs, i), bytes: v.funcs[i].code }),
            None => None,
        },
    }
}

/// The first `n` bytes of `bytes`, with zeros where `bytes` ends early.
pub open spec fn zero_padded(bytes: Seq<u8>, n: nat) -> Seq<u8> {
    Seq::new(n, |i: int| if i < bytes.len() { bytes[i] } else { 0u8 })
}

/// The bytes that relocation `r` writes at `site`, its field's place in the image.
/// A raw substitute copies the target's own bytes. Otherwise the field holds the
/// distance from `site + r.size` to the target's start.
pub open spec fn field_bytes(r: LinkView, site: nat, target: Placed) -> Seq<u8> {
    if r.replace {
        zero_padded(target.bytes, (r.size - 1) as nat)
    } else {
        le_bytes(target.offset - r.size - site, (r.size - 1) as nat)
    }
}

/// `img` with `bytes` written over it from `site` on.
pub open spec fn overwrite(img: Seq<u8>, site: int, bytes: Seq<u8>) -> Seq<u8> {
    Seq::new(img.len(), |j: int| if site <= j < site + bytes.len() { bytes[j - site] } else { img[j] })
}

/// Whether the field of `r`, placed at `site`, can be written into an image of `len` bytes.
/// An empty field can be written anywhere.
pub open spec fn field_fits(r: LinkView, site: nat, len: nat) -> bool {
    r.size >= 1 && (r.size == 1 || site + r.size - 1 <= len)
}

/// One relocation applied to `img`.
pub open spec fn patch(v: LinkerView, img: Seq<u8>, r: LinkView) -> Result<Seq<u8>, LinkFault> {
    match resolve(v, r.from) {
        None => Err(LinkFault::UnknownFunction(r.from)),
        Some(source) => match resolve(v, r.to) {
            None => Err(LinkFault::UnknownTargetSymbol(r.to)),
            Some(target) => {
                let site = source.offset + r.at;
                if field_fits(r, site, img.len()) {
                    Ok(overwrite(img, site as int, field_bytes(r, site, target)))
                } else {
                    Err(LinkFault::FieldOutOfImage(r.from))
                }
            },
        },
    }
}

/// The image after the first `k` relocations, or the first fault among them.
pub open spec fn patched(v: LinkerView, k: nat) -> Result<Seq<u8>, LinkFault>
    decreases k,
{
    if k == 0 {
        Ok(base_image(v))
    } else {
        match patched(v, (k - 1) as nat) {
            Err(fault) => Err(fault),
            Ok(img) => patch(v, img, v.relocs[k - 1]),
        }
    }
}

/// What linking gives: the image with every relocation applied in order, or the
/// first fault.
pub open spec fn link_result(v: LinkerView) -> Result<Seq<u8>, LinkFault> {
    patched(v, v.relocs.len())
}

/// What `find_from` finds is the first occurrence, and it finds nothing only where
/// there is none.
pub proof fn lemma_find_from(names: Seq<Seq<char>>, name: Seq<char>, k: int)
    requires
        0 <= k <= names.len(),
    ensures
        match find_from(names, name, k) {
            Some(i) => k <= i < names.len() && names[i] == name && forall|j: int|
                k <= j < i ==> names[j] != name,
            None => forall|j: int| k <= j < names.len() ==> names[j] != name,
        },
    decreases names.len() - k,
{
    if k < names.len() && names[k] != name {
        lemma_find_from(names, name, k + 1);
    }
}

/// Taking one more function adds its code to the side its flag names.
pub proof fn lemma_code_of_step(funcs: Seq<FuncView>, i: int, entry: bool)
    requires
        0 <= i < funcs.len(),
    ensures
        code_of(funcs.take(i + 1), entry) == if funcs[i].entry == entry {
            code_of(funcs.take(i), entry) + funcs[i].code
        } else {
            code_of(funcs.take(i), entry)
        },
{
    assert(funcs.take(i + 1).drop_last() =~= funcs.take(i));
}

/// Taking one more label adds its data.
pub proof fn lemma_data_of_step(labels: Seq<DataView>, j: int)
    requires
        0 <= j < labels.len(),
    ensures
        data_of(labels.take(j + 1)) == data_of(labels.take(j)) + labels[j].data,
{
    assert(labels.take(j + 1).drop_last() =~= labels.take(j));
}

/// Once a relocation has failed, the link has failed.
pub proof fn lemma_fault_stays(v: LinkerView, k: nat, n: nat)
    requires
        k <= n,
        patched(v, k) is Err,
    ensures
        patched(v, n) == patched(v, k),
    decreases n,
{
    if n > k {
        lemma_fault_stays(v, k, (n - 1) as nat);
    }
}

} // verus!
