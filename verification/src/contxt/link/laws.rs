//! What holds of every link.

use vstd::prelude::*;
use crate::contxt::link::bytes::{le_bytes, le_signed, lemma_le_bytes_len, lemma_le_round_trip, signed_limit};
use crate::contxt::link::model::{
    base_image, code_len, code_of, data_of, field_bytes, func_offset, label_offset,
    lemma_code_of_step, lemma_data_of_step, lemma_fault_stays, link_result, overwrite, patch,
    patched, resolve, DataView, FuncView, LinkFault, LinkView, LinkerView, SEPARATOR,
};

verus! {

/// Where the field of relocation `r` starts in the image, if `r.from` is known.
pub open spec fn site_of(v: LinkerView, r: LinkView) -> nat {
    match resolve(v, r.from) {
        Some(source) => source.offset + r.at,
        None => 0,
    }
}

/// The distance that a pc-relative relocation `r` stores: from the end of `r`'s
/// whole width, counted from its field's start, to the start of the target.
pub open spec fn displacement(v: LinkerView, r: LinkView) -> int {
    match resolve(v, r.to) {
        Some(target) => target.offset - r.size - site_of(v, r),
        None => 0,
    }
}

/// The fields of `a` and `b` share no byte.
pub open spec fn fields_apart(v: LinkerView, a: LinkView, b: LinkView) -> bool {
    ||| site_of(v, a) + a.size - 1 <= site_of(v, b)
    ||| site_of(v, b) + b.size - 1 <= site_of(v, a)
}

/// Without relocations the image is the code of the entry functions, the code of
/// the other functions, one separator byte, and the data, and nothing else.
pub proof fn law_image_without_relocations(v: LinkerView)
    requires
        v.relocs.len() == 0,
    ensures
        link_result(v) == Ok::<Seq<u8>, LinkFault>(
            code_of(v.funcs, true) + code_of(v.funcs, false) + seq![SEPARATOR] + data_of(v.labels),
        ),
{
}

/// A single entry function linked without relocations gives its own bytes,
/// followed by the separator byte and by the data, if there is any.
pub proof fn law_single_entry_function(v: LinkerView)
    requires
        v.funcs.len() == 1,
        v.funcs[0].entry,
        v.relocs.len() == 0,
    ensures
        link_result(v) == Ok::<Seq<u8>, LinkFault>(
            v.funcs[0].code + seq![SEPARATOR] + data_of(v.labels),
        ),
        v.labels.len() == 0 ==> link_result(v) == Ok::<Seq<u8>, LinkFault>(
            v.funcs[0].code + seq![SEPARATOR],
        ),
{
    let f = v.funcs[0];
    assert(v.funcs.drop_last() =~= Seq::<FuncView>::empty());
    assert(code_of(v.funcs.drop_last(), true) =~= Seq::<u8>::empty());
    assert(code_of(v.funcs.drop_last(), false) =~= Seq::<u8>::empty());
    assert(code_of(v.funcs, true) =~= f.code);
    assert(code_of(v.funcs, false) =~= Seq::<u8>::empty());
    assert(f.code + Seq::<u8>::empty() =~= f.code);
    if v.labels.len() == 0 {
        assert(f.code + seq![SEPARATOR] + data_of(v.labels) =~= f.code + seq![SEPARATOR]);
    }
}

/// No entry function among the first `i` functions: they put no code at the front.
proof fn lemma_no_entry_no_code(funcs: Seq<FuncView>, i: int)
    requires
        0 <= i <= funcs.len(),
        forall|k: int| 0 <= k < i ==> !funcs[k].entry,
    ensures
        code_of(funcs.take(i), true).len() == 0,
    decreases i,
{
    if i > 0 {
        lemma_no_entry_no_code(funcs, i - 1);
        assert(funcs.take(i).drop_last() =~= funcs.take(i - 1));
    }
}

/// The first function that is flagged as entry starts the image.
pub proof fn law_entry_comes_first(funcs: Seq<FuncView>, i: int)
    requires
        0 <= i < funcs.len(),
        funcs[i].entry,
        forall|k: int| 0 <= k < i ==> !funcs[k].entry,
    ensures
        func_offset(funcs, i) == 0,
{
    lemma_no_entry_no_code(funcs, i);
}

/// The code of the first `j` functions starts the code of the first `k`, where
/// `j` is at most `k`.
proof fn lemma_code_grows(funcs: Seq<FuncView>, entry: bool, j: int, k: int)
    requires
        0 <= j <= k <= funcs.len(),
    ensures
        code_of(funcs.take(j), entry).len() <= code_of(funcs.take(k), entry).len(),
        code_of(funcs.take(k), entry).subrange(0, code_of(funcs.take(j), entry).len() as int)
            == code_of(funcs.take(j), entry),
    decreases k - j,
{
    if j < k {
        lemma_code_grows(funcs, entry, j, k - 1);
        lemma_code_of_step(funcs, k - 1, entry);
        assert(code_of(funcs.take(k), entry).subrange(
            0,
            code_of(funcs.take(j), entry).len() as int,
        ) =~= code_of(funcs.take(j), entry));
    } else {
        assert(code_of(funcs.take(k), entry).subrange(
            0,
            code_of(funcs.take(j), entry).len() as int,
        ) =~= code_of(funcs.take(j), entry));
    }
}

/// The data of the first `j` labels starts the data of the first `k`, where `j`
/// is at most `k`.
proof fn lemma_data_grows(labels: Seq<DataView>, j: int, k: int)
    requires
        0 <= j <= k <= labels.len(),
    ensures
        data_of(labels.take(j)).len() <= data_of(labels.take(k)).len(),
        data_of(labels.take(k)).subrange(0, data_of(labels.take(j)).len() as int) == data_of(
            labels.take(j),
        ),
    decreases k - j,
{
    if j < k {
        lemma_data_grows(labels, j, k - 1);
        lemma_data_of_step(labels, k - 1);
        assert(data_of(labels.take(k)).subrange(0, data_of(labels.take(j)).len() as int)
            =~= data_of(labels.take(j)));
    } else {
        assert(data_of(labels.take(k)).subrange(0, data_of(labels.take(j)).len() as int)
            =~= data_of(labels.take(j)));
    }
}

/// Before relocations are applied, each function's code stands in the image
/// where the function's offset says.
pub proof fn law_function_at_its_offset(v: LinkerView, i: int)
    requires
        0 <= i < v.funcs.len(),
    ensures
        func_offset(v.funcs, i) + v.funcs[i].code.len() <= code_len(v.funcs),
        base_image(v).subrange(
            func_offset(v.funcs, i) as int,
            (func_offset(v.funcs, i) + v.funcs[i].code.len()) as int,
        ) == v.funcs[i].code,
{
    let funcs = v.funcs;
    let n = funcs.len() as int;
    let entry = funcs[i].entry;
    let all = code_of(funcs, entry);
    let upto = code_of(funcs.take(i), entry);
    let with = code_of(funcs.take(i + 1), entry);
    assert(funcs.take(n) =~= funcs);
    lemma_code_of_step(funcs, i, entry);
    lemma_code_grows(funcs, entry, i + 1, n);
    assert(with == upto + funcs[i].code);
    assert(all.subrange(0, with.len() as int) == with);
    assert(all.subrange(upto.len() as int, with.len() as int) =~= funcs[i].code) by {
        assert forall|k: int| 0 <= k < funcs[i].code.len() implies all[upto.len() + k]
            == funcs[i].code[k] by {
            assert(all.subrange(0, with.len() as int)[upto.len() + k] == with[upto.len() + k]);
        }
    }
    let start = func_offset(funcs, i) as int;
    assert(base_image(v).subrange(start, start + funcs[i].code.len()) =~= funcs[i].code) by {
        assert forall|k: int| 0 <= k < funcs[i].code.len() implies base_image(v)[start + k]
            == funcs[i].code[k] by {
            assert(all.subrange(upto.len() as int, with.len() as int)[k] == all[upto.len() + k]);
        }
    }
}

/// Before relocations are applied, each label's data stands in the image where
/// the label's offset says: behind the code and the separator.
pub proof fn law_label_at_its_offset(v: LinkerView, j: int)
    requires
        0 <= j < v.labels.len(),
    ensures
        label_offset(v, j) + v.labels[j].data.len() <= base_image(v).len(),
        base_image(v).subrange(
            label_offset(v, j) as int,
            (label_offset(v, j) + v.labels[j].data.len()) as int,
        ) == v.labels[j].data,
        base_image(v)[code_len(v.funcs) as int] == SEPARATOR,
{
    let labels = v.labels;
    let m = labels.len() as int;
    let all = data_of(labels);
    let upto = data_of(labels.take(j));
    let with = data_of(labels.take(j + 1));
    assert(labels.take(m) =~= labels);
    lemma_data_of_step(labels, j);
    lemma_data_grows(labels, j + 1, m);
    assert(all.subrange(0, with.len() as int) == with);
    let start = label_offset(v, j) as int;
    assert(base_image(v).subrange(start, start + labels[j].data.len()) =~= labels[j].data) by {
        assert forall|k: int| 0 <= k < labels[j].data.len() implies base_image(v)[start + k]
            == labels[j].data[k] by {
            assert(all.subrange(0, with.len() as int)[upto.len() + k] == with[upto.len() + k]);
        }
    }
}

/// Relocations write into the image and add nothing to it: a linked image is
/// as long as the code, the separator and the data together.
pub proof fn law_image_length(v: LinkerView)
    requires
        link_result(v) is Ok,
    ensures
        link_result(v)->Ok_0.len() == code_len(v.funcs) + 1 + data_of(v.labels).len(),
{
    lemma_patch_keeps_len(v, 0, v.relocs.len() as int);
}

/// In a link that succeeds, every relocation names two known symbols.
pub proof fn law_linked_means_resolved(v: LinkerView, k: int)
    requires
        link_result(v) is Ok,
        0 <= k < v.relocs.len(),
    ensures
        resolve(v, v.relocs[k].from) is Some,
        resolve(v, v.relocs[k].to) is Some,
{
    if resolve(v, v.relocs[k].from) is None || resolve(v, v.relocs[k].to) is None {
        law_unknown_symbol_no_image(v, k);
    }
}

/// Linking is a function of the declared functions, labels and relocations alone:
/// two linkers that hold the same give the same image, or the same fault.
pub proof fn law_same_declarations_same_image(a: LinkerView, b: LinkerView)
    requires
        a.funcs =~= b.funcs,
        a.labels =~= b.labels,
        a.relocs =~= b.relocs,
    ensures
        link_result(a) == link_result(b),
{
}

/// A relocation that names an unknown symbol makes the link fail: there is no image.
pub proof fn law_unknown_symbol_no_image(v: LinkerView, k: int)
    requires
        0 <= k < v.relocs.len(),
        resolve(v, v.relocs[k].from) is None || resolve(v, v.relocs[k].to) is None,
    ensures
        link_result(v) is Err,
{
    if patched(v, k as nat) is Err {
        lemma_fault_stays(v, k as nat, v.relocs.len());
    } else {
        lemma_fault_stays(v, (k + 1) as nat, v.relocs.len());
    }
}

/// Where every relocation before `k` can be applied and relocation `k` names an
/// unknown symbol, the link fails with that name: the patched symbol's, if that
/// is unknown, else the target's.
pub proof fn law_first_unknown_symbol_is_reported(v: LinkerView, k: int)
    requires
        0 <= k < v.relocs.len(),
        patched(v, k as nat) is Ok,
        resolve(v, v.relocs[k].from) is None || resolve(v, v.relocs[k].to) is None,
    ensures
        resolve(v, v.relocs[k].from) is None ==> link_result(v) == Err::<Seq<u8>, LinkFault>(
            LinkFault::UnknownFunction(v.relocs[k].from),
        ),
        resolve(v, v.relocs[k].from) is Some ==> link_result(v) == Err::<Seq<u8>, LinkFault>(
            LinkFault::UnknownTargetSymbol(v.relocs[k].to),
        ),
{
    lemma_fault_stays(v, (k + 1) as nat, v.relocs.len());
}

/// The field that a pc-relative relocation writes holds, as a little-endian
/// two's complement number of `size - 1` bytes, the target's offset less the
/// relocation's width less the field's offset, where that number fits the field.
pub proof fn law_pc_relative_patch(v: LinkerView, img: Seq<u8>, r: LinkView)
    requires
        !r.replace,
        r.size >= 2,
        patch(v, img, r) is Ok,
        -signed_limit((r.size - 1) as nat) <= displacement(v, r) < signed_limit(
            (r.size - 1) as nat,
        ),
    ensures
        patch(v, img, r) matches Ok(out) && le_signed(
            out.subrange(site_of(v, r) as int, site_of(v, r) + r.size - 1),
        ) == displacement(v, r),
{
    let out = patch(v, img, r)->Ok_0;
    let site = site_of(v, r);
    let n = (r.size - 1) as nat;
    let d = displacement(v, r);
    lemma_le_bytes_len(d, n);
    lemma_le_round_trip(d, n);
    assert(out.subrange(site as int, site + r.size - 1) =~= le_bytes(d, n));
}

/// The bytes that a relocation writes are as many as its field is wide.
proof fn lemma_field_len(v: LinkerView, img: Seq<u8>, r: LinkView)
    requires
        patch(v, img, r) is Ok,
    ensures
        r.size >= 1,
        resolve(v, r.from) is Some,
        resolve(v, r.to) is Some,
        patch(v, img, r)->Ok_0 == overwrite(
            img,
            site_of(v, r) as int,
            field_bytes(r, site_of(v, r), resolve(v, r.to)->0),
        ),
        field_bytes(r, site_of(v, r), resolve(v, r.to)->0).len() == r.size - 1,
        r.size >= 2 ==> site_of(v, r) + r.size - 1 <= img.len(),
{
    let target = resolve(v, r.to)->0;
    lemma_le_bytes_len(target.offset - r.size - site_of(v, r), (r.size - 1) as nat);
}

/// A relocation whose field no later relocation touches leaves its field as it
/// wrote it.
proof fn lemma_field_kept(v: LinkerView, k: int, n: int)
    requires
        0 <= k < n <= v.relocs.len(),
        patched(v, n as nat) is Ok,
        v.relocs[k].size >= 2,
        forall|m: int| k < m < v.relocs.len() ==> fields_apart(v, v.relocs[k], v.relocs[m]),
    ensures
        patched(v, (k + 1) as nat) is Ok,
        ({
            let site = site_of(v, v.relocs[k]) as int;
            let end = site + v.relocs[k].size - 1;
            patched(v, n as nat)->Ok_0.subrange(site, end) == patched(
                v,
                (k + 1) as nat,
            )->Ok_0.subrange(site, end)
        }),
    decreases n,
{
    if n > k + 1 {
        lemma_field_kept(v, k, n - 1);
        let before = patched(v, (n - 1) as nat)->Ok_0;
        let after = patched(v, n as nat)->Ok_0;
        let site = site_of(v, v.relocs[k]) as int;
        let end = site + v.relocs[k].size - 1;
        assert(fields_apart(v, v.relocs[k], v.relocs[n - 1]));
        lemma_patch_keeps_len(v, k, n - 1);
        lemma_patch_keeps_len(v, k + 1, n - 1);
        lemma_field_len(v, patched(v, k as nat)->Ok_0, v.relocs[k]);
        lemma_field_len(v, before, v.relocs[n - 1]);
        assert(after.subrange(site, end) =~= before.subrange(site, end));
    }
}

/// Relocations do not change the length of the image.
proof fn lemma_patch_keeps_len(v: LinkerView, k: int, n: int)
    requires
        0 <= k <= n <= v.relocs.len(),
        patched(v, n as nat) is Ok,
    ensures
        patched(v, k as nat) is Ok,
        patched(v, k as nat)->Ok_0.len() == patched(v, n as nat)->Ok_0.len(),
        patched(v, n as nat)->Ok_0.len() == base_image(v).len(),
    decreases n,
{
    if n > 0 {
        lemma_patch_keeps_len(v, if k < n { k } else { n - 1 }, n - 1);
    }
}

/// In the linked image, the field of a pc-relative relocation that no later
/// relocation overwrites holds, as a little-endian two's complement number of
/// `size - 1` bytes, the target's offset less the relocation's width less the
/// field's offset, where that number fits the field.
pub proof fn law_pc_relative_displacement(v: LinkerView, k: int)
    requires
        0 <= k < v.relocs.len(),
        link_result(v) is Ok,
        !v.relocs[k].replace,
        v.relocs[k].size >= 2,
        -signed_limit((v.relocs[k].size - 1) as nat) <= displacement(v, v.relocs[k])
            < signed_limit((v.relocs[k].size - 1) as nat),
        forall|m: int| k < m < v.relocs.len() ==> fields_apart(v, v.relocs[k], v.relocs[m]),
    ensures
        link_result(v) matches Ok(image) && le_signed(
            image.subrange(
                site_of(v, v.relocs[k]) as int,
                site_of(v, v.relocs[k]) + v.relocs[k].size - 1,
            ),
        ) == displacement(v, v.relocs[k]),
{
    lemma_field_kept(v, k, v.relocs.len() as int);
    lemma_patch_keeps_len(v, k, v.relocs.len() as int);
    law_pc_relative_patch(v, patched(v, k as nat)->Ok_0, v.relocs[k]);
}

} // verus!
