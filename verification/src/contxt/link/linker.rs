//! The linker itself.

use vstd::prelude::*;
use vstd::string::StringExecFns;
use crate::contxt::jit::JitFunction;
use crate::contxt::link::bytes::{displacement_bytes, lemma_le_bytes_len};
use crate::contxt::link::model::{
    base_image, code_len, code_of, data_of, distinct, field_bytes, find, find_from, func_names,
    func_offset, label_names, label_offset, lemma_code_of_step, lemma_data_of_step,
    lemma_fault_stays, lemma_find_from, link_result, overwrite, patch, patched, resolve,
    with_func, with_label, zero_padded, DataView, FuncView, LinkFault, LinkView, LinkerView,
    Placed, SEPARATOR,
};

verus! {

/// A relocation: the field of `size - 1` bytes that lies `at` bytes into the
/// symbol `from` is to refer to the symbol `to`. With `replace` the field receives
/// the first bytes of `to` itself; without it, the distance to where `to` starts.
#[derive(Debug, Clone, PartialEq, Eq)]
pub struct Link {
    pub from: String,
    pub to: String,
    pub at: usize,
    pub size: usize,
    pub replace: bool,
}

impl View for Link {
    type V = LinkView;

    open spec fn view(&self) -> LinkView {
        LinkView {
            from: self.from@,
            to: self.to@,
            at: self.at as nat,
            size: self.size as nat,
            replace: self.replace,
        }
    }
}

/// A copy of `link`.
pub fn copy_link(link: &Link) -> (copy: Link)
    ensures
        copy@ == link@,
{
    Link {
        from: link.from.clone(),
        to: link.to.clone(),
        at: link.at,
        size: link.size,
        replace: link.replace,
    }
}

/// Why a link failed.
#[derive(Debug, Clone, PartialEq, Eq)]
pub enum LinkError {
    /// The symbol that a relocation patches was never added.
    UnknownFunction(String),
    /// The symbol that a relocation refers to was never added.
    UnknownTargetSymbol(String),
    /// A relocation of the named symbol has a width of zero, or its field does not
    /// lie inside the image.
    FieldOutOfImage(String),
}

impl View for LinkError {
    type V = LinkFault;

    open spec fn view(&self) -> LinkFault {
        match self {
            LinkError::UnknownFunction(name) => LinkFault::UnknownFunction(name@),
            LinkError::UnknownTargetSymbol(name) => LinkFault::UnknownTargetSymbol(name@),
            LinkError::FieldOutOfImage(name) => LinkFault::FieldOutOfImage(name@),
        }
    }
}

impl LinkError {
    /// The message for this error.
    pub open spec fn spec_message(self) -> Seq<char> {
        match self {
            LinkError::UnknownFunction(name) => "unknown function "@ + name@,
            LinkError::UnknownTargetSymbol(name) => "unknown target symbol "@ + name@,
            LinkError::FieldOutOfImage(name) => "relocation outside the image in "@ + name@,
        }
    }

    /// The message for this error.
    pub fn message(&self) -> (text: String)
        ensures
            text@ == self.spec_message(),
    {
        match self {
            LinkError::UnknownFunction(name) => {
                String::from_str("unknown function ").concat(name.as_str())
            },
            LinkError::UnknownTargetSymbol(name) => {
                String::from_str("unknown target symbol ").concat(name.as_str())
            },
            LinkError::FieldOutOfImage(name) => {
                String::from_str("relocation outside the image in ").concat(name.as_str())
            },
        }
    }
}

#[derive(Debug, Clone, PartialEq, Eq)]
struct Func {
    name: String,
    code: Vec<u8>,
    entry: bool,
}

impl View for Func {
    type V = FuncView;

    closed spec fn view(&self) -> FuncView {
        FuncView { name: self.name@, code: self.code@, entry: self.entry }
    }
}

#[derive(Debug, Clone, PartialEq, Eq)]
struct Label {
    name: String,
    data: Vec<u8>,
}

impl View for Label {
    type V = DataView;

    closed spec fn view(&self) -> DataView {
        DataView { name: self.name@, data: self.data@ }
    }
}

/// Where a name was found: the symbol's offset in the image, whether it is a
/// label, and its index among the labels or the functions.
struct Found {
    offset: usize,
    label: bool,
    index: usize,
}

/// Collects code blobs, data blobs and relocations, and links them into one image.
///
/// Functions and labels are kept in the order in which their names were first
/// added; adding a name again replaces what it stood for.
#[derive(Debug, Clone, PartialEq, Eq)]
pub struct JitLinker {
    funcs: Vec<Func>,
    labels: Vec<Label>,
    relocs: Vec<Link>,
}

/// `dst` with the bytes of `src` behind it.
fn append_bytes(dst: &mut Vec<u8>, src: &Vec<u8>)
    ensures
        final(dst)@ == old(dst)@ + src@,
{
    let n = src.len();
    let mut i: usize = 0;
    while i < n
        invariant
            i <= n == src.len(),
            dst@ == old(dst)@ + src@.take(i as int),
        decreases n - i,
    {
        dst.push(src[i]);
        i += 1;
    }
    assert(src@.take(n as int) =~= src@);
}

/// The first `n` bytes of `bytes`, with zeros where `bytes` ends early.
fn padded_prefix(bytes: &Vec<u8>, n: usize) -> (field: Vec<u8>)
    ensures
        field@ == zero_padded(bytes@, n as nat),
{
    let mut field: Vec<u8> = Vec::new();
    let mut i: usize = 0;
    while i < n
        invariant
            i <= n,
            field@ == zero_padded(bytes@, i as nat),
        decreases n - i,
    {
        if i < bytes.len() {
            field.push(bytes[i]);
        } else {
            field.push(0);
        }
        i += 1;
    }
    field
}

/// Writes `field` over `image` from `site` on.
fn write_at(image: &mut Vec<u8>, site: usize, field: &Vec<u8>)
    requires
        site + field.len() <= old(image).len(),
    ensures
        final(image)@ == overwrite(old(image)@, site as int, field@),
{
    let n = field.len();
    let mut i: usize = 0;
    while i < n
        invariant
            i <= n == field.len(),
            site + n <= image.len(),
            image@.len() == old(image)@.len(),
            forall|j: int|
                0 <= j < image@.len() ==> image@[j] == if site <= j < site + i {
                    field@[j - site]
                } else {
                    old(image)@[j]
                },
        decreases n - i,
    {
        image.set(site + i, field[i]);
        i += 1;
    }
    assert(image@ =~= overwrite(old(image)@, site as int, field@));
}

impl View for JitLinker {
    type V = LinkerView;

    closed spec fn view(&self) -> LinkerView {
        LinkerView {
            funcs: self.funcs@.map_values(|f: Func| f@),
            labels: self.labels@.map_values(|l: Label| l@),
            relocs: self.relocs@.map_values(|r: Link| r@),
        }
    }
}

impl JitLinker {
    /// A linker that holds nothing.
    pub fn new() -> (linker: Self)
        ensures
            linker@.funcs == Seq::<FuncView>::empty(),
            linker@.labels == Seq::<DataView>::empty(),
            linker@.relocs == Seq::<LinkView>::empty(),
            linker.wf(),
    {
        let linker = Self { funcs: Vec::new(), labels: Vec::new(), relocs: Vec::new() };
        assert(linker@.funcs =~= Seq::<FuncView>::empty());
        assert(linker@.labels =~= Seq::<DataView>::empty());
        assert(linker@.relocs =~= Seq::<LinkView>::empty());
        linker
    }

    /// No name stands for two functions, and none for two labels. A new linker is
    /// so, and adding to it keeps it so.
    pub open spec fn wf(&self) -> bool {
        &&& distinct(func_names(self@.funcs))
        &&& distinct(label_names(self@.labels))
    }

    /// The index of the function called `name`.
    fn func_index(&self, name: &String) -> (found: Option<usize>)
        ensures
            match found {
                Some(i) => find(func_names(self@.funcs), name@) == Some(i as int) && i
                    < self.funcs.len(),
                None => find(func_names(self@.funcs), name@) is None,
            },
    {
        let n = self.funcs.len();
        let ghost names = func_names(self@.funcs);
        let mut i: usize = 0;
        while i < n
            invariant
                i <= n == self.funcs.len(),
                names == func_names(self@.funcs),
                names.len() == n,
                find(names, name@) == find_from(names, name@, i as int),
            decreases n - i,
        {
            if self.funcs[i].name == *name {
                return Some(i);
            }
            i += 1;
        }
        None
    }

    /// The index of the label called `name`.
    fn label_index(&self, name: &String) -> (found: Option<usize>)
        ensures
            match found {
                Some(j) => find(label_names(self@.labels), name@) == Some(j as int) && j
                    < self.labels.len(),
                None => find(label_names(self@.labels), name@) is None,
            },
    {
        let n = self.labels.len();
        let ghost names = label_names(self@.labels);
        let mut j: usize = 0;
        while j < n
            invariant
                j <= n == self.labels.len(),
                names == label_names(self@.labels),
                names.len() == n,
                find(names, name@) == find_from(names, name@, j as int),
            decreases n - j,
        {
            if self.labels[j].name == *name {
                return Some(j);
            }
            j += 1;
        }
        None
    }

    /// The bytes that the symbol found as `found` was declared with.
    spec fn bytes_of(&self, found: Found) -> Seq<u8> {
        if found.label {
            self.labels[found.index as int].data@
        } else {
            self.funcs[found.index as int].code@
        }
    }

    /// Whether `func_at` and `label_at` hold where each function and each label starts.
    spec fn placed_at(&self, func_at: Seq<usize>, label_at: Seq<usize>) -> bool {
        &&& func_at.len() == self.funcs.len()
        &&& label_at.len() == self.labels.len()
        &&& forall|i: int| 0 <= i < func_at.len() ==> func_at[i] == func_offset(self@.funcs, i)
        &&& forall|j: int| 0 <= j < label_at.len() ==> label_at[j] == label_offset(self@, j)
    }

    /// The image before any relocation, with the offset of each function and of each
    /// label in it.
    fn layout(&self) -> (placed: (Vec<u8>, Vec<usize>, Vec<usize>))
        ensures
            placed.0@ == base_image(self@),
            self.placed_at(placed.1@, placed.2@),
    {
        let ghost funcs = self@.funcs;
        let ghost labels = self@.labels;
        let n = self.funcs.len();
        let mut image: Vec<u8> = Vec::new();
        let mut func_at: Vec<usize> = Vec::new();
        let mut i: usize = 0;
        while i < n
            invariant
                i <= n == self.funcs.len(),
                funcs == self@.funcs,
                funcs.len() == n,
                image@ == code_of(funcs.take(i as int), true),
                func_at.len() == i,
                forall|k: int|
                    0 <= k < i && funcs[k].entry ==> func_at[k] == func_offset(funcs, k),
            decreases n - i,
        {
            proof {
                lemma_code_of_step(funcs, i as int, true);
            }
            func_at.push(image.len());
            if self.funcs[i].entry {
                append_bytes(&mut image, &self.funcs[i].code);
            }
            i += 1;
        }
        assert(funcs.take(n as int) =~= funcs);
        i = 0;
        while i < n
            invariant
                i <= n == self.funcs.len(),
                funcs == self@.funcs,
                funcs.len() == n,
                image@ == code_of(funcs, true) + code_of(funcs.take(i as int), false),
                func_at.len() == n,
                forall|k: int|
                    0 <= k < n && funcs[k].entry ==> func_at[k] == func_offset(funcs, k),
                forall|k: int|
                    0 <= k < i && !funcs[k].entry ==> func_at[k] == func_offset(funcs, k),
            decreases n - i,
        {
            proof {
                lemma_code_of_step(funcs, i as int, false);
            }
            if !self.funcs[i].entry {
                func_at.set(i, image.len());
                append_bytes(&mut image, &self.funcs[i].code);
                assert(image@ =~= code_of(funcs, true) + (code_of(funcs.take(i as int), false)
                    + funcs[i as int].code));
            }
            i += 1;
        }
        image.push(SEPARATOR);
        let ghost code = code_of(funcs, true) + code_of(funcs, false);
        let m = self.labels.len();
        let mut label_at: Vec<usize> = Vec::new();
        let mut j: usize = 0;
        while j < m
            invariant
                j <= m == self.labels.len(),
                labels == self@.labels,
                funcs == self@.funcs,
                labels.len() == m,
                code.len() == code_len(funcs),
                image@ == code + seq![SEPARATOR] + data_of(labels.take(j as int)),
                label_at.len() == j,
                forall|k: int| 0 <= k < j ==> label_at[k] == label_offset(self@, k),
            decreases m - j,
        {
            proof {
                lemma_data_of_step(labels, j as int);
            }
            label_at.push(image.len());
            append_bytes(&mut image, &self.labels[j].data);
            assert(image@ =~= code + seq![SEPARATOR] + (data_of(labels.take(j as int))
                + labels[j as int].data));
            j += 1;
        }
        assert(labels.take(m as int) =~= labels);
        (image, func_at, label_at)
    }

    /// What `name` stands for: a label of that name, else a function of that name.
    fn locate(&self, func_at: &Vec<usize>, label_at: &Vec<usize>, name: &String) -> (found:
        Option<Found>)
        requires
            self.placed_at(func_at@, label_at@),
        ensures
            match found {
                Some(f) => {
                    &&& resolve(self@, name@) == Some(
                        Placed { offset: f.offset as nat, bytes: self.bytes_of(f) },
                    )
                    &&& f.label ==> f.index < self.labels.len()
                    &&& !f.label ==> f.index < self.funcs.len()
                },
                None => resolve(self@, name@) is None,
            },
    {
        match self.label_index(name) {
            Some(j) => Some(Found { offset: label_at[j], label: true, index: j }),
            None => match self.func_index(name) {
                Some(i) => Some(Found { offset: func_at[i], label: false, index: i }),
                None => None,
            },
        }
    }

    /// Applies one relocation to `image`.
    fn apply(
        &self,
        image: &mut Vec<u8>,
        func_at: &Vec<usize>,
        label_at: &Vec<usize>,
        link: &Link,
    ) -> (done: Result<(), LinkError>)
        requires
            self.placed_at(func_at@, label_at@),
        ensures
            match done {
                Ok(()) => patch(self@, old(image)@, link@) == Ok::<Seq<u8>, LinkFault>(
                    final(image)@,
                ),
                Err(e) => patch(self@, old(image)@, link@) == Err::<Seq<u8>, LinkFault>(e@),
            },
    {
        let source = match self.locate(func_at, label_at, &link.from) {
            Some(f) => f,
            None => {
                return Err(LinkError::UnknownFunction(link.from.clone()));
            },
        };
        let target = match self.locate(func_at, label_at, &link.to) {
            Some(f) => f,
            None => {
                return Err(LinkError::UnknownTargetSymbol(link.to.clone()));
            },
        };
        if link.size == 0 {
            return Err(LinkError::FieldOutOfImage(link.from.clone()));
        }
        let width = link.size - 1;
        let ghost place = Placed { offset: target.offset as nat, bytes: self.bytes_of(target) };
        let ghost spot = (source.offset + link.at) as nat;
        if width == 0 {
            assert(overwrite(image@, spot as int, field_bytes(link@, spot, place)) =~= image@);
            return Ok(());
        }
        let len = image.len();
        let site = match source.offset.checked_add(link.at) {
            Some(s) => s,
            None => {
                return Err(LinkError::FieldOutOfImage(link.from.clone()));
            },
        };
        if site > len || width > len - site {
            return Err(LinkError::FieldOutOfImage(link.from.clone()));
        }
        let field = if link.replace {
            if target.label {
                padded_prefix(&self.labels[target.index].data, width)
            } else {
                padded_prefix(&self.funcs[target.index].code, width)
            }
        } else {
            displacement_bytes(target.offset as i128 - link.size as i128 - site as i128, width)
        };
        proof {
            lemma_le_bytes_len(target.offset - link.size - site, width as nat);
        }
        write_at(image, site, &field);
        Ok(())
    }

    /// Links everything into one image: the entry functions, the other functions,
    /// one separator byte, the data labels; then each relocation is applied, in the
    /// order in which it was added. The linker itself is left as it was.
    ///
    /// Fails at the first relocation that names an unknown symbol or whose field
    /// does not lie inside the image.
    pub fn link(&mut self) -> (result: Result<Vec<u8>, LinkError>)
        ensures
            *final(self) == *old(self),
            match result {
                Ok(image) => link_result(old(self)@) == Ok::<Seq<u8>, LinkFault>(image@),
                Err(e) => link_result(old(self)@) == Err::<Seq<u8>, LinkFault>(e@),
            },
    {
        let (mut image, func_at, label_at) = self.layout();
        let n = self.relocs.len();
        let mut k: usize = 0;
        while k < n
            invariant
                k <= n == self.relocs.len(),
                *self == *old(self),
                self.placed_at(func_at@, label_at@),
                patched(self@, k as nat) == Ok::<Seq<u8>, LinkFault>(image@),
            decreases n - k,
        {
            match self.apply(&mut image, &func_at, &label_at, &self.relocs[k]) {
                Ok(()) => {},
                Err(e) => {
                    proof {
                        lemma_fault_stays(self@, (k + 1) as nat, n as nat);
                    }
                    return Err(e);
                },
            }
            k += 1;
        }
        Ok(image)
    }

    /// Links everything, as `link` does, and hands the image on as a function of
    /// type `T`.
    pub fn engine<T>(&mut self) -> (result: Result<JitFunction<T>, LinkError>)
        ensures
            *final(self) == *old(self),
            match result {
                Ok(func) => link_result(old(self)@) == Ok::<Seq<u8>, LinkFault>(func@),
                Err(e) => link_result(old(self)@) == Err::<Seq<u8>, LinkFault>(e@),
            },
    {
        match self.link() {
            Ok(image) => Ok(JitFunction::new(image)),
            Err(e) => Err(e),
        }
    }

    /// Adds the function `name`, or gives the function of that name new code and a
    /// new entry flag.
    pub fn add_func(&mut self, name: &str, code: Vec<u8>, entry: bool)
        ensures
            final(self)@.funcs == with_func(
                old(self)@.funcs,
                FuncView { name: name@, code: code@, entry },
            ),
            final(self)@.labels == old(self)@.labels,
            final(self)@.relocs == old(self)@.relocs,
            old(self).wf() ==> final(self).wf(),
    {
        proof {
            lemma_find_from(func_names(self@.funcs), name@, 0);
        }
        let key = String::from_str(name);
        let added = Func { name: String::from_str(name), code, entry };
        let ghost before = self@;
        match self.func_index(&key) {
            Some(i) => {
                self.funcs.set(i, added);
                assert(self@.funcs =~= before.funcs.update(i as int, added@));
                assert(func_names(self@.funcs) =~= func_names(before.funcs));
            },
            None => {
                self.funcs.push(added);
                assert(self@.funcs =~= before.funcs.push(added@));
                assert(func_names(self@.funcs) =~= func_names(before.funcs).push(name@));
            },
        }
        assert(self@.labels =~= before.labels);
        assert(self@.relocs =~= before.relocs);
    }

    /// Adds the data label `name`, or gives the label of that name new data.
    pub fn add_label(&mut self, name: &str, data: Vec<u8>)
        ensures
            final(self)@.labels == with_label(
                old(self)@.labels,
                DataView { name: name@, data: data@ },
            ),
            final(self)@.funcs == old(self)@.funcs,
            final(self)@.relocs == old(self)@.relocs,
            old(self).wf() ==> final(self).wf(),
    {
        proof {
            lemma_find_from(label_names(self@.labels), name@, 0);
        }
        let key = String::from_str(name);
        let added = Label { name: String::from_str(name), data };
        let ghost before = self@;
        match self.label_index(&key) {
            Some(j) => {
                self.labels.set(j, added);
                assert(self@.labels =~= before.labels.update(j as int, added@));
                assert(label_names(self@.labels) =~= label_names(before.labels));
            },
            None => {
                self.labels.push(added);
                assert(self@.labels =~= before.labels.push(added@));
                assert(label_names(self@.labels) =~= label_names(before.labels).push(name@));
            },
        }
        assert(self@.funcs =~= before.funcs);
        assert(self@.relocs =~= before.relocs);
    }

    /// The relocations, in the order in which they are applied.
    pub fn relocs(&self) -> (relocs: Vec<Link>)
        ensures
            relocs@.map_values(|l: Link| l@) == self@.relocs,
    {
        let n = self.relocs.len();
        let mut relocs: Vec<Link> = Vec::new();
        let mut i: usize = 0;
        while i < n
            invariant
                i <= n == self.relocs.len(),
                relocs.len() == i,
                forall|k: int| 0 <= k < i ==> (#[trigger] relocs[k])@ == self.relocs[k]@,
            decreases n - i,
        {
            relocs.push(copy_link(&self.relocs[i]));
            i += 1;
        }
        assert(relocs@.map_values(|l: Link| l@) =~= self@.relocs);
        relocs
    }

    /// Adds a relocation behind those already there.
    pub fn add_reloc(&mut self, link: Link)
        ensures
            final(self)@.relocs == old(self)@.relocs.push(link@),
            final(self)@.funcs == old(self)@.funcs,
            final(self)@.labels == old(self)@.labels,
            old(self).wf() ==> final(self).wf(),
    {
        let ghost before = self@;
        self.relocs.push(link);
        assert(self@.relocs =~= before.relocs.push(link@));
        assert(self@.funcs =~= before.funcs);
        assert(self@.labels =~= before.labels);
    }
}

} // verus!
