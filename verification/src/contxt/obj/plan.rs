//! The plan of an object file: the symbols to add and the relocations between
//! them, in the order in which they are written.

use vstd::prelude::*;
use crate::contxt::link::model::find;
use crate::contxt::obj::decl::{Decl, Scope};
use crate::contxt::obj::error::ObjectFault;
use crate::contxt::obj::link::LinkView;

verus! {

/// Whether a symbol is code or data.
#[derive(Debug, Clone, Copy, PartialEq, Eq, Structural)]
pub enum SymbolKind {
    Text,
    Data,
}

/// How far a symbol is seen.
#[derive(Debug, Clone, Copy, PartialEq, Eq, Structural)]
pub enum SymbolScope {
    /// Seen by the dynamic linker: a symbol that another object defines.
    Dynamic,
    /// Seen by other objects at link time.
    Linkage,
    /// Seen inside this object only.
    Compilation,
}

/// The section in which a symbol's contents are placed.
#[derive(Debug, Clone, Copy, PartialEq, Eq, Structural)]
pub enum SectionKind {
    Text,
    ReadOnlyData,
    UninitializedData,
}

/// The addend of every planned relocation: a branch is relative to the end of
/// its four-byte field.
pub const RELOC_ADDEND: i64 = -4;

/// The width in bits of the field of every planned relocation.
pub const RELOC_BITS: u8 = 32;

/// The alignment of every planned subsection.
pub const SECTION_ALIGN: u64 = 16;

/// One symbol of the plan. A symbol without a section is undefined here: it
/// has no contents.
#[derive(Debug, Clone, PartialEq, Eq)]
pub struct SymbolPlan {
    pub name: String,
    pub kind: SymbolKind,
    pub scope: SymbolScope,
    pub section: Option<SectionKind>,
    pub data: Vec<u8>,
}

/// One relocation of the plan: a branch relative to the procedure linkage table,
/// `at` bytes into the contents of the symbol with index `from`, to the symbol
/// with index `to`.
#[derive(Debug, Clone, Copy, PartialEq, Eq, Structural)]
pub struct RelocPlan {
    pub from: usize,
    pub to: usize,
    pub at: usize,
    pub addend: i64,
    pub bits: u8,
}

impl RelocPlan {
    /// The offset of the relocation's field in a section in which the contents
    /// of the symbol `from` start at `start`: nothing, where the offset is more
    /// than a section can count.
    pub fn offset_from(&self, start: u64) -> (offset: Option<u64>)
        ensures
            offset == (if start + self.at <= u64::MAX {
                Some((start + self.at) as u64)
            } else {
                None
            }),
    {
        start.checked_add(self.at as u64)
    }
}

/// The plan of an object file.
#[derive(Debug, Clone, PartialEq, Eq)]
pub struct ObjectPlan {
    pub file: String,
    pub symbols: Vec<SymbolPlan>,
    pub relocs: Vec<RelocPlan>,
}

/// A planned symbol as plain values.
pub struct SymbolView {
    pub name: Seq<char>,
    pub kind: SymbolKind,
    pub scope: SymbolScope,
    pub section: Option<SectionKind>,
    pub data: Seq<u8>,
}

/// A plan as plain values.
pub struct PlanView {
    pub file: Seq<char>,
    pub symbols: Seq<SymbolView>,
    pub relocs: Seq<RelocPlan>,
}

impl View for SymbolPlan {
    type V = SymbolView;

    open spec fn view(&self) -> SymbolView {
        SymbolView {
            name: self.name@,
            kind: self.kind,
            scope: self.scope,
            section: self.section,
            data: self.data@,
        }
    }
}

impl View for ObjectPlan {
    type V = PlanView;

    open spec fn view(&self) -> PlanView {
        PlanView {
            file: self.file@,
            symbols: self.symbols@.map_values(|s: SymbolPlan| s@),
            relocs: self.relocs@,
        }
    }
}

/// A declaration as plain values.
pub struct DeclView {
    pub name: Seq<char>,
    pub decl: Decl,
}

/// The contents of a symbol as plain values.
pub struct ContentView {
    pub name: Seq<char>,
    pub data: Seq<u8>,
}

/// All that a plan depends on.
pub struct BuilderView {
    pub decls: Seq<DeclView>,
    pub syms: Seq<ContentView>,
    pub links: Seq<LinkView>,
    pub outpath: Seq<char>,
}

/// Code for a function, data for the rest.
pub open spec fn kind_of(decl: Decl) -> SymbolKind {
    match decl {
        Decl::Function(_) => SymbolKind::Text,
        Decl::UData(_) => SymbolKind::Data,
        Decl::RData(_) => SymbolKind::Data,
    }
}

/// The section for the contents of a declared symbol.
pub open spec fn section_of(decl: Decl) -> SectionKind {
    match decl {
        Decl::Function(_) => SectionKind::Text,
        Decl::UData(_) => SectionKind::UninitializedData,
        Decl::RData(_) => SectionKind::ReadOnlyData,
    }
}

/// How far a symbol of the given scope is seen.
pub open spec fn reach_of(scope: Scope) -> SymbolScope {
    match scope {
        Scope::Import => SymbolScope::Dynamic,
        Scope::Export => SymbolScope::Linkage,
        Scope::Private => SymbolScope::Compilation,
    }
}

pub open spec fn content_names(syms: Seq<ContentView>) -> Seq<Seq<char>> {
    syms.map_values(|c: ContentView| c.name)
}

/// The contents `syms` with those of `c` added: in the place of the contents of
/// its name, if there are any, else behind all.
pub open spec fn with_content(syms: Seq<ContentView>, c: ContentView) -> Seq<ContentView> {
    match find(content_names(syms), c.name) {
        Some(i) => syms.update(i, c),
        None => syms.push(c),
    }
}

/// The symbol that declaration `d` asks for. An imported symbol is undefined and
/// empty; any other needs contents.
pub open spec fn symbol_for(b: BuilderView, d: DeclView) -> Result<SymbolView, ObjectFault> {
    if d.decl.spec_scope() == Scope::Import {
        Ok(
            SymbolView {
                name: d.name,
                kind: kind_of(d.decl),
                scope: SymbolScope::Dynamic,
                section: None,
                data: Seq::empty(),
            },
        )
    } else {
        match find(content_names(b.syms), d.name) {
            None => Err(ObjectFault::DeclWithoutSymbol),
            Some(i) => Ok(
                SymbolView {
                    name: d.name,
                    kind: kind_of(d.decl),
                    scope: reach_of(d.decl.spec_scope()),
                    section: Some(section_of(d.decl)),
                    data: b.syms[i].data,
                },
            ),
        }
    }
}

/// The symbols for the first `k` declarations, or the first fault among them.
pub open spec fn symbols_upto(b: BuilderView, k: nat) -> Result<Seq<SymbolView>, ObjectFault>
    decreases k,
{
    if k == 0 {
        Ok(Seq::empty())
    } else {
        match symbols_upto(b, (k - 1) as nat) {
            Err(fault) => Err(fault),
            Ok(symbols) => match symbol_for(b, b.decls[k - 1]) {
                Err(fault) => Err(fault),
                Ok(symbol) => Ok(symbols.push(symbol)),
            },
        }
    }
}

/// The last declaration below `k` of the name `name` that is an import, or is
/// none, as `import` says.
pub open spec fn last_decl(decls: Seq<DeclView>, name: Seq<char>, import: bool, k: int) -> Option<
    int,
>
    decreases k,
{
    if k <= 0 {
        None
    } else if decls[k - 1].name == name && (decls[k - 1].decl.spec_scope() == Scope::Import)
        == import {
        Some(k - 1)
    } else {
        last_decl(decls, name, import, k - 1)
    }
}

/// The symbol in whose contents a link from `name` lies: the last one defined
/// here under that name.
pub open spec fn source_of(decls: Seq<DeclView>, name: Seq<char>) -> Option<int> {
    last_decl(decls, name, false, decls.len() as int)
}

/// The symbol that a link to `name` refers to: the last one defined here under
/// that name, else the last one imported under it.
pub open spec fn target_of(decls: Seq<DeclView>, name: Seq<char>) -> Option<int> {
    match last_decl(decls, name, false, decls.len() as int) {
        Some(k) => Some(k),
        None => last_decl(decls, name, true, decls.len() as int),
    }
}

/// The relocation for a link.
pub open spec fn reloc_for(b: BuilderView, link: LinkView) -> Result<RelocPlan, ObjectFault> {
    match source_of(b.decls, link.from) {
        None => Err(ObjectFault::UnknownFunction(link.from)),
        Some(from) => match target_of(b.decls, link.to) {
            None => Err(ObjectFault::UnknownTargetSymbol(link.to)),
            Some(to) => Ok(
                RelocPlan {
                    from: from as usize,
                    to: to as usize,
                    at: link.at as usize,
                    addend: RELOC_ADDEND,
                    bits: RELOC_BITS,
                },
            ),
        },
    }
}

/// The relocations for the first `k` links, or the first fault among them.
pub open spec fn relocs_upto(b: BuilderView, k: nat) -> Result<Seq<RelocPlan>, ObjectFault>
    decreases k,
{
    if k == 0 {
        Ok(Seq::empty())
    } else {
        match relocs_upto(b, (k - 1) as nat) {
            Err(fault) => Err(fault),
            Ok(relocs) => match reloc_for(b, b.links[k - 1]) {
                Err(fault) => Err(fault),
                Ok(reloc) => Ok(relocs.push(reloc)),
            },
        }
    }
}

/// The plan: one symbol for each declaration, in order, then one relocation for
/// each link, in order; or the first fault, those of declarations before those
/// of links.
pub open spec fn plan_of(b: BuilderView) -> Result<PlanView, ObjectFault> {
    match symbols_upto(b, b.decls.len()) {
        Err(fault) => Err(fault),
        Ok(symbols) => match relocs_upto(b, b.links.len()) {
            Err(fault) => Err(fault),
            Ok(relocs) => Ok(PlanView { file: b.outpath, symbols, relocs }),
        },
    }
}

/// What `last_decl` finds is a declaration of the name, and an import or not as
/// was asked.
pub proof fn lemma_last_decl(decls: Seq<DeclView>, name: Seq<char>, import: bool, k: int)
    requires
        0 <= k <= decls.len(),
    ensures
        last_decl(decls, name, import, k) matches Some(i) ==> 0 <= i < k && decls[i].name == name
            && (decls[i].decl.spec_scope() == Scope::Import) == import,
    decreases k,
{
    if k > 0 {
        lemma_last_decl(decls, name, import, k - 1);
    }
}

/// The symbols of the first `k` declarations are `k`, each with the name of its
/// declaration, and with a section unless the declaration is an import.
pub proof fn lemma_symbols_upto(b: BuilderView, k: nat)
    requires
        k <= b.decls.len(),
        symbols_upto(b, k) is Ok,
    ensures
        symbols_upto(b, k)->Ok_0.len() == k,
        forall|i: int|
            0 <= i < k ==> {
                let symbol = #[trigger] symbols_upto(b, k)->Ok_0[i];
                &&& symbol.name == b.decls[i].name
                &&& (symbol.section is None) == (b.decls[i].decl.spec_scope() == Scope::Import)
            },
    decreases k,
{
    if k > 0 {
        lemma_symbols_upto(b, (k - 1) as nat);
    }
}

/// The relocations of the first `k` links are `k`, each from a symbol that is
/// defined here to a symbol that is declared.
pub proof fn lemma_relocs_upto(b: BuilderView, k: nat)
    requires
        k <= b.links.len(),
        b.decls.len() <= usize::MAX,
        relocs_upto(b, k) is Ok,
    ensures
        relocs_upto(b, k)->Ok_0.len() == k,
        forall|j: int|
            0 <= j < k ==> {
                let reloc = #[trigger] relocs_upto(b, k)->Ok_0[j];
                &&& reloc.from < b.decls.len()
                &&& reloc.to < b.decls.len()
                &&& b.decls[reloc.from as int].name == b.links[j].from
                &&& b.decls[reloc.from as int].decl.spec_scope() != Scope::Import
                &&& b.decls[reloc.to as int].name == b.links[j].to
                &&& reloc.at == b.links[j].at as usize
                &&& reloc.addend == RELOC_ADDEND
                &&& reloc.bits == RELOC_BITS
            },
    decreases k,
{
    if k > 0 {
        lemma_relocs_upto(b, (k - 1) as nat);
        let link = b.links[k - 1];
        lemma_last_decl(b.decls, link.from, false, b.decls.len() as int);
        lemma_last_decl(b.decls, link.to, false, b.decls.len() as int);
        lemma_last_decl(b.decls, link.to, true, b.decls.len() as int);
    }
}

/// A plan can be carried out: it has one symbol for each declaration, under the
/// declaration's name; each of its relocations starts in a symbol of the plan
/// that has a section, under the name that the link gives, and refers to a
/// symbol of the plan, under the name that the link gives.
pub proof fn law_plan_can_be_carried_out(b: BuilderView)
    requires
        b.decls.len() <= usize::MAX,
        plan_of(b) is Ok,
    ensures
        ({
            let plan = plan_of(b)->Ok_0;
            &&& plan.file == b.outpath
            &&& plan.symbols.len() == b.decls.len()
            &&& plan.relocs.len() == b.links.len()
            &&& forall|i: int|
                0 <= i < plan.symbols.len() ==> (#[trigger] plan.symbols[i]).name
                    == b.decls[i].name
            &&& forall|j: int|
                0 <= j < plan.relocs.len() ==> {
                    let reloc = #[trigger] plan.relocs[j];
                    &&& reloc.from < plan.symbols.len()
                    &&& reloc.to < plan.symbols.len()
                    &&& plan.symbols[reloc.from as int].section is Some
                    &&& plan.symbols[reloc.from as int].name == b.links[j].from
                    &&& plan.symbols[reloc.to as int].name == b.links[j].to
                    &&& reloc.at == b.links[j].at as usize
                    &&& reloc.addend == RELOC_ADDEND
                    &&& reloc.bits == RELOC_BITS
                }
        }),
{
    lemma_symbols_upto(b, b.decls.len());
    lemma_relocs_upto(b, b.links.len());
    let plan = plan_of(b)->Ok_0;
    assert forall|j: int| 0 <= j < plan.relocs.len() implies {
        let reloc = #[trigger] plan.relocs[j];
        &&& plan.symbols[reloc.from as int].section is Some
        &&& plan.symbols[reloc.from as int].name == b.links[j].from
        &&& plan.symbols[reloc.to as int].name == b.links[j].to
    } by {
        let reloc = plan.relocs[j];
        assert(plan.symbols[reloc.from as int].name == b.decls[reloc.from as int].name);
        assert(plan.symbols[reloc.to as int].name == b.decls[reloc.to as int].name);
    }
}

} // verus!
