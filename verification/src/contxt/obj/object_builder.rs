//! The builder of an object file.

use vstd::prelude::*;
use vstd::string::StringExecFns;
use target_lexicon::Triple;
use crate::contxt::link::bytes::copy_bytes;
use crate::contxt::link::model::{find, find_from};
use crate::contxt::obj::decl::{Decl, Scope};
use crate::contxt::obj::error::{ObjectError, ObjectFault};
use crate::contxt::obj::link::Link;
use crate::target::triple::{format_of, host_triple, triple_format};
use crate::contxt::obj::plan::{
    content_names, kind_of, last_decl, plan_of, reach_of, reloc_for, relocs_upto, section_of,
    symbol_for, symbols_upto, with_content, BuilderView, ContentView, DeclView,
    ObjectPlan, PlanView, RelocPlan, SectionKind, SymbolKind, SymbolPlan, SymbolScope,
    SymbolView, RELOC_ADDEND, RELOC_BITS,
};

verus! {

/// The format of an object file.
#[derive(Debug, Clone, Copy, PartialEq, Eq, PartialOrd, Ord, Structural)]
pub enum BinFormat {
    Elf,
    Coff,
    Macho,
}

impl BinFormat {
    /// The format of the object files of the machine that this library was built
    /// for: that of its triple, and ELF where the triple names none of the three.
    pub fn host() -> BinFormat {
        BinFormat::of_triple(&host_triple())
    }

    /// The format that the triple names, and that of the host where it names none
    /// of the three; ELF where the host names none either.
    pub fn of_triple(target: &Triple) -> (format: BinFormat)
        ensures
            format_of(*target) matches Some(named) ==> format == named,
    {
        BinFormat::or_host(triple_format(target), triple_format(&host_triple()))
    }

    /// The format `named`, if there is one, else that of the host, if there is
    /// one, else ELF.
    pub fn or_host(named: Option<BinFormat>, host: Option<BinFormat>) -> (format: BinFormat)
        ensures
            format == (match named {
                Some(format) => format,
                None => match host {
                    Some(format) => format,
                    None => BinFormat::Elf,
                },
            }),
    {
        match named {
            Some(format) => format,
            None => match host {
                Some(format) => format,
                None => BinFormat::Elf,
            },
        }
    }
}

#[derive(Debug, Clone)]
struct Declared {
    name: String,
    decl: Decl,
}

impl View for Declared {
    type V = DeclView;

    closed spec fn view(&self) -> DeclView {
        DeclView { name: self.name@, decl: self.decl }
    }
}

#[derive(Debug, Clone)]
struct Content {
    name: String,
    data: Vec<u8>,
}

impl View for Content {
    type V = ContentView;

    closed spec fn view(&self) -> ContentView {
        ContentView { name: self.name@, data: self.data@ }
    }
}

/// Collects what an object file is made of: the declarations of its symbols, the
/// contents of those it defines, and the links between them.
#[derive(Debug, Clone)]
pub struct ObjectBuilder {
    decls: Vec<Declared>,
    sym: Vec<Content>,
    links: Vec<Link>,
    outpath: String,
}

impl View for ObjectBuilder {
    type V = BuilderView;

    closed spec fn view(&self) -> BuilderView {
        BuilderView {
            decls: self.decls@.map_values(|d: Declared| d@),
            syms: self.sym@.map_values(|c: Content| c@),
            links: self.links@.map_values(|l: Link| l@),
            outpath: self.outpath@,
        }
    }
}

/// The declarations of `decls` as plain values.
pub open spec fn decl_views(decls: Seq<(&str, Decl)>) -> Seq<DeclView> {
    decls.map_values(|d: (&str, Decl)| DeclView { name: d.0@, decl: d.1 })
}

/// Code for a function, data for the rest.
fn kind(decl: Decl) -> (kind: SymbolKind)
    ensures
        kind == kind_of(decl),
{
    match decl {
        Decl::Function(_) => SymbolKind::Text,
        Decl::UData(_) => SymbolKind::Data,
        Decl::RData(_) => SymbolKind::Data,
    }
}

/// The section for the contents of a declared symbol.
fn section(decl: Decl) -> (section: SectionKind)
    ensures
        section == section_of(decl),
{
    match decl {
        Decl::Function(_) => SectionKind::Text,
        Decl::UData(_) => SectionKind::UninitializedData,
        Decl::RData(_) => SectionKind::ReadOnlyData,
    }
}

/// How far a symbol of the given scope is seen.
fn reach(scope: Scope) -> (reach: SymbolScope)
    ensures
        reach == reach_of(scope),
{
    match scope {
        Scope::Import => SymbolScope::Dynamic,
        Scope::Export => SymbolScope::Linkage,
        Scope::Private => SymbolScope::Compilation,
    }
}

impl ObjectBuilder {
    /// A builder of the file `path`, with nothing in it.
    pub fn new(path: &str) -> (builder: Self)
        ensures
            builder@.decls == Seq::<DeclView>::empty(),
            builder@.syms == Seq::<ContentView>::empty(),
            builder@.links == Seq::<crate::contxt::obj::link::LinkView>::empty(),
            builder@.outpath == path@,
    {
        let builder = Self {
            decls: Vec::new(),
            sym: Vec::new(),
            links: Vec::new(),
            outpath: String::from_str(path),
        };
        assert(builder@.decls =~= Seq::<DeclView>::empty());
        assert(builder@.syms =~= Seq::<ContentView>::empty());
        assert(builder@.links =~= Seq::<crate::contxt::obj::link::LinkView>::empty());
        builder
    }

    /// The path of the object file.
    pub fn path(&self) -> (path: &str)
        ensures
            path@ == self@.outpath,
    {
        self.outpath.as_str()
    }

    /// Adds a list of declarations, in its order.
    pub fn decls(&mut self, decls: Vec<(&str, Decl)>)
        ensures
            final(self)@.decls == old(self)@.decls + decl_views(decls@),
            final(self)@.syms == old(self)@.syms,
            final(self)@.links == old(self)@.links,
            final(self)@.outpath == old(self)@.outpath,
    {
        let n = decls.len();
        let ghost added = decl_views(decls@);
        let mut i: usize = 0;
        while i < n
            invariant
                i <= n == decls.len(),
                added == decl_views(decls@),
                self@.decls == old(self)@.decls + added.take(i as int),
                self@.syms == old(self)@.syms,
                self@.links == old(self)@.links,
                self@.outpath == old(self)@.outpath,
            decreases n - i,
        {
            let ghost before = self@;
            self.add_decl(decls[i].0, decls[i].1);
            assert(self@.decls =~= old(self)@.decls + added.take(i + 1));
            i += 1;
        }
        assert(added.take(n as int) =~= added);
    }

    /// Adds a declaration behind those already there.
    pub fn add_decl(&mut self, name: &str, decl: Decl)
        ensures
            final(self)@.decls == old(self)@.decls.push(DeclView { name: name@, decl }),
            final(self)@.syms == old(self)@.syms,
            final(self)@.links == old(self)@.links,
            final(self)@.outpath == old(self)@.outpath,
    {
        let ghost before = self@;
        self.decls.push(Declared { name: String::from_str(name), decl });
        assert(self@.decls =~= before.decls.push(DeclView { name: name@, decl }));
        assert(self@.syms =~= before.syms);
        assert(self@.links =~= before.links);
    }

    /// The index of the contents of the symbol `name`.
    fn content_index(&self, name: &String) -> (found: Option<usize>)
        ensures
            match found {
                Some(i) => find(content_names(self@.syms), name@) == Some(i as int) && i
                    < self.sym.len(),
                None => find(content_names(self@.syms), name@) is None,
            },
    {
        let n = self.sym.len();
        let ghost names = content_names(self@.syms);
        let mut i: usize = 0;
        while i < n
            invariant
                i <= n == self.sym.len(),
                names == content_names(self@.syms),
                names.len() == n,
                find(names, name@) == find_from(names, name@, i as int),
            decreases n - i,
        {
            if self.sym[i].name == *name {
                return Some(i);
            }
            i += 1;
        }
        None
    }

    /// Gives the symbol `sym` its contents, in place of those it had, if any.
    pub fn define(&mut self, sym: &str, data: Vec<u8>)
        ensures
            final(self)@.syms == with_content(
                old(self)@.syms,
                ContentView { name: sym@, data: data@ },
            ),
            final(self)@.decls == old(self)@.decls,
            final(self)@.links == old(self)@.links,
            final(self)@.outpath == old(self)@.outpath,
    {
        let key = String::from_str(sym);
        let added = Content { name: String::from_str(sym), data };
        let ghost before = self@;
        match self.content_index(&key) {
            Some(i) => {
                self.sym.set(i, added);
                assert(self@.syms =~= before.syms.update(i as int, added@));
            },
            None => {
                self.sym.push(added);
                assert(self@.syms =~= before.syms.push(added@));
            },
        }
        assert(self@.decls =~= before.decls);
        assert(self@.links =~= before.links);
    }

    /// Adds a link behind those already there.
    pub fn link(&mut self, link: Link)
        ensures
            final(self)@.links == old(self)@.links.push(link@),
            final(self)@.decls == old(self)@.decls,
            final(self)@.syms == old(self)@.syms,
            final(self)@.outpath == old(self)@.outpath,
    {
        let ghost before = self@;
        self.links.push(link);
        assert(self@.links =~= before.links.push(link@));
        assert(self@.decls =~= before.decls);
        assert(self@.syms =~= before.syms);
    }

    /// The symbol for declaration `k`.
    fn plan_symbol(&self, k: usize) -> (planned: Result<SymbolPlan, ObjectError>)
        requires
            k < self.decls.len(),
        ensures
            match planned {
                Ok(symbol) => symbol_for(self@, self@.decls[k as int]) == Ok::<
                    SymbolView,
                    ObjectFault,
                >(symbol@),
                Err(e) => symbol_for(self@, self@.decls[k as int]) == Err::<
                    SymbolView,
                    ObjectFault,
                >(e@),
            },
    {
        let declared = &self.decls[k];
        let decl = declared.decl;
        match decl.scope() {
            Scope::Import => Ok(
                SymbolPlan {
                    name: declared.name.clone(),
                    kind: kind(decl),
                    scope: SymbolScope::Dynamic,
                    section: None,
                    data: Vec::new(),
                },
            ),
            scope => match self.content_index(&declared.name) {
                None => Err(ObjectError::DeclWithoutSymbol),
                Some(i) => Ok(
                    SymbolPlan {
                        name: declared.name.clone(),
                        kind: kind(decl),
                        scope: reach(scope),
                        section: Some(section(decl)),
                        data: copy_bytes(&self.sym[i].data),
                    },
                ),
            },
        }
    }

    /// The last declaration of the name `name` that is an import, or is none, as
    /// `import` says.
    fn find_decl(&self, name: &String, import: bool) -> (found: Option<usize>)
        ensures
            match found {
                Some(k) => last_decl(self@.decls, name@, import, self@.decls.len() as int)
                    == Some(k as int) && k < self.decls.len(),
                None => last_decl(self@.decls, name@, import, self@.decls.len() as int) is None,
            },
    {
        let n = self.decls.len();
        let ghost decls = self@.decls;
        let mut k: usize = n;
        while k > 0
            invariant
                k <= n == self.decls.len(),
                decls == self@.decls,
                decls.len() == n,
                last_decl(decls, name@, import, n as int) == last_decl(
                    decls,
                    name@,
                    import,
                    k as int,
                ),
            decreases k,
        {
            let declared = &self.decls[k - 1];
            let imported = match declared.decl.scope() {
                Scope::Import => true,
                _ => false,
            };
            if declared.name == *name && imported == import {
                return Some(k - 1);
            }
            k -= 1;
        }
        None
    }

    /// The relocation for link `k`.
    fn plan_reloc(&self, k: usize) -> (planned: Result<RelocPlan, ObjectError>)
        requires
            k < self.links.len(),
        ensures
            match planned {
                Ok(reloc) => reloc_for(self@, self@.links[k as int]) == Ok::<
                    RelocPlan,
                    ObjectFault,
                >(reloc),
                Err(e) => reloc_for(self@, self@.links[k as int]) == Err::<
                    RelocPlan,
                    ObjectFault,
                >(e@),
            },
    {
        let link = &self.links[k];
        let from = match self.find_decl(&link.from, false) {
            Some(from) => from,
            None => {
                return Err(ObjectError::UnknownFunction(link.from.clone()));
            },
        };
        let to = match self.find_decl(&link.to, false) {
            Some(to) => to,
            None => match self.find_decl(&link.to, true) {
                Some(to) => to,
                None => {
                    return Err(ObjectError::UnknownTargetSymbol(link.to.clone()));
                },
            },
        };
        Ok(RelocPlan { from, to, at: link.at, addend: RELOC_ADDEND, bits: RELOC_BITS })
    }

    /// The plan of the object file: one symbol for each declaration and one
    /// relocation for each link, each in order.
    ///
    /// Fails with `DeclWithoutSymbol` at the first declaration of a symbol that is
    /// defined here and has no contents; else with `UnknownFunction` at the first
    /// link that starts in a symbol not defined here, or with `UnknownTargetSymbol`
    /// where it refers to a symbol that is not declared.
    pub fn plan(&self) -> (planned: Result<ObjectPlan, ObjectError>)
        ensures
            match planned {
                Ok(plan) => plan_of(self@) == Ok::<PlanView, ObjectFault>(plan@),
                Err(e) => plan_of(self@) == Err::<PlanView, ObjectFault>(e@),
            },
    {
        let n = self.decls.len();
        let mut symbols: Vec<SymbolPlan> = Vec::new();
        assert(symbols@.map_values(|s: SymbolPlan| s@) =~= Seq::<SymbolView>::empty());
        let mut k: usize = 0;
        while k < n
            invariant
                k <= n == self.decls.len(),
                n == self@.decls.len(),
                symbols_upto(self@, k as nat) == Ok::<Seq<SymbolView>, ObjectFault>(
                    symbols@.map_values(|s: SymbolPlan| s@),
                ),
            decreases n - k,
        {
            let ghost before = symbols@.map_values(|s: SymbolPlan| s@);
            match self.plan_symbol(k) {
                Ok(symbol) => {
                    symbols.push(symbol);
                    assert(symbols@.map_values(|s: SymbolPlan| s@) =~= before.push(symbol@));
                },
                Err(e) => {
                    proof {
                        lemma_symbol_fault_stays(self@, (k + 1) as nat, n as nat);
                    }
                    return Err(e);
                },
            }
            k += 1;
        }
        let m = self.links.len();
        let mut relocs: Vec<RelocPlan> = Vec::new();
        let mut j: usize = 0;
        while j < m
            invariant
                j <= m == self.links.len(),
                m == self@.links.len(),
                n == self@.decls.len(),
                symbols_upto(self@, n as nat) == Ok::<Seq<SymbolView>, ObjectFault>(
                    symbols@.map_values(|s: SymbolPlan| s@),
                ),
                relocs_upto(self@, j as nat) == Ok::<Seq<RelocPlan>, ObjectFault>(relocs@),
            decreases m - j,
        {
            match self.plan_reloc(j) {
                Ok(reloc) => {
                    relocs.push(reloc);
                },
                Err(e) => {
                    proof {
                        lemma_reloc_fault_stays(self@, (j + 1) as nat, m as nat);
                    }
                    return Err(e);
                },
            }
            j += 1;
        }
        Ok(ObjectPlan { file: self.outpath.clone(), symbols, relocs })
    }
}

/// Once a declaration has failed, the plan has failed.
proof fn lemma_symbol_fault_stays(b: BuilderView, k: nat, n: nat)
    requires
        k <= n,
        symbols_upto(b, k) is Err,
    ensures
        symbols_upto(b, n) == symbols_upto(b, k),
    decreases n,
{
    if n > k {
        lemma_symbol_fault_stays(b, k, (n - 1) as nat);
    }
}

/// Once a link has failed, the plan has failed.
proof fn lemma_reloc_fault_stays(b: BuilderView, k: nat, n: nat)
    requires
        k <= n,
        relocs_upto(b, k) is Err,
    ensures
        relocs_upto(b, n) == relocs_upto(b, k),
    decreases n,
{
    if n > k {
        lemma_reloc_fault_stays(b, k, (n - 1) as nat);
    }
}

} // verus!
