use rllvm::contxt::obj::plan::{RELOC_ADDEND, RELOC_BITS};
use rllvm::contxt::obj::{
    BinFormat, Decl, Link, ObjectBuilder, ObjectError, RelocPlan, Scope, SectionKind, SymbolKind,
    SymbolScope,
};

fn link(from: &str, to: &str, at: usize) -> Link {
    Link { from: from.into(), to: to.into(), at }
}

#[test]
fn plan_of_an_empty_builder() {
    let builder = ObjectBuilder::new("out.o");
    assert_eq!(builder.path(), "out.o");
    let plan = builder.plan().unwrap();
    assert_eq!(plan.file, "out.o");
    assert!(plan.symbols.is_empty());
    assert!(plan.relocs.is_empty());
}

#[test]
fn plan_has_one_symbol_for_each_declaration() {
    let mut builder = ObjectBuilder::new("test.o");
    builder.define("main", vec![0xe8, 0, 0, 0, 0, 0xc3]);
    builder.define("table", vec![1, 2, 3]);
    builder.define("zeros", vec![0; 8]);
    builder.decls(vec![
        ("main", Decl::Function(Scope::Export)),
        ("puts", Decl::Function(Scope::Import)),
        ("table", Decl::RData(Scope::Private)),
    ]);
    builder.add_decl("zeros", Decl::UData(Scope::Export));
    builder.add_decl("errno", Decl::UData(Scope::Import));
    builder.link(link("main", "puts", 1));
    builder.link(link("main", "table", 3));

    let plan = builder.plan().unwrap();
    assert_eq!(plan.file, "test.o");
    let names: Vec<&str> = plan.symbols.iter().map(|s| s.name.as_str()).collect();
    assert_eq!(names, vec!["main", "puts", "table", "zeros", "errno"]);

    let main = &plan.symbols[0];
    assert_eq!(main.kind, SymbolKind::Text);
    assert_eq!(main.scope, SymbolScope::Linkage);
    assert_eq!(main.section, Some(SectionKind::Text));
    assert_eq!(main.data, vec![0xe8, 0, 0, 0, 0, 0xc3]);

    let puts = &plan.symbols[1];
    assert_eq!(puts.kind, SymbolKind::Text);
    assert_eq!(puts.scope, SymbolScope::Dynamic);
    assert_eq!(puts.section, None);
    assert!(puts.data.is_empty());

    let table = &plan.symbols[2];
    assert_eq!(table.kind, SymbolKind::Data);
    assert_eq!(table.scope, SymbolScope::Compilation);
    assert_eq!(table.section, Some(SectionKind::ReadOnlyData));
    assert_eq!(table.data, vec![1, 2, 3]);

    let zeros = &plan.symbols[3];
    assert_eq!(zeros.kind, SymbolKind::Data);
    assert_eq!(zeros.scope, SymbolScope::Linkage);
    assert_eq!(zeros.section, Some(SectionKind::UninitializedData));

    let errno = &plan.symbols[4];
    assert_eq!(errno.kind, SymbolKind::Data);
    assert_eq!(errno.scope, SymbolScope::Dynamic);
    assert_eq!(errno.section, None);

    assert_eq!(
        plan.relocs,
        vec![
            RelocPlan { from: 0, to: 1, at: 1, addend: -4, bits: 32 },
            RelocPlan { from: 0, to: 2, at: 3, addend: -4, bits: 32 },
        ]
    );
    assert_eq!(RELOC_ADDEND, -4);
    assert_eq!(RELOC_BITS, 32);
}

#[test]
fn offsets_of_relocations_in_their_sections() {
    let reloc = RelocPlan { from: 0, to: 1, at: 3, addend: -4, bits: 32 };
    assert_eq!(reloc.offset_from(0), Some(3));
    assert_eq!(reloc.offset_from(16), Some(19));
    assert_eq!(reloc.offset_from(u64::MAX - 3), Some(u64::MAX));
    assert_eq!(reloc.offset_from(u64::MAX - 2), None);
}

#[test]
fn declaration_without_contents_fails() {
    let mut builder = ObjectBuilder::new("test.o");
    builder.add_decl("main", Decl::Function(Scope::Private));
    assert_eq!(builder.plan(), Err(ObjectError::DeclWithoutSymbol));

    // A fault of a declaration comes before that of a link.
    builder.link(link("nobody", "main", 0));
    assert_eq!(builder.plan(), Err(ObjectError::DeclWithoutSymbol));
}

#[test]
fn link_from_an_undefined_symbol_fails() {
    let mut builder = ObjectBuilder::new("test.o");
    builder.define("main", vec![0xc3]);
    builder.add_decl("main", Decl::Function(Scope::Private));
    builder.add_decl("puts", Decl::Function(Scope::Import));
    builder.link(link("puts", "main", 0));
    assert_eq!(builder.plan(), Err(ObjectError::UnknownFunction("puts".into())));

    let mut builder = ObjectBuilder::new("test.o");
    builder.link(link("nobody", "nowhere", 0));
    assert_eq!(builder.plan(), Err(ObjectError::UnknownFunction("nobody".into())));
}

#[test]
fn link_to_an_undeclared_symbol_fails() {
    let mut builder = ObjectBuilder::new("test.o");
    builder.define("main", vec![0xc3]);
    builder.add_decl("main", Decl::Function(Scope::Private));
    builder.link(link("main", "main", 0));
    builder.link(link("main", "nowhere", 0));
    assert_eq!(builder.plan(), Err(ObjectError::UnknownTargetSymbol("nowhere".into())));
}

#[test]
fn defined_symbols_are_preferred_and_later_ones_win() {
    let mut builder = ObjectBuilder::new("test.o");
    builder.define("f", vec![1]);
    builder.add_decl("f", Decl::Function(Scope::Import));
    builder.add_decl("f", Decl::Function(Scope::Private));
    builder.add_decl("f", Decl::Function(Scope::Export));
    builder.add_decl("f", Decl::Function(Scope::Import));
    builder.add_decl("g", Decl::Function(Scope::Import));
    builder.add_decl("g", Decl::Function(Scope::Import));
    builder.link(link("f", "f", 0));
    builder.link(link("f", "g", 0));
    let plan = builder.plan().unwrap();
    assert_eq!(plan.relocs[0].from, 2);
    assert_eq!(plan.relocs[0].to, 2);
    assert_eq!(plan.relocs[1].to, 5);
}

#[test]
fn defining_again_replaces_the_contents() {
    let mut builder = ObjectBuilder::new("test.o");
    builder.define("f", vec![1]);
    builder.define("f", vec![2, 2]);
    builder.add_decl("f", Decl::RData(Scope::Private));
    assert_eq!(builder.plan().unwrap().symbols[0].data, vec![2, 2]);
}

#[test]
fn messages_of_object_errors() {
    assert_eq!(ObjectError::DeclWithoutSymbol.message(), "got decleration without symbol");
    assert_eq!(ObjectError::UnknownFunction("f".into()).message(), "unknown function f");
    assert_eq!(
        ObjectError::UnknownTargetSymbol("t".into()).message(),
        "unknown target symbol t"
    );
}

#[test]
fn scope_of_a_declaration() {
    assert_eq!(Decl::Function(Scope::Export).scope(), Scope::Export);
    assert_eq!(Decl::UData(Scope::Import).scope(), Scope::Import);
    assert_eq!(Decl::RData(Scope::Private).scope(), Scope::Private);
}

#[test]
fn format_of_the_host() {
    let host = target_lexicon::Triple::host();
    let expected = match host.binary_format {
        target_lexicon::BinaryFormat::Coff => BinFormat::Coff,
        target_lexicon::BinaryFormat::Macho => BinFormat::Macho,
        _ => BinFormat::Elf,
    };
    assert_eq!(BinFormat::host(), expected);
    assert_eq!(BinFormat::of_triple(&host), expected);
    assert_eq!(BinFormat::or_host(Some(BinFormat::Coff), Some(BinFormat::Elf)), BinFormat::Coff);
    assert_eq!(BinFormat::or_host(None, Some(BinFormat::Macho)), BinFormat::Macho);
    assert_eq!(BinFormat::or_host(None, None), BinFormat::Elf);
}
