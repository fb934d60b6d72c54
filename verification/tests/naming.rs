use rllvm::naming::{push_decimal, NamingGenerator};

#[test]
fn name_of_a_function_in_a_namespace() {
    let gen = NamingGenerator::new();
    let add = gen.generate(vec!["test"], None, "add", vec!["u32", "u32"], "u32");
    assert_eq!(&add, "_R4testZ0Z3addZ3u323u32Z3u32");
}

#[test]
fn name_without_namespace_and_arguments() {
    let gen = NamingGenerator::new();
    assert_eq!(gen.generate(vec![], None, "main", vec![], "u32"), "_R0Z0Z4mainZ0Z3u32");
}

#[test]
fn name_with_class_and_namespaces() {
    let gen = NamingGenerator::new();
    let name = gen.generate(
        vec!["rllvm", "naming"],
        Some("NamingGenerator"),
        "generate",
        vec!["u32"],
        "String",
    );
    assert_eq!(name, "_R5rllvm6namingZ15NamingGeneratorZ8generateZ3u32Z6String");
}

#[test]
fn lengths_are_counted_in_bytes() {
    let gen = NamingGenerator::new();
    // Two letters with an umlaut are four bytes.
    assert_eq!(gen.generate(vec![], None, "\u{e4}\u{f6}", vec![], ""), "_R0Z0Z4\u{e4}\u{f6}Z0Z0");
}

#[test]
fn long_names_have_long_lengths() {
    let gen = NamingGenerator::new();
    let func = "f".repeat(123);
    let expected = format!("_R0Z0Z123{}Z0Z2u8", func);
    assert_eq!(gen.generate(vec![], None, &func, vec![], "u8"), expected);
}

#[test]
fn decimal_numbers() {
    for n in [0usize, 1, 9, 10, 11, 99, 100, 101, 4096, 65535, usize::MAX] {
        let mut out = String::from("x");
        push_decimal(&mut out, n);
        assert_eq!(out, format!("x{}", n));
    }
}
