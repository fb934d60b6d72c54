use rllvm::ir::types::Type;

const ALL: [Type; 10] = [
    Type::u64, Type::u32, Type::u16, Type::u8,
    Type::i64, Type::i32, Type::i16, Type::i8,
    Type::F64, Type::F32,
];

#[test]
fn sizes_of_the_kinds() {
    assert_eq!(Type::u64.size(), 8);
    assert_eq!(Type::i64.size(), 8);
    assert_eq!(Type::u32.size(), 4);
    assert_eq!(Type::i32.size(), 4);
    assert_eq!(Type::u16.size(), 2);
    assert_eq!(Type::i16.size(), 2);
    assert_eq!(Type::u8.size(), 1);
    assert_eq!(Type::i8.size(), 1);
    assert_eq!(Type::F64.size(), 8);
    assert_eq!(Type::F32.size(), 4);
}

#[test]
fn every_kind_lives_in_a_register() {
    for typ in ALL {
        assert_eq!(typ.reg(), true);
        assert_eq!(typ.stack(), false);
    }
    assert_eq!(Type::u64.reg(), true);
    assert_eq!(Type::F32.reg(), true);
    assert_eq!(Type::u64.stack(), false);
}

#[test]
fn names_of_the_kinds() {
    let names: Vec<&str> = ALL.iter().map(|typ| typ.name()).collect();
    assert_eq!(names, vec!["u64", "u32", "u16", "u8", "i64", "i32", "i16", "i8", "f64", "f32"]);
    assert_eq!(Type::i32.name(), "i32");
}

#[test]
fn floating_point_kinds() {
    assert!(Type::F64.is_float());
    assert!(Type::F32.is_float());
    assert!(!Type::u64.is_float());
    assert!(!Type::i8.is_float());
}
