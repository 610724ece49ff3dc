use autoincrement::{
    async_incremental, get_inner_type, impl_async_incremental, impl_incremental, incremental,
    parse_attrs, Attributes, BackingKind, Data, DeriveError, FieldType, Fields, TypeDecl,
    DEFAULT_INITIAL_VALUE,
};

fn path(segments: &[&str]) -> FieldType {
    FieldType::Path(segments.iter().map(|s| s.to_string()).collect())
}

fn newtype(inner: &str) -> TypeDecl {
    TypeDecl { n_generics: 0, data: Data::Struct(Fields::Unnamed(vec![path(&[inner])])) }
}

#[test]
fn accepts_each_supported_width() {
    let cases = [
        ("u8", BackingKind::U8),
        ("u16", BackingKind::U16),
        ("u32", BackingKind::U32),
        ("u64", BackingKind::U64),
        ("usize", BackingKind::Usize),
    ];
    for (name, kind) in cases {
        let plan = incremental(&newtype(name)).unwrap();
        assert_eq!(plan.inner_type, kind);
        assert_eq!(plan.initial_value, 1);
        assert_eq!(kind.integer_name(), name);
    }
}

#[test]
fn atomic_type_matches_width() {
    let cases = [
        ("u8", "AtomicU8"),
        ("u16", "AtomicU16"),
        ("u32", "AtomicU32"),
        ("u64", "AtomicU64"),
        ("usize", "AtomicUsize"),
    ];
    for (name, atomic) in cases {
        let plan = async_incremental(&newtype(name)).unwrap();
        assert_eq!(plan.atomic_type, atomic);
        assert_eq!(plan.initial_value, DEFAULT_INITIAL_VALUE);
    }
}

#[test]
fn rejects_two_positional_fields() {
    let decl = TypeDecl {
        n_generics: 0,
        data: Data::Struct(Fields::Unnamed(vec![path(&["u8"]), path(&["u8"])])),
    };
    assert_eq!(incremental(&decl).err(), Some(DeriveError::NotNewtype));
    assert_eq!(async_incremental(&decl).err(), Some(DeriveError::NotNewtype));
}

#[test]
fn rejects_named_field() {
    let decl = TypeDecl { n_generics: 0, data: Data::Struct(Fields::Named(vec![path(&["u8"])])) };
    assert_eq!(incremental(&decl).err(), Some(DeriveError::NotNewtype));
    assert_eq!(async_incremental(&decl).err(), Some(DeriveError::NotNewtype));
}

#[test]
fn rejects_signed_field() {
    for name in ["i8", "i16", "i32", "i64", "isize"] {
        assert_eq!(incremental(&newtype(name)).err(), Some(DeriveError::UnsupportedInnerType));
        assert_eq!(
            async_incremental(&newtype(name)).err(),
            Some(DeriveError::UnsupportedInnerType)
        );
    }
}

#[test]
fn rejects_generic_type() {
    let decl = TypeDecl {
        n_generics: 1,
        data: Data::Struct(Fields::Unnamed(vec![path(&["u8"])])),
    };
    assert_eq!(incremental(&decl).err(), Some(DeriveError::HasGenerics));
    assert_eq!(async_incremental(&decl).err(), Some(DeriveError::HasGenerics));
}

#[test]
fn generics_checked_before_shape() {
    let decl = TypeDecl { n_generics: 2, data: Data::Enum };
    assert_eq!(incremental(&decl).err(), Some(DeriveError::HasGenerics));
}

#[test]
fn rejects_enum_union_unit_and_empty() {
    for data in [Data::Enum, Data::Union, Data::Struct(Fields::Unit), Data::Struct(Fields::Unnamed(vec![]))] {
        let decl = TypeDecl { n_generics: 0, data };
        assert_eq!(incremental(&decl).err(), Some(DeriveError::NotNewtype));
    }
}

#[test]
fn rejects_other_field_types() {
    for ty in [path(&["std", "primitive", "u8"]), path(&["String"]), path(&["f64"]), path(&["u128"]), FieldType::Other] {
        let fields = Fields::Unnamed(vec![ty]);
        assert_eq!(get_inner_type(&fields), Err(DeriveError::UnsupportedInnerType));
    }
}

#[test]
fn impl_functions_carry_attributes() {
    let fields = Fields::Unnamed(vec![path(&["u32"])]);
    let plan = impl_incremental(&fields, Attributes { initial_value: 10 }).unwrap();
    assert_eq!(plan.inner_type, BackingKind::U32);
    assert_eq!(plan.initial_value, 10);
    let plan = impl_async_incremental(&fields, Attributes { initial_value: 0 }).unwrap();
    assert_eq!(plan.atomic_type, "AtomicU32");
    assert_eq!(plan.initial_value, 0);
    assert_eq!(parse_attrs().initial_value, 1);
}

#[test]
fn backing_kind_from_name() {
    assert_eq!(BackingKind::from_name(&"u16".to_string()), Some(BackingKind::U16));
    assert_eq!(BackingKind::from_name(&"U16".to_string()), None);
    assert_eq!(BackingKind::from_name(&"".to_string()), None);
}

#[test]
fn error_messages_name_the_rule() {
    assert!(DeriveError::HasGenerics.message().contains("generics"));
    assert!(DeriveError::NotNewtype.message().contains("single unnamed field"));
    assert!(DeriveError::UnsupportedInnerType.message().contains("u8, u16, u32, u64 and usize"));
}
