use slime_ffi::ast::{EnumDecl, EnumVariant, EnumVariantFields, Ident};
use slime_ffi::attrs::{ConstantType, RenameRules, Symbol};
use slime_ffi::runtime::Language;
use slime_ffi::types::{self, Accessor};

#[test]
fn constant_type_spellings() {
    assert_eq!(ConstantType::from_str("i8"), Ok(ConstantType::Int8));
    assert_eq!(ConstantType::from_str("i16"), Ok(ConstantType::Int16));
    assert_eq!(ConstantType::from_str("i32"), Ok(ConstantType::Int32));
    assert_eq!(ConstantType::from_str("i64"), Ok(ConstantType::Int64));
    assert_eq!(ConstantType::from_str("u8"), Ok(ConstantType::Uint8));
    assert_eq!(ConstantType::from_str("u16"), Ok(ConstantType::Uint16));
    assert_eq!(ConstantType::from_str("u32"), Ok(ConstantType::Uint32));
    assert_eq!(ConstantType::from_str("u64"), Ok(ConstantType::Uint64));
    assert_eq!(ConstantType::from_str("bool"), Ok(ConstantType::Bool));
    assert_eq!(ConstantType::from_str("f32"), Ok(ConstantType::Float));
    assert_eq!(ConstantType::from_str("f64"), Ok(ConstantType::Double));
    assert_eq!(ConstantType::from_str("string"), Ok(ConstantType::String));
    assert_eq!(ConstantType::from_str("str"), Err(()));
    assert_eq!(ConstantType::from_str(""), Err(()));
}

#[test]
fn rename_rules_prefer_the_dialect() {
    let rules = RenameRules {
        rename_all: Some("username".to_string()),
        dialects: vec![
            (Language::Jvm, "nickname".to_string()),
            (Language::C, "avatar".to_string()),
        ],
    };
    assert_eq!(rules.name_for(Language::Jvm).map(String::as_str), Some("nickname"));
    assert_eq!(rules.name_for(Language::C).map(String::as_str), Some("avatar"));
    assert_eq!(rules.name_for(Language::Dart).map(String::as_str), Some("username"));
}

#[test]
fn rename_rules_without_fallback() {
    let rules = RenameRules { rename_all: None, dialects: vec![] };
    assert!(rules.name_for(Language::Jvm).is_none());
}

#[test]
fn symbol_text() {
    let s = Symbol("rename");
    assert_eq!(s.as_text(), "rename");
}

#[test]
fn enum_decl_primitiveness() {
    let unit = |n: &str| EnumVariant {
        name: Ident(n.to_string()),
        fields: EnumVariantFields::Unit,
    };
    let prim = EnumDecl { name: Ident("color".to_string()), variants: vec![unit("r"), unit("g")] };
    assert!(prim.is_primitive());
    let mixed = EnumDecl {
        name: Ident("shape".to_string()),
        variants: vec![
            unit("dot"),
            EnumVariant {
                name: Ident("line".to_string()),
                fields: EnumVariantFields::Unnamed(vec![]),
            },
        ],
    };
    assert!(!mixed.is_primitive());
    let empty = EnumDecl { name: Ident("never".to_string()), variants: vec![] };
    assert!(empty.is_primitive());
}

#[test]
fn runtime_enum_primitiveness() {
    let unit = |n: &str| types::EnumVariant {
        name: n.to_string(),
        variant: types::EnumVariantType::Primitive,
    };
    assert!(types::enum_is_primitive(&vec![unit("a"), unit("b")]));
    let mixed = vec![
        unit("a"),
        types::EnumVariant {
            name: "b".to_string(),
            variant: types::EnumVariantType::Named(vec![]),
        },
    ];
    assert!(!types::enum_is_primitive(&mixed));
}

#[test]
fn ident_from_string() {
    let i = Ident::from("user".to_string());
    assert_eq!(i.0, "user");
    let _ = Accessor::Getter;
}
