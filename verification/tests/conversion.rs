use slime_ffi::convert::{
    ConversionError, ConvertCtx, ForeignScalar, ForeignValue, NativeValue, PrimValue, convert,
    convert_back, try_convert, try_convert_back, try_convert_scalar,
};
use slime_ffi::runtime::Language;
use slime_ffi::types::{EnumVariant, EnumVariantType, Field, Model, PrimitiveType, Type};

fn ctx() -> ConvertCtx {
    ConvertCtx { kind: Language::C }
}

fn unit_variant(name: &str) -> EnumVariant {
    EnumVariant { name: name.to_string(), variant: EnumVariantType::Primitive }
}

#[test]
fn unsigned_bytes_round_trip() {
    let n = convert(&PrimitiveType::Uint8, ForeignScalar::S8(-1), &ctx());
    match n {
        PrimValue::U8(x) => assert_eq!(x, 255),
        _ => panic!("a Uint8 keyword must convert to a U8 value"),
    }
    let back = convert_back(&PrimitiveType::Uint8, PrimValue::U8(255), &ctx());
    assert!(matches!(back, ForeignScalar::S8(-1)));
}

#[test]
fn signed_and_wide_integers_round_trip() {
    let n = convert(&PrimitiveType::Int64, ForeignScalar::S64(-7), &ctx());
    assert!(matches!(n, PrimValue::I64(-7)));
    let n = convert(&PrimitiveType::Uint64, ForeignScalar::S64(-1), &ctx());
    match n {
        PrimValue::U64(x) => assert_eq!(x, u64::MAX),
        _ => panic!("a Uint64 keyword must convert to a U64 value"),
    }
    let back = convert_back(&PrimitiveType::Uint64, PrimValue::U64(u64::MAX), &ctx());
    assert!(matches!(back, ForeignScalar::S64(-1)));
}

#[test]
fn booleans_use_canonical_bytes() {
    assert!(matches!(
        convert(&PrimitiveType::Bool, ForeignScalar::Bool8(1), &ctx()),
        PrimValue::Bool(true)
    ));
    assert!(matches!(
        convert_back(&PrimitiveType::Bool, PrimValue::Bool(false), &ctx()),
        ForeignScalar::Bool8(0)
    ));
}

#[test]
fn float_bits_pass_through_unchanged() {
    let bits = 1078530011u32;
    let n = convert(&PrimitiveType::Float, ForeignScalar::S32(bits as i32), &ctx());
    match n {
        PrimValue::F32Bits(b) => {
            assert_eq!(b, bits);
            assert_eq!(f32::from_bits(b), std::f32::consts::PI);
        }
        _ => panic!("a Float keyword must convert to its bit pattern"),
    }
    let back = convert_back(&PrimitiveType::Float, PrimValue::F32Bits(bits), &ctx());
    assert!(matches!(back, ForeignScalar::S32(x) if x == bits as i32));
}

#[test]
fn ill_typed_scalar_is_a_shape_mismatch() {
    let r = try_convert_scalar(&PrimitiveType::Int8, ForeignScalar::S16(3), &ctx());
    assert!(matches!(r, Err(ConversionError::ShapeMismatch)));
    let r = try_convert_scalar(&PrimitiveType::Bool, ForeignScalar::Bool8(2), &ctx());
    assert!(matches!(r, Err(ConversionError::ShapeMismatch)));
}

#[test]
fn scenario_primitive_enum_ordinal_round_trip() {
    let ty = Type::Enum(vec![unit_variant("a"), unit_variant("b"), unit_variant("c")]);
    let n = try_convert(&ty, ForeignValue::Ordinal(1), &ctx()).unwrap();
    match &n {
        NativeValue::Variant { ordinal, fields } => {
            assert_eq!(*ordinal, 1);
            assert!(fields.is_empty());
        }
        _ => panic!("a primitive enum must convert to a payload-free variant"),
    }
    let back = try_convert_back(&ty, n, &ctx()).unwrap();
    assert!(matches!(back, ForeignValue::Ordinal(1)));
}

#[test]
fn out_of_range_ordinal_fails() {
    let ty = Type::Enum(vec![unit_variant("a"), unit_variant("b"), unit_variant("c")]);
    let r = try_convert(&ty, ForeignValue::Ordinal(3), &ctx());
    assert!(matches!(r, Err(ConversionError::OrdinalOutOfRange)));
    let r = try_convert(&ty, ForeignValue::Ordinal(u32::MAX), &ctx());
    assert!(matches!(r, Err(ConversionError::OrdinalOutOfRange)));
}

fn two_field_model() -> Type {
    Type::Model(Model {
        name: "account".to_string(),
        fields: vec![
            Field { name: "id".to_string(), ty: Type::Primitive(PrimitiveType::Int32) },
            Field { name: "owner".to_string(), ty: Type::String },
        ],
    })
}

#[test]
fn scenario_model_with_missing_field_fails() {
    let ty = two_field_model();
    let v = ForeignValue::Object(vec![ForeignValue::Scalar(ForeignScalar::S32(5))]);
    let r = try_convert(&ty, v, &ctx());
    assert!(matches!(r, Err(ConversionError::WrongArity)));
}

#[test]
fn model_with_all_fields_converts() {
    let ty = two_field_model();
    let v = ForeignValue::Object(vec![
        ForeignValue::Scalar(ForeignScalar::S32(5)),
        ForeignValue::Scalar(ForeignScalar::Text("ada".to_string())),
    ]);
    let n = try_convert(&ty, v, &ctx()).unwrap();
    match &n {
        NativeValue::Record(fields) => {
            assert_eq!(fields.len(), 2);
            assert!(matches!(fields[0], NativeValue::Prim(PrimValue::I32(5))));
            match &fields[1] {
                NativeValue::Prim(PrimValue::Str(s)) => assert_eq!(s, "ada"),
                _ => panic!("the second field must convert as text"),
            }
        }
        _ => panic!("a model must convert to a record"),
    }
    let back = try_convert_back(&ty, n, &ctx()).unwrap();
    match back {
        ForeignValue::Object(fields) => {
            assert_eq!(fields.len(), 2);
            assert!(matches!(fields[0], ForeignValue::Scalar(ForeignScalar::S32(5))));
            match &fields[1] {
                ForeignValue::Scalar(ForeignScalar::Text(s)) => assert_eq!(s, "ada"),
                _ => panic!("the second field must convert back as text"),
            }
        }
        _ => panic!("a record must convert back to one foreign object"),
    }
}

#[test]
fn model_with_wrong_field_shape_fails() {
    let ty = two_field_model();
    let v = ForeignValue::Object(vec![
        ForeignValue::Scalar(ForeignScalar::Text("oops".to_string())),
        ForeignValue::Scalar(ForeignScalar::Text("ada".to_string())),
    ]);
    let r = try_convert(&ty, v, &ctx());
    assert!(matches!(r, Err(ConversionError::ShapeMismatch)));
}

#[test]
fn optional_conversion_composes() {
    let ty = Type::Option(Box::new(Type::Primitive(PrimitiveType::Int32)));
    let n = try_convert(&ty, ForeignValue::Nothing, &ctx()).unwrap();
    assert!(matches!(n, NativeValue::Absent));
    let n = try_convert(&ty, ForeignValue::Scalar(ForeignScalar::S32(9)), &ctx()).unwrap();
    match &n {
        NativeValue::Present(inner) => {
            assert!(matches!(**inner, NativeValue::Prim(PrimValue::I32(9))))
        }
        _ => panic!("a present optional must convert its inner value"),
    }
    let back = try_convert_back(&ty, n, &ctx()).unwrap();
    assert!(matches!(back, ForeignValue::Scalar(ForeignScalar::S32(9))));
}

#[test]
fn list_conversion_composes() {
    let ty = Type::List(Box::new(Type::Primitive(PrimitiveType::Uint8)));
    let v = ForeignValue::Items(vec![
        ForeignValue::Scalar(ForeignScalar::S8(-1)),
        ForeignValue::Scalar(ForeignScalar::S8(0)),
    ]);
    let n = try_convert(&ty, v, &ctx()).unwrap();
    match &n {
        NativeValue::Items(xs) => {
            assert_eq!(xs.len(), 2);
            assert!(matches!(xs[0], NativeValue::Prim(PrimValue::U8(255))));
            assert!(matches!(xs[1], NativeValue::Prim(PrimValue::U8(0))));
        }
        _ => panic!("a list must convert elementwise"),
    }
    let bad = ForeignValue::Items(vec![ForeignValue::Nothing]);
    assert!(matches!(
        try_convert(&ty, bad, &ctx()),
        Err(ConversionError::ShapeMismatch)
    ));
}

#[test]
fn map_conversion_composes() {
    let ty = Type::Dict {
        key: Box::new(Type::String),
        value: Box::new(Type::Primitive(PrimitiveType::Int32)),
    };
    let v = ForeignValue::Pairs(vec![slime_ffi::convert::ForeignPair {
        key: ForeignValue::Scalar(ForeignScalar::Text("k".to_string())),
        value: ForeignValue::Scalar(ForeignScalar::S32(3)),
    }]);
    let n = try_convert(&ty, v, &ctx()).unwrap();
    match &n {
        NativeValue::Pairs(ps) => {
            assert_eq!(ps.len(), 1);
            match &ps[0].key {
                NativeValue::Prim(PrimValue::Str(s)) => assert_eq!(s, "k"),
                _ => panic!("the key must convert as text"),
            }
            assert!(matches!(ps[0].value, NativeValue::Prim(PrimValue::I32(3))));
        }
        _ => panic!("a map must convert pairwise"),
    }
}

#[test]
fn composite_enum_payload_converts() {
    let ty = Type::Enum(vec![
        unit_variant("none"),
        EnumVariant {
            name: "pair".to_string(),
            variant: EnumVariantType::Unnamed(vec![
                Type::Primitive(PrimitiveType::Int32),
                Type::String,
            ]),
        },
    ]);
    let v = ForeignValue::Tagged {
        ordinal: 1,
        fields: vec![
            ForeignValue::Scalar(ForeignScalar::S32(4)),
            ForeignValue::Scalar(ForeignScalar::Text("x".to_string())),
        ],
    };
    let n = try_convert(&ty, v, &ctx()).unwrap();
    match &n {
        NativeValue::Variant { ordinal, fields } => {
            assert_eq!(*ordinal, 1);
            assert_eq!(fields.len(), 2);
        }
        _ => panic!("a composite enum must convert to a tagged variant"),
    }
    let short = ForeignValue::Tagged {
        ordinal: 1,
        fields: vec![ForeignValue::Scalar(ForeignScalar::S32(4))],
    };
    assert!(matches!(
        try_convert(&ty, short, &ctx()),
        Err(ConversionError::WrongArity)
    ));
}

#[test]
fn void_and_bytes_conversion() {
    let n = try_convert(&Type::Void, ForeignValue::Nothing, &ctx()).unwrap();
    assert!(matches!(n, NativeValue::Unit));
    let n = try_convert(
        &Type::Bytes,
        ForeignValue::Scalar(ForeignScalar::Blob(vec![1, 2, 3])),
        &ctx(),
    )
    .unwrap();
    match &n {
        NativeValue::Prim(PrimValue::Bytes(b)) => assert_eq!(b, &vec![1, 2, 3]),
        _ => panic!("bytes must pass through unchanged"),
    }
    let back = try_convert_back(&Type::Bytes, n, &ctx()).unwrap();
    match back {
        ForeignValue::Scalar(ForeignScalar::Blob(b)) => assert_eq!(b, vec![1, 2, 3]),
        _ => panic!("bytes must convert back unchanged"),
    }
}

#[test]
fn class_values_travel_as_handles() {
    let ty = Type::Class(slime_ffi::types::Class {
        name: "conn".to_string(),
        methods: vec![],
        ctors: vec![],
        fields: vec![],
    });
    let n = try_convert(&ty, ForeignValue::Handle { tag: 2, payload: Some(5) }, &ctx()).unwrap();
    assert!(matches!(n, NativeValue::Handle { tag: 2, payload: Some(5) }));
    let r = try_convert(&ty, ForeignValue::Nothing, &ctx());
    assert!(matches!(r, Err(ConversionError::ShapeMismatch)));
}

#[test]
fn deeply_nested_containers_compose() {
    let ty = Type::Option(Box::new(Type::List(Box::new(Type::Dict {
        key: Box::new(Type::String),
        value: Box::new(Type::Option(Box::new(Type::Primitive(PrimitiveType::Uint16)))),
    }))));
    let v = ForeignValue::Items(vec![ForeignValue::Pairs(vec![
        slime_ffi::convert::ForeignPair {
            key: ForeignValue::Scalar(ForeignScalar::Text("n".to_string())),
            value: ForeignValue::Scalar(ForeignScalar::S16(-1)),
        },
        slime_ffi::convert::ForeignPair {
            key: ForeignValue::Scalar(ForeignScalar::Text("m".to_string())),
            value: ForeignValue::Nothing,
        },
    ])]);
    let n = try_convert(&ty, v, &ctx()).unwrap();
    match &n {
        NativeValue::Present(inner) => match &**inner {
            NativeValue::Items(xs) => match &xs[0] {
                NativeValue::Pairs(ps) => {
                    assert_eq!(ps.len(), 2);
                    match &ps[0].value {
                        NativeValue::Present(u) => {
                            assert!(matches!(**u, NativeValue::Prim(PrimValue::U16(65535))))
                        }
                        _ => panic!("a present nested optional must convert its value"),
                    }
                    assert!(matches!(ps[1].value, NativeValue::Absent));
                }
                _ => panic!("the element must convert as a map"),
            },
            _ => panic!("the optional must hold a converted list"),
        },
        _ => panic!("a present optional must convert"),
    }
    let back = try_convert_back(&ty, n, &ctx()).unwrap();
    match back {
        ForeignValue::Items(xs) => assert_eq!(xs.len(), 1),
        _ => panic!("the round trip must restore the outer list"),
    }
}
