use slime_ffi::foreign_ref::{FfiError, FfiRef, FfiRefVTable, ForeignOp, InvokeError, Ref, invoke_marshalled, ref_ty};
use slime_ffi::convert::{
    ConversionError, ConvertCtx, ForeignScalar, ForeignValue, NativeValue, PrimValue,
};
use slime_ffi::runtime::Language;
use slime_ffi::types::{Class, Model, PrimitiveType, Type};

fn table_with_ops() -> FfiRefVTable {
    FfiRefVTable {
        kind: Language::C,
        ctor: Some(3),
        dtor: Some(9),
        methods: vec![(2, 77), (4, 78)],
    }
}

#[test]
fn downcast_none_to_same_type_succeeds() {
    let handle = FfiRef::none::<Model>();
    let typed = Ref::<Model>::from_ffi(handle).expect("matching tag must downcast");
    assert!(typed.as_ffi().inner_ref.is_none());
}

#[test]
fn downcast_none_to_other_type_fails() {
    let handle = FfiRef::none::<Model>();
    let r = Ref::<Class>::from_ffi(handle);
    assert!(matches!(r, Err(FfiError::TypeMismatch)));
}

#[test]
fn type_tags_are_stable_and_distinct() {
    assert_eq!(ref_ty::<Model>(), ref_ty::<Model>());
    assert_ne!(ref_ty::<Model>(), ref_ty::<Class>());
}

#[test]
fn scenario_destruct_exactly_once() {
    let mut r = FfiRef::construct(ref_ty::<Model>(), table_with_ops(), 5);
    assert_eq!(r.destruct(), Ok(ForeignOp::Destroy { handle: 9, target: 5 }));
    assert_eq!(r.destruct(), Err(FfiError::NullReference));
    assert_eq!(r.destruct(), Err(FfiError::NullReference));
}

#[test]
fn empty_handle_rejects_every_operation() {
    let mut r = FfiRef::none::<Model>();
    assert_eq!(r.invoke(2), Err(FfiError::NullReference));
    assert_eq!(r.destruct(), Err(FfiError::NullReference));
}

#[test]
fn invoke_looks_up_the_ordinal() {
    let r = FfiRef::construct(ref_ty::<Model>(), table_with_ops(), 5);
    assert_eq!(r.invoke(2), Ok(ForeignOp::Invoke { handle: 77, target: 5 }));
    assert_eq!(r.invoke(4), Ok(ForeignOp::Invoke { handle: 78, target: 5 }));
    assert_eq!(r.invoke(3), Err(FfiError::MissingOperation));
}

#[test]
fn construct_needs_a_declared_constructor() {
    let with = table_with_ops();
    assert_eq!(FfiRef::begin_construct(&with), Ok(ForeignOp::Construct { handle: 3 }));
    let without = FfiRefVTable::default();
    assert_eq!(
        FfiRef::begin_construct(&without),
        Err(FfiError::MissingOperation)
    );
}

#[test]
fn missing_destructor_keeps_the_payload() {
    let mut r = FfiRef::construct(ref_ty::<Model>(), FfiRefVTable::default(), 5);
    assert_eq!(r.destruct(), Err(FfiError::MissingOperation));
    assert_eq!(r.inner_ref, Some(5));
}

#[test]
fn default_table_is_empty_native_kind() {
    let t = FfiRefVTable::default();
    assert_eq!(t.kind, Language::C);
    assert!(t.ctor.is_none());
    assert!(t.dtor.is_none());
    assert!(t.methods.is_empty());
}

fn conv_ctx() -> ConvertCtx {
    ConvertCtx { kind: Language::C }
}

fn marshalling_receiver() -> FfiRef {
    let table = FfiRefVTable {
        kind: Language::C,
        ctor: None,
        dtor: None,
        methods: vec![(2, 77)],
    };
    FfiRef::construct(ref_ty::<Model>(), table, 5)
}

#[test]
fn marshalled_call_converts_every_argument() {
    let tys = vec![Type::Primitive(PrimitiveType::Uint8), Type::String];
    let args = vec![
        ForeignValue::Scalar(ForeignScalar::S8(-1)),
        ForeignValue::Scalar(ForeignScalar::Text("hi".to_string())),
    ];
    let (op, ns) = invoke_marshalled(&marshalling_receiver(), 2, &tys, args, &conv_ctx()).unwrap();
    assert_eq!(op, ForeignOp::Invoke { handle: 77, target: 5 });
    assert_eq!(ns.len(), 2);
    assert!(matches!(ns[0], NativeValue::Prim(PrimValue::U8(255))));
}

#[test]
fn marshalled_call_rejects_bad_arguments() {
    let tys = vec![Type::Primitive(PrimitiveType::Uint8)];
    let wrong_shape = vec![ForeignValue::Nothing];
    assert!(matches!(
        invoke_marshalled(&marshalling_receiver(), 2, &tys, wrong_shape, &conv_ctx()),
        Err(InvokeError::Marshal(ConversionError::ShapeMismatch))
    ));
    let wrong_arity = vec![];
    assert!(matches!(
        invoke_marshalled(&marshalling_receiver(), 2, &tys, wrong_arity, &conv_ctx()),
        Err(InvokeError::Marshal(ConversionError::WrongArity))
    ));
}

#[test]
fn marshalled_call_checks_the_dispatch_first() {
    let tys = vec![];
    assert!(matches!(
        invoke_marshalled(&marshalling_receiver(), 3, &tys, vec![], &conv_ctx()),
        Err(InvokeError::Dispatch(FfiError::MissingOperation))
    ));
    let empty = FfiRef::none::<Model>();
    assert!(matches!(
        invoke_marshalled(&empty, 2, &tys, vec![], &conv_ctx()),
        Err(InvokeError::Dispatch(FfiError::NullReference))
    ));
}
