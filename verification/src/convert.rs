//! Context-aware value conversion between native values and a runtime's
//! foreign representation.
//!
//! Four related operations: `convert` / `try_convert` turn a foreign value
//! into a native one, `convert_back` / `try_convert_back` go the other
//! way. Every operation takes a runtime context, because converting
//! composite values may need live runtime services; conversions of
//! primitive keyword values are total on well-typed input and do not
//! depend on the context. Composite conversions are defined purely in
//! terms of the element conversions, recursively, with no special-casing
//! per container depth.
//!
//! Foreign scalars are carried the way a C-compatible or JVM-style ABI
//! carries them: signed fixed-width integers, a byte-valued boolean, and
//! floating-point values as their raw IEEE-754 bit patterns. This layer
//! re-interprets widths but never does floating-point arithmetic.

use vstd::prelude::*;

use crate::runtime::Language;
use crate::types::{EnumVariant, EnumVariantType, Field, PrimitiveType, Type, enum_is_primitive, spec_enum_is_primitive};

verus! {

/// Why a conversion was rejected: the foreign value's runtime-reported
/// shape does not match the expected declaration.
#[derive(Clone, Copy, Debug, PartialEq, Eq, Structural)]
pub enum ConversionError {
    /// The value has the wrong shape for the expected type.
    ShapeMismatch,
    /// A composite value carries the wrong number of fields.
    WrongArity,
    /// A primitive-enum ordinal lies outside `[0, variant_count)`.
    OrdinalOutOfRange,
}

/// Conversion context: the kind of the active runtime. Primitive keyword
/// conversions do not consult it; composite conversions carry it through
/// to the element conversions.
#[derive(Clone, Copy, Debug, PartialEq, Eq, Structural)]
pub struct ConvertCtx {
    pub kind: Language,
}

/// A primitive value as the foreign ABI carries it: signed fixed-width
/// integers, a byte-valued boolean (`0` or `1`), text and raw bytes.
pub enum ForeignScalar {
    S8(i8),
    S16(i16),
    S32(i32),
    S64(i64),
    Bool8(u8),
    Text(String),
    Blob(Vec<u8>),
}

/// A primitive value on the native side. Floating-point keywords are held
/// as raw IEEE-754 bit patterns.
pub enum PrimValue {
    I8(i8),
    I16(i16),
    I32(i32),
    I64(i64),
    U8(u8),
    U16(u16),
    U32(u32),
    U64(u64),
    Bool(bool),
    F32Bits(u32),
    F64Bits(u64),
    Str(String),
    Bytes(Vec<u8>),
}

/// Whether a foreign scalar is well-typed for a primitive keyword: the
/// ABI width that keyword travels in, and for booleans the canonical
/// bytes `0` and `1`.
pub open spec fn spec_scalar_matches(k: PrimitiveType, v: ForeignScalar) -> bool {
    match k {
        PrimitiveType::Int8 | PrimitiveType::Uint8 => v is S8,
        PrimitiveType::Int16 | PrimitiveType::Uint16 => v is S16,
        PrimitiveType::Int32 | PrimitiveType::Uint32 | PrimitiveType::Float => v is S32,
        PrimitiveType::Int64 | PrimitiveType::Uint64 | PrimitiveType::Double => v is S64,
        PrimitiveType::Bool => v matches ForeignScalar::Bool8(b) && b <= 1,
    }
}

/// Foreign-to-native conversion of one primitive keyword value: signed
/// carriers are re-interpreted in the keyword's own signedness, booleans
/// leave their byte form, floats stay bit patterns.
pub open spec fn spec_convert_scalar(k: PrimitiveType, v: ForeignScalar) -> PrimValue
    recommends
        spec_scalar_matches(k, v),
{
    match (k, v) {
        (PrimitiveType::Int8, ForeignScalar::S8(x)) => PrimValue::I8(x),
        (PrimitiveType::Uint8, ForeignScalar::S8(x)) => PrimValue::U8(x as u8),
        (PrimitiveType::Int16, ForeignScalar::S16(x)) => PrimValue::I16(x),
        (PrimitiveType::Uint16, ForeignScalar::S16(x)) => PrimValue::U16(x as u16),
        (PrimitiveType::Int32, ForeignScalar::S32(x)) => PrimValue::I32(x),
        (PrimitiveType::Uint32, ForeignScalar::S32(x)) => PrimValue::U32(x as u32),
        (PrimitiveType::Float, ForeignScalar::S32(x)) => PrimValue::F32Bits(x as u32),
        (PrimitiveType::Int64, ForeignScalar::S64(x)) => PrimValue::I64(x),
        (PrimitiveType::Uint64, ForeignScalar::S64(x)) => PrimValue::U64(x as u64),
        (PrimitiveType::Double, ForeignScalar::S64(x)) => PrimValue::F64Bits(x as u64),
        (PrimitiveType::Bool, ForeignScalar::Bool8(b)) => PrimValue::Bool(b != 0),
        _ => PrimValue::Bool(false),
    }
}

/// Whether a native primitive value is well-typed for a keyword.
pub open spec fn spec_native_scalar_matches(k: PrimitiveType, p: PrimValue) -> bool {
    match k {
        PrimitiveType::Int8 => p is I8,
        PrimitiveType::Uint8 => p is U8,
        PrimitiveType::Int16 => p is I16,
        PrimitiveType::Uint16 => p is U16,
        PrimitiveType::Int32 => p is I32,
        PrimitiveType::Uint32 => p is U32,
        PrimitiveType::Int64 => p is I64,
        PrimitiveType::Uint64 => p is U64,
        PrimitiveType::Bool => p is Bool,
        PrimitiveType::Float => p is F32Bits,
        PrimitiveType::Double => p is F64Bits,
    }
}

/// Native-to-foreign conversion of one primitive keyword value, the exact
/// inverse of [`spec_convert_scalar`] on well-typed values.
pub open spec fn spec_convert_scalar_back(k: PrimitiveType, p: PrimValue) -> ForeignScalar
    recommends
        spec_native_scalar_matches(k, p),
{
    match (k, p) {
        (PrimitiveType::Int8, PrimValue::I8(x)) => ForeignScalar::S8(x),
        (PrimitiveType::Uint8, PrimValue::U8(x)) => ForeignScalar::S8(x as i8),
        (PrimitiveType::Int16, PrimValue::I16(x)) => ForeignScalar::S16(x),
        (PrimitiveType::Uint16, PrimValue::U16(x)) => ForeignScalar::S16(x as i16),
        (PrimitiveType::Int32, PrimValue::I32(x)) => ForeignScalar::S32(x),
        (PrimitiveType::Uint32, PrimValue::U32(x)) => ForeignScalar::S32(x as i32),
        (PrimitiveType::Float, PrimValue::F32Bits(x)) => ForeignScalar::S32(x as i32),
        (PrimitiveType::Int64, PrimValue::I64(x)) => ForeignScalar::S64(x),
        (PrimitiveType::Uint64, PrimValue::U64(x)) => ForeignScalar::S64(x as i64),
        (PrimitiveType::Double, PrimValue::F64Bits(x)) => ForeignScalar::S64(x as i64),
        (PrimitiveType::Bool, PrimValue::Bool(b)) => ForeignScalar::Bool8(
            if b {
                1
            } else {
                0
            },
        ),
        _ => ForeignScalar::S8(0),
    }
}

/// Decide whether a foreign scalar is well-typed for a keyword.
pub fn scalar_matches(k: &PrimitiveType, v: &ForeignScalar) -> (r: bool)
    ensures
        r == spec_scalar_matches(*k, *v),
{
    match (k, v) {
        (PrimitiveType::Int8, ForeignScalar::S8(_)) => true,
        (PrimitiveType::Uint8, ForeignScalar::S8(_)) => true,
        (PrimitiveType::Int16, ForeignScalar::S16(_)) => true,
        (PrimitiveType::Uint16, ForeignScalar::S16(_)) => true,
        (PrimitiveType::Int32, ForeignScalar::S32(_)) => true,
        (PrimitiveType::Uint32, ForeignScalar::S32(_)) => true,
        (PrimitiveType::Float, ForeignScalar::S32(_)) => true,
        (PrimitiveType::Int64, ForeignScalar::S64(_)) => true,
        (PrimitiveType::Uint64, ForeignScalar::S64(_)) => true,
        (PrimitiveType::Double, ForeignScalar::S64(_)) => true,
        (PrimitiveType::Bool, ForeignScalar::Bool8(b)) => *b <= 1,
        _ => false,
    }
}

/// Foreign-to-native conversion of one primitive keyword value: total on
/// well-typed input, and independent of the runtime context.
pub fn convert(k: &PrimitiveType, v: ForeignScalar, ctx: &ConvertCtx) -> (r: PrimValue)
    requires
        spec_scalar_matches(*k, v),
    ensures
        r == spec_convert_scalar(*k, v),
{
    match (k, v) {
        (PrimitiveType::Int8, ForeignScalar::S8(x)) => PrimValue::I8(x),
        (PrimitiveType::Uint8, ForeignScalar::S8(x)) => PrimValue::U8(
            #[verifier::truncate]
            (x as u8),
        ),
        (PrimitiveType::Int16, ForeignScalar::S16(x)) => PrimValue::I16(x),
        (PrimitiveType::Uint16, ForeignScalar::S16(x)) => PrimValue::U16(
            #[verifier::truncate]
            (x as u16),
        ),
        (PrimitiveType::Int32, ForeignScalar::S32(x)) => PrimValue::I32(x),
        (PrimitiveType::Uint32, ForeignScalar::S32(x)) => PrimValue::U32(
            #[verifier::truncate]
            (x as u32),
        ),
        (PrimitiveType::Float, ForeignScalar::S32(x)) => PrimValue::F32Bits(
            #[verifier::truncate]
            (x as u32),
        ),
        (PrimitiveType::Int64, ForeignScalar::S64(x)) => PrimValue::I64(x),
        (PrimitiveType::Uint64, ForeignScalar::S64(x)) => PrimValue::U64(
            #[verifier::truncate]
            (x as u64),
        ),
        (PrimitiveType::Double, ForeignScalar::S64(x)) => PrimValue::F64Bits(
            #[verifier::truncate]
            (x as u64),
        ),
        (PrimitiveType::Bool, ForeignScalar::Bool8(b)) => PrimValue::Bool(b != 0),
        _ => {
            proof {
                assert(false);
            }
            PrimValue::Bool(false)
        },
    }
}

/// Fallible form of [`convert`]: rejects an ill-typed scalar with
/// `ShapeMismatch` instead of requiring well-typedness.
pub fn try_convert_scalar(k: &PrimitiveType, v: ForeignScalar, ctx: &ConvertCtx) -> (r: Result<
    PrimValue,
    ConversionError,
>)
    ensures
        spec_scalar_matches(*k, v) ==> r == Ok::<PrimValue, ConversionError>(
            spec_convert_scalar(*k, v),
        ),
        !spec_scalar_matches(*k, v) ==> r == Err::<PrimValue, ConversionError>(
            ConversionError::ShapeMismatch,
        ),
{
    if scalar_matches(k, &v) {
        Ok(convert(k, v, ctx))
    } else {
        Err(ConversionError::ShapeMismatch)
    }
}

/// Decide whether a native primitive value is well-typed for a keyword.
pub fn native_scalar_matches(k: &PrimitiveType, p: &PrimValue) -> (r: bool)
    ensures
        r == spec_native_scalar_matches(*k, *p),
{
    match (k, p) {
        (PrimitiveType::Int8, PrimValue::I8(_)) => true,
        (PrimitiveType::Uint8, PrimValue::U8(_)) => true,
        (PrimitiveType::Int16, PrimValue::I16(_)) => true,
        (PrimitiveType::Uint16, PrimValue::U16(_)) => true,
        (PrimitiveType::Int32, PrimValue::I32(_)) => true,
        (PrimitiveType::Uint32, PrimValue::U32(_)) => true,
        (PrimitiveType::Int64, PrimValue::I64(_)) => true,
        (PrimitiveType::Uint64, PrimValue::U64(_)) => true,
        (PrimitiveType::Bool, PrimValue::Bool(_)) => true,
        (PrimitiveType::Float, PrimValue::F32Bits(_)) => true,
        (PrimitiveType::Double, PrimValue::F64Bits(_)) => true,
        _ => false,
    }
}

/// Native-to-foreign conversion of one primitive keyword value: total on
/// well-typed input, and independent of the runtime context.
pub fn convert_back(k: &PrimitiveType, p: PrimValue, ctx: &ConvertCtx) -> (r: ForeignScalar)
    requires
        spec_native_scalar_matches(*k, p),
    ensures
        r == spec_convert_scalar_back(*k, p),
{
    match (k, p) {
        (PrimitiveType::Int8, PrimValue::I8(x)) => ForeignScalar::S8(x),
        (PrimitiveType::Uint8, PrimValue::U8(x)) => ForeignScalar::S8(
            #[verifier::truncate]
            (x as i8),
        ),
        (PrimitiveType::Int16, PrimValue::I16(x)) => ForeignScalar::S16(x),
        (PrimitiveType::Uint16, PrimValue::U16(x)) => ForeignScalar::S16(
            #[verifier::truncate]
            (x as i16),
        ),
        (PrimitiveType::Int32, PrimValue::I32(x)) => ForeignScalar::S32(x),
        (PrimitiveType::Uint32, PrimValue::U32(x)) => ForeignScalar::S32(
            #[verifier::truncate]
            (x as i32),
        ),
        (PrimitiveType::Float, PrimValue::F32Bits(x)) => ForeignScalar::S32(
            #[verifier::truncate]
            (x as i32),
        ),
        (PrimitiveType::Int64, PrimValue::I64(x)) => ForeignScalar::S64(x),
        (PrimitiveType::Uint64, PrimValue::U64(x)) => ForeignScalar::S64(
            #[verifier::truncate]
            (x as i64),
        ),
        (PrimitiveType::Double, PrimValue::F64Bits(x)) => ForeignScalar::S64(
            #[verifier::truncate]
            (x as i64),
        ),
        (PrimitiveType::Bool, PrimValue::Bool(b)) => ForeignScalar::Bool8(
            if b {
                1
            } else {
                0
            },
        ),
        _ => {
            proof {
                assert(false);
            }
            ForeignScalar::S8(0)
        },
    }
}

/// Fallible form of [`convert_back`].
pub fn try_convert_scalar_back(k: &PrimitiveType, p: PrimValue, ctx: &ConvertCtx) -> (r: Result<
    ForeignScalar,
    ConversionError,
>)
    ensures
        spec_native_scalar_matches(*k, p) ==> r == Ok::<ForeignScalar, ConversionError>(
            spec_convert_scalar_back(*k, p),
        ),
        !spec_native_scalar_matches(*k, p) ==> r == Err::<ForeignScalar, ConversionError>(
            ConversionError::ShapeMismatch,
        ),
{
    if native_scalar_matches(k, &p) {
        Ok(convert_back(k, p, ctx))
    } else {
        Err(ConversionError::ShapeMismatch)
    }
}

/// Law: primitive keyword values round-trip. Converting a well-typed
/// foreign scalar to its native form and back returns the original value,
/// for every keyword and — since neither direction consults the context —
/// for every supported runtime kind.
pub proof fn lemma_scalar_round_trip(k: PrimitiveType, v: ForeignScalar)
    requires
        spec_scalar_matches(k, v),
    ensures
        spec_convert_scalar_back(k, spec_convert_scalar(k, v)) == v,
{
    match (k, v) {
        (PrimitiveType::Uint8, ForeignScalar::S8(x)) => {
            assert((x as u8) as i8 == x) by (bit_vector);
        },
        (PrimitiveType::Uint16, ForeignScalar::S16(x)) => {
            assert((x as u16) as i16 == x) by (bit_vector);
        },
        (PrimitiveType::Uint32, ForeignScalar::S32(x)) => {
            assert((x as u32) as i32 == x) by (bit_vector);
        },
        (PrimitiveType::Float, ForeignScalar::S32(x)) => {
            assert((x as u32) as i32 == x) by (bit_vector);
        },
        (PrimitiveType::Uint64, ForeignScalar::S64(x)) => {
            assert((x as u64) as i64 == x) by (bit_vector);
        },
        (PrimitiveType::Double, ForeignScalar::S64(x)) => {
            assert((x as u64) as i64 == x) by (bit_vector);
        },
        _ => {},
    }
}

/// Law: native primitive values round-trip the other way: converting a
/// well-typed native value to its foreign form and back returns the
/// original value.
pub proof fn lemma_scalar_round_trip_back(k: PrimitiveType, p: PrimValue)
    requires
        spec_native_scalar_matches(k, p),
    ensures
        spec_convert_scalar(k, spec_convert_scalar_back(k, p)) == p,
{
    match (k, p) {
        (PrimitiveType::Uint8, PrimValue::U8(x)) => {
            assert((x as i8) as u8 == x) by (bit_vector);
        },
        (PrimitiveType::Uint16, PrimValue::U16(x)) => {
            assert((x as i16) as u16 == x) by (bit_vector);
        },
        (PrimitiveType::Uint32, PrimValue::U32(x)) => {
            assert((x as i32) as u32 == x) by (bit_vector);
        },
        (PrimitiveType::Float, PrimValue::F32Bits(x)) => {
            assert((x as i32) as u32 == x) by (bit_vector);
        },
        (PrimitiveType::Uint64, PrimValue::U64(x)) => {
            assert((x as i64) as u64 == x) by (bit_vector);
        },
        (PrimitiveType::Double, PrimValue::F64Bits(x)) => {
            assert((x as i64) as u64 == x) by (bit_vector);
        },
        _ => {},
    }
}

/// Build a native value from a foreign one, using runtime services from
/// the context; implemented by generated glue for each bridged type.
pub trait FromWith<T, R>: Sized {
    fn from_with(value: T, rt: R) -> Self;
}

/// Consume a native value into its foreign form; the mirror of
/// [`FromWith`].
pub trait IntoWith<T, R> {
    fn into_with(self, rt: R) -> T;
}

/// Fallible form of [`FromWith`] for conversions that can reject a
/// mismatched shape.
pub trait TryFromWith<T, R>: Sized {
    type Error;

    fn try_from_with(value: T, rt: R) -> Result<Self, Self::Error>;
}

/// Fallible form of [`IntoWith`].
pub trait TryIntoWith<T, R> {
    type Error;

    fn try_into_with(self, rt: R) -> Result<T, Self::Error>;
}


/// One key/value pair of a foreign map value.
pub struct ForeignPair {
    pub key: ForeignValue,
    pub value: ForeignValue,
}

/// A foreign value as the active runtime reports it: a scalar, a
/// primitive-enum ordinal, one foreign object (its fields in declaration
/// order), a tagged composite-enum object, a sequence, a map, an opaque
/// object handle, or nothing at all.
pub enum ForeignValue {
    Scalar(ForeignScalar),
    Ordinal(u32),
    Object(Vec<ForeignValue>),
    Tagged { ordinal: u32, fields: Vec<ForeignValue> },
    Items(Vec<ForeignValue>),
    Pairs(Vec<ForeignPair>),
    Handle { tag: u64, payload: Option<u64> },
    Nothing,
}

/// One key/value pair of a native map value.
pub struct NativePair {
    pub key: NativeValue,
    pub value: NativeValue,
}

/// A native value produced or consumed by the conversion protocol.
pub enum NativeValue {
    Prim(PrimValue),
    Variant { ordinal: u32, fields: Vec<NativeValue> },
    Record(Vec<NativeValue>),
    Items(Vec<NativeValue>),
    Pairs(Vec<NativePair>),
    Handle { tag: u64, payload: Option<u64> },
    Absent,
    Present(Box<NativeValue>),
    Unit,
}

/// Mathematical shape of a foreign value: the same structure with
/// sequences for collections and character sequences for text.
pub enum FvView {
    S8(i8),
    S16(i16),
    S32(i32),
    S64(i64),
    Bool8(u8),
    Text(Seq<char>),
    Blob(Seq<u8>),
    Ordinal(u32),
    Object(Seq<FvView>),
    Tagged { ordinal: u32, fields: Seq<FvView> },
    Items(Seq<FvView>),
    Pairs(Seq<(FvView, FvView)>),
    Handle { tag: u64, payload: Option<u64> },
    Nothing,
}

/// Mathematical shape of a native value.
pub enum NvView {
    I8(i8),
    I16(i16),
    I32(i32),
    I64(i64),
    U8(u8),
    U16(u16),
    U32(u32),
    U64(u64),
    Bool(bool),
    F32Bits(u32),
    F64Bits(u64),
    Str(Seq<char>),
    Bytes(Seq<u8>),
    Variant { ordinal: u32, fields: Seq<NvView> },
    Record(Seq<NvView>),
    Items(Seq<NvView>),
    Pairs(Seq<(NvView, NvView)>),
    Handle { tag: u64, payload: Option<u64> },
    Absent,
    Present(Box<NvView>),
    Unit,
}

/// The shape of a native primitive value.
pub open spec fn prim_view(p: PrimValue) -> NvView {
    match p {
        PrimValue::I8(x) => NvView::I8(x),
        PrimValue::I16(x) => NvView::I16(x),
        PrimValue::I32(x) => NvView::I32(x),
        PrimValue::I64(x) => NvView::I64(x),
        PrimValue::U8(x) => NvView::U8(x),
        PrimValue::U16(x) => NvView::U16(x),
        PrimValue::U32(x) => NvView::U32(x),
        PrimValue::U64(x) => NvView::U64(x),
        PrimValue::Bool(b) => NvView::Bool(b),
        PrimValue::F32Bits(x) => NvView::F32Bits(x),
        PrimValue::F64Bits(x) => NvView::F64Bits(x),
        PrimValue::Str(s) => NvView::Str(s@),
        PrimValue::Bytes(b) => NvView::Bytes(b@),
    }
}

/// The shape of a foreign scalar.
pub open spec fn scalar_view(s: ForeignScalar) -> FvView {
    match s {
        ForeignScalar::S8(x) => FvView::S8(x),
        ForeignScalar::S16(x) => FvView::S16(x),
        ForeignScalar::S32(x) => FvView::S32(x),
        ForeignScalar::S64(x) => FvView::S64(x),
        ForeignScalar::Bool8(b) => FvView::Bool8(b),
        ForeignScalar::Text(t) => FvView::Text(t@),
        ForeignScalar::Blob(b) => FvView::Blob(b@),
    }
}

/// The shape of a foreign value.
pub open spec fn fv_view(v: ForeignValue) -> FvView
    decreases v,
{
    match v {
        ForeignValue::Scalar(s) => scalar_view(s),
        ForeignValue::Ordinal(n) => FvView::Ordinal(n),
        ForeignValue::Object(fields) => FvView::Object(fv_views(fields@)),
        ForeignValue::Tagged { ordinal, fields } => FvView::Tagged {
            ordinal,
            fields: fv_views(fields@),
        },
        ForeignValue::Items(xs) => FvView::Items(fv_views(xs@)),
        ForeignValue::Pairs(ps) => FvView::Pairs(fv_pair_views(ps@)),
        ForeignValue::Handle { tag, payload } => FvView::Handle { tag, payload },
        ForeignValue::Nothing => FvView::Nothing,
    }
}

/// The shapes of a sequence of foreign values.
pub open spec fn fv_views(s: Seq<ForeignValue>) -> Seq<FvView>
    decreases s,
{
    if s.len() == 0 {
        Seq::empty()
    } else {
        seq![fv_view(s[0])] + fv_views(s.drop_first())
    }
}

/// The shapes of a sequence of foreign pairs.
pub open spec fn fv_pair_views(s: Seq<ForeignPair>) -> Seq<(FvView, FvView)>
    decreases s,
{
    if s.len() == 0 {
        Seq::empty()
    } else {
        seq![(fv_view(s[0].key), fv_view(s[0].value))] + fv_pair_views(s.drop_first())
    }
}

/// The shape of a native value.
pub open spec fn nv_view(n: NativeValue) -> NvView
    decreases n,
{
    match n {
        NativeValue::Prim(p) => prim_view(p),
        NativeValue::Variant { ordinal, fields } => NvView::Variant {
            ordinal,
            fields: nv_views(fields@),
        },
        NativeValue::Record(fields) => NvView::Record(nv_views(fields@)),
        NativeValue::Items(xs) => NvView::Items(nv_views(xs@)),
        NativeValue::Pairs(ps) => NvView::Pairs(nv_pair_views(ps@)),
        NativeValue::Handle { tag, payload } => NvView::Handle { tag, payload },
        NativeValue::Absent => NvView::Absent,
        NativeValue::Present(b) => NvView::Present(Box::new(nv_view(*b))),
        NativeValue::Unit => NvView::Unit,
    }
}

/// The shapes of a sequence of native values.
pub open spec fn nv_views(s: Seq<NativeValue>) -> Seq<NvView>
    decreases s,
{
    if s.len() == 0 {
        Seq::empty()
    } else {
        seq![nv_view(s[0])] + nv_views(s.drop_first())
    }
}

/// The shapes of a sequence of native pairs.
pub open spec fn nv_pair_views(s: Seq<NativePair>) -> Seq<(NvView, NvView)>
    decreases s,
{
    if s.len() == 0 {
        Seq::empty()
    } else {
        seq![(nv_view(s[0].key), nv_view(s[0].value))] + nv_pair_views(s.drop_first())
    }
}

/// Foreign-to-native conversion, at the specification level: what
/// `try_convert` returns, stated over value shapes. Composite cases are
/// defined purely by recursion on the element conversions.
pub open spec fn spec_convert(ty: Type, v: ForeignValue) -> Result<NvView, ConversionError>
    decreases v, ty,
{
    match ty {
        Type::Void => if v is Nothing {
            Ok(NvView::Unit)
        } else {
            Err(ConversionError::ShapeMismatch)
        },
        Type::Primitive(k) => match v {
            ForeignValue::Scalar(s) => if spec_scalar_matches(k, s) {
                Ok(prim_view(spec_convert_scalar(k, s)))
            } else {
                Err(ConversionError::ShapeMismatch)
            },
            _ => Err(ConversionError::ShapeMismatch),
        },
        Type::String => match v {
            ForeignValue::Scalar(ForeignScalar::Text(t)) => Ok(NvView::Str(t@)),
            _ => Err(ConversionError::ShapeMismatch),
        },
        Type::Bytes => match v {
            ForeignValue::Scalar(ForeignScalar::Blob(b)) => Ok(NvView::Bytes(b@)),
            _ => Err(ConversionError::ShapeMismatch),
        },
        Type::Enum(variants) => if spec_enum_is_primitive(variants@) {
            match v {
                ForeignValue::Ordinal(n) => if (n as int) < variants@.len() {
                    Ok(NvView::Variant { ordinal: n, fields: Seq::empty() })
                } else {
                    Err(ConversionError::OrdinalOutOfRange)
                },
                _ => Err(ConversionError::ShapeMismatch),
            }
        } else {
            match v {
                ForeignValue::Tagged { ordinal, fields } => if (ordinal as int)
                    < variants@.len() {
                    match variants@[ordinal as int].variant {
                        EnumVariantType::Primitive => if fields@.len() == 0 {
                            Ok(NvView::Variant { ordinal, fields: Seq::empty() })
                        } else {
                            Err(ConversionError::WrongArity)
                        },
                        EnumVariantType::Unnamed(ts) => if ts@.len() == fields@.len() {
                            match spec_convert_list(ts@, fields@) {
                                Ok(ws) => Ok(NvView::Variant { ordinal, fields: ws }),
                                Err(e) => Err(e),
                            }
                        } else {
                            Err(ConversionError::WrongArity)
                        },
                        EnumVariantType::Named(fs) => if fs@.len() == fields@.len() {
                            match spec_convert_fields(fs@, fields@) {
                                Ok(ws) => Ok(NvView::Variant { ordinal, fields: ws }),
                                Err(e) => Err(e),
                            }
                        } else {
                            Err(ConversionError::WrongArity)
                        },
                    }
                } else {
                    Err(ConversionError::OrdinalOutOfRange)
                },
                _ => Err(ConversionError::ShapeMismatch),
            }
        },
        Type::Model(m) => match v {
            ForeignValue::Object(fields) => if m.fields@.len() == fields@.len() {
                match spec_convert_fields(m.fields@, fields@) {
                    Ok(ws) => Ok(NvView::Record(ws)),
                    Err(e) => Err(e),
                }
            } else {
                Err(ConversionError::WrongArity)
            },
            _ => Err(ConversionError::ShapeMismatch),
        },
        Type::Class(_) => match v {
            ForeignValue::Handle { tag, payload } => Ok(NvView::Handle { tag, payload }),
            _ => Err(ConversionError::ShapeMismatch),
        },
        Type::Interface(_) => match v {
            ForeignValue::Handle { tag, payload } => Ok(NvView::Handle { tag, payload }),
            _ => Err(ConversionError::ShapeMismatch),
        },
        Type::Option(t) => if v is Nothing {
            Ok(NvView::Absent)
        } else {
            match spec_convert(*t, v) {
                Ok(w) => Ok(NvView::Present(Box::new(w))),
                Err(e) => Err(e),
            }
        },
        Type::List(t) => match v {
            ForeignValue::Items(xs) => match spec_convert_elems(*t, xs@) {
                Ok(ws) => Ok(NvView::Items(ws)),
                Err(e) => Err(e),
            },
            _ => Err(ConversionError::ShapeMismatch),
        },
        Type::Dict { key, value } => match v {
            ForeignValue::Pairs(ps) => match spec_convert_pairs(*key, *value, ps@) {
                Ok(ws) => Ok(NvView::Pairs(ws)),
                Err(e) => Err(e),
            },
            _ => Err(ConversionError::ShapeMismatch),
        },
    }
}

/// Elementwise conversion of declared fields, first error wins.
pub open spec fn spec_convert_fields(fs: Seq<Field>, vs: Seq<ForeignValue>) -> Result<
    Seq<NvView>,
    ConversionError,
>
    recommends
        fs.len() == vs.len(),
    decreases vs, fs,
{
    if vs.len() == 0 {
        Ok(Seq::empty())
    } else if fs.len() == 0 {
        Err(ConversionError::WrongArity)
    } else {
        match spec_convert(fs[0].ty, vs[0]) {
            Err(e) => Err(e),
            Ok(h) => match spec_convert_fields(fs.drop_first(), vs.drop_first()) {
                Err(e) => Err(e),
                Ok(t) => Ok(seq![h] + t),
            },
        }
    }
}

/// Elementwise conversion of a positional payload, first error wins.
pub open spec fn spec_convert_list(ts: Seq<Type>, vs: Seq<ForeignValue>) -> Result<
    Seq<NvView>,
    ConversionError,
>
    recommends
        ts.len() == vs.len(),
    decreases vs, ts,
{
    if vs.len() == 0 {
        Ok(Seq::empty())
    } else if ts.len() == 0 {
        Err(ConversionError::WrongArity)
    } else {
        match spec_convert(ts[0], vs[0]) {
            Err(e) => Err(e),
            Ok(h) => match spec_convert_list(ts.drop_first(), vs.drop_first()) {
                Err(e) => Err(e),
                Ok(t) => Ok(seq![h] + t),
            },
        }
    }
}

/// Elementwise conversion of list elements, first error wins.
pub open spec fn spec_convert_elems(t: Type, vs: Seq<ForeignValue>) -> Result<
    Seq<NvView>,
    ConversionError,
>
    decreases vs, t,
{
    if vs.len() == 0 {
        Ok(Seq::empty())
    } else {
        match spec_convert(t, vs[0]) {
            Err(e) => Err(e),
            Ok(h) => match spec_convert_elems(t, vs.drop_first()) {
                Err(e) => Err(e),
                Ok(tl) => Ok(seq![h] + tl),
            },
        }
    }
}

/// Pairwise conversion of map entries: key first, then value, first
/// error wins.
pub open spec fn spec_convert_pairs(kt: Type, vt: Type, ps: Seq<ForeignPair>) -> Result<
    Seq<(NvView, NvView)>,
    ConversionError,
>
    decreases ps, kt,
{
    if ps.len() == 0 {
        Ok(Seq::empty())
    } else {
        match spec_convert(kt, ps[0].key) {
            Err(e) => Err(e),
            Ok(kw) => match spec_convert(vt, ps[0].value) {
                Err(e) => Err(e),
                Ok(vw) => match spec_convert_pairs(kt, vt, ps.drop_first()) {
                    Err(e) => Err(e),
                    Ok(tl) => Ok(seq![(kw, vw)] + tl),
                },
            },
        }
    }
}

/// Whether an executable conversion result carries exactly the shape the
/// specification-level conversion prescribes.
pub open spec fn result_view_matches(
    r: Result<NativeValue, ConversionError>,
    m: Result<NvView, ConversionError>,
) -> bool {
    match (r, m) {
        (Ok(n), Ok(w)) => nv_view(n) == w,
        (Err(a), Err(b)) => a == b,
        _ => false,
    }
}

/// As `result_view_matches`, for element lists.
pub open spec fn list_view_matches(
    r: Result<Vec<NativeValue>, ConversionError>,
    m: Result<Seq<NvView>, ConversionError>,
) -> bool {
    match (r, m) {
        (Ok(n), Ok(w)) => nv_views(n@) == w,
        (Err(a), Err(b)) => a == b,
        _ => false,
    }
}

/// As `result_view_matches`, for pair lists.
pub open spec fn pairs_view_matches(
    r: Result<Vec<NativePair>, ConversionError>,
    m: Result<Seq<(NvView, NvView)>, ConversionError>,
) -> bool {
    match (r, m) {
        (Ok(n), Ok(w)) => nv_pair_views(n@) == w,
        (Err(a), Err(b)) => a == b,
        _ => false,
    }
}

/// Convert a foreign value to its native form, checking its
/// runtime-reported shape against the expected type; composite values are
/// converted purely elementwise.
pub fn try_convert(ty: &Type, v: ForeignValue, ctx: &ConvertCtx) -> (r: Result<
    NativeValue,
    ConversionError,
>)
    ensures
        result_view_matches(r, spec_convert(*ty, v)),
    decreases v, ty,
{
    match ty {
        Type::Void => match v {
            ForeignValue::Nothing => Ok(NativeValue::Unit),
            _ => Err(ConversionError::ShapeMismatch),
        },
        Type::Primitive(k) => match v {
            ForeignValue::Scalar(s) => match try_convert_scalar(k, s, ctx) {
                Ok(p) => Ok(NativeValue::Prim(p)),
                Err(e) => Err(e),
            },
            _ => Err(ConversionError::ShapeMismatch),
        },
        Type::String => match v {
            ForeignValue::Scalar(ForeignScalar::Text(t)) => Ok(
                NativeValue::Prim(PrimValue::Str(t)),
            ),
            _ => Err(ConversionError::ShapeMismatch),
        },
        Type::Bytes => match v {
            ForeignValue::Scalar(ForeignScalar::Blob(b)) => Ok(
                NativeValue::Prim(PrimValue::Bytes(b)),
            ),
            _ => Err(ConversionError::ShapeMismatch),
        },
        Type::Enum(variants) => if enum_is_primitive(variants) {
            match v {
                ForeignValue::Ordinal(n) => if (n as usize) < variants.len() {
                    proof {
                        assert(nv_views(Seq::<NativeValue>::empty()) == Seq::<NvView>::empty());
                    }
                    Ok(NativeValue::Variant { ordinal: n, fields: Vec::new() })
                } else {
                    Err(ConversionError::OrdinalOutOfRange)
                },
                _ => Err(ConversionError::ShapeMismatch),
            }
        } else {
            match v {
                ForeignValue::Tagged { ordinal, fields } => if (ordinal as usize)
                    < variants.len() {
                    match &variants[ordinal as usize].variant {
                        EnumVariantType::Primitive => if fields.len() == 0 {
                            proof {
                                assert(nv_views(Seq::<NativeValue>::empty()) == Seq::<
                                    NvView,
                                >::empty());
                            }
                            Ok(NativeValue::Variant { ordinal, fields: Vec::new() })
                        } else {
                            Err(ConversionError::WrongArity)
                        },
                        EnumVariantType::Unnamed(ts) => if ts.len() == fields.len() {
                            proof {
                                assert(ts@.skip(0) =~= ts@);
                            }
                            match try_convert_list(ts, 0, fields, ctx) {
                                Ok(ws) => Ok(NativeValue::Variant { ordinal, fields: ws }),
                                Err(e) => Err(e),
                            }
                        } else {
                            Err(ConversionError::WrongArity)
                        },
                        EnumVariantType::Named(fs) => if fs.len() == fields.len() {
                            proof {
                                assert(fs@.skip(0) =~= fs@);
                            }
                            match try_convert_fields(fs, 0, fields, ctx) {
                                Ok(ws) => Ok(NativeValue::Variant { ordinal, fields: ws }),
                                Err(e) => Err(e),
                            }
                        } else {
                            Err(ConversionError::WrongArity)
                        },
                    }
                } else {
                    Err(ConversionError::OrdinalOutOfRange)
                },
                _ => Err(ConversionError::ShapeMismatch),
            }
        },
        Type::Model(m) => match v {
            ForeignValue::Object(fields) => if m.fields.len() == fields.len() {
                proof {
                    assert(m.fields@.skip(0) =~= m.fields@);
                }
                match try_convert_fields(&m.fields, 0, fields, ctx) {
                    Ok(ws) => Ok(NativeValue::Record(ws)),
                    Err(e) => Err(e),
                }
            } else {
                Err(ConversionError::WrongArity)
            },
            _ => Err(ConversionError::ShapeMismatch),
        },
        Type::Class(_) => match v {
            ForeignValue::Handle { tag, payload } => Ok(NativeValue::Handle { tag, payload }),
            _ => Err(ConversionError::ShapeMismatch),
        },
        Type::Interface(_) => match v {
            ForeignValue::Handle { tag, payload } => Ok(NativeValue::Handle { tag, payload }),
            _ => Err(ConversionError::ShapeMismatch),
        },
        Type::Option(t) => match v {
            ForeignValue::Nothing => Ok(NativeValue::Absent),
            other => match try_convert(t, other, ctx) {
                Ok(n) => Ok(NativeValue::Present(Box::new(n))),
                Err(e) => Err(e),
            },
        },
        Type::List(t) => match v {
            ForeignValue::Items(xs) => match try_convert_elems(t, xs, ctx) {
                Ok(ws) => Ok(NativeValue::Items(ws)),
                Err(e) => Err(e),
            },
            _ => Err(ConversionError::ShapeMismatch),
        },
        Type::Dict { key, value } => match v {
            ForeignValue::Pairs(ps) => match try_convert_pairs(key, value, ps, ctx) {
                Ok(ws) => Ok(NativeValue::Pairs(ws)),
                Err(e) => Err(e),
            },
            _ => Err(ConversionError::ShapeMismatch),
        },
    }
}

/// Convert the remaining values of a field list, beginning at field `i`.
fn try_convert_fields(fs: &Vec<Field>, i: usize, vs: Vec<ForeignValue>, ctx: &ConvertCtx) -> (r:
    Result<Vec<NativeValue>, ConversionError>)
    requires
        i + vs@.len() == fs@.len(),
    ensures
        list_view_matches(r, spec_convert_fields(fs@.skip(i as int), vs@)),
    decreases vs@, fs,
{
    let mut vs = vs;
    if vs.len() == 0 {
        Ok(Vec::new())
    } else {
        let flen: usize = fs.len();
        let ghost vs0 = vs@;
        let head = vs.remove(0);
        proof {
            assert(i + 1 <= flen);
            assert(vs@ =~= vs0.drop_first());
            assert(fs@.skip(i as int)[0] == fs@[i as int]);
            assert(fs@.skip(i as int).drop_first() =~= fs@.skip(i as int + 1));
        }
        match try_convert(&fs[i].ty, head, ctx) {
            Err(e) => Err(e),
            Ok(h) => match try_convert_fields(fs, i + 1, vs, ctx) {
                Err(e) => Err(e),
                Ok(t) => {
                    let mut t = t;
                    let ghost t0 = t@;
                    t.insert(0, h);
                    proof {
                        assert(t@[0] == h);
                        assert(t@.drop_first() =~= t0);
                    }
                    Ok(t)
                },
            },
        }
    }
}

/// Convert the remaining values of a positional payload, beginning at
/// type `i`.
pub(crate) fn try_convert_list(ts: &Vec<Type>, i: usize, vs: Vec<ForeignValue>, ctx: &ConvertCtx) -> (r:
    Result<Vec<NativeValue>, ConversionError>)
    requires
        i + vs@.len() == ts@.len(),
    ensures
        list_view_matches(r, spec_convert_list(ts@.skip(i as int), vs@)),
    decreases vs@, ts,
{
    let mut vs = vs;
    if vs.len() == 0 {
        Ok(Vec::new())
    } else {
        let tlen: usize = ts.len();
        let ghost vs0 = vs@;
        let head = vs.remove(0);
        proof {
            assert(i + 1 <= tlen);
            assert(vs@ =~= vs0.drop_first());
            assert(ts@.skip(i as int)[0] == ts@[i as int]);
            assert(ts@.skip(i as int).drop_first() =~= ts@.skip(i as int + 1));
        }
        match try_convert(&ts[i], head, ctx) {
            Err(e) => Err(e),
            Ok(h) => match try_convert_list(ts, i + 1, vs, ctx) {
                Err(e) => Err(e),
                Ok(t) => {
                    let mut t = t;
                    let ghost t0 = t@;
                    t.insert(0, h);
                    proof {
                        assert(t@[0] == h);
                        assert(t@.drop_first() =~= t0);
                    }
                    Ok(t)
                },
            },
        }
    }
}

/// Convert every element of a list value.
fn try_convert_elems(t: &Type, vs: Vec<ForeignValue>, ctx: &ConvertCtx) -> (r: Result<
    Vec<NativeValue>,
    ConversionError,
>)
    ensures
        list_view_matches(r, spec_convert_elems(*t, vs@)),
    decreases vs@, t,
{
    let mut vs = vs;
    if vs.len() == 0 {
        Ok(Vec::new())
    } else {
        let ghost vs0 = vs@;
        let head = vs.remove(0);
        proof {
            assert(vs@ =~= vs0.drop_first());
        }
        match try_convert(t, head, ctx) {
            Err(e) => Err(e),
            Ok(h) => match try_convert_elems(t, vs, ctx) {
                Err(e) => Err(e),
                Ok(tl) => {
                    let mut tl = tl;
                    let ghost t0 = tl@;
                    tl.insert(0, h);
                    proof {
                        assert(tl@[0] == h);
                        assert(tl@.drop_first() =~= t0);
                    }
                    Ok(tl)
                },
            },
        }
    }
}

/// Convert every entry of a map value, key first, then value.
fn try_convert_pairs(kt: &Type, vt: &Type, ps: Vec<ForeignPair>, ctx: &ConvertCtx) -> (r: Result<
    Vec<NativePair>,
    ConversionError,
>)
    ensures
        pairs_view_matches(r, spec_convert_pairs(*kt, *vt, ps@)),
    decreases ps@, kt,
{
    let mut ps = ps;
    if ps.len() == 0 {
        Ok(Vec::new())
    } else {
        let ghost ps0 = ps@;
        let head = ps.remove(0);
        proof {
            assert(ps@ =~= ps0.drop_first());
        }
        let ForeignPair { key, value } = head;
        match try_convert(kt, key, ctx) {
            Err(e) => Err(e),
            Ok(kw) => match try_convert(vt, value, ctx) {
                Err(e) => Err(e),
                Ok(vw) => match try_convert_pairs(kt, vt, ps, ctx) {
                    Err(e) => Err(e),
                    Ok(tl) => {
                        let mut tl = tl;
                        let ghost t0 = tl@;
                        tl.insert(0, NativePair { key: kw, value: vw });
                        proof {
                            assert(tl@[0] == NativePair { key: kw, value: vw });
                            assert(tl@.drop_first() =~= t0);
                        }
                        Ok(tl)
                    },
                },
            },
        }
    }
}

/// Law: a primitive-enum ordinal converts exactly when it lies in
/// `[0, variant_count)`; an out-of-range ordinal fails with
/// `OrdinalOutOfRange` rather than producing a variant.
pub proof fn lemma_primitive_enum_ordinal(variants: Vec<EnumVariant>, n: u32)
    requires
        spec_enum_is_primitive(variants@),
    ensures
        (n as int) < variants@.len() ==> spec_convert(
            Type::Enum(variants),
            ForeignValue::Ordinal(n),
        ) == Ok::<NvView, ConversionError>(
            NvView::Variant { ordinal: n, fields: Seq::empty() },
        ),
        (n as int) >= variants@.len() ==> spec_convert(
            Type::Enum(variants),
            ForeignValue::Ordinal(n),
        ) == Err::<NvView, ConversionError>(ConversionError::OrdinalOutOfRange),
{
}


/// Native-to-foreign conversion, at the specification level: what
/// `try_convert_back` returns, stated over value shapes.
pub open spec fn spec_convert_back(ty: Type, n: NativeValue) -> Result<FvView, ConversionError>
    decreases n, ty,
{
    match ty {
        Type::Void => if n is Unit {
            Ok(FvView::Nothing)
        } else {
            Err(ConversionError::ShapeMismatch)
        },
        Type::Primitive(k) => match n {
            NativeValue::Prim(p) => if spec_native_scalar_matches(k, p) {
                Ok(scalar_view(spec_convert_scalar_back(k, p)))
            } else {
                Err(ConversionError::ShapeMismatch)
            },
            _ => Err(ConversionError::ShapeMismatch),
        },
        Type::String => match n {
            NativeValue::Prim(PrimValue::Str(s)) => Ok(FvView::Text(s@)),
            _ => Err(ConversionError::ShapeMismatch),
        },
        Type::Bytes => match n {
            NativeValue::Prim(PrimValue::Bytes(b)) => Ok(FvView::Blob(b@)),
            _ => Err(ConversionError::ShapeMismatch),
        },
        Type::Enum(variants) => match n {
            NativeValue::Variant { ordinal, fields } => if (ordinal as int) < variants@.len() {
                if spec_enum_is_primitive(variants@) {
                    if fields@.len() == 0 {
                        Ok(FvView::Ordinal(ordinal))
                    } else {
                        Err(ConversionError::WrongArity)
                    }
                } else {
                    match variants@[ordinal as int].variant {
                        EnumVariantType::Primitive => if fields@.len() == 0 {
                            Ok(FvView::Tagged { ordinal, fields: Seq::empty() })
                        } else {
                            Err(ConversionError::WrongArity)
                        },
                        EnumVariantType::Unnamed(ts) => if ts@.len() == fields@.len() {
                            match spec_convert_back_list(ts@, fields@) {
                                Ok(ws) => Ok(FvView::Tagged { ordinal, fields: ws }),
                                Err(e) => Err(e),
                            }
                        } else {
                            Err(ConversionError::WrongArity)
                        },
                        EnumVariantType::Named(fs) => if fs@.len() == fields@.len() {
                            match spec_convert_back_fields(fs@, fields@) {
                                Ok(ws) => Ok(FvView::Tagged { ordinal, fields: ws }),
                                Err(e) => Err(e),
                            }
                        } else {
                            Err(ConversionError::WrongArity)
                        },
                    }
                }
            } else {
                Err(ConversionError::OrdinalOutOfRange)
            },
            _ => Err(ConversionError::ShapeMismatch),
        },
        Type::Model(m) => match n {
            NativeValue::Record(fields) => if m.fields@.len() == fields@.len() {
                match spec_convert_back_fields(m.fields@, fields@) {
                    Ok(ws) => Ok(FvView::Object(ws)),
                    Err(e) => Err(e),
                }
            } else {
                Err(ConversionError::WrongArity)
            },
            _ => Err(ConversionError::ShapeMismatch),
        },
        Type::Class(_) => match n {
            NativeValue::Handle { tag, payload } => Ok(FvView::Handle { tag, payload }),
            _ => Err(ConversionError::ShapeMismatch),
        },
        Type::Interface(_) => match n {
            NativeValue::Handle { tag, payload } => Ok(FvView::Handle { tag, payload }),
            _ => Err(ConversionError::ShapeMismatch),
        },
        Type::Option(t) => match n {
            NativeValue::Absent => Ok(FvView::Nothing),
            NativeValue::Present(b) => spec_convert_back(*t, *b),
            _ => Err(ConversionError::ShapeMismatch),
        },
        Type::List(t) => match n {
            NativeValue::Items(xs) => match spec_convert_back_elems(*t, xs@) {
                Ok(ws) => Ok(FvView::Items(ws)),
                Err(e) => Err(e),
            },
            _ => Err(ConversionError::ShapeMismatch),
        },
        Type::Dict { key, value } => match n {
            NativeValue::Pairs(ps) => match spec_convert_back_pairs(*key, *value, ps@) {
                Ok(ws) => Ok(FvView::Pairs(ws)),
                Err(e) => Err(e),
            },
            _ => Err(ConversionError::ShapeMismatch),
        },
    }
}

/// Elementwise back-conversion of declared fields, first error wins.
pub open spec fn spec_convert_back_fields(fs: Seq<Field>, ns: Seq<NativeValue>) -> Result<
    Seq<FvView>,
    ConversionError,
>
    recommends
        fs.len() == ns.len(),
    decreases ns, fs,
{
    if ns.len() == 0 {
        Ok(Seq::empty())
    } else if fs.len() == 0 {
        Err(ConversionError::WrongArity)
    } else {
        match spec_convert_back(fs[0].ty, ns[0]) {
            Err(e) => Err(e),
            Ok(h) => match spec_convert_back_fields(fs.drop_first(), ns.drop_first()) {
                Err(e) => Err(e),
                Ok(t) => Ok(seq![h] + t),
            },
        }
    }
}

/// Elementwise back-conversion of a positional payload, first error wins.
pub open spec fn spec_convert_back_list(ts: Seq<Type>, ns: Seq<NativeValue>) -> Result<
    Seq<FvView>,
    ConversionError,
>
    recommends
        ts.len() == ns.len(),
    decreases ns, ts,
{
    if ns.len() == 0 {
        Ok(Seq::empty())
    } else if ts.len() == 0 {
        Err(ConversionError::WrongArity)
    } else {
        match spec_convert_back(ts[0], ns[0]) {
            Err(e) => Err(e),
            Ok(h) => match spec_convert_back_list(ts.drop_first(), ns.drop_first()) {
                Err(e) => Err(e),
                Ok(t) => Ok(seq![h] + t),
            },
        }
    }
}

/// Elementwise back-conversion of list elements, first error wins.
pub open spec fn spec_convert_back_elems(t: Type, ns: Seq<NativeValue>) -> Result<
    Seq<FvView>,
    ConversionError,
>
    decreases ns, t,
{
    if ns.len() == 0 {
        Ok(Seq::empty())
    } else {
        match spec_convert_back(t, ns[0]) {
            Err(e) => Err(e),
            Ok(h) => match spec_convert_back_elems(t, ns.drop_first()) {
                Err(e) => Err(e),
                Ok(tl) => Ok(seq![h] + tl),
            },
        }
    }
}

/// Pairwise back-conversion of map entries, key first, then value.
pub open spec fn spec_convert_back_pairs(kt: Type, vt: Type, ps: Seq<NativePair>) -> Result<
    Seq<(FvView, FvView)>,
    ConversionError,
>
    decreases ps, kt,
{
    if ps.len() == 0 {
        Ok(Seq::empty())
    } else {
        match spec_convert_back(kt, ps[0].key) {
            Err(e) => Err(e),
            Ok(kw) => match spec_convert_back(vt, ps[0].value) {
                Err(e) => Err(e),
                Ok(vw) => match spec_convert_back_pairs(kt, vt, ps.drop_first()) {
                    Err(e) => Err(e),
                    Ok(tl) => Ok(seq![(kw, vw)] + tl),
                },
            },
        }
    }
}

/// Whether an executable back-conversion result carries exactly the
/// shape the specification-level back-conversion prescribes.
pub open spec fn back_result_matches(
    r: Result<ForeignValue, ConversionError>,
    m: Result<FvView, ConversionError>,
) -> bool {
    match (r, m) {
        (Ok(v), Ok(w)) => fv_view(v) == w,
        (Err(a), Err(b)) => a == b,
        _ => false,
    }
}

/// As `back_result_matches`, for element lists.
pub open spec fn back_list_matches(
    r: Result<Vec<ForeignValue>, ConversionError>,
    m: Result<Seq<FvView>, ConversionError>,
) -> bool {
    match (r, m) {
        (Ok(v), Ok(w)) => fv_views(v@) == w,
        (Err(a), Err(b)) => a == b,
        _ => false,
    }
}

/// As `back_result_matches`, for pair lists.
pub open spec fn back_pairs_matches(
    r: Result<Vec<ForeignPair>, ConversionError>,
    m: Result<Seq<(FvView, FvView)>, ConversionError>,
) -> bool {
    match (r, m) {
        (Ok(v), Ok(w)) => fv_pair_views(v@) == w,
        (Err(a), Err(b)) => a == b,
        _ => false,
    }
}

/// Convert a native value to the foreign form the active runtime
/// expects, checking its shape against the declared type.
pub fn try_convert_back(ty: &Type, n: NativeValue, ctx: &ConvertCtx) -> (r: Result<
    ForeignValue,
    ConversionError,
>)
    ensures
        back_result_matches(r, spec_convert_back(*ty, n)),
    decreases n, ty,
{
    match ty {
        Type::Void => match n {
            NativeValue::Unit => Ok(ForeignValue::Nothing),
            _ => Err(ConversionError::ShapeMismatch),
        },
        Type::Primitive(k) => match n {
            NativeValue::Prim(p) => match try_convert_scalar_back(k, p, ctx) {
                Ok(s) => Ok(ForeignValue::Scalar(s)),
                Err(e) => Err(e),
            },
            _ => Err(ConversionError::ShapeMismatch),
        },
        Type::String => match n {
            NativeValue::Prim(p) => match p {
                PrimValue::Str(s) => Ok(ForeignValue::Scalar(ForeignScalar::Text(s))),
                _ => Err(ConversionError::ShapeMismatch),
            },
            _ => Err(ConversionError::ShapeMismatch),
        },
        Type::Bytes => match n {
            NativeValue::Prim(p) => match p {
                PrimValue::Bytes(b) => Ok(ForeignValue::Scalar(ForeignScalar::Blob(b))),
                _ => Err(ConversionError::ShapeMismatch),
            },
            _ => Err(ConversionError::ShapeMismatch),
        },
        Type::Enum(variants) => match n {
            NativeValue::Variant { ordinal, fields } => if (ordinal as usize) < variants.len() {
                if enum_is_primitive(variants) {
                    if fields.len() == 0 {
                        Ok(ForeignValue::Ordinal(ordinal))
                    } else {
                        Err(ConversionError::WrongArity)
                    }
                } else {
                    match &variants[ordinal as usize].variant {
                        EnumVariantType::Primitive => if fields.len() == 0 {
                            proof {
                                assert(fv_views(Seq::<ForeignValue>::empty()) == Seq::<
                                    FvView,
                                >::empty());
                            }
                            Ok(ForeignValue::Tagged { ordinal, fields: Vec::new() })
                        } else {
                            Err(ConversionError::WrongArity)
                        },
                        EnumVariantType::Unnamed(ts) => if ts.len() == fields.len() {
                            proof {
                                assert(ts@.skip(0) =~= ts@);
                            }
                            match try_convert_back_list(ts, 0, fields, ctx) {
                                Ok(ws) => Ok(ForeignValue::Tagged { ordinal, fields: ws }),
                                Err(e) => Err(e),
                            }
                        } else {
                            Err(ConversionError::WrongArity)
                        },
                        EnumVariantType::Named(fs) => if fs.len() == fields.len() {
                            proof {
                                assert(fs@.skip(0) =~= fs@);
                            }
                            match try_convert_back_fields(fs, 0, fields, ctx) {
                                Ok(ws) => Ok(ForeignValue::Tagged { ordinal, fields: ws }),
                                Err(e) => Err(e),
                            }
                        } else {
                            Err(ConversionError::WrongArity)
                        },
                    }
                }
            } else {
                Err(ConversionError::OrdinalOutOfRange)
            },
            _ => Err(ConversionError::ShapeMismatch),
        },
        Type::Model(m) => match n {
            NativeValue::Record(fields) => if m.fields.len() == fields.len() {
                proof {
                    assert(m.fields@.skip(0) =~= m.fields@);
                }
                match try_convert_back_fields(&m.fields, 0, fields, ctx) {
                    Ok(ws) => Ok(ForeignValue::Object(ws)),
                    Err(e) => Err(e),
                }
            } else {
                Err(ConversionError::WrongArity)
            },
            _ => Err(ConversionError::ShapeMismatch),
        },
        Type::Class(_) => match n {
            NativeValue::Handle { tag, payload } => Ok(ForeignValue::Handle { tag, payload }),
            _ => Err(ConversionError::ShapeMismatch),
        },
        Type::Interface(_) => match n {
            NativeValue::Handle { tag, payload } => Ok(ForeignValue::Handle { tag, payload }),
            _ => Err(ConversionError::ShapeMismatch),
        },
        Type::Option(t) => match n {
            NativeValue::Absent => Ok(ForeignValue::Nothing),
            NativeValue::Present(b) => try_convert_back(t, *b, ctx),
            _ => Err(ConversionError::ShapeMismatch),
        },
        Type::List(t) => match n {
            NativeValue::Items(xs) => match try_convert_back_elems(t, xs, ctx) {
                Ok(ws) => Ok(ForeignValue::Items(ws)),
                Err(e) => Err(e),
            },
            _ => Err(ConversionError::ShapeMismatch),
        },
        Type::Dict { key, value } => match n {
            NativeValue::Pairs(ps) => match try_convert_back_pairs(key, value, ps, ctx) {
                Ok(ws) => Ok(ForeignValue::Pairs(ws)),
                Err(e) => Err(e),
            },
            _ => Err(ConversionError::ShapeMismatch),
        },
    }
}

/// Back-convert the remaining values of a field list, beginning at field
/// `i`.
fn try_convert_back_fields(fs: &Vec<Field>, i: usize, ns: Vec<NativeValue>, ctx: &ConvertCtx) -> (r:
    Result<Vec<ForeignValue>, ConversionError>)
    requires
        i + ns@.len() == fs@.len(),
    ensures
        back_list_matches(r, spec_convert_back_fields(fs@.skip(i as int), ns@)),
    decreases ns@, fs,
{
    let mut ns = ns;
    if ns.len() == 0 {
        Ok(Vec::new())
    } else {
        let flen: usize = fs.len();
        let ghost ns0 = ns@;
        let head = ns.remove(0);
        proof {
            assert(i + 1 <= flen);
            assert(ns@ =~= ns0.drop_first());
            assert(fs@.skip(i as int)[0] == fs@[i as int]);
            assert(fs@.skip(i as int).drop_first() =~= fs@.skip(i as int + 1));
        }
        match try_convert_back(&fs[i].ty, head, ctx) {
            Err(e) => Err(e),
            Ok(h) => match try_convert_back_fields(fs, i + 1, ns, ctx) {
                Err(e) => Err(e),
                Ok(t) => {
                    let mut t = t;
                    let ghost t0 = t@;
                    t.insert(0, h);
                    proof {
                        assert(t@[0] == h);
                        assert(t@.drop_first() =~= t0);
                    }
                    Ok(t)
                },
            },
        }
    }
}

/// Back-convert the remaining values of a positional payload, beginning
/// at type `i`.
fn try_convert_back_list(ts: &Vec<Type>, i: usize, ns: Vec<NativeValue>, ctx: &ConvertCtx) -> (r:
    Result<Vec<ForeignValue>, ConversionError>)
    requires
        i + ns@.len() == ts@.len(),
    ensures
        back_list_matches(r, spec_convert_back_list(ts@.skip(i as int), ns@)),
    decreases ns@, ts,
{
    let mut ns = ns;
    if ns.len() == 0 {
        Ok(Vec::new())
    } else {
        let tlen: usize = ts.len();
        let ghost ns0 = ns@;
        let head = ns.remove(0);
        proof {
            assert(i + 1 <= tlen);
            assert(ns@ =~= ns0.drop_first());
            assert(ts@.skip(i as int)[0] == ts@[i as int]);
            assert(ts@.skip(i as int).drop_first() =~= ts@.skip(i as int + 1));
        }
        match try_convert_back(&ts[i], head, ctx) {
            Err(e) => Err(e),
            Ok(h) => match try_convert_back_list(ts, i + 1, ns, ctx) {
                Err(e) => Err(e),
                Ok(t) => {
                    let mut t = t;
                    let ghost t0 = t@;
                    t.insert(0, h);
                    proof {
                        assert(t@[0] == h);
                        assert(t@.drop_first() =~= t0);
                    }
                    Ok(t)
                },
            },
        }
    }
}

/// Back-convert every element of a list value.
fn try_convert_back_elems(t: &Type, ns: Vec<NativeValue>, ctx: &ConvertCtx) -> (r: Result<
    Vec<ForeignValue>,
    ConversionError,
>)
    ensures
        back_list_matches(r, spec_convert_back_elems(*t, ns@)),
    decreases ns@, t,
{
    let mut ns = ns;
    if ns.len() == 0 {
        Ok(Vec::new())
    } else {
        let ghost ns0 = ns@;
        let head = ns.remove(0);
        proof {
            assert(ns@ =~= ns0.drop_first());
        }
        match try_convert_back(t, head, ctx) {
            Err(e) => Err(e),
            Ok(h) => match try_convert_back_elems(t, ns, ctx) {
                Err(e) => Err(e),
                Ok(tl) => {
                    let mut tl = tl;
                    let ghost t0 = tl@;
                    tl.insert(0, h);
                    proof {
                        assert(tl@[0] == h);
                        assert(tl@.drop_first() =~= t0);
                    }
                    Ok(tl)
                },
            },
        }
    }
}

/// Back-convert every entry of a map value, key first, then value.
fn try_convert_back_pairs(
    kt: &Type,
    vt: &Type,
    ps: Vec<NativePair>,
    ctx: &ConvertCtx,
) -> (r: Result<Vec<ForeignPair>, ConversionError>)
    ensures
        back_pairs_matches(r, spec_convert_back_pairs(*kt, *vt, ps@)),
    decreases ps@, kt,
{
    let mut ps = ps;
    if ps.len() == 0 {
        Ok(Vec::new())
    } else {
        let ghost ps0 = ps@;
        let head = ps.remove(0);
        proof {
            assert(ps@ =~= ps0.drop_first());
        }
        let NativePair { key, value } = head;
        match try_convert_back(kt, key, ctx) {
            Err(e) => Err(e),
            Ok(kw) => match try_convert_back(vt, value, ctx) {
                Err(e) => Err(e),
                Ok(vw) => match try_convert_back_pairs(kt, vt, ps, ctx) {
                    Err(e) => Err(e),
                    Ok(tl) => {
                        let mut tl = tl;
                        let ghost t0 = tl@;
                        tl.insert(0, ForeignPair { key: kw, value: vw });
                        proof {
                            assert(tl@[0] == ForeignPair { key: kw, value: vw });
                            assert(tl@.drop_first() =~= t0);
                        }
                        Ok(tl)
                    },
                },
            },
        }
    }
}


/// A native primitive's shape is always a scalar shape.
proof fn lemma_prim_view_shape(p: PrimValue)
    ensures
        prim_view(p) is I8 || prim_view(p) is I16 || prim_view(p) is I32 || prim_view(p) is I64
            || prim_view(p) is U8 || prim_view(p) is U16 || prim_view(p) is U32 || prim_view(p)
            is U64 || prim_view(p) is Bool || prim_view(p) is F32Bits || prim_view(p) is F64Bits
            || prim_view(p) is Str || prim_view(p) is Bytes,
{
}

/// A value list and its shapes have the same length.
proof fn lemma_nv_views_len(s: Seq<NativeValue>)
    ensures
        nv_views(s).len() == s.len(),
    decreases s,
{
    if s.len() != 0 {
        lemma_nv_views_len(s.drop_first());
    }
}

/// A pair list and its shapes have the same length.
proof fn lemma_nv_pair_views_len(s: Seq<NativePair>)
    ensures
        nv_pair_views(s).len() == s.len(),
    decreases s,
{
    if s.len() != 0 {
        lemma_nv_pair_views_len(s.drop_first());
    }
}


/// A successful field conversion yields one shape per value.
proof fn lemma_convert_fields_ok_len(fs: Seq<Field>, vs: Seq<ForeignValue>)
    requires
        spec_convert_fields(fs, vs) is Ok,
    ensures
        spec_convert_fields(fs, vs)->Ok_0.len() == vs.len(),
    decreases vs,
{
    if vs.len() == 0 {
    } else if fs.len() == 0 {
    } else {
        match spec_convert_fields(fs.drop_first(), vs.drop_first()) {
            Ok(_) => {
                lemma_convert_fields_ok_len(fs.drop_first(), vs.drop_first());
            },
            Err(_) => {},
        }
    }
}

/// A successful positional conversion yields one shape per value.
proof fn lemma_convert_list_ok_len(ts: Seq<Type>, vs: Seq<ForeignValue>)
    requires
        spec_convert_list(ts, vs) is Ok,
    ensures
        spec_convert_list(ts, vs)->Ok_0.len() == vs.len(),
    decreases vs,
{
    if vs.len() == 0 {
    } else if ts.len() == 0 {
    } else {
        match spec_convert_list(ts.drop_first(), vs.drop_first()) {
            Ok(_) => {
                lemma_convert_list_ok_len(ts.drop_first(), vs.drop_first());
            },
            Err(_) => {},
        }
    }
}

/// A successful element conversion yields one shape per element.
proof fn lemma_convert_elems_ok_len(t: Type, vs: Seq<ForeignValue>)
    requires
        spec_convert_elems(t, vs) is Ok,
    ensures
        spec_convert_elems(t, vs)->Ok_0.len() == vs.len(),
    decreases vs,
{
    if vs.len() == 0 {
    } else {
        match spec_convert_elems(t, vs.drop_first()) {
            Ok(_) => {
                lemma_convert_elems_ok_len(t, vs.drop_first());
            },
            Err(_) => {},
        }
    }
}

/// A successful pair conversion yields one shape pair per entry.
proof fn lemma_convert_pairs_ok_len(kt: Type, vt: Type, ps: Seq<ForeignPair>)
    requires
        spec_convert_pairs(kt, vt, ps) is Ok,
    ensures
        spec_convert_pairs(kt, vt, ps)->Ok_0.len() == ps.len(),
    decreases ps,
{
    if ps.len() == 0 {
    } else {
        match spec_convert_pairs(kt, vt, ps.drop_first()) {
            Ok(_) => {
                lemma_convert_pairs_ok_len(kt, vt, ps.drop_first());
            },
            Err(_) => {},
        }
    }
}

/// Law: conversion composes into the identity. Converting a foreign
/// value to any native value of the prescribed shape and converting that
/// native value back restores the original foreign value's shape — for
/// every type in the vocabulary, to any container depth.
pub proof fn lemma_convert_round_trip(ty: Type, v: ForeignValue, n: NativeValue)
    requires
        spec_convert(ty, v) == Ok::<NvView, ConversionError>(nv_view(n)),
    ensures
        spec_convert_back(ty, n) == Ok::<FvView, ConversionError>(fv_view(v)),
    decreases v, ty, 1nat,
{
    match ty {
        Type::Void => {
            match n {
                NativeValue::Unit => {},
                NativeValue::Prim(p) => {
                    lemma_prim_view_shape(p);
                },
                _ => {},
            }
        },
        Type::Primitive(k) => {
            match v {
                ForeignValue::Scalar(s) => {
                    match n {
                        NativeValue::Prim(p) => {
                            lemma_scalar_round_trip(k, s);
                        },
                        _ => {},
                    }
                },
                _ => {},
            }
        },
        Type::String => {
            match n {
                NativeValue::Prim(p) => {},
                _ => {},
            }
        },
        Type::Bytes => {
            match n {
                NativeValue::Prim(p) => {},
                _ => {},
            }
        },
        Type::Enum(variants) => {
            lemma_enum_round_trip(variants, v, n);
        },
        Type::Model(m) => {
            match v {
                ForeignValue::Object(fields) => {
                    match n {
                        NativeValue::Record(ns) => {
                            match spec_convert_fields(m.fields@, fields@) {
                                Ok(ws) => {
                                    assert(ws == nv_views(ns@));
                                    lemma_nv_views_len(ns@);
                                    lemma_convert_fields_ok_len(m.fields@, fields@);
                                    lemma_fields_round_trip(m.fields@, fields@, ns@);
                                },
                                Err(_) => {},
                            }
                        },
                        NativeValue::Prim(p) => {
                            lemma_prim_view_shape(p);
                        },
                        _ => {},
                    }
                },
                _ => {},
            }
        },
        Type::Class(_) => {
            match n {
                NativeValue::Prim(p) => {
                    lemma_prim_view_shape(p);
                },
                _ => {},
            }
        },
        Type::Interface(_) => {
            match n {
                NativeValue::Prim(p) => {
                    lemma_prim_view_shape(p);
                },
                _ => {},
            }
        },
        Type::Option(t) => {
            if v is Nothing {
                match n {
                    NativeValue::Prim(p) => {
                        lemma_prim_view_shape(p);
                    },
                    _ => {},
                }
            } else {
                match spec_convert(*t, v) {
                    Ok(w1) => {
                        match n {
                            NativeValue::Present(b) => {
                                lemma_convert_round_trip(*t, v, *b);
                            },
                            NativeValue::Prim(p) => {
                                lemma_prim_view_shape(p);
                            },
                            _ => {},
                        }
                    },
                    Err(_) => {},
                }
            }
        },
        Type::List(t) => {
            match v {
                ForeignValue::Items(xs) => {
                    match n {
                        NativeValue::Items(ns) => {
                            match spec_convert_elems(*t, xs@) {
                                Ok(ws) => {
                                    lemma_nv_views_len(ns@);
                                    lemma_convert_elems_ok_len(*t, xs@);
                                    lemma_elems_round_trip(*t, xs@, ns@);
                                },
                                Err(_) => {},
                            }
                        },
                        NativeValue::Prim(p) => {
                            lemma_prim_view_shape(p);
                        },
                        _ => {},
                    }
                },
                _ => {},
            }
        },
        Type::Dict { key, value } => {
            match v {
                ForeignValue::Pairs(ps) => {
                    match n {
                        NativeValue::Pairs(ns) => {
                            match spec_convert_pairs(*key, *value, ps@) {
                                Ok(ws) => {
                                    lemma_nv_pair_views_len(ns@);
                                    lemma_convert_pairs_ok_len(*key, *value, ps@);
                                    lemma_pairs_round_trip(*key, *value, ps@, ns@);
                                },
                                Err(_) => {},
                            }
                        },
                        NativeValue::Prim(p) => {
                            lemma_prim_view_shape(p);
                        },
                        _ => {},
                    }
                },
                _ => {},
            }
        },
    }
}

/// Round trip of an enum value, primitive or composite.
proof fn lemma_enum_round_trip(variants: Vec<EnumVariant>, v: ForeignValue, n: NativeValue)
    requires
        spec_convert(Type::Enum(variants), v) == Ok::<NvView, ConversionError>(nv_view(n)),
    ensures
        spec_convert_back(Type::Enum(variants), n) == Ok::<FvView, ConversionError>(fv_view(v)),
    decreases v, Type::Enum(variants), 0nat,
{
    if spec_enum_is_primitive(variants@) {
        match v {
            ForeignValue::Ordinal(n0) => {
                match n {
                    NativeValue::Variant { ordinal, fields } => {
                        lemma_nv_views_len(fields@);
                    },
                    NativeValue::Prim(p) => {
                        lemma_prim_view_shape(p);
                    },
                    _ => {},
                }
            },
            _ => {},
        }
    } else {
        match v {
            ForeignValue::Tagged { ordinal, fields } => {
                if (ordinal as int) < variants@.len() {
                    match n {
                        NativeValue::Variant { ordinal: no, fields: ns } => {
                            lemma_nv_views_len(ns@);
                            match variants@[ordinal as int].variant {
                                EnumVariantType::Primitive => {},
                                EnumVariantType::Unnamed(ts) => {
                                    match spec_convert_list(ts@, fields@) {
                                        Ok(ws) => {
                                            lemma_convert_list_ok_len(ts@, fields@);
                                            lemma_list_round_trip(ts@, fields@, ns@);
                                        },
                                        Err(_) => {},
                                    }
                                },
                                EnumVariantType::Named(fs) => {
                                    match spec_convert_fields(fs@, fields@) {
                                        Ok(ws) => {
                                            lemma_convert_fields_ok_len(fs@, fields@);
                                            lemma_fields_round_trip(fs@, fields@, ns@);
                                        },
                                        Err(_) => {},
                                    }
                                },
                            }
                        },
                        NativeValue::Prim(p) => {
                            lemma_prim_view_shape(p);
                        },
                        _ => {},
                    }
                }
            },
            _ => {},
        }
    }
}

/// Elementwise round trip of a field list.
proof fn lemma_fields_round_trip(fs: Seq<Field>, vs: Seq<ForeignValue>, ns: Seq<NativeValue>)
    requires
        spec_convert_fields(fs, vs) == Ok::<Seq<NvView>, ConversionError>(nv_views(ns)),
    ensures
        spec_convert_back_fields(fs, ns) == Ok::<Seq<FvView>, ConversionError>(fv_views(vs)),
    decreases vs, fs, 0nat,
{
    lemma_nv_views_len(ns);
    if vs.len() == 0 {
        assert(ns.len() == 0);
    } else if fs.len() == 0 {
    } else {
        match spec_convert(fs[0].ty, vs[0]) {
            Err(_) => {},
            Ok(h) => {
                match spec_convert_fields(fs.drop_first(), vs.drop_first()) {
                    Err(_) => {},
                    Ok(t) => {
                        assert(ns.len() != 0);
                        assert((seq![h] + t)[0] == h);
                        assert((seq![h] + t).drop_first() =~= t);
                        assert(nv_views(ns)[0] == nv_view(ns[0]));
                        assert(nv_views(ns).drop_first() =~= nv_views(ns.drop_first()));
                        assert(h == nv_view(ns[0]));
                        assert(t == nv_views(ns.drop_first()));
                        lemma_convert_round_trip(fs[0].ty, vs[0], ns[0]);
                        lemma_fields_round_trip(fs.drop_first(), vs.drop_first(), ns.drop_first());
                        assert(spec_convert_back_fields(fs, ns) == Ok::<
                            Seq<FvView>,
                            ConversionError,
                        >(seq![fv_view(vs[0])] + fv_views(vs.drop_first())));
                        assert(fv_views(vs) == seq![fv_view(vs[0])] + fv_views(vs.drop_first()));
                    },
                }
            },
        }
    }
}

/// Elementwise round trip of a positional payload.
proof fn lemma_list_round_trip(ts: Seq<Type>, vs: Seq<ForeignValue>, ns: Seq<NativeValue>)
    requires
        spec_convert_list(ts, vs) == Ok::<Seq<NvView>, ConversionError>(nv_views(ns)),
    ensures
        spec_convert_back_list(ts, ns) == Ok::<Seq<FvView>, ConversionError>(fv_views(vs)),
    decreases vs, ts, 0nat,
{
    lemma_nv_views_len(ns);
    if vs.len() == 0 {
        assert(ns.len() == 0);
    } else if ts.len() == 0 {
    } else {
        match spec_convert(ts[0], vs[0]) {
            Err(_) => {},
            Ok(h) => {
                match spec_convert_list(ts.drop_first(), vs.drop_first()) {
                    Err(_) => {},
                    Ok(t) => {
                        assert(ns.len() != 0);
                        assert((seq![h] + t)[0] == h);
                        assert((seq![h] + t).drop_first() =~= t);
                        assert(nv_views(ns)[0] == nv_view(ns[0]));
                        assert(nv_views(ns).drop_first() =~= nv_views(ns.drop_first()));
                        lemma_convert_round_trip(ts[0], vs[0], ns[0]);
                        lemma_list_round_trip(ts.drop_first(), vs.drop_first(), ns.drop_first());
                        assert(spec_convert_back_list(ts, ns) == Ok::<
                            Seq<FvView>,
                            ConversionError,
                        >(seq![fv_view(vs[0])] + fv_views(vs.drop_first())));
                        assert(fv_views(vs) == seq![fv_view(vs[0])] + fv_views(vs.drop_first()));
                    },
                }
            },
        }
    }
}

/// Elementwise round trip of list elements.
proof fn lemma_elems_round_trip(t: Type, vs: Seq<ForeignValue>, ns: Seq<NativeValue>)
    requires
        spec_convert_elems(t, vs) == Ok::<Seq<NvView>, ConversionError>(nv_views(ns)),
    ensures
        spec_convert_back_elems(t, ns) == Ok::<Seq<FvView>, ConversionError>(fv_views(vs)),
    decreases vs, t, 0nat,
{
    lemma_nv_views_len(ns);
    if vs.len() == 0 {
        assert(ns.len() == 0);
    } else {
        match spec_convert(t, vs[0]) {
            Err(_) => {},
            Ok(h) => {
                match spec_convert_elems(t, vs.drop_first()) {
                    Err(_) => {},
                    Ok(tl) => {
                        assert(ns.len() != 0);
                        assert((seq![h] + tl)[0] == h);
                        assert((seq![h] + tl).drop_first() =~= tl);
                        assert(nv_views(ns)[0] == nv_view(ns[0]));
                        assert(nv_views(ns).drop_first() =~= nv_views(ns.drop_first()));
                        lemma_convert_round_trip(t, vs[0], ns[0]);
                        lemma_elems_round_trip(t, vs.drop_first(), ns.drop_first());
                        assert(spec_convert_back_elems(t, ns) == Ok::<
                            Seq<FvView>,
                            ConversionError,
                        >(seq![fv_view(vs[0])] + fv_views(vs.drop_first())));
                        assert(fv_views(vs) == seq![fv_view(vs[0])] + fv_views(vs.drop_first()));
                    },
                }
            },
        }
    }
}

/// Pairwise round trip of map entries.
proof fn lemma_pairs_round_trip(kt: Type, vt: Type, ps: Seq<ForeignPair>, ns: Seq<NativePair>)
    requires
        spec_convert_pairs(kt, vt, ps) == Ok::<Seq<(NvView, NvView)>, ConversionError>(
            nv_pair_views(ns),
        ),
    ensures
        spec_convert_back_pairs(kt, vt, ns) == Ok::<Seq<(FvView, FvView)>, ConversionError>(
            fv_pair_views(ps),
        ),
    decreases ps, kt, 0nat,
{
    lemma_nv_pair_views_len(ns);
    if ps.len() == 0 {
        assert(ns.len() == 0);
    } else {
        match spec_convert(kt, ps[0].key) {
            Err(_) => {},
            Ok(kw) => {
                match spec_convert(vt, ps[0].value) {
                    Err(_) => {},
                    Ok(vw) => {
                        match spec_convert_pairs(kt, vt, ps.drop_first()) {
                            Err(_) => {},
                            Ok(tl) => {
                                assert(ns.len() != 0);
                                assert((seq![(kw, vw)] + tl)[0] == (kw, vw));
                                assert((seq![(kw, vw)] + tl).drop_first() =~= tl);
                                assert(nv_pair_views(ns)[0] == (
                                    nv_view(ns[0].key),
                                    nv_view(ns[0].value),
                                ));
                                assert(nv_pair_views(ns).drop_first() =~= nv_pair_views(
                                    ns.drop_first(),
                                ));
                                lemma_convert_round_trip(kt, ps[0].key, ns[0].key);
                                lemma_convert_round_trip(vt, ps[0].value, ns[0].value);
                                lemma_pairs_round_trip(kt, vt, ps.drop_first(), ns.drop_first());
                                assert(spec_convert_back_pairs(kt, vt, ns) == Ok::<
                                    Seq<(FvView, FvView)>,
                                    ConversionError,
                                >(
                                    seq![(fv_view(ps[0].key), fv_view(ps[0].value))]
                                        + fv_pair_views(ps.drop_first()),
                                ));
                                assert(fv_pair_views(ps) == seq![
                                    (fv_view(ps[0].key), fv_view(ps[0].value)),
                                ] + fv_pair_views(ps.drop_first()));
                            },
                        }
                    },
                }
            },
        }
    }
}

} // verus!
