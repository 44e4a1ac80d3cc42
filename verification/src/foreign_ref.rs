//! Type-tagged foreign references and per-runtime dispatch tables.
//!
//! An `FfiRef` bridges one object between native and foreign ownership:
//! an optional opaque payload (absent means "no object" — never a null
//! pointer of unknown type), a type tag checked before any downcast, and
//! the dispatch table of its declared type for the active runtime kind.
//! Construction, destruction and method invocation are decided here and
//! returned as explicit [`ForeignOp`] values; the embedding shell performs
//! the actual foreign call. The payload has exactly one logical owner:
//! destruction surrenders it, so a second destruction — or any use of an
//! empty handle — is rejected instead of reaching the foreign runtime.

use vstd::prelude::*;

use crate::convert::{
    ConversionError, ConvertCtx, ForeignValue, NativeValue, nv_views, spec_convert_list,
};
use crate::runtime::Language;
use crate::types::{Class, Interface, Model, Type};

verus! {

/// Failures of foreign-reference operations.
#[derive(Clone, Copy, Debug, PartialEq, Eq, Structural)]
pub enum FfiError {
    /// The handle's type tag does not match the statically expected type.
    TypeMismatch,
    /// The operation needs an object, but the handle holds none.
    NullReference,
    /// The dispatch table has no entry for the requested operation.
    MissingOperation,
}

/// One operation the embedding shell must perform against the foreign
/// runtime; handles and targets are opaque to this layer.
#[derive(Clone, Copy, Debug, PartialEq, Eq, Structural)]
pub enum ForeignOp {
    /// Run the constructor behind `handle`.
    Construct { handle: u64 },
    /// Run the destructor behind `handle` on the object `target`.
    Destroy { handle: u64, target: u64 },
    /// Invoke the method behind `handle` on the object `target`.
    Invoke { handle: u64, target: u64 },
}

/// Per-runtime-kind dispatch table of a declared type: an optional
/// constructor, an optional destructor, and a mapping from a stable
/// per-method ordinal to an opaque invocation handle. A table is immutable
/// once built and shared by every reference of the same type and kind.
pub struct FfiRefVTable {
    pub kind: Language,
    pub ctor: Option<u64>,
    pub dtor: Option<u64>,
    pub methods: Vec<(u32, u64)>,
}

impl Default for FfiRefVTable {
    /// An empty native-kind table: no constructor, no destructor, no
    /// methods.
    fn default() -> (r: FfiRefVTable)
        ensures
            r.kind == Language::C,
            r.ctor is None,
            r.dtor is None,
            r.methods@ =~= Seq::<(u32, u64)>::empty(),
    {
        FfiRefVTable { kind: Language::C, ctor: None, dtor: None, methods: Vec::new() }
    }
}

/// The invocation handle the table maps `ordinal` to, first match wins.
pub open spec fn spec_method_lookup(methods: Seq<(u32, u64)>, ordinal: u32) -> Option<u64>
    decreases methods.len(),
{
    if methods.len() == 0 {
        None
    } else if methods[0].0 == ordinal {
        Some(methods[0].1)
    } else {
        spec_method_lookup(methods.drop_first(), ordinal)
    }
}

impl FfiRefVTable {
    /// Look up the invocation handle registered for a method ordinal.
    pub fn method(&self, ordinal: u32) -> (r: Option<u64>)
        ensures
            r == spec_method_lookup(self.methods@, ordinal),
    {
        let ghost s = self.methods@;
        proof {
            assert(s.skip(0) =~= s);
        }
        let mut i: usize = 0;
        while i < self.methods.len()
            invariant
                i <= self.methods.len(),
                s == self.methods@,
                spec_method_lookup(s, ordinal) == spec_method_lookup(s.skip(i as int), ordinal),
            decreases self.methods.len() - i,
        {
            proof {
                assert(s.skip(i as int)[0] == s[i as int]);
                assert(s.skip(i as int).drop_first() =~= s.skip(i as int + 1));
            }
            if self.methods[i].0 == ordinal {
                return Some(self.methods[i].1);
            }
            i += 1;
        }
        proof {
            assert(s.skip(i as int).len() == 0);
        }
        None
    }
}

/// Native types that can stand behind a foreign reference carry a stable,
/// process-wide type tag used for checked downcasting.
pub trait SlimeType {
    /// The type tag, at the specification level.
    spec fn spec_type_tag() -> u64;

    /// Report the type tag.
    fn type_tag() -> (t: u64)
        ensures
            t == Self::spec_type_tag(),
    ;
}

impl SlimeType for Model {
    open spec fn spec_type_tag() -> u64 {
        1
    }

    fn type_tag() -> (t: u64) {
        1
    }
}

impl SlimeType for Class {
    open spec fn spec_type_tag() -> u64 {
        2
    }

    fn type_tag() -> (t: u64) {
        2
    }
}

impl SlimeType for Interface {
    open spec fn spec_type_tag() -> u64 {
        3
    }

    fn type_tag() -> (t: u64) {
        3
    }
}

/// The type tag of `T`, as generated glue asks for it.
pub fn ref_ty<T: SlimeType>() -> (t: u64)
    ensures
        t == T::spec_type_tag(),
{
    T::type_tag()
}

/// An opaque, type-tagged handle to one object bridged between native and
/// foreign ownership.
pub struct FfiRef {
    /// The opaque payload; `None` is the canonical "no object" sentinel.
    pub inner_ref: Option<u64>,
    /// The type tag checked before a downcast.
    pub type_id: u64,
    /// The dispatch table of the declared type for the active runtime.
    pub vtable: FfiRefVTable,
}

/// Whether `r` is the canonical empty handle of type `T`: no payload, the
/// tag of `T`, and the empty native-kind dispatch table.
pub open spec fn is_none_ref<T: SlimeType>(r: FfiRef) -> bool {
    &&& r.inner_ref is None
    &&& r.type_id == T::spec_type_tag()
    &&& r.vtable.kind == Language::C
    &&& r.vtable.ctor is None
    &&& r.vtable.dtor is None
    &&& r.vtable.methods@ == Seq::<(u32, u64)>::empty()
}

/// Downcast decision, at the specification level: the handle itself when
/// its tag matches the expected type, `TypeMismatch` otherwise.
pub open spec fn spec_downcast<T: SlimeType>(v: FfiRef) -> Result<FfiRef, FfiError> {
    if v.type_id == T::spec_type_tag() {
        Ok(v)
    } else {
        Err(FfiError::TypeMismatch)
    }
}

impl FfiRef {
    /// The canonical "no object" handle for `T`: empty, but correctly
    /// type-tagged, so a downcast can still be checked.
    pub fn none<T: SlimeType>() -> (r: FfiRef)
        ensures
            is_none_ref::<T>(r),
    {
        FfiRef { inner_ref: None, type_id: T::type_tag(), vtable: FfiRefVTable::default() }
    }

    /// Decide the constructor call for a declared type: the table's
    /// constructor handle, or `MissingOperation` when the type declares
    /// none.
    pub fn begin_construct(vtable: &FfiRefVTable) -> (r: Result<ForeignOp, FfiError>)
        ensures
            match vtable.ctor {
                Some(h) => r == Ok::<ForeignOp, FfiError>(ForeignOp::Construct { handle: h }),
                None => r == Err::<ForeignOp, FfiError>(FfiError::MissingOperation),
            },
    {
        match vtable.ctor {
            Some(h) => Ok(ForeignOp::Construct { handle: h }),
            None => Err(FfiError::MissingOperation),
        }
    }

    /// Adopt the object a constructor produced: a live, type-tagged
    /// reference owning `payload`.
    pub fn construct(type_id: u64, vtable: FfiRefVTable, payload: u64) -> (r: FfiRef)
        ensures
            r.inner_ref == Some(payload),
            r.type_id == type_id,
            r.vtable == vtable,
    {
        FfiRef { inner_ref: Some(payload), type_id, vtable }
    }

    /// Decide the destructor call and give up ownership of the payload.
    ///
    /// Succeeds at most once per handle: the payload leaves the handle, so
    /// a second call — like any call on an empty handle — is rejected with
    /// `NullReference` before any foreign call is attempted. A handle
    /// whose table declares no destructor keeps its payload and reports
    /// `MissingOperation`.
    pub fn destruct(&mut self) -> (r: Result<ForeignOp, FfiError>)
        ensures
            match old(self).inner_ref {
                None => {
                    &&& r == Err::<ForeignOp, FfiError>(FfiError::NullReference)
                    &&& *final(self) == *old(self)
                },
                Some(p) => match old(self).vtable.dtor {
                    Some(h) => {
                        &&& r == Ok::<ForeignOp, FfiError>(ForeignOp::Destroy { handle: h, target: p })
                        &&& final(self).inner_ref is None
                        &&& final(self).type_id == old(self).type_id
                        &&& final(self).vtable == old(self).vtable
                    },
                    None => {
                        &&& r == Err::<ForeignOp, FfiError>(FfiError::MissingOperation)
                        &&& *final(self) == *old(self)
                    },
                },
            },
    {
        match self.inner_ref {
            None => Err(FfiError::NullReference),
            Some(p) => match self.vtable.dtor {
                Some(h) => {
                    self.inner_ref = None;
                    Ok(ForeignOp::Destroy { handle: h, target: p })
                },
                None => Err(FfiError::MissingOperation),
            },
        }
    }

    /// Decide a virtual method call: reject empty handles with
    /// `NullReference`, then look the ordinal up in the dispatch table.
    pub fn invoke(&self, ordinal: u32) -> (r: Result<ForeignOp, FfiError>)
        ensures
            match self.inner_ref {
                None => r == Err::<ForeignOp, FfiError>(FfiError::NullReference),
                Some(p) => match spec_method_lookup(self.vtable.methods@, ordinal) {
                    Some(h) => r == Ok::<ForeignOp, FfiError>(
                        ForeignOp::Invoke { handle: h, target: p },
                    ),
                    None => r == Err::<ForeignOp, FfiError>(FfiError::MissingOperation),
                },
            },
    {
        match self.inner_ref {
            None => Err(FfiError::NullReference),
            Some(p) => match self.vtable.method(ordinal) {
                Some(h) => Ok(ForeignOp::Invoke { handle: h, target: p }),
                None => Err(FfiError::MissingOperation),
            },
        }
    }
}

/// Failures of a marshalled method call: either the dispatch decision
/// failed, or an argument did not convert.
#[derive(Clone, Copy, Debug, PartialEq, Eq, Structural)]
pub enum InvokeError {
    Dispatch(FfiError),
    Marshal(ConversionError),
}

/// Decide a virtual method call and marshal its arguments: the ordinal
/// is looked up in the dispatch table, and each argument runs through
/// the conversion protocol against its declared parameter type. The
/// embedding shell performs the returned operation with the converted
/// arguments.
pub fn invoke_marshalled(
    r: &FfiRef,
    ordinal: u32,
    param_tys: &Vec<Type>,
    args: Vec<ForeignValue>,
    ctx: &ConvertCtx,
) -> (res: Result<(ForeignOp, Vec<NativeValue>), InvokeError>)
    ensures
        match r.inner_ref {
            None => res == Err::<(ForeignOp, Vec<NativeValue>), InvokeError>(
                InvokeError::Dispatch(FfiError::NullReference),
            ),
            Some(p) => match spec_method_lookup(r.vtable.methods@, ordinal) {
                None => res == Err::<(ForeignOp, Vec<NativeValue>), InvokeError>(
                    InvokeError::Dispatch(FfiError::MissingOperation),
                ),
                Some(h) => {
                    if param_tys@.len() != args@.len() {
                        res == Err::<(ForeignOp, Vec<NativeValue>), InvokeError>(
                            InvokeError::Marshal(ConversionError::WrongArity),
                        )
                    } else {
                        match spec_convert_list(param_tys@, args@) {
                            Ok(ws) => res matches Ok(out) && out.0 == (ForeignOp::Invoke {
                                handle: h,
                                target: p,
                            }) && nv_views(out.1@) == ws,
                            Err(e) => res == Err::<(ForeignOp, Vec<NativeValue>), InvokeError>(
                                InvokeError::Marshal(e),
                            ),
                        }
                    }
                },
            },
        },
{
    match r.invoke(ordinal) {
        Err(e) => Err(InvokeError::Dispatch(e)),
        Ok(op) => {
            if args.len() != param_tys.len() {
                return Err(InvokeError::Marshal(ConversionError::WrongArity));
            }
            proof {
                assert(param_tys@.skip(0) =~= param_tys@);
            }
            match crate::convert::try_convert_list(param_tys, 0, args, ctx) {
                Ok(ns) => Ok((op, ns)),
                Err(e) => Err(InvokeError::Marshal(e)),
            }
        },
    }
}

/// A statically typed view of an `FfiRef` whose tag was checked.
pub struct Ref<T> {
    inner: FfiRef,
    _marker: core::marker::PhantomData<T>,
}

impl<T: SlimeType> Ref<T> {
    /// The underlying handle, at the specification level.
    pub closed spec fn spec_inner(self) -> FfiRef {
        self.inner
    }

    /// Checked downcast: grant a typed handle exactly when the type tag
    /// matches, and fail with `TypeMismatch` otherwise — never an
    /// unchecked reinterpretation.
    pub fn from_ffi(value: FfiRef) -> (r: Result<Ref<T>, FfiError>)
        ensures
            match spec_downcast::<T>(value) {
                Ok(v) => r matches Ok(t) && t.spec_inner() == v,
                Err(e) => r matches Err(a) && a == e,
            },
    {
        if value.type_id == T::type_tag() {
            Ok(Ref { inner: value, _marker: core::marker::PhantomData })
        } else {
            Err(FfiError::TypeMismatch)
        }
    }

    /// Borrow the underlying handle.
    pub fn as_ffi(&self) -> (r: &FfiRef)
        ensures
            *r == self.spec_inner(),
    {
        &self.inner
    }
}

/// Law: downcasting the empty handle of `T` to `T` itself succeeds, and
/// the granted handle still holds no payload.
pub proof fn lemma_downcast_none_same_type<T: SlimeType>(r: FfiRef)
    requires
        is_none_ref::<T>(r),
    ensures
        spec_downcast::<T>(r) matches Ok(v) && v.inner_ref is None,
{
}

/// Law: downcasting the empty handle of `T` to a type `U` with a
/// different tag fails with `TypeMismatch`.
pub proof fn lemma_downcast_none_mismatch<T: SlimeType, U: SlimeType>(r: FfiRef)
    requires
        is_none_ref::<T>(r),
        T::spec_type_tag() != U::spec_type_tag(),
    ensures
        spec_downcast::<U>(r) == Err::<FfiRef, FfiError>(FfiError::TypeMismatch),
{
}

} // verus!
