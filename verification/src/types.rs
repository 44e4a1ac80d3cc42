//! Language-neutral type model used by the runtime layer.
//!
//! Pure data: primitives, strings and byte sequences, declared enums,
//! models, classes and interfaces, and the optional/list/map builtins.
//! A `Type` is a finite tree, which keeps every routine that walks it
//! (notably the conversion protocol) structurally recursive and
//! terminating. Consumers pattern-match exhaustively, so adding a variant
//! is a deliberate breaking change that no target language can miss.

use vstd::prelude::*;

verus! {

/// Fixed-width primitive vocabulary shared by every target language.
///
/// `Float` and `Double` are carried through the boundary as raw IEEE-754
/// bit patterns; this layer never does floating-point arithmetic.
#[derive(Clone, Copy, Debug, PartialEq, Eq, Structural)]
pub enum PrimitiveType {
    Int8,
    Int16,
    Int32,
    Int64,
    Uint8,
    Uint16,
    Uint32,
    Uint64,
    Bool,
    Float,
    Double,
}

/// Accessor kinds a property exposes.
#[derive(Clone, Copy, Debug, PartialEq, Eq, Structural)]
pub enum Accessor {
    Getter,
    Setter,
}

/// Payload shape of one declared enum variant.
pub enum EnumVariantType {
    /// No payload; an enum whose variants are all payload-free crosses the
    /// boundary as a numeric ordinal.
    Primitive,
    /// Positional payload.
    Unnamed(Vec<Type>),
    /// Named fields.
    Named(Vec<Field>),
}

/// One declared enum variant.
pub struct EnumVariant {
    pub name: String,
    pub variant: EnumVariantType,
}

/// Plain data aggregate: a name and an ordered field list.
pub struct Model {
    pub name: String,
    pub fields: Vec<Field>,
}

/// A free function or method signature.
pub struct Func {
    pub name: String,
    pub params: Vec<Field>,
}

/// Methods share the function shape.
pub type Method = Func;

/// How a class field is exposed to the foreign side.
pub enum FieldAccessor {
    /// Plain stored variable.
    Variable,
    /// Property backed by the listed accessors.
    Property(Vec<Accessor>),
}

/// A class field together with its exposure.
pub struct AdvanceField {
    pub field: Field,
    pub accessor: FieldAccessor,
}

/// A class: constructors, methods and exposed fields.
pub struct Class {
    pub name: String,
    pub methods: Vec<Method>,
    pub ctors: Vec<Func>,
    pub fields: Vec<AdvanceField>,
}

/// An interface: a named method set a class can implement.
pub struct Interface {
    pub name: String,
    pub methods: Vec<Method>,
}

/// The closed type vocabulary of the runtime layer.
pub enum Type {
    Void,
    Primitive(PrimitiveType),
    String,
    Bytes,
    Enum(Vec<EnumVariant>),
    Model(Model),
    Class(Class),
    Interface(Interface),
    Option(Box<Type>),
    List(Box<Type>),
    Dict { key: Box<Type>, value: Box<Type> },
}

/// A named, typed field of a model, class or parameter list.
pub struct Field {
    pub name: String,
    pub ty: Type,
}

/// A plain named field aggregate used by generated glue.
pub struct Struct {
    pub name: String,
    pub fields: Vec<Field>,
}

/// A dependency on another generated package.
#[derive(Clone, Debug)]
pub struct Dependency {}

/// An item declared outside the current module but bridged through it.
pub struct External {
    pub item_type: Item,
}

/// Top-level items the runtime layer can be asked to bridge.
pub enum Item {
    FnItem(Func),
    ModelItem(Model),
    ClassItem(Class),
    InterfaceItem(Interface),
    ExternalItem(Box<External>),
}

/// Whether every variant of a declared enum is payload-free, which decides
/// its boundary representation: ordinal if so, tagged object otherwise.
pub open spec fn spec_enum_is_primitive(variants: Seq<EnumVariant>) -> bool {
    forall|i: int| 0 <= i < variants.len() ==> variants[i].variant is Primitive
}

/// Decide the boundary representation of a declared enum.
pub fn enum_is_primitive(variants: &Vec<EnumVariant>) -> (r: bool)
    ensures
        r == spec_enum_is_primitive(variants@),
{
    let mut i: usize = 0;
    while i < variants.len()
        invariant
            i <= variants.len(),
            forall|j: int| 0 <= j < i ==> variants@[j].variant is Primitive,
        decreases variants.len() - i,
    {
        match variants[i].variant {
            EnumVariantType::Primitive => {}
            _ => {
                return false;
            }
        }
        i += 1;
    }
    true
}

} // verus!
