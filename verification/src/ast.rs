//! Language-neutral declaration tree: the intermediate form that code
//! generators and the runtime layer share.
//!
//! Everything here is plain data. Types are finite trees — a type never
//! embeds itself except through a named reference, which is resolved by
//! name — so every traversal is structurally recursive and terminating.

use vstd::prelude::*;

verus! {

/// An identifier of the description language.
#[derive(Debug, Clone, PartialEq, Eq, Hash, PartialOrd, Ord)]
pub struct Ident(pub String);

impl From<String> for Ident {
    fn from(value: String) -> (r: Ident) {
        Ident(value)
    }
}

impl vstd::std_specs::convert::FromSpecImpl<String> for Ident {
    open spec fn obeys_from_spec() -> bool {
        true
    }

    open spec fn from_spec(value: String) -> Ident {
        Ident(value)
    }
}

/// Fixed keyword types: integers by width and signedness, floats, and
/// the text/bytes builtins.
#[derive(Clone, Copy, Debug, PartialEq, Eq, Structural)]
pub enum KeywordType {
    Int8,
    Int16,
    Int32,
    Int64,
    Uint8,
    Uint16,
    Uint32,
    Uint64,
    Float32,
    Float64,
    Bool,
    String,
    Bytes,
}

/// A qualified path without its final segment.
#[derive(Debug, Clone, PartialEq, Eq)]
pub struct Pat(pub Vec<Ident>);

/// A possibly-qualified name resolving to a declared item.
#[derive(Debug, Clone, PartialEq, Eq)]
pub struct QualifiedName {
    pub path: Pat,
    pub name: Ident,
}

/// A reference to a declared item, qualified or bare.
#[derive(Debug, Clone, PartialEq, Eq)]
pub enum RefType {
    QualifiedName(QualifiedName),
    Ident(Ident),
}

/// Key and value types of a map builtin.
pub struct MapType {
    pub key: Type,
    pub value: Type,
}

/// The optional/list/map builtins, each defined by its element types.
pub enum BuiltinType {
    Optional(Box<Type>),
    List(Box<Type>),
    Dict(Box<MapType>),
}

/// A type of the description language.
pub enum Type {
    Keyword(KeywordType),
    RefType(RefType),
    Builtin(BuiltinType),
}

/// A named, typed field of a model or parameter list.
pub struct FieldDecl {
    pub name: Ident,
    pub ty: Type,
}

/// A plain data aggregate; field names are unique within the model.
pub struct ModelDecl {
    pub name: Ident,
    pub fields: Vec<FieldDecl>,
}

/// Payload shape of one enum variant.
pub enum EnumVariantFields {
    Unit,
    Unnamed(Vec<Type>),
    Named(Vec<FieldDecl>),
}

/// One declared enum variant and its payload.
pub struct EnumVariant {
    pub name: Ident,
    pub fields: EnumVariantFields,
}

/// A declared enum. It is "primitive" — represented as an ordinal across
/// the boundary — exactly when every variant is payload-free.
pub struct EnumDecl {
    pub name: Ident,
    pub variants: Vec<EnumVariant>,
}

/// Whether every variant of the declared enum is payload-free.
pub open spec fn spec_enum_decl_is_primitive(variants: Seq<EnumVariant>) -> bool {
    forall|i: int| 0 <= i < variants.len() ==> variants[i].fields is Unit
}

impl EnumDecl {
    /// Decide the boundary representation of this enum: ordinal when
    /// every variant is payload-free, tagged object otherwise.
    pub fn is_primitive(&self) -> (r: bool)
        ensures
            r == spec_enum_decl_is_primitive(self.variants@),
    {
        let mut i: usize = 0;
        while i < self.variants.len()
            invariant
                i <= self.variants.len(),
                forall|j: int| 0 <= j < i ==> self.variants@[j].fields is Unit,
            decreases self.variants.len() - i,
        {
            match self.variants[i].fields {
                EnumVariantFields::Unit => {}
                _ => {
                    return false;
                }
            }
            i += 1;
        }
        true
    }
}

/// A type parameter with an optional constraint.
pub struct TypeParam {
    pub name: Ident,
    pub constraint: Option<Box<Type>>,
}

/// A function signature: parameters, optional type parameters, optional
/// return type and optional declared error type.
pub struct Function {
    pub params: Vec<FieldDecl>,
    pub type_params: Option<Vec<TypeParam>>,
    pub return_type: Option<Box<Type>>,
    pub error_type: Option<Box<Type>>,
}

/// A named free function.
pub struct FnDecl {
    pub name: Ident,
    pub function: Box<Function>,
}

/// A named type applied to optional type arguments.
pub struct TypeWithArgs {
    pub ty: Box<Ident>,
    pub type_args: Option<Vec<Box<Type>>>,
}

/// A declared interface: method signatures, optional type parameters and
/// extended interfaces.
pub struct InterfaceDecl {
    pub name: Ident,
    pub methods: Vec<FnDecl>,
    pub type_params: Option<Vec<TypeParam>>,
    pub extends: Vec<TypeWithArgs>,
}

/// An integer literal, carried in its declared width and signedness.
#[derive(Clone, Copy, Debug, PartialEq, Eq)]
pub enum NumLit {
    I8(i8),
    I16(i16),
    I32(i32),
    I64(i64),
    U8(u8),
    U16(u16),
    U32(u32),
    U64(u64),
}

/// A literal of the description language.
#[derive(Debug, Clone, PartialEq, Eq)]
pub enum Lit {
    Str(String),
    Num(NumLit),
    Bool(bool),
}

/// An expression: only names and literals occur in declarations.
#[derive(Debug, Clone, PartialEq, Eq)]
pub enum Expr {
    Ident(Ident),
    Lit(Lit),
}

/// A declared constant.
pub struct ConstDecl {
    pub name: Ident,
    pub ty: Type,
    pub value: Lit,
}

/// A unit variant of a declared enum, used as a constant value.
pub struct ConstEnumVariant {
    pub ty: Type,
    pub variant_name: Ident,
}

/// A constant value: a literal or a unit enum variant.
pub enum ConstLit {
    Primitive(Lit),
    UnitEnumVariant(ConstEnumVariant),
}

/// A constructor of a declared class.
pub struct CtorDecl {
    pub function: Box<Function>,
}

/// A named method of a declared class.
pub struct MethodDecl {
    pub name: Ident,
    pub function: Box<Function>,
}

/// One member of a declared class.
pub enum ClassMember {
    Field(FieldDecl),
    Method(FnDecl),
    StaticMethod(FnDecl),
    Constructor(CtorDecl),
    Const(ConstDecl),
}

/// A declared class: optional superclass, implemented interfaces, and an
/// ordered member list.
pub struct ClassDecl {
    pub name: Ident,
    pub extend: Option<Box<TypeWithArgs>>,
    pub impls: Option<Vec<Box<TypeWithArgs>>>,
    pub member: Vec<ClassMember>,
    pub type_params: Option<Vec<TypeParam>>,
}

/// A nested module of declarations.
pub struct ModDecl {
    pub name: Ident,
    pub items: Vec<Box<Decl>>,
}

/// One declaration of the description language.
pub enum Decl {
    Mod(ModDecl),
    Const(ConstDecl),
    Model(ModelDecl),
    Enum(EnumDecl),
    Method(FnDecl),
    Interface(InterfaceDecl),
    Class(ClassDecl),
}

/// A whole described module: the unit handed to code generators.
pub struct Module {
    pub name: String,
    pub config: (),
    pub decls: Vec<Decl>,
}

} // verus!
