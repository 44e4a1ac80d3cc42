//! The resolved authoring-attribute surface.
//!
//! The annotation front end lets an author rename items per target
//! language, pick entry points, and declare typed constants. The core
//! consumes only the resolved data: the symbol vocabulary, the rename
//! tables, the entry-point choices and the constant types. Parsing the
//! textual attribute syntax is the front end's business, not this
//! layer's.

use vstd::prelude::*;

use crate::runtime::Language;
use crate::text::str_eq;

verus! {

broadcast use vstd::string::group_string_axioms;

/// One word of the attribute vocabulary.
#[derive(Clone, Copy, Debug)]
pub struct Symbol(pub &'static str);

impl Symbol {
    /// The word itself.
    pub fn as_text(&self) -> (r: &'static str)
        ensures
            r@ == self.0@,
    {
        self.0
    }
}

/// A generic parsed attribute: its name, and its value when one was
/// given.
pub struct Attr<T> {
    pub name: Symbol,
    pub value: Option<T>,
}

/// Marker attributes of a single field.
#[derive(Clone, Copy, Debug, PartialEq, Eq, Structural)]
pub struct FieldAttr {}

/// A use-path of the authored module.
#[derive(Debug, Clone, PartialEq, Eq)]
pub struct Path {
    pub segments: Vec<String>,
    pub last: Option<String>,
}

/// A declared implementation relation between a class and an interface.
#[derive(Debug, Clone, PartialEq, Eq)]
pub struct ImplItem {
    pub class_name: String,
    pub interface_name: String,
}

/// A declared dependency on another generated package.
#[derive(Debug, Clone, PartialEq, Eq)]
pub struct DependencyItem {
    pub name: String,
}

/// A per-language native entry-point override.
#[derive(Debug, Clone, PartialEq, Eq)]
pub enum EntryAttr {
    /// Entry point called when the JVM loads the library.
    JvmEntry(String),
    /// Entry point called by a plain C host.
    CEntry(String),
}

/// What kind of name a transformer is asked to rewrite.
#[derive(Clone, Copy, Debug, PartialEq, Eq, Structural)]
pub enum NameType {
    Variable,
    Type,
    Method,
}

/// A per-language naming convention supplied by the embedding author.
pub trait NameTransformer {
    fn transform_name(name_type: NameType, name: &str) -> String;
}

/// The declared type of an authored constant.
#[derive(Clone, Copy, Debug, PartialEq, Eq, Structural)]
pub enum ConstantType {
    Int8,
    Int16,
    Int32,
    Int64,
    Uint8,
    Uint16,
    Uint32,
    Uint64,
    Bool,
    Float,
    Double,
    String,
}

impl ConstantType {
    /// Parse a constant type from its source spelling; exactly the
    /// twelve primitive spellings are accepted.
    pub fn from_str(s: &str) -> (r: Result<ConstantType, ()>)
        ensures
            s@ == "i8"@ ==> r == Ok::<ConstantType, ()>(ConstantType::Int8),
            s@ == "i16"@ ==> r == Ok::<ConstantType, ()>(ConstantType::Int16),
            s@ == "i32"@ ==> r == Ok::<ConstantType, ()>(ConstantType::Int32),
            s@ == "i64"@ ==> r == Ok::<ConstantType, ()>(ConstantType::Int64),
            s@ == "u8"@ ==> r == Ok::<ConstantType, ()>(ConstantType::Uint8),
            s@ == "u16"@ ==> r == Ok::<ConstantType, ()>(ConstantType::Uint16),
            s@ == "u32"@ ==> r == Ok::<ConstantType, ()>(ConstantType::Uint32),
            s@ == "u64"@ ==> r == Ok::<ConstantType, ()>(ConstantType::Uint64),
            s@ == "bool"@ ==> r == Ok::<ConstantType, ()>(ConstantType::Bool),
            s@ == "f32"@ ==> r == Ok::<ConstantType, ()>(ConstantType::Float),
            s@ == "f64"@ ==> r == Ok::<ConstantType, ()>(ConstantType::Double),
            s@ == "string"@ ==> r == Ok::<ConstantType, ()>(ConstantType::String),
            !(s@ == "i8"@ || s@ == "i16"@ || s@ == "i32"@ || s@ == "i64"@ || s@ == "u8"@ || s@
                == "u16"@ || s@ == "u32"@ || s@ == "u64"@ || s@ == "bool"@ || s@ == "f32"@ || s@
                == "f64"@ || s@ == "string"@) ==> r is Err,
    {
        proof {
            reveal_strlit("i8");
            reveal_strlit("i16");
            reveal_strlit("i32");
            reveal_strlit("i64");
            reveal_strlit("u8");
            reveal_strlit("u16");
            reveal_strlit("u32");
            reveal_strlit("u64");
            reveal_strlit("bool");
            reveal_strlit("f32");
            reveal_strlit("f64");
            reveal_strlit("string");
            assert("i8"@.len() == 2);
            assert("u8"@.len() == 2);
            assert("bool"@.len() == 4);
            assert("string"@.len() == 6);
            assert("i16"@.len() == 3);
            assert("i32"@.len() == 3);
            assert("i64"@.len() == 3);
            assert("u16"@.len() == 3);
            assert("u32"@.len() == 3);
            assert("u64"@.len() == 3);
            assert("f32"@.len() == 3);
            assert("f64"@.len() == 3);
            assert("i8"@[0] == 'i' && "u8"@[0] == 'u');
            assert("i16"@[0] == 'i' && "i16"@[1] == '1');
            assert("i32"@[0] == 'i' && "i32"@[1] == '3');
            assert("i64"@[0] == 'i' && "i64"@[1] == '6');
            assert("u16"@[0] == 'u' && "u16"@[1] == '1');
            assert("u32"@[0] == 'u' && "u32"@[1] == '3');
            assert("u64"@[0] == 'u' && "u64"@[1] == '6');
            assert("f32"@[0] == 'f' && "f32"@[1] == '3');
            assert("f64"@[0] == 'f' && "f64"@[1] == '6');
        }
        if str_eq(s, "i8") {
            Ok(ConstantType::Int8)
        } else if str_eq(s, "i16") {
            Ok(ConstantType::Int16)
        } else if str_eq(s, "i32") {
            Ok(ConstantType::Int32)
        } else if str_eq(s, "i64") {
            Ok(ConstantType::Int64)
        } else if str_eq(s, "u8") {
            Ok(ConstantType::Uint8)
        } else if str_eq(s, "u16") {
            Ok(ConstantType::Uint16)
        } else if str_eq(s, "u32") {
            Ok(ConstantType::Uint32)
        } else if str_eq(s, "u64") {
            Ok(ConstantType::Uint64)
        } else if str_eq(s, "bool") {
            Ok(ConstantType::Bool)
        } else if str_eq(s, "f32") {
            Ok(ConstantType::Float)
        } else if str_eq(s, "f64") {
            Ok(ConstantType::Double)
        } else if str_eq(s, "string") {
            Ok(ConstantType::String)
        } else {
            Err(())
        }
    }
}

/// The rename recorded for a language, first entry wins.
pub open spec fn spec_rename_lookup(dialects: Seq<(Language, String)>, lang: Language) -> Option<
    int,
> {
    spec_rename_lookup_from(dialects, lang, 0)
}

/// The position of the first rename recorded for `lang` at or after `i`.
pub open spec fn spec_rename_lookup_from(
    dialects: Seq<(Language, String)>,
    lang: Language,
    i: int,
) -> Option<int>
    decreases dialects.len() - i,
{
    if i < 0 || i >= dialects.len() {
        None
    } else if dialects[i].0 == lang {
        Some(i)
    } else {
        spec_rename_lookup_from(dialects, lang, i + 1)
    }
}

/// The rename rules of one declared item: an optional blanket rename and
/// per-language overrides.
pub struct RenameRules {
    pub rename_all: Option<String>,
    pub dialects: Vec<(Language, String)>,
}

impl RenameRules {
    /// The name this item carries in the given language: its override if
    /// one was declared, else the blanket rename, else nothing.
    pub fn name_for(&self, lang: Language) -> (r: Option<&String>)
        ensures
            match spec_rename_lookup(self.dialects@, lang) {
                Some(i) => r matches Some(n) && *n == self.dialects@[i].1,
                None => match self.rename_all {
                    Some(all) => r matches Some(n) && *n == all,
                    None => r is None,
                },
            },
    {
        let mut i: usize = 0;
        while i < self.dialects.len()
            invariant
                i <= self.dialects.len(),
                forall|j: int| 0 <= j < i ==> self.dialects@[j].0 != lang,
                spec_rename_lookup(self.dialects@, lang) == spec_rename_lookup_from(
                    self.dialects@,
                    lang,
                    i as int,
                ),
            decreases self.dialects.len() - i,
        {
            if self.dialects[i].0 == lang {
                return Some(&self.dialects[i].1);
            }
            i += 1;
        }
        match &self.rename_all {
            Some(all) => Some(all),
            None => None,
        }
    }
}

/// A resolved item name: the declared identifier and its rename rules.
pub struct Name {
    pub ident: String,
    pub rename_rules: Option<RenameRules>,
}

} // verus!
