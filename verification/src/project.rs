//! Project-level types: what a generation run is asked to produce, and
//! the shape of its output.

use vstd::prelude::*;

use crate::ast::Ident;
use crate::runtime::Language;

verus! {

/// One generation project: the library name and the runtimes to emit
/// glue for.
pub struct Project {
    pub name: String,
    pub addon_types: Vec<Language>,
}

/// Why reading a description file failed; the message carries the
/// reporting system's own words.
#[derive(Debug, Clone, PartialEq, Eq)]
pub enum ParseError {
    IO(String),
}

/// A description-language parser supplied by an embedding.
pub trait Parser {
    fn parse(source: &str) -> Result<crate::ast::Module, ParseError>;
}

/// The Rust code generator.
pub struct RustCodegen {}

/// A Rust module path.
#[derive(Debug, Clone, PartialEq, Eq)]
pub struct RustPath(pub Vec<Ident>);

/// A named Rust type at a path.
#[derive(Debug, Clone, PartialEq, Eq)]
pub struct RustType {
    pub pat: RustPath,
    pub name: Ident,
}

/// What one generation run produced: a source file, or a module with its
/// nested outputs. Paths are carried as plain text.
pub enum RustCodegenOutput {
    Source(String),
    Mod(String, Vec<Box<RustCodegenOutput>>),
}

} // verus!
