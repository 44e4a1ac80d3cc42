//! Runtime support layer for a cross-language binding toolchain.
//!
//! The library models the pieces that generated glue code leans on at
//! execution time: the language-neutral type model, the registry of live
//! runtime instances, the call envelope that carries success, error or
//! panic outcomes across the native/foreign boundary, the context-aware
//! value-conversion protocol, the type-tagged foreign reference with its
//! per-runtime dispatch table, and the per-type metadata cache that makes
//! repeated reflective lookups cheap.
//!
//! Foreign-runtime handles (virtual-machine pointers, reflective member
//! identifiers, native function pointers) are carried as opaque integers;
//! the embedding shell owns the actual foreign objects and performs the
//! operations that the verified layer decides on.

pub mod ast;
pub mod attrs;
pub mod call;
pub mod config;
pub mod convert;
pub mod foreign_ref;
pub mod metadata;
pub mod project;
pub mod registry;
pub mod runtime;
mod text;
pub mod types;
