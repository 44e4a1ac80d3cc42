//! Per-target-language configuration carried alongside a described
//! module: naming and dialect choices that code generators consume.

use vstd::prelude::*;

verus! {

/// The target languages a described module can be generated for.
#[derive(Clone, Copy, Debug, PartialEq, Eq, Structural, PartialOrd, Ord, Hash)]
pub enum Lang {
    Rust,
    Kotlin,
    Java,
    Swift,
    ObjC,
    NodeJS,
    Web,
    Dart,
}

/// Naming configuration for JVM-hosted targets.
#[derive(Debug, Clone, PartialEq, Eq)]
pub struct JvmConfig {
    pub package_name: String,
}

/// How unsigned integers are surfaced to Kotlin.
#[derive(Clone, Copy, Debug, PartialEq, Eq, Structural)]
pub enum KotlinUnsignedStrategy {
    Signed,
    KotlinSigned,
}

/// Kotlin-specific configuration.
#[derive(Clone, Copy, Debug, PartialEq, Eq, Structural)]
pub struct KotlinConfig {
    pub unsigned_strategy: KotlinUnsignedStrategy,
}

/// Swift-specific configuration.
#[derive(Debug, Clone, PartialEq, Eq)]
pub struct SwiftConfig {
    pub module_name: String,
}

/// Objective-C-specific configuration.
#[derive(Debug, Clone, PartialEq, Eq)]
pub struct ObjcConfig {}

/// The dialect a Node.js target emits.
#[derive(Clone, Copy, Debug, PartialEq, Eq, Structural)]
pub enum NodeDialect {
    TypeScript,
    JavaScriptWithDecl,
    ArkTS,
}

/// Node.js-specific configuration.
#[derive(Clone, Copy, Debug, PartialEq, Eq, Structural)]
pub struct NodeConfig {
    pub dialect: NodeDialect,
}

/// The dialect a web target emits.
#[derive(Clone, Copy, Debug, PartialEq, Eq, Structural)]
pub enum WebDialet {
    TypeScript,
    JavaScriptWithDecl,
    WebAssambly,
}

/// Web-specific configuration.
#[derive(Clone, Copy, Debug, PartialEq, Eq, Structural)]
pub struct WebConfig {
    pub dialect: WebDialet,
}

/// Configuration for one target language.
#[derive(Debug, Clone, PartialEq, Eq)]
pub enum LangConfig {
    Rust,
    Jvm(JvmConfig),
    Kotlin(KotlinConfig),
}

} // verus!
