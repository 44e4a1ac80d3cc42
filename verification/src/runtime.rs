//! Runtime instances: one per embedding of the generated library inside a
//! host language runtime.
//!
//! The set of supported host runtimes is fixed at build time, so the
//! runtime is a closed tagged union dispatched by kind tag; exhaustive
//! matching catches a missing kind at compile time. Kind-specific state is
//! carried as plain values: a virtual-machine handle is an opaque integer
//! supplied by the embedding shell, and the creating thread of a
//! native-kind runtime is recorded as an opaque thread identifier so glue
//! code can assert thread affinity before calling.

use vstd::prelude::*;

use crate::metadata::MetaCache;
use crate::text::str_eq;

verus! {

broadcast use vstd::string::group_string_axioms;

/// Runtime-kind tag, one per supported host language runtime.
#[derive(Clone, Copy, Debug, PartialEq, Eq, Structural, PartialOrd, Ord, Hash)]
pub enum Language {
    C,
    Jvm,
    Dart,
}

impl Language {
    /// The fixed wire encoding of each kind tag.
    pub open spec fn spec_code(self) -> u8 {
        match self {
            Language::C => 0,
            Language::Jvm => 1,
            Language::Dart => 2,
        }
    }

    /// Encode the kind tag as its wire byte.
    pub fn code(&self) -> (c: u8)
        ensures
            c == self.spec_code(),
    {
        match self {
            Language::C => 0,
            Language::Jvm => 1,
            Language::Dart => 2,
        }
    }

    /// Decode a wire byte; exactly the bytes `0..=2` name a runtime kind.
    pub fn try_from_code(code: u8) -> (r: Result<Language, ()>)
        ensures
            code <= 2 ==> (r matches Ok(l) && l.spec_code() == code),
            code > 2 ==> r is Err,
    {
        match code {
            0 => Ok(Language::C),
            1 => Ok(Language::Jvm),
            2 => Ok(Language::Dart),
            _ => Err(()),
        }
    }

    /// Parse a kind tag from its textual name.
    pub fn from_str(s: &str) -> (r: Result<Language, ()>)
        ensures
            (s@ == "c"@ || s@ == "common"@) ==> r == Ok::<Language, ()>(Language::C),
            s@ == "jvm"@ ==> r == Ok::<Language, ()>(Language::Jvm),
            s@ == "dart"@ ==> r == Ok::<Language, ()>(Language::Dart),
            !(s@ == "c"@ || s@ == "common"@ || s@ == "jvm"@ || s@ == "dart"@) ==> r is Err,
    {
        proof {
            reveal_strlit("c");
            reveal_strlit("common");
            reveal_strlit("jvm");
            reveal_strlit("dart");
            assert("c"@.len() == 1);
            assert("common"@.len() == 6);
            assert("jvm"@.len() == 3);
            assert("dart"@.len() == 4);
        }
        if str_eq(s, "c") || str_eq(s, "common") {
            Ok(Language::C)
        } else if str_eq(s, "jvm") {
            Ok(Language::Jvm)
        } else if str_eq(s, "dart") {
            Ok(Language::Dart)
        } else {
            Err(())
        }
    }
}

/// Per-embedding state of a native-kind (C calling convention) runtime:
/// the host-supplied library identifier and the creating thread.
pub struct CommonContext {
    pub library_id: u64,
    pub thread_id: u64,
}

impl CommonContext {
    /// Record the library identifier and the creating thread.
    pub fn new(library_id: u64, thread_id: u64) -> (r: CommonContext)
        ensures
            r.library_id == library_id,
            r.thread_id == thread_id,
    {
        CommonContext { library_id, thread_id }
    }

    /// Thread-affinity check: does the given calling thread match the
    /// creating thread? Glue code asserts this before a native call and
    /// fails fast instead of corrupting runtime state.
    pub fn is_current_thread(&self, current_thread_id: u64) -> (r: bool)
        ensures
            r == (current_thread_id == self.thread_id),
    {
        current_thread_id == self.thread_id
    }
}

/// Native-kind runtime instance.
pub struct CommonRuntime {
    pub ctx: CommonContext,
}

/// Kind-specific initialization data for the native kind.
pub struct CommonDialectData {}

/// JVM-kind runtime instance: the opaque virtual-machine handle and the
/// per-type metadata cache that grows monotonically after initialization.
pub struct JvmRuntime {
    pub vm: u64,
    pub metas: MetaCache,
}

/// Kind-specific initialization data for the JVM kind: the opaque handle
/// of the process-wide virtual machine.
pub struct JvmInitializeData {
    pub vm: u64,
}

/// Dart-kind runtime instance.
pub struct DartRuntime {}

/// Kind-specific initialization data for the Dart kind.
pub struct DartInitializeData {}

/// A live runtime instance of any supported kind.
pub enum FrontendRuntime {
    C(CommonRuntime),
    Jvm(JvmRuntime),
    Dart(DartRuntime),
}

impl FrontendRuntime {
    /// The kind tag of this instance.
    pub open spec fn spec_kind(self) -> Language {
        match self {
            FrontendRuntime::C(_) => Language::C,
            FrontendRuntime::Jvm(_) => Language::Jvm,
            FrontendRuntime::Dart(_) => Language::Dart,
        }
    }

    /// Report the kind tag of this instance.
    pub fn kind(&self) -> (k: Language)
        ensures
            k == self.spec_kind(),
    {
        match self {
            FrontendRuntime::C(_) => Language::C,
            FrontendRuntime::Jvm(_) => Language::Jvm,
            FrontendRuntime::Dart(_) => Language::Dart,
        }
    }
}

/// One-time per-kind initialization hook implemented by every runtime kind.
pub trait Runtime {
    fn initialize();
}

impl Runtime for CommonRuntime {
    fn initialize() {
    }
}

impl Runtime for JvmRuntime {
    fn initialize() {
    }
}

impl Runtime for DartRuntime {
    fn initialize() {
    }
}

/// Build a native-kind runtime for the given library; the embedding shell
/// supplies the identifier of the thread making first contact.
pub fn create_common_runtime(
    library_id: u64,
    thread_id: u64,
    dialect_data: &CommonDialectData,
) -> (r: FrontendRuntime)
    ensures
        r matches FrontendRuntime::C(c) && c.ctx.library_id == library_id && c.ctx.thread_id
            == thread_id,
{
    FrontendRuntime::C(CommonRuntime { ctx: CommonContext::new(library_id, thread_id) })
}

/// Build a JVM-kind runtime around the process-wide virtual-machine
/// handle, with an initially empty metadata cache.
pub fn create_jvm_runtime(library_id: u64, dialect_data: &JvmInitializeData) -> (r:
    FrontendRuntime)
    ensures
        r matches FrontendRuntime::Jvm(j) && j.vm == dialect_data.vm && j.metas.spec_entries()
            =~= Seq::<(u64, crate::metadata::MetaState)>::empty(),
{
    FrontendRuntime::Jvm(JvmRuntime { vm: dialect_data.vm, metas: MetaCache::new() })
}

/// Build a Dart-kind runtime.
pub fn create_dart_runtime(library_id: u64, dialect_data: &DartInitializeData) -> (r:
    FrontendRuntime)
    ensures
        r is Dart,
{
    FrontendRuntime::Dart(DartRuntime {})
}

} // verus!
