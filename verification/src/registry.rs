//! Process-wide registry of live runtime instances, one per embedding
//! library, keyed by the host-supplied library identifier.
//!
//! Creation is idempotent per library identifier: the first contact from a
//! host creates the instance, every later call with the same identifier is
//! handed the same instance, and distinct identifiers never alias. An
//! unrecognized runtime-kind tag fails the creation call with
//! `UnsupportedRuntime` instead of aborting. For the JVM kind, first
//! contact also captures the process-wide virtual-machine handle into a
//! single-initialization slot; registering a different virtual machine
//! later is a logic error that is reported, never silently overwritten.
//!
//! The embedding shell serializes calls into one registry, so the
//! linearized behaviour proved here is what concurrent first-contact
//! callers observe.

use vstd::prelude::*;

use crate::runtime::{
    CommonDialectData, DartInitializeData, FrontendRuntime, JvmInitializeData, Language,
    create_common_runtime, create_dart_runtime, create_jvm_runtime,
};

verus! {

/// Failures of registry creation calls.
#[derive(Clone, Copy, Debug, PartialEq, Eq, Structural)]
pub enum RegistryError {
    /// The runtime-kind tag is not recognized.
    UnsupportedRuntime,
    /// The initialization data does not belong to the requested kind.
    WrongDialectData,
    /// A different virtual machine is already registered for this process.
    VmConflict,
}

/// Kind-specific initialization data, as first contact supplies it.
pub enum DialectData {
    /// Native kind: the dialect data and the identifier of the creating
    /// thread, recorded for later affinity checks.
    C { data: CommonDialectData, thread_id: u64 },
    /// JVM kind: the opaque virtual-machine handle.
    Jvm(JvmInitializeData),
    /// Dart kind.
    Dart(DartInitializeData),
}

/// One registered embedding: its library identifier and its runtime.
pub struct RegistryEntry {
    pub library_id: u64,
    pub runtime: FrontendRuntime,
}

/// The handle the registry assigns to `library_id`: the position of the
/// first entry registered under it.
pub open spec fn spec_lookup(s: Seq<RegistryEntry>, library_id: u64) -> Option<int>
    decreases s.len(),
{
    if s.len() == 0 {
        None
    } else if s[0].library_id == library_id {
        Some(0int)
    } else {
        match spec_lookup(s.drop_first(), library_id) {
            Some(i) => Some(i + 1),
            None => None,
        }
    }
}

/// A handle returned by `spec_lookup` indexes an entry carrying exactly
/// the identifier that was looked up.
pub proof fn lemma_lookup_entry(s: Seq<RegistryEntry>, library_id: u64)
    requires
        spec_lookup(s, library_id) is Some,
    ensures
        ({
            let i = spec_lookup(s, library_id)->0;
            0 <= i < s.len() && s[i].library_id == library_id
        }),
    decreases s.len(),
{
    if s.len() == 0 {
    } else if s[0].library_id == library_id {
    } else {
        lemma_lookup_entry(s.drop_first(), library_id);
    }
}

/// Registering a fresh identifier assigns it the next handle and leaves
/// every other identifier's handle unchanged.
pub proof fn lemma_lookup_after_register(s: Seq<RegistryEntry>, e: RegistryEntry, other: u64)
    requires
        spec_lookup(s, e.library_id) is None,
    ensures
        spec_lookup(s.push(e), e.library_id) == Some(s.len() as int),
        other != e.library_id ==> spec_lookup(s.push(e), other) == spec_lookup(s, other),
    decreases s.len(),
{
    if s.len() == 0 {
        assert(s.push(e)[0] == e);
        assert(s.push(e).drop_first() =~= s);
    } else {
        lemma_lookup_after_register(s.drop_first(), e, other);
        assert(s.push(e)[0] == s[0]);
        assert(s.push(e).drop_first() =~= s.drop_first().push(e));
    }
}

/// Law: handles never alias. Two identifiers that both resolve to a
/// handle resolve to different handles unless they are the same
/// identifier.
pub proof fn lemma_distinct_ids_never_alias(s: Seq<RegistryEntry>, id1: u64, id2: u64)
    requires
        id1 != id2,
        spec_lookup(s, id1) is Some,
        spec_lookup(s, id2) is Some,
    ensures
        spec_lookup(s, id1) != spec_lookup(s, id2),
{
    lemma_lookup_entry(s, id1);
    lemma_lookup_entry(s, id2);
}

/// Process-wide table of live runtime instances.
pub struct Registry {
    entries: Vec<RegistryEntry>,
    vm_slot: Option<u64>,
}

impl Registry {
    /// The registered entries, in registration order.
    pub closed spec fn spec_entries(self) -> Seq<RegistryEntry> {
        self.entries@
    }

    /// The captured process-wide virtual-machine handle, if any.
    pub closed spec fn spec_vm_slot(self) -> Option<u64> {
        self.vm_slot
    }

    /// An empty registry: nothing registered, no virtual machine
    /// captured.
    pub fn new() -> (r: Registry)
        ensures
            r.spec_entries() =~= Seq::<RegistryEntry>::empty(),
            r.spec_vm_slot() is None,
    {
        Registry { entries: Vec::new(), vm_slot: None }
    }

    /// The handle registered for `library_id`, if any.
    pub fn find(&self, library_id: u64) -> (r: Option<usize>)
        ensures
            match r {
                Some(i) => spec_lookup(self.spec_entries(), library_id) == Some(i as int),
                None => spec_lookup(self.spec_entries(), library_id) is None,
            },
    {
        let ghost s = self.entries@;
        proof {
            assert(s.skip(0) =~= s);
        }
        let mut i: usize = 0;
        while i < self.entries.len()
            invariant
                i <= self.entries.len(),
                s == self.entries@,
                forall|j: int| 0 <= j < i ==> s[j].library_id != library_id,
                spec_lookup(s, library_id) matches Some(k) ==> spec_lookup(
                    s.skip(i as int),
                    library_id,
                ) == Some(k - i),
                spec_lookup(s, library_id) is None ==> spec_lookup(s.skip(i as int), library_id)
                    is None,
            decreases self.entries.len() - i,
        {
            proof {
                assert(s.skip(i as int)[0] == s[i as int]);
                assert(s.skip(i as int).drop_first() =~= s.skip(i as int + 1));
            }
            if self.entries[i].library_id == library_id {
                return Some(i);
            }
            i += 1;
        }
        proof {
            assert(s.skip(i as int).len() == 0);
        }
        None
    }

    /// Borrow the runtime instance behind a handle.
    pub fn get(&self, handle: usize) -> (r: Option<&FrontendRuntime>)
        ensures
            handle < self.spec_entries().len() ==> (r matches Some(rt) && *rt == self.spec_entries()[handle as int].runtime),
            handle >= self.spec_entries().len() ==> r is None,
    {
        if handle < self.entries.len() {
            Some(&self.entries[handle].runtime)
        } else {
            None
        }
    }

    /// Create the runtime instance for `library_id`, or hand back the one
    /// already registered for it.
    ///
    /// The handle is determined by the identifier alone: the same
    /// identifier always resolves to the same instance, and creation
    /// happens only on first contact. An unrecognized kind byte fails
    /// with `UnsupportedRuntime`; data of the wrong dialect fails with
    /// `WrongDialectData`; a JVM registration that disagrees with the
    /// already-captured virtual machine fails with `VmConflict`.
    pub fn create_or_get(&mut self, kind_code: u8, library_id: u64, data: &DialectData) -> (r:
        Result<usize, RegistryError>)
        ensures
            ({
                let s0 = old(self).spec_entries();
                let found = spec_lookup(s0, library_id);
                &&& (kind_code > 2 ==> r == Err::<usize, RegistryError>(
                    RegistryError::UnsupportedRuntime,
                ) && *final(self) == *old(self))
                &&& (kind_code <= 2 && !spec_dialect_matches(kind_code, *data) ==> r == Err::<
                    usize,
                    RegistryError,
                >(RegistryError::WrongDialectData) && *final(self) == *old(self))
                &&& (kind_code <= 2 && spec_dialect_matches(kind_code, *data) ==> {
                    match found {
                        Some(i) => r == Ok::<usize, RegistryError>(i as usize) && *final(self)
                            == *old(self),
                        None => spec_created(*old(self), *final(self), kind_code, library_id, *data, r),
                    }
                })
            }),
    {
        if kind_code > 2 {
            return Err(RegistryError::UnsupportedRuntime);
        }
        let matches_kind = match (kind_code, data) {
            (0u8, DialectData::C { .. }) => true,
            (1u8, DialectData::Jvm(_)) => true,
            (2u8, DialectData::Dart(_)) => true,
            _ => false,
        };
        if !matches_kind {
            return Err(RegistryError::WrongDialectData);
        }
        match self.find(library_id) {
            Some(i) => Ok(i),
            None => {
                let ghost s0 = self.entries@;
                let runtime = match data {
                    DialectData::C { data: d, thread_id } => create_common_runtime(
                        library_id,
                        *thread_id,
                        d,
                    ),
                    DialectData::Jvm(init) => {
                        match self.vm_slot {
                            Some(v) => {
                                if v != init.vm {
                                    return Err(RegistryError::VmConflict);
                                }
                            },
                            None => {
                                self.vm_slot = Some(init.vm);
                            },
                        }
                        create_jvm_runtime(library_id, init)
                    },
                    DialectData::Dart(init) => create_dart_runtime(library_id, init),
                };
                let handle = self.entries.len();
                let entry = RegistryEntry { library_id, runtime };
                let ghost ge = entry;
                self.entries.push(entry);
                proof {
                    assert(self.entries@ == s0.push(ge));
                    assert(self.entries@.subrange(0, s0.len() as int) =~= s0);
                    lemma_lookup_after_register(s0, ge, library_id);
                }
                Ok(handle)
            },
        }
    }
}

/// Law: creation is idempotent and linearizable per library identifier.
/// A successful first-contact creation assigns the identifier exactly
/// the handle it returned — so a later call for the same identifier is
/// handed the same instance — and moves no other identifier's handle.
pub proof fn lemma_creation_idempotent(
    reg0: Registry,
    reg1: Registry,
    kind_code: u8,
    library_id: u64,
    data: DialectData,
    r: Result<usize, RegistryError>,
    other: u64,
)
    requires
        spec_lookup(reg0.spec_entries(), library_id) is None,
        spec_created(reg0, reg1, kind_code, library_id, data, r),
        r is Ok,
    ensures
        spec_lookup(reg1.spec_entries(), library_id) == Some(reg0.spec_entries().len() as int),
        other != library_id ==> spec_lookup(reg1.spec_entries(), other) == spec_lookup(
            reg0.spec_entries(),
            other,
        ),
{
    let s0 = reg0.spec_entries();
    let s1 = reg1.spec_entries();
    assert(s1 =~= s0.push(s1.last()));
    lemma_lookup_after_register(s0, s1.last(), other);
}

/// Whether the initialization data belongs to the runtime kind named by
/// the wire byte.
pub open spec fn spec_dialect_matches(kind_code: u8, data: DialectData) -> bool {
    match data {
        DialectData::C { .. } => kind_code == 0,
        DialectData::Jvm(_) => kind_code == 1,
        DialectData::Dart(_) => kind_code == 2,
    }
}

/// What a successful first-contact creation did: either it failed on a
/// conflicting virtual machine and changed nothing, or it appended one
/// entry for `library_id` whose runtime matches the requested kind and
/// data, assigned it the next handle, and left every existing entry — and
/// every other identifier's handle — untouched.
pub open spec fn spec_created(
    reg0: Registry,
    reg1: Registry,
    kind_code: u8,
    library_id: u64,
    data: DialectData,
    r: Result<usize, RegistryError>,
) -> bool {
    let s0 = reg0.spec_entries();
    let s1 = reg1.spec_entries();
    if kind_code == 1 && (reg0.spec_vm_slot() matches Some(v) && (data matches DialectData::Jvm(
        init,
    ) && v != init.vm)) {
        r == Err::<usize, RegistryError>(RegistryError::VmConflict) && reg1 == reg0
    } else {
        &&& r == Ok::<usize, RegistryError>(s0.len() as usize)
        &&& s1.len() == s0.len() + 1
        &&& s1.subrange(0, s0.len() as int) == s0
        &&& s1.last().library_id == library_id
        &&& spec_runtime_built(s1.last().runtime, kind_code, library_id, data)
        &&& spec_lookup(s1, library_id) == Some(s0.len() as int)
        &&& (kind_code == 1 ==> (data matches DialectData::Jvm(init) && reg1.spec_vm_slot()
            == Some(init.vm)))
        &&& (kind_code != 1 ==> reg1.spec_vm_slot() == reg0.spec_vm_slot())
    }
}

/// Whether a runtime instance is the one the kind byte and initialization
/// data describe.
pub open spec fn spec_runtime_built(
    rt: FrontendRuntime,
    kind_code: u8,
    library_id: u64,
    data: DialectData,
) -> bool {
    match rt {
        FrontendRuntime::C(c) => kind_code == 0 && (data matches DialectData::C { thread_id, .. }
            && c.ctx.library_id == library_id && c.ctx.thread_id == thread_id),
        FrontendRuntime::Jvm(j) => kind_code == 1 && (data matches DialectData::Jvm(init)
            && j.vm == init.vm && j.metas.spec_entries() == Seq::<
            (u64, crate::metadata::MetaState),
        >::empty()),
        FrontendRuntime::Dart(_) => kind_code == 2,
    }
}

} // verus!
