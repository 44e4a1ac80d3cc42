//! Per-runtime metadata cache, instantiated for a reflective (JVM-style)
//! runtime.
//!
//! For each native type, keyed by a process-wide type identity, the cache
//! moves through `Uninitialized -> Resolving -> Ready`. The first caller
//! that needs metadata is told to perform the expensive reflective
//! resolution; callers that arrive while it is in flight are told to wait
//! instead of resolving again; once published, `Ready` data is served to
//! everyone unchanged. A failed resolution returns the key to
//! `Uninitialized`, so a later call may retry: failure is never cached.
//!
//! Reflective lookup handles (class references, member identifiers,
//! native function pointers) are opaque integers owned by the embedding
//! shell.

use vstd::prelude::*;

verus! {

/// Instance-field lookup handle.
#[derive(Clone, Copy, Debug, PartialEq, Eq, Structural)]
pub struct FieldMeta {
    pub field_id: u64,
}

/// Instance-method lookup handle.
#[derive(Clone, Copy, Debug, PartialEq, Eq, Structural)]
pub struct MethodMeta {
    pub method_id: u64,
}

/// Static-field lookup handle.
#[derive(Clone, Copy, Debug, PartialEq, Eq, Structural)]
pub struct StaticFieldMeta {
    pub field_id: u64,
}

/// Static-method lookup handle.
#[derive(Clone, Copy, Debug, PartialEq, Eq, Structural)]
pub struct StaticMethodMeta {
    pub method_id: u64,
}

/// One resolved property of a foreign class.
#[derive(Clone, Copy, Debug, PartialEq, Eq, Structural)]
pub enum PropertyMeta {
    Field(FieldMeta),
    Method(MethodMeta),
    StaticField(StaticFieldMeta),
    StaticMethod(StaticMethodMeta),
}

/// Published metadata of one native type: the foreign class handle and a
/// name-keyed table of property lookup handles.
pub struct JvmMeta {
    pub class: u64,
    pub properties: Vec<(String, PropertyMeta)>,
}

/// Descriptor of one field as the foreign side names it.
pub struct JvmFieldDesc {
    pub name: String,
    pub backend_name: String,
    pub sig: String,
}

/// Descriptor of one native method registered with the foreign runtime.
pub struct NativeMethodDesc {
    pub name: String,
    pub sig: String,
    pub fn_ptr: u64,
}

/// The native methods a type registers with the foreign runtime.
pub struct JvmNativeMeta {
    pub native_methods: Vec<NativeMethodDesc>,
}

/// Everything one native type contributes to the foreign runtime: its
/// registered native methods and its resolved metadata.
pub struct JvmObjectRegistry {
    pub native_meta: JvmNativeMeta,
    pub meta: JvmMeta,
}

/// A native type that generated glue registers with the reflective
/// runtime: implementations report the native methods to attach, against
/// an opaque environment handle supplied by the embedding shell.
pub trait JvmObject {
    fn register(env: u64) -> Result<JvmNativeMeta, ResolutionError>;
}

/// Why a reflective resolution failed.
#[derive(Clone, Copy, Debug, PartialEq, Eq, Structural)]
pub enum ResolutionError {
    /// The foreign class was not found.
    ClassNotFound,
    /// A member was missing or its signature did not match.
    MemberMismatch,
}

/// Resolution state of one type key.
pub enum MetaState {
    Uninitialized,
    Resolving,
    Ready(JvmMeta),
}

/// What a caller asking for metadata must do next.
pub enum ResolveStep {
    /// This caller is the resolver: perform the reflective resolution and
    /// publish the outcome with `finish_resolve`.
    MustResolve,
    /// Another caller's resolution is in flight: block until it settles.
    Wait,
    /// The published metadata.
    Cached(JvmMeta),
}

/// The state the cache records for `key`: the first matching entry wins,
/// and an absent key is `Uninitialized`.
pub open spec fn spec_state(s: Seq<(u64, MetaState)>, key: u64) -> MetaState
    decreases s.len(),
{
    if s.len() == 0 {
        MetaState::Uninitialized
    } else if s[0].0 == key {
        s[0].1
    } else {
        spec_state(s.drop_first(), key)
    }
}

/// Per-type cache of reflective lookup handles.
pub struct MetaCache {
    entries: Vec<(u64, MetaState)>,
}

/// The lookup handle recorded under a property name, first match wins.
pub open spec fn spec_property(props: Seq<(String, PropertyMeta)>, name: Seq<char>) -> Option<
    PropertyMeta,
>
    decreases props.len(),
{
    if props.len() == 0 {
        None
    } else if props[0].0@ == name {
        Some(props[0].1)
    } else {
        spec_property(props.drop_first(), name)
    }
}

impl JvmMeta {
    /// The lookup handle published for a property name; this is what
    /// generated glue consults instead of repeating a reflective lookup.
    pub fn property(&self, name: &str) -> (r: Option<PropertyMeta>)
        ensures
            r == spec_property(self.properties@, name@),
    {
        let ghost s = self.properties@;
        proof {
            assert(s.skip(0) =~= s);
        }
        let mut i: usize = 0;
        while i < self.properties.len()
            invariant
                i <= self.properties.len(),
                s == self.properties@,
                spec_property(s, name@) == spec_property(s.skip(i as int), name@),
            decreases self.properties.len() - i,
        {
            proof {
                assert(s.skip(i as int)[0] == s[i as int]);
                assert(s.skip(i as int).drop_first() =~= s.skip(i as int + 1));
            }
            if crate::text::str_eq(self.properties[i].0.as_str(), name) {
                return Some(self.properties[i].1);
            }
            i += 1;
        }
        proof {
            assert(s.skip(i as int).len() == 0);
        }
        None
    }

    /// Copy of this metadata, carrying the same class handle and the same
    /// property table.
    pub fn duplicate(&self) -> (r: JvmMeta)
        ensures
            r.class == self.class,
            r.properties@ == self.properties@,
    {
        let mut props: Vec<(String, PropertyMeta)> = Vec::new();
        let mut i: usize = 0;
        while i < self.properties.len()
            invariant
                i <= self.properties.len(),
                props@ =~= self.properties@.subrange(0, i as int),
            decreases self.properties.len() - i,
        {
            let name = self.properties[i].0.clone();
            let prop = self.properties[i].1;
            props.push((name, prop));
            i += 1;
        }
        proof {
            assert(props@ =~= self.properties@);
        }
        JvmMeta { class: self.class, properties: props }
    }
}

/// Whether an observed resolution step agrees with the modelled one;
/// served metadata is compared by content (class handle and property
/// table).
pub open spec fn spec_step_matches(actual: ResolveStep, model: ResolveStep) -> bool {
    match (actual, model) {
        (ResolveStep::MustResolve, ResolveStep::MustResolve) => true,
        (ResolveStep::Wait, ResolveStep::Wait) => true,
        (ResolveStep::Cached(c), ResolveStep::Cached(m)) => c.class == m.class && c.properties@
            == m.properties@,
        _ => false,
    }
}

/// Resolution step decision, at the specification level: what the caller
/// is told and how the entry table changes.
pub open spec fn spec_begin(s: Seq<(u64, MetaState)>, key: u64) -> (ResolveStep, Seq<
    (u64, MetaState),
>) {
    match spec_state(s, key) {
        MetaState::Uninitialized => (ResolveStep::MustResolve, spec_set_state(
            s,
            key,
            MetaState::Resolving,
        )),
        MetaState::Resolving => (ResolveStep::Wait, s),
        MetaState::Ready(m) => (ResolveStep::Cached(m), s),
    }
}

/// Publication, at the specification level: a successful resolution is
/// published as `Ready`; a failure returns the key to `Uninitialized`.
pub open spec fn spec_finish(
    s: Seq<(u64, MetaState)>,
    key: u64,
    result: Result<JvmMeta, ResolutionError>,
) -> Seq<(u64, MetaState)> {
    if spec_state(s, key) is Resolving {
        match result {
            Ok(m) => spec_set_state(s, key, MetaState::Ready(m)),
            Err(_) => spec_set_state(s, key, MetaState::Uninitialized),
        }
    } else {
        s
    }
}

/// The entry table with the first entry for `key` replaced (or an entry
/// appended when the key is absent).
pub open spec fn spec_set_state(s: Seq<(u64, MetaState)>, key: u64, st: MetaState) -> Seq<
    (u64, MetaState),
>
    decreases s.len(),
{
    if s.len() == 0 {
        seq![(key, st)]
    } else if s[0].0 == key {
        seq![(key, st)] + s.drop_first()
    } else {
        seq![s[0]] + spec_set_state(s.drop_first(), key, st)
    }
}

impl MetaCache {
    /// The recorded entry table.
    pub closed spec fn spec_entries(self) -> Seq<(u64, MetaState)> {
        self.entries@
    }

    /// An empty cache: every key is `Uninitialized`.
    pub fn new() -> (r: MetaCache)
        ensures
            r.spec_entries() =~= Seq::<(u64, MetaState)>::empty(),
    {
        MetaCache { entries: Vec::new() }
    }

    /// Index of the first entry recorded for `key`, if any.
    fn find(&self, key: u64) -> (r: Option<usize>)
        ensures
            match r {
                Some(i) => i < self.spec_entries().len() && self.spec_entries()[i as int].0 == key
                    && (forall|j: int| 0 <= j < i ==> self.spec_entries()[j].0 != key)
                    && spec_state(self.spec_entries(), key) == self.spec_entries()[i as int].1,
                None => (forall|j: int|
                    0 <= j < self.spec_entries().len() ==> self.spec_entries()[j].0 != key)
                    && spec_state(self.spec_entries(), key) is Uninitialized,
            },
    {
        let ghost s = self.entries@;
        proof {
            assert(s.skip(0) =~= s);
        }
        let mut i: usize = 0;
        while i < self.entries.len()
            invariant
                i <= self.entries.len(),
                s == self.entries@,
                forall|j: int| 0 <= j < i ==> s[j].0 != key,
                spec_state(s, key) == spec_state(s.skip(i as int), key),
            decreases self.entries.len() - i,
        {
            if self.entries[i].0 == key {
                proof {
                    assert(s.skip(i as int)[0] == s[i as int]);
                }
                return Some(i);
            }
            proof {
                assert(s.skip(i as int)[0] == s[i as int]);
                assert(s.skip(i as int).drop_first() =~= s.skip(i as int + 1));
            }
            i += 1;
        }
        proof {
            assert(s.skip(i as int).len() == 0);
        }
        None
    }

    /// Ask for the metadata of the type identified by `key`.
    ///
    /// Exactly one caller per resolution is told `MustResolve`; callers
    /// that arrive while it is in flight get `Wait`; published metadata is
    /// served as `Cached` without touching the table.
    pub fn begin_lookup(&mut self, key: u64) -> (step: ResolveStep)
        ensures
            final(self).spec_entries() == spec_begin(old(self).spec_entries(), key).1,
            spec_step_matches(step, spec_begin(old(self).spec_entries(), key).0),
    {
        let found = self.find(key);
        match found {
            Some(i) => {
                let ghost s0 = self.entries@;
                match &self.entries[i] {
                    (_, MetaState::Uninitialized) => {
                        self.entries[i] = (key, MetaState::Resolving);
                        proof {
                            lemma_set_state_first_match(s0, key, MetaState::Resolving, i as int);
                        }
                        ResolveStep::MustResolve
                    },
                    (_, MetaState::Resolving) => ResolveStep::Wait,
                    (_, MetaState::Ready(m)) => {
                        let c = m.duplicate();
                        ResolveStep::Cached(c)
                    },
                }
            },
            None => {
                self.entries.push((key, MetaState::Resolving));
                proof {
                    lemma_set_state_absent(old(self).spec_entries(), key, MetaState::Resolving);
                }
                ResolveStep::MustResolve
            },
        }
    }

    /// Publish the outcome of a resolution started by `begin_lookup`.
    ///
    /// Returns whether the outcome was accepted, which it is exactly when
    /// a resolution for `key` was in flight.
    pub fn finish_resolve(&mut self, key: u64, result: Result<JvmMeta, ResolutionError>) -> (accepted:
        bool)
        ensures
            final(self).spec_entries() == spec_finish(old(self).spec_entries(), key, result),
            accepted == (spec_state(old(self).spec_entries(), key) is Resolving),
    {
        let found = self.find(key);
        match found {
            Some(i) => {
                let ghost s0 = self.entries@;
                let resolving = match &self.entries[i] {
                    (_, MetaState::Resolving) => true,
                    _ => false,
                };
                if resolving {
                    match result {
                        Ok(m) => {
                            self.entries[i] = (key, MetaState::Ready(m));
                            proof {
                                lemma_set_state_first_match(s0, key, MetaState::Ready(m), i as int);
                            }
                        },
                        Err(_) => {
                            self.entries[i] = (key, MetaState::Uninitialized);
                            proof {
                                lemma_set_state_first_match(
                                    s0,
                                    key,
                                    MetaState::Uninitialized,
                                    i as int,
                                );
                            }
                        },
                    }
                    true
                } else {
                    false
                }
            },
            None => false,
        }
    }

    /// The published metadata for `key`, if resolution has completed.
    pub fn lookup(&self, key: u64) -> (r: Option<&JvmMeta>)
        ensures
            match spec_state(self.spec_entries(), key) {
                MetaState::Ready(m) => r matches Some(v) && *v == m,
                _ => r is None,
            },
    {
        let found = self.find(key);
        match found {
            Some(i) => match &self.entries[i] {
                (_, MetaState::Ready(m)) => Some(m),
                _ => None,
            },
            None => None,
        }
    }
}

/// Replacing the first matching entry updates the recorded state for
/// `key` and leaves every other key's state unchanged.
proof fn lemma_set_state_first_match(s: Seq<(u64, MetaState)>, key: u64, st: MetaState, i: int)
    requires
        0 <= i < s.len(),
        s[i].0 == key,
        forall|j: int| 0 <= j < i ==> s[j].0 != key,
    ensures
        s.update(i, (key, st)) =~= spec_set_state(s, key, st),
    decreases i,
{
    if i == 0 {
        assert(spec_set_state(s, key, st) == seq![(key, st)] + s.drop_first());
        assert(s.update(0, (key, st)) =~= seq![(key, st)] + s.drop_first());
    } else {
        lemma_set_state_first_match(s.drop_first(), key, st, i - 1);
        assert(s.update(i, (key, st)).drop_first() =~= s.drop_first().update(i - 1, (key, st)));
        assert(s.update(i, (key, st)) =~= seq![s[0]] + s.drop_first().update(i - 1, (key, st)));
    }
}

/// Appending an entry for an absent key records its state.
proof fn lemma_set_state_absent(s: Seq<(u64, MetaState)>, key: u64, st: MetaState)
    requires
        forall|j: int| 0 <= j < s.len() ==> s[j].0 != key,
    ensures
        s.push((key, st)) =~= spec_set_state(s, key, st),
    decreases s.len(),
{
    if s.len() == 0 {
        assert(s.push((key, st)) =~= seq![(key, st)]);
    } else {
        lemma_set_state_absent(s.drop_first(), key, st);
        assert(s.push((key, st)).drop_first() =~= s.drop_first().push((key, st)));
        assert(s.push((key, st)) =~= seq![s[0]] + s.drop_first().push((key, st)));
    }
}

/// After `spec_set_state`, the state recorded for `key` is `st`.
pub proof fn lemma_set_state_same_key(s: Seq<(u64, MetaState)>, key: u64, st: MetaState)
    ensures
        spec_state(spec_set_state(s, key, st), key) == st,
    decreases s.len(),
{
    if s.len() == 0 {
    } else if s[0].0 == key {
        assert(spec_set_state(s, key, st)[0] == (key, st));
    } else {
        lemma_set_state_same_key(s.drop_first(), key, st);
        assert(spec_set_state(s, key, st)[0] == s[0]);
        assert(spec_set_state(s, key, st).drop_first() =~= spec_set_state(
            s.drop_first(),
            key,
            st,
        ));
    }
}

/// `spec_set_state` does not touch the state recorded for any other key.
pub proof fn lemma_set_state_other_key(
    s: Seq<(u64, MetaState)>,
    key: u64,
    st: MetaState,
    other: u64,
)
    requires
        other != key,
    ensures
        spec_state(spec_set_state(s, key, st), other) == spec_state(s, other),
    decreases s.len(),
{
    if s.len() == 0 {
        assert(spec_set_state(s, key, st) == seq![(key, st)]);
        assert(spec_state(spec_set_state(s, key, st), other) == spec_state(
            spec_set_state(s, key, st).drop_first(),
            other,
        ));
        assert(spec_set_state(s, key, st).drop_first() =~= Seq::<(u64, MetaState)>::empty());
    } else if s[0].0 == key {
        let t = spec_set_state(s, key, st);
        assert(t == seq![(key, st)] + s.drop_first());
        assert(t[0] == (key, st));
        assert(t.drop_first() =~= s.drop_first());
        assert(spec_state(t, other) == spec_state(s.drop_first(), other));
        assert(spec_state(s, other) == spec_state(s.drop_first(), other));
    } else {
        lemma_set_state_other_key(s.drop_first(), key, st, other);
        let t = spec_set_state(s, key, st);
        assert(t == seq![s[0]] + spec_set_state(s.drop_first(), key, st));
        assert(t[0] == s[0]);
        assert(t.drop_first() =~= spec_set_state(s.drop_first(), key, st));
        if s[0].0 == other {
            assert(spec_state(t, other) == t[0].1);
            assert(spec_state(s, other) == s[0].1);
        } else {
            assert(spec_state(t, other) == spec_state(t.drop_first(), other));
            assert(spec_state(s, other) == spec_state(s.drop_first(), other));
        }
    }
}

/// Law: resolution is linearized per type key. Starting from an
/// `Uninitialized` key, the first lookup is told to resolve; a lookup that
/// arrives while that resolution is in flight is told to wait, so the
/// expensive path runs at most once; and once the resolver publishes,
/// every later lookup observes exactly the published data.
pub proof fn lemma_resolve_once(s: Seq<(u64, MetaState)>, key: u64, m: JvmMeta)
    requires
        spec_state(s, key) is Uninitialized,
    ensures
        ({
            let (step1, s1) = spec_begin(s, key);
            let (step2, s2) = spec_begin(s1, key);
            let s3 = spec_finish(s1, key, Ok(m));
            let (step4, s4) = spec_begin(s3, key);
            &&& step1 is MustResolve
            &&& step2 is Wait
            &&& s2 == s1
            &&& step4 == ResolveStep::Cached(m)
            &&& s4 == s3
        }),
{
    lemma_set_state_same_key(s, key, MetaState::Resolving);
    let s1 = spec_set_state(s, key, MetaState::Resolving);
    lemma_set_state_same_key(s1, key, MetaState::Ready(m));
}

/// Law: a failed resolution is not cached. Publishing a failure returns
/// the key to `Uninitialized`, so the next lookup is told to resolve
/// again.
pub proof fn lemma_failure_is_retryable(
    s: Seq<(u64, MetaState)>,
    key: u64,
    e: ResolutionError,
)
    requires
        spec_state(s, key) is Uninitialized,
    ensures
        ({
            let (step1, s1) = spec_begin(s, key);
            let s2 = spec_finish(s1, key, Err(e));
            let (step3, s3) = spec_begin(s2, key);
            &&& step1 is MustResolve
            &&& spec_state(s2, key) is Uninitialized
            &&& step3 is MustResolve
        }),
{
    lemma_set_state_same_key(s, key, MetaState::Resolving);
    let s1 = spec_set_state(s, key, MetaState::Resolving);
    lemma_set_state_same_key(s1, key, MetaState::Uninitialized);
}

} // verus!
