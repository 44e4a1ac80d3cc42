use slime_ffi::metadata::{
    FieldMeta, JvmMeta, MetaCache, PropertyMeta, ResolutionError, ResolveStep, StaticMethodMeta,
};

fn sample_meta() -> JvmMeta {
    JvmMeta {
        class: 40,
        properties: vec![
            ("balance".to_string(), PropertyMeta::Field(FieldMeta { field_id: 7 })),
            (
                "of".to_string(),
                PropertyMeta::StaticMethod(StaticMethodMeta { method_id: 9 }),
            ),
        ],
    }
}

#[test]
fn resolution_runs_once_and_publishes() {
    let mut cache = MetaCache::new();
    assert!(matches!(cache.begin_lookup(5), ResolveStep::MustResolve));
    assert!(matches!(cache.begin_lookup(5), ResolveStep::Wait));
    assert!(matches!(cache.begin_lookup(5), ResolveStep::Wait));
    let accepted = cache.finish_resolve(5, Ok(sample_meta()));
    assert!(accepted);
    match cache.begin_lookup(5) {
        ResolveStep::Cached(m) => {
            assert_eq!(m.class, 40);
            assert_eq!(m.properties.len(), 2);
            assert_eq!(m.properties[0].0, "balance");
            assert!(matches!(
                m.properties[0].1,
                PropertyMeta::Field(FieldMeta { field_id: 7 })
            ));
        }
        _ => panic!("published metadata must be served to every later caller"),
    }
    let m = cache.lookup(5).expect("resolved key must stay readable");
    assert_eq!(m.class, 40);
}

#[test]
fn distinct_keys_resolve_independently() {
    let mut cache = MetaCache::new();
    assert!(matches!(cache.begin_lookup(1), ResolveStep::MustResolve));
    assert!(matches!(cache.begin_lookup(2), ResolveStep::MustResolve));
    assert!(cache.finish_resolve(1, Ok(sample_meta())));
    assert!(matches!(cache.begin_lookup(1), ResolveStep::Cached(_)));
    assert!(matches!(cache.begin_lookup(2), ResolveStep::Wait));
}

#[test]
fn failed_resolution_is_retryable() {
    let mut cache = MetaCache::new();
    assert!(matches!(cache.begin_lookup(5), ResolveStep::MustResolve));
    assert!(cache.finish_resolve(5, Err(ResolutionError::ClassNotFound)));
    assert!(cache.lookup(5).is_none());
    assert!(matches!(cache.begin_lookup(5), ResolveStep::MustResolve));
    assert!(cache.finish_resolve(5, Ok(sample_meta())));
    assert!(cache.lookup(5).is_some());
}

#[test]
fn publication_without_resolution_is_rejected() {
    let mut cache = MetaCache::new();
    assert!(!cache.finish_resolve(5, Ok(sample_meta())));
    assert!(cache.lookup(5).is_none());
    assert!(matches!(cache.begin_lookup(5), ResolveStep::MustResolve));
    assert!(cache.finish_resolve(5, Ok(sample_meta())));
    assert!(!cache.finish_resolve(5, Err(ResolutionError::MemberMismatch)));
    assert!(cache.lookup(5).is_some());
}

#[test]
fn property_lookup_by_name() {
    let meta = sample_meta();
    assert!(matches!(
        meta.property("balance"),
        Some(PropertyMeta::Field(FieldMeta { field_id: 7 }))
    ));
    assert!(matches!(
        meta.property("of"),
        Some(PropertyMeta::StaticMethod(StaticMethodMeta { method_id: 9 }))
    ));
    assert!(meta.property("missing").is_none());
}
