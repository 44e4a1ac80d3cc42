use slime_ffi::registry::{DialectData, Registry, RegistryError};
use slime_ffi::runtime::{
    CommonContext, CommonDialectData, DartInitializeData, FrontendRuntime, JvmInitializeData,
    Language,
};

fn c_data(thread_id: u64) -> DialectData {
    DialectData::C { data: CommonDialectData {}, thread_id }
}

#[test]
fn scenario_same_library_id_yields_same_instance() {
    let mut reg = Registry::new();
    let h1 = reg.create_or_get(0, 7, &c_data(11)).unwrap();
    let h2 = reg.create_or_get(0, 7, &c_data(12)).unwrap();
    assert_eq!(h1, h2);
    match reg.get(h1) {
        Some(FrontendRuntime::C(c)) => {
            assert_eq!(c.ctx.library_id, 7);
            assert_eq!(c.ctx.thread_id, 11);
        }
        _ => panic!("expected the native-kind runtime created on first contact"),
    }
}

#[test]
fn distinct_library_ids_never_alias() {
    let mut reg = Registry::new();
    let h1 = reg.create_or_get(0, 7, &c_data(1)).unwrap();
    let h2 = reg.create_or_get(2, 8, &DialectData::Dart(DartInitializeData {})).unwrap();
    let h3 = reg.create_or_get(0, 7, &c_data(2)).unwrap();
    assert_ne!(h1, h2);
    assert_eq!(h1, h3);
    assert!(matches!(reg.get(h2), Some(FrontendRuntime::Dart(_))));
}

#[test]
fn unrecognized_kind_tag_is_rejected() {
    let mut reg = Registry::new();
    let r = reg.create_or_get(9, 7, &c_data(1));
    assert_eq!(r, Err(RegistryError::UnsupportedRuntime));
    assert!(reg.get(0).is_none());
}

#[test]
fn mismatched_dialect_data_is_rejected() {
    let mut reg = Registry::new();
    let r = reg.create_or_get(0, 7, &DialectData::Jvm(JvmInitializeData { vm: 100 }));
    assert_eq!(r, Err(RegistryError::WrongDialectData));
}

#[test]
fn second_virtual_machine_is_reported() {
    let mut reg = Registry::new();
    let h1 = reg.create_or_get(1, 1, &DialectData::Jvm(JvmInitializeData { vm: 100 }));
    assert!(h1.is_ok());
    let h2 = reg.create_or_get(1, 2, &DialectData::Jvm(JvmInitializeData { vm: 200 }));
    assert_eq!(h2, Err(RegistryError::VmConflict));
    let h3 = reg.create_or_get(1, 3, &DialectData::Jvm(JvmInitializeData { vm: 100 }));
    assert!(h3.is_ok());
    match reg.get(h3.unwrap()) {
        Some(FrontendRuntime::Jvm(j)) => assert_eq!(j.vm, 100),
        _ => panic!("expected a JVM-kind runtime"),
    }
}

#[test]
fn language_wire_codes() {
    assert_eq!(Language::C.code(), 0);
    assert_eq!(Language::Jvm.code(), 1);
    assert_eq!(Language::Dart.code(), 2);
    assert_eq!(Language::try_from_code(0), Ok(Language::C));
    assert_eq!(Language::try_from_code(1), Ok(Language::Jvm));
    assert_eq!(Language::try_from_code(2), Ok(Language::Dart));
    assert_eq!(Language::try_from_code(3), Err(()));
}

#[test]
fn language_names() {
    assert_eq!(Language::from_str("c"), Ok(Language::C));
    assert_eq!(Language::from_str("common"), Ok(Language::C));
    assert_eq!(Language::from_str("jvm"), Ok(Language::Jvm));
    assert_eq!(Language::from_str("dart"), Ok(Language::Dart));
    assert_eq!(Language::from_str("python"), Err(()));
}

#[test]
fn thread_affinity_check() {
    let ctx = CommonContext::new(7, 31);
    assert!(ctx.is_current_thread(31));
    assert!(!ctx.is_current_thread(32));
}
