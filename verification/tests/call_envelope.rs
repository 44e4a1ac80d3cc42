use slime_ffi::call::{CallResult, CallStatus};

#[test]
fn envelope_new_is_unknown() {
    let r: CallResult<String> = CallResult::new();
    assert_eq!(r.code, 0);
    assert!(r.data.is_none());
    assert_eq!(r.status(), Ok(CallStatus::Unknown));
}

#[test]
fn envelope_success_without_payload() {
    let r: CallResult<String> = CallResult::success(None);
    assert_eq!(r.code, 1);
    assert!(r.data.is_none());
    assert_eq!(r.status(), Ok(CallStatus::Success));
}

#[test]
fn envelope_success_with_payload() {
    let r: CallResult<i64> = CallResult::success(Some(42));
    assert_eq!(r.code, 1);
    assert_eq!(r.data, Some(42));
    assert_eq!(r.status(), Ok(CallStatus::Success));
}

#[test]
fn envelope_error_carries_message() {
    let r: CallResult<String> = CallResult::error("declared failure".to_string());
    assert_eq!(r.code, 2);
    assert_eq!(r.data.as_deref(), Some("declared failure"));
    assert_eq!(r.status(), Ok(CallStatus::Error));
}

#[test]
fn envelope_panic_diagnostic_retrievable() {
    let r: CallResult<String> = CallResult::panic("captured defect".to_string());
    assert_eq!(r.code, 3);
    assert_eq!(r.data.as_deref(), Some("captured defect"));
    assert_eq!(r.status(), Ok(CallStatus::Panic));
}

#[test]
fn status_bytes_round_trip() {
    let all = vec![
        CallStatus::Unknown,
        CallStatus::Success,
        CallStatus::Error,
        CallStatus::Panic,
    ];
    for (i, s) in all.into_iter().enumerate() {
        assert_eq!(s.code() as usize, i);
        assert_eq!(CallStatus::try_from_code(s.code()), Ok(s));
    }
    assert_eq!(CallStatus::try_from_code(4), Err(()));
    assert_eq!(CallStatus::try_from_code(255), Err(()));
}
