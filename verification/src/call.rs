//! Call envelope: the ABI-stable structure used to return a value, an
//! error, or a captured panic from any boundary-crossing call.
//!
//! The wire layout is a status byte followed by a payload slot; the payload
//! must not be read unless the status says a value was written. Unwinding
//! never crosses the boundary: a native defect is captured at the outermost
//! entry point and reported as a `Panic` envelope instead.

use vstd::prelude::*;

verus! {

/// Status byte of a call envelope.
///
/// `Unknown` is only ever seen on a freshly allocated, not-yet-populated
/// envelope; observing it after a call is an invariant violation in the
/// caller, never a legitimate outcome. `Error` carries an expected,
/// declared failure; `Panic` carries a captured native defect.
#[derive(Clone, Copy, Debug, PartialEq, Eq, Structural)]
pub enum CallStatus {
    Unknown,
    Success,
    Error,
    Panic,
}

impl CallStatus {
    /// The fixed wire encoding of each status.
    pub open spec fn spec_code(self) -> u8 {
        match self {
            CallStatus::Unknown => 0,
            CallStatus::Success => 1,
            CallStatus::Error => 2,
            CallStatus::Panic => 3,
        }
    }

    /// Encode the status as its wire byte.
    pub fn code(&self) -> (c: u8)
        ensures
            c == self.spec_code(),
    {
        match self {
            CallStatus::Unknown => 0,
            CallStatus::Success => 1,
            CallStatus::Error => 2,
            CallStatus::Panic => 3,
        }
    }

    /// Decode a wire byte; exactly the bytes `0..=3` are valid.
    pub fn try_from_code(code: u8) -> (r: Result<CallStatus, ()>)
        ensures
            code <= 3 ==> (r matches Ok(s) && s.spec_code() == code),
            code > 3 ==> r is Err,
    {
        match code {
            0 => Ok(CallStatus::Unknown),
            1 => Ok(CallStatus::Success),
            2 => Ok(CallStatus::Error),
            3 => Ok(CallStatus::Panic),
            _ => Err(()),
        }
    }
}

/// Outcome of one boundary-crossing call: a status byte and a payload slot.
///
/// The payload slot is written only when the status says so; a payload that
/// was never written is `None`, so destructuring stays total and no caller
/// can read uninitialized data. A void-returning success is `Success` with
/// an empty payload, which is distinct from a not-yet-populated (`Unknown`)
/// envelope.
pub struct CallResult<T> {
    pub code: u8,
    pub data: Option<T>,
}

impl<T> CallResult<T> {
    /// A freshly allocated, not-yet-populated envelope.
    pub fn new() -> (r: CallResult<T>)
        ensures
            r.code == CallStatus::Unknown.spec_code(),
            r.data is None,
    {
        CallResult { code: CallStatus::Unknown.code(), data: None }
    }

    /// A successful call; `data` is `None` exactly for a void return.
    pub fn success(data: Option<T>) -> (r: CallResult<T>)
        ensures
            r.code == CallStatus::Success.spec_code(),
            r.data == data,
    {
        CallResult { code: CallStatus::Success.code(), data }
    }

    /// An expected, declared failure carrying its error value.
    pub fn error(message: T) -> (r: CallResult<T>)
        ensures
            r.code == CallStatus::Error.spec_code(),
            r.data == Some(message),
    {
        CallResult { code: CallStatus::Error.code(), data: Some(message) }
    }

    /// A captured native defect; the diagnostic stays retrievable so the
    /// host can surface it through its own error mechanism.
    pub fn panic(info: T) -> (r: CallResult<T>)
        ensures
            r.code == CallStatus::Panic.spec_code(),
            r.data == Some(info),
    {
        CallResult { code: CallStatus::Panic.code(), data: Some(info) }
    }

    /// Decode the status byte of this envelope.
    pub fn status(&self) -> (r: Result<CallStatus, ()>)
        ensures
            self.code <= 3 ==> (r matches Ok(s) && s.spec_code() == self.code),
            self.code > 3 ==> r is Err,
    {
        CallStatus::try_from_code(self.code)
    }
}

} // verus!
