use vstd::prelude::*;

use crate::clock::{now, Timestamp};

verus! {

/// The uniform envelope around every response of the service.
///
/// A successful response carries its payload in `data`; a failed one
/// carries its message in `error`. `timestamp` is when it was built.
#[derive(Debug)]
pub struct ApiResponse<T> {
    pub success: bool,
    pub data: Option<T>,
    pub error: Option<String>,
    pub timestamp: Timestamp,
}

impl<T> ApiResponse<T> {
    /// Exactly one of `data` and `error` is present, and `success` says
    /// which.
    pub open spec fn wf(&self) -> bool {
        &&& self.success ==> self.data is Some && self.error is None
        &&& !self.success ==> self.data is None && self.error is Some
        &&& self.timestamp.wf()
    }

    /// A successful envelope around `data`, stamped now.
    pub fn success(data: T) -> (r: Self)
        ensures
            r.wf(),
            r.success,
            r.data == Some(data),
    {
        ApiResponse { success: true, data: Some(data), error: None, timestamp: now() }
    }

    /// A failed envelope carrying the message `error`, stamped now.
    pub fn error(error: String) -> (r: ApiResponse<()>)
        ensures
            r.wf(),
            !r.success,
            r.error == Some(error),
    {
        ApiResponse { success: false, data: None, error: Some(error), timestamp: now() }
    }
}

/// In every well-formed envelope exactly one of `data` and `error` is
/// present, and `success` holds exactly when it is `data`.
pub proof fn lemma_envelope_exclusive<T>(r: ApiResponse<T>)
    requires
        r.wf(),
    ensures
        (r.data is Some) != (r.error is Some),
        r.success == (r.data is Some),
        r.success == (r.error is None),
{
}

} // verus!
