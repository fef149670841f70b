use vstd::prelude::*;

verus! {

/// An instant in UTC: whole seconds since the Unix epoch and the
/// nanoseconds elapsed in that second.
#[derive(Debug, Clone, Copy, PartialEq, Eq, Structural)]
pub struct Timestamp {
    pub secs: i64,
    pub nanos: u32,
}

impl Timestamp {
    /// The nanoseconds stay within one second.
    pub open spec fn wf(&self) -> bool {
        self.nanos < 1_000_000_000
    }
}

/// Relies on `chrono::Utc::now`, read back with `DateTime::timestamp` and
/// `DateTime::timestamp_subsec_nanos`. `now` builds its value from the
/// system clock's duration since the epoch, so the seconds are not negative
/// and the nanoseconds are those of a `Duration`, below one second.
#[verifier::external_body]
pub(crate) fn now() -> (r: Timestamp)
    ensures
        r.wf(),
        r.secs >= 0,
{
    let t = chrono::Utc::now();
    Timestamp { secs: t.timestamp(), nanos: t.timestamp_subsec_nanos() }
}

} // verus!
