//! Wall-clock timestamps. The engine stamps transitions with the local time
//! and carries the stamps through; it never computes with one.

use vstd::prelude::*;

verus! {

/// A point in time with the local offset it was taken at: seconds and
/// nanoseconds since the Unix epoch (UTC), and the offset of local time from
/// UTC in seconds.
#[derive(Clone, Copy, Debug, PartialEq, Eq, Structural)]
pub struct Timestamp {
    pub seconds: i64,
    pub nanos: u32,
    pub offset_seconds: i32,
}

/// The current local time, read with `chrono::Local::now` and taken apart into
/// plain numbers. Nothing is promised of the value: it is whatever the system
/// clock and time zone give at the moment of the call.
#[verifier::external_body]
pub(crate) fn local_now() -> (now: Timestamp) {
    let t = chrono::Local::now();
    Timestamp {
        seconds: t.timestamp(),
        nanos: t.timestamp_subsec_nanos(),
        offset_seconds: t.offset().local_minus_utc(),
    }
}

} // verus!
