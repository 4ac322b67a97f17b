//! Points in time, as the store records them.

use vstd::prelude::*;

verus! {

/// A moment together with the offset from UTC in which it is shown:
/// nanoseconds since the Unix epoch, and the offset in seconds, positive
/// to the east.
#[derive(Clone, Copy, Debug, PartialEq, Eq, Structural)]
pub struct Timestamp {
    pub unix_nanos: i128,
    pub offset_seconds: i32,
}

impl Timestamp {
    /// Whether this moment lies strictly after `earlier`, whatever the
    /// offsets in which the two are shown.
    pub open spec fn is_after(self, earlier: Timestamp) -> bool {
        self.unix_nanos > earlier.unix_nanos
    }
}

/// Calls `time::OffsetDateTime::now_local` and takes the moment and the
/// offset of what it read, or `None` where the local offset could not be
/// determined. Nothing is claimed of the value: it is whatever the system
/// clock and the time zone of the process give. The call panics where the
/// system clock stands outside the years that the `time` crate can hold.
#[verifier::external_body]
pub(crate) fn local_now() -> (r: Option<Timestamp>) {
    match time::OffsetDateTime::now_local() {
        Ok(now) => Some(
            Timestamp {
                unix_nanos: now.unix_timestamp_nanos(),
                offset_seconds: now.offset().whole_seconds(),
            },
        ),
        Err(_) => None,
    }
}

} // verus!
