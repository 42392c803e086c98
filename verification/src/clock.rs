//! Instants as plain values, and the clock that stamps them.

use vstd::prelude::*;

verus! {

/// An instant with the UTC offset it was written in.
///
/// `secs` and `nanos` count from the Unix epoch in UTC; `offset` is the
/// number of seconds that local time is ahead of UTC.
#[derive(Clone, Copy, Debug, PartialEq, Eq, Structural)]
pub struct Timestamp {
    pub secs: i64,
    pub nanos: u32,
    pub offset: i32,
}

/// The current instant, read with `chrono::Utc::now` and turned into a
/// fixed-offset value as `chrono` converts it.
///
/// Trusted: that conversion gives offset zero. Nothing is claimed of the
/// instant itself. `chrono` panics when the system clock stands before the
/// Unix epoch.
#[verifier::external_body]
pub(crate) fn now() -> (t: Timestamp)
    ensures
        t.offset == 0,
{
    let t: chrono::DateTime<chrono::FixedOffset> = chrono::Utc::now().into();
    Timestamp {
        secs: t.timestamp(),
        nanos: t.timestamp_subsec_nanos(),
        offset: t.offset().local_minus_utc(),
    }
}

} // verus!
