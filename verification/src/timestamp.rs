//! Points in time, held as plain integers.

use vstd::prelude::*;

verus! {

/// A UTC instant as `chrono::DateTime<Utc>` holds it: whole seconds since
/// the Unix epoch, and the nanoseconds past that second (a leap second is
/// written with `nanos` from one to two billion).
#[derive(Clone, Copy, Debug, PartialEq, Eq, Structural)]
pub struct Timestamp {
    pub secs: i64,
    pub nanos: u32,
}

impl Timestamp {
    /// The instant `secs` seconds and `nanos` nanoseconds after the epoch.
    pub fn new(secs: i64, nanos: u32) -> (t: Timestamp)
        ensures
            t.secs == secs,
            t.nanos == nanos,
    {
        Timestamp { secs, nanos }
    }
}

} // verus!
