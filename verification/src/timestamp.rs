//! Points in time, held as plain values.

use vstd::prelude::*;

verus! {

/// A point in time in UTC: whole seconds since the Unix epoch and the
/// nanoseconds past that second (up to two seconds' worth while a leap
/// second is being represented).
#[derive(Clone, Copy, Debug, PartialEq, Eq, Structural)]
pub struct Timestamp {
    pub secs: i64,
    pub nanos: u32,
}

impl Timestamp {
    /// Whether the sub-second part lies in the range a UTC clock reading can have.
    pub open spec fn well_formed(self) -> bool {
        self.nanos < 2_000_000_000
    }
}

/// Reads the system clock through `chrono::Utc::now`, and splits the result
/// with `DateTime::timestamp` and `DateTime::timestamp_subsec_nanos`.
/// The reading depends on the time, so all that is claimed of it is what
/// chrono documents for every time value: the nanoseconds stay below two
/// seconds' worth.
#[verifier::external_body]
fn utc_now() -> (res: Timestamp)
    ensures
        res.well_formed(),
{
    let now = chrono::Utc::now();
    Timestamp { secs: now.timestamp(), nanos: now.timestamp_subsec_nanos() }
}

/// The time a file was last modified, or the current time where the file
/// system could not tell.
pub fn modified_or_now(modified: Option<Timestamp>) -> (res: Timestamp)
    ensures
        modified matches Some(t) ==> res == t,
        modified is None ==> res.well_formed(),
{
    match modified {
        Some(t) => t,
        None => utc_now(),
    }
}

} // verus!
