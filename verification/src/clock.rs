//! Local wall-clock time, reduced to the plain calendar and clock fields the
//! backup folder name is formatted from.

use chrono::Datelike;
use chrono::Timelike;
use vstd::prelude::*;

verus! {

/// A local calendar date and clock time, second precision.
#[derive(Clone, Copy, Debug, PartialEq, Eq, Structural)]
pub struct LocalTime {
    pub year: i32,
    pub month: u32,
    pub day: u32,
    pub hour: u32,
    pub minute: u32,
    pub second: u32,
}

impl LocalTime {
    /// Field ranges every wall-clock reading satisfies.
    pub open spec fn wf(self) -> bool {
        &&& -262143 <= self.year <= 262142
        &&& 1 <= self.month <= 12
        &&& 1 <= self.day <= 31
        &&& self.hour <= 23
        &&& self.minute <= 59
        &&& self.second <= 59
    }
}

/// Relies on chrono::Local::now and chrono's Datelike/Timelike accessors for
/// the current local time: month is 1..=12, day 1..=31, hour 0..=23, minute
/// and second 0..=59, and the year lies within the range a chrono date can
/// represent. The reading itself depends on the clock, so nothing relates two
/// calls.
#[verifier::external_body]
pub(crate) fn now_local() -> (t: LocalTime)
    ensures
        t.wf(),
{
    let now = chrono::Local::now();
    LocalTime {
        year: now.year(),
        month: now.month(),
        day: now.day(),
        hour: now.hour(),
        minute: now.minute(),
        second: now.second(),
    }
}

} // verus!
