//! Timestamps: from the text of an envelope to nanoseconds since the epoch.

use vstd::prelude::*;

verus! {

/// A point in time: whole seconds since the epoch and the nanoseconds after
/// them.
#[derive(Debug, Clone, Copy, PartialEq, Eq, Structural)]
pub struct UtcTime {
    pub seconds: i64,
    pub nanoseconds: i32,
}

/// What `time::strptime` followed by `Tm::to_timespec` gives for a text and
/// a format: the seconds and nanoseconds, or nothing where the text does not
/// match the format.
pub uninterp spec fn strptime_timespec(text: Seq<char>, format: Seq<char>) -> Option<UtcTime>;

/// The format of an envelope's timestamp: date and time of day with a `T`
/// between them, a fraction of a second, and a trailing `Z`.
pub open spec fn timestamp_format() -> Seq<char> {
    "%Y-%m-%dT%H:%M:%S.%fZ"@
}

/// Calls `time::strptime` on `text` with `format` and converts the broken-down
/// time with `Tm::to_timespec`.
///
/// Trusted: the result is a function of the two texts alone. The parse sets no
/// zone offset under this format, so the conversion goes by the UTC calendar
/// and reads neither the clock nor the time zone of the machine. The format is
/// held to the one this library uses: other directives can make the outside
/// code fail or consult the local zone.
#[verifier::external_body]
fn strptime_utc(text: &str, format: &str) -> (stamp: Option<UtcTime>)
    requires
        format@ == timestamp_format(),
    ensures
        stamp == strptime_timespec(text@, format@),
{
    match time::strptime(text, format) {
        Ok(tm) => {
            let at = tm.to_timespec();
            Some(UtcTime { seconds: at.sec, nanoseconds: at.nsec })
        },
        Err(_) => None,
    }
}

/// The number of nanoseconds from the epoch to a point in time.
pub open spec fn epoch_nanos(at: UtcTime) -> int {
    at.seconds * 1_000_000_000 + at.nanoseconds
}

impl UtcTime {
    /// The number of nanoseconds since the epoch; negative before it.
    pub fn to_epoch_nanos(self) -> (nanos: i128)
        ensures
            nanos == epoch_nanos(self),
    {
        (self.seconds as i128) * 1_000_000_000i128 + (self.nanoseconds as i128)
    }
}

/// Reads the timestamp of an envelope.
pub fn parse_timestamp(text: &str) -> (stamp: Option<UtcTime>)
    ensures
        stamp == strptime_timespec(text@, timestamp_format()),
{
    strptime_utc(text, "%Y-%m-%dT%H:%M:%S.%fZ")
}

} // verus!
