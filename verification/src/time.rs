//! Points in time.

use std::fmt::Write;

use vstd::prelude::*;
use vstd::string::*;

verus! {

/// A point in time, and the distance of the local clock from UTC in seconds.
#[derive(Clone, Copy, Debug, PartialEq, Eq, Structural)]
pub struct Timestamp {
    pub secs: i64,
    pub nanos: u32,
    pub offset: i32,
}

impl Timestamp {
    /// Whether this point in time is not later than another.
    pub open spec fn not_after(self, other: Timestamp) -> bool {
        self.secs < other.secs || (self.secs == other.secs && self.nanos <= other.nanos)
    }

    /// Whether this point in time is not later than another.
    pub fn is_not_after(self, other: Timestamp) -> (r: bool)
        ensures
            r == self.not_after(other),
    {
        self.secs < other.secs || (self.secs == other.secs && self.nanos <= other.nanos)
    }

    /// The point in time, written as `format` says; `None` if it cannot be.
    pub open spec fn formatted(self, format: Seq<char>) -> Option<Seq<char>> {
        formatted_time(self.secs, self.nanos, self.offset, format)
    }

    /// The point in time, written as `format` says; `None` if it cannot be.
    pub fn format(self, format: &str) -> (r: Option<String>)
        ensures
            r is Some <==> self.formatted(format@) is Some,
            r matches Some(s) ==> s@ == self.formatted(format@)->0,
    {
        format_time(self.secs, self.nanos, self.offset, format)
    }
}

/// How `chrono` writes a point in time, given as seconds and nanoseconds since the
/// epoch and the offset of the local clock.
pub uninterp spec fn formatted_time(secs: i64, nanos: u32, offset: i32, format: Seq<char>) -> Option<
    Seq<char>,
>;

/// `chrono::DateTime::format` depends on the point in time, the offset and the
/// format alone. It is `None` where there is no such date or offset, or where
/// `chrono` does not take the format.
#[verifier::external_body]
fn format_time(secs: i64, nanos: u32, offset: i32, format: &str) -> (r: Option<String>)
    ensures
        (match r {
            Some(s) => Some(s@),
            None => None,
        }) == formatted_time(secs, nanos, offset, format@),
{
    let zone = chrono::FixedOffset::east_opt(offset)?;
    let time = chrono::DateTime::from_timestamp(secs, nanos)?.with_timezone(&zone);
    let mut text = String::new();
    write!(text, "{}", time.format(format)).ok()?;
    Some(text)
}

} // verus!
