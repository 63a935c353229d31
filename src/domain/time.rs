use vstd::prelude::*;

verus! {

/// A point in time, in whole seconds since the Unix epoch (UTC).
#[derive(Clone, Copy, PartialEq, Eq, Structural, Debug)]
pub struct Time(i64);

/// The moment, in seconds since the Unix epoch, at which the UTC day that the
/// text names as `YYYY-MM-DD` begins; `None` when the text names no such day.
pub uninterp spec fn day_start_of(s: Seq<char>) -> Option<i64>;

/// Relies on chrono: `NaiveDate`'s `FromStr` (a `YYYY-MM-DD` date), then that
/// day's midnight as a UTC `timestamp`.
#[verifier::external_body]
fn parse_day_start(s: &str) -> (r: Result<i64, chrono::ParseError>)
    ensures
        match r {
            Ok(t) => day_start_of(s@) == Some(t),
            Err(_) => day_start_of(s@) is None,
        },
{
    s.parse::<chrono::NaiveDate>().map(|d| d.and_time(chrono::NaiveTime::MIN).and_utc().timestamp())
}

impl Time {
    pub fn from_timestamp(secs: i64) -> (r: Self)
        ensures
            r.secs() == secs,
    {
        Time(secs)
    }

    pub closed spec fn secs(&self) -> i64 {
        self.0
    }

    /// Seconds since the Unix epoch.
    pub fn timestamp(&self) -> (r: i64)
        ensures
            r == self.secs(),
    {
        self.0
    }

    /// The start of the UTC day written as `YYYY-MM-DD`.
    pub fn from_str(s: &str) -> (r: Result<Self, chrono::ParseError>)
        ensures
            match r {
                Ok(t) => day_start_of(s@) == Some(t.secs()),
                Err(_) => day_start_of(s@) is None,
            },
    {
        match parse_day_start(s) {
            Ok(secs) => Ok(Time(secs)),
            Err(e) => Err(e),
        }
    }
}

} // verus!
