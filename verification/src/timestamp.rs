use chrono::Datelike;
use chrono::Timelike;
use vstd::prelude::*;

verus! {

/// The textual form of every timestamp of a feed, in chrono's format syntax: year, month,
/// day, hour, minute and second as digits, white space, then a signed offset from UTC in
/// hours and minutes.
pub const TIMESTAMP_FORMAT: &'static str = "%Y%m%d%H%M%S %z";

/// A calendar date: year, month of the year (from 1) and day of the month (from 1).
#[derive(Clone, Copy, Debug, PartialEq, Eq, Structural)]
pub struct Date {
    pub year: i32,
    pub month: u32,
    pub day: u32,
}

/// A point in time as a feed states it: the wall-clock reading in the offset that the text
/// carries, and the same moment counted in whole seconds from the start of 1970 in UTC.
///
/// Every value has `hour` below 24 and `minute` and `second` below 60.
#[derive(Clone, Copy, Debug, PartialEq, Eq, Structural)]
pub struct Timestamp {
    pub(crate) date: Date,
    pub(crate) hour: u32,
    pub(crate) minute: u32,
    pub(crate) second: u32,
    pub(crate) unix_seconds: i64,
}

/// Whether `hour`, `minute` and `second` can be read off a clock.
pub open spec fn clock_reading(hour: u32, minute: u32, second: u32) -> bool {
    hour < 24 && minute < 60 && second < 60
}

impl Timestamp {
    #[verifier::type_invariant]
    pub closed spec fn well_formed(self) -> bool {
        clock_reading(self.hour, self.minute, self.second)
    }

    /// The date on the wall clock.
    pub closed spec fn spec_date(&self) -> Date {
        self.date
    }

    /// The hour on the wall clock.
    pub closed spec fn spec_hour(&self) -> u32 {
        self.hour
    }

    /// The minute on the wall clock.
    pub closed spec fn spec_minute(&self) -> u32 {
        self.minute
    }

    /// The second on the wall clock.
    pub closed spec fn spec_second(&self) -> u32 {
        self.second
    }

    /// Whole seconds from the start of 1970 in UTC to this moment.
    pub closed spec fn spec_unix_seconds(&self) -> i64 {
        self.unix_seconds
    }

    /// Seconds from midnight to the wall-clock reading.
    pub open spec fn seconds_of_day(&self) -> int {
        self.spec_hour() * 3600 + self.spec_minute() * 60 + self.spec_second()
    }

    /// Builds a timestamp from its parts; `None` when the three clock fields cannot be read
    /// off a clock.
    pub fn new(date: Date, hour: u32, minute: u32, second: u32, unix_seconds: i64) -> (made:
        Option<Timestamp>)
        ensures
            made is Some <==> clock_reading(hour, minute, second),
            made matches Some(t) ==> {
                &&& t.spec_date() == date
                &&& t.spec_hour() == hour
                &&& t.spec_minute() == minute
                &&& t.spec_second() == second
                &&& t.spec_unix_seconds() == unix_seconds
            },
    {
        if hour < 24 && minute < 60 && second < 60 {
            Some(Timestamp { date, hour, minute, second, unix_seconds })
        } else {
            None
        }
    }

    #[verifier::when_used_as_spec(spec_date)]
    pub fn date(&self) -> (date: Date)
        ensures
            date == self.spec_date(),
    {
        self.date
    }

    #[verifier::when_used_as_spec(spec_hour)]
    pub fn hour(&self) -> (hour: u32)
        ensures
            hour == self.spec_hour(),
            hour < 24,
    {
        proof {
            use_type_invariant(self);
        }
        self.hour
    }

    #[verifier::when_used_as_spec(spec_minute)]
    pub fn minute(&self) -> (minute: u32)
        ensures
            minute == self.spec_minute(),
            minute < 60,
    {
        proof {
            use_type_invariant(self);
        }
        self.minute
    }

    #[verifier::when_used_as_spec(spec_second)]
    pub fn second(&self) -> (second: u32)
        ensures
            second == self.spec_second(),
            second < 60,
    {
        proof {
            use_type_invariant(self);
        }
        self.second
    }

    #[verifier::when_used_as_spec(spec_unix_seconds)]
    pub fn unix_seconds(&self) -> (seconds: i64)
        ensures
            seconds == self.spec_unix_seconds(),
    {
        self.unix_seconds
    }
}

/// What chrono's `DateTime::parse_from_str` makes of `text` under `format`: `None` where it
/// reports an error, else the date and time it read, in the offset it read.
pub uninterp spec fn parsed_timestamp(text: Seq<char>, format: Seq<char>) -> Option<Timestamp>;

/// Calls chrono's `DateTime::parse_from_str` and copies out of its answer what `year`,
/// `month`, `day`, `hour`, `minute`, `second` and `timestamp` give for it.
///
/// Taken on trust: the answer depends on the two texts alone, and the three clock accessors
/// keep to the ranges that chrono documents for them (hours up to 23, minutes and seconds up
/// to 59; a leap second reads as second 59).
#[verifier::external_body]
fn parse_from_str(text: &str, format: &str) -> (parsed: Option<Timestamp>)
    ensures
        parsed == parsed_timestamp(text@, format@),
        parsed matches Some(t) ==> t.well_formed(),
{
    match chrono::DateTime::parse_from_str(text, format) {
        Ok(t) => Some(
            Timestamp {
                date: Date { year: t.year(), month: t.month(), day: t.day() },
                hour: t.hour(),
                minute: t.minute(),
                second: t.second(),
                unix_seconds: t.timestamp(),
            },
        ),
        Err(_) => None,
    }
}

/// Asks chrono's `Local::now` for the current moment and copies out what `year`, `month`
/// and `day` give for it.
///
/// Nothing is claimed of the answer: it is whatever the system clock and the time zone of
/// the machine give. chrono does not answer at all where the clock reads a moment before
/// 1970.
#[verifier::external_body]
pub(crate) fn local_today() -> Date {
    let now = chrono::Local::now();
    Date { year: now.year(), month: now.month(), day: now.day() }
}

/// Reads a feed timestamp; `None` where the text does not follow [`TIMESTAMP_FORMAT`].
pub fn parse_timestamp(text: &str) -> (parsed: Option<Timestamp>)
    ensures
        parsed == parsed_timestamp(text@, TIMESTAMP_FORMAT@),
{
    parse_from_str(text, TIMESTAMP_FORMAT)
}

} // verus!
