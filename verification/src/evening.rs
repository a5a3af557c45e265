use crate::error::GuideError;
use crate::timestamp::{parse_timestamp, parsed_timestamp, Date, Timestamp, TIMESTAMP_FORMAT};
use vstd::prelude::*;

verus! {

/// 20:45:00 in seconds from midnight: an evening programme starts later than this.
pub const WINDOW_OPENS: u32 = 20 * 3600 + 45 * 60;

/// 21:20:00 in seconds from midnight: an evening programme starts earlier than this.
pub const WINDOW_CLOSES: u32 = 21 * 3600 + 20 * 60;

/// Thirty-five minutes in seconds: an evening programme runs longer than this.
pub const SHORT_PROGRAM: i64 = 35 * 60;

/// Whether a programme from `start` to `end` is one of the evening of `today`: it starts on
/// that date, at a wall-clock time strictly between 20:45:00 and 21:20:00, and runs for
/// strictly more than thirty-five minutes.
pub open spec fn evening_window(start: Timestamp, end: Timestamp, today: Date) -> bool {
    &&& start.date() == today
    &&& WINDOW_OPENS < start.seconds_of_day() < WINDOW_CLOSES
    &&& end.unix_seconds() - start.unix_seconds() > SHORT_PROGRAM
}

/// Decides [`evening_window`] on times that are already read.
pub fn in_evening_window(start: &Timestamp, end: &Timestamp, today: Date) -> (within: bool)
    ensures
        within == evening_window(*start, *end, today),
{
    let clock: u32 = start.hour() * 3600 + start.minute() * 60 + start.second();
    let length: i128 = end.unix_seconds() as i128 - start.unix_seconds() as i128;
    start.date() == today && WINDOW_OPENS < clock && clock < WINDOW_CLOSES && length
        > SHORT_PROGRAM as i128
}

/// Reads the two times of a programme and decides [`evening_window`] on them. Either text
/// failing to read as a timestamp is an error, whatever the other holds.
pub fn is_evening_program(start_date: &str, end_date: &str, today: Date) -> (decided: Result<
    bool,
    GuideError,
>)
    ensures
        decided == match (
            parsed_timestamp(start_date@, TIMESTAMP_FORMAT@),
            parsed_timestamp(end_date@, TIMESTAMP_FORMAT@),
        ) {
            (Some(start), Some(end)) => Ok::<bool, GuideError>(evening_window(start, end, today)),
            _ => Err(GuideError::MalformedTimestamp),
        },
{
    let start = match parse_timestamp(start_date) {
        Some(start) => start,
        None => {
            return Err(GuideError::MalformedTimestamp);
        },
    };
    let end = match parse_timestamp(end_date) {
        Some(end) => end,
        None => {
            return Err(GuideError::MalformedTimestamp);
        },
    };
    Ok(in_evening_window(&start, &end, today))
}

/// A programme that starts on another day is never an evening programme of `today`.
pub proof fn lemma_other_day_excluded(start: Timestamp, end: Timestamp, today: Date)
    requires
        start.date() != today,
    ensures
        !evening_window(start, end, today),
{
}

/// The window is open at both ends: a programme that starts at 20:45:00 or earlier, or at
/// 21:20:00 or later, is excluded, whatever its date and its length.
pub proof fn lemma_window_ends_excluded(start: Timestamp, end: Timestamp, today: Date)
    requires
        start.seconds_of_day() <= WINDOW_OPENS || start.seconds_of_day() >= WINDOW_CLOSES,
    ensures
        !evening_window(start, end, today),
{
}

/// A programme that runs for thirty-five minutes or less is excluded, whenever it starts.
pub proof fn lemma_short_program_excluded(start: Timestamp, end: Timestamp, today: Date)
    requires
        end.unix_seconds() - start.unix_seconds() <= SHORT_PROGRAM,
    ensures
        !evening_window(start, end, today),
{
}

/// One second inside each bound is enough: a programme of `today` that starts from
/// 20:45:01 to 21:19:59 and runs for thirty-five minutes and a second, or longer, is
/// included.
pub proof fn lemma_one_second_inside_included(start: Timestamp, end: Timestamp, today: Date)
    requires
        start.date() == today,
        WINDOW_OPENS + 1 <= start.seconds_of_day() <= WINDOW_CLOSES - 1,
        end.unix_seconds() - start.unix_seconds() >= SHORT_PROGRAM + 1,
    ensures
        evening_window(start, end, today),
{
}

} // verus!
