use evening_guide::error::GuideError;
use evening_guide::evening::{in_evening_window, is_evening_program};
use evening_guide::timestamp::{Date, Timestamp};

const TODAY: Date = Date { year: 2024, month: 1, day: 31 };

// 2024-01-31 00:00:00 +0100 in seconds from the start of 1970 in UTC.
const MIDNIGHT: i64 = 1706655600;

fn at(hour: u32, minute: u32, second: u32) -> Timestamp {
    let seconds = MIDNIGHT + (hour * 3600 + minute * 60 + second) as i64;
    Timestamp::new(TODAY, hour, minute, second, seconds).unwrap()
}

#[test]
fn start_at_the_opening_of_the_window_is_excluded() {
    assert!(!in_evening_window(&at(20, 45, 0), &at(22, 0, 0), TODAY));
    assert!(in_evening_window(&at(20, 45, 1), &at(22, 0, 0), TODAY));
    assert!(!in_evening_window(&at(20, 44, 59), &at(22, 0, 0), TODAY));
}

#[test]
fn start_at_the_closing_of_the_window_is_excluded() {
    assert!(!in_evening_window(&at(21, 20, 0), &at(23, 0, 0), TODAY));
    assert!(in_evening_window(&at(21, 19, 59), &at(23, 0, 0), TODAY));
    assert!(!in_evening_window(&at(21, 20, 1), &at(23, 0, 0), TODAY));
}

#[test]
fn thirty_five_minutes_are_too_short() {
    assert!(!in_evening_window(&at(20, 50, 0), &at(21, 25, 0), TODAY));
    assert!(in_evening_window(&at(20, 50, 0), &at(21, 25, 1), TODAY));
    assert!(!in_evening_window(&at(20, 50, 0), &at(21, 24, 59), TODAY));
    assert!(!in_evening_window(&at(20, 50, 0), &at(20, 50, 0), TODAY));
    assert!(!in_evening_window(&at(20, 50, 0), &at(20, 0, 0), TODAY));
}

#[test]
fn another_day_is_excluded() {
    let start = at(20, 50, 0);
    let end = at(21, 30, 0);
    assert!(in_evening_window(&start, &end, TODAY));
    assert!(!in_evening_window(&start, &end, Date { year: 2024, month: 1, day: 30 }));
    assert!(!in_evening_window(&start, &end, Date { year: 2024, month: 2, day: 1 }));
    assert!(!in_evening_window(&start, &end, Date { year: 2024, month: 2, day: 31 }));
    assert!(!in_evening_window(&start, &end, Date { year: 2023, month: 1, day: 31 }));
}

#[test]
fn length_is_measured_between_moments_not_wall_clocks() {
    // The same start, and an end given in another offset: 21:30 +0100 is 20:30 +0000.
    let start = at(20, 50, 0);
    let end = Timestamp::new(TODAY, 20, 30, 0, start.unix_seconds() + 40 * 60).unwrap();
    assert!(in_evening_window(&start, &end, TODAY));
}

#[test]
fn length_does_not_overflow_at_the_ends_of_the_range() {
    let start = Timestamp::new(TODAY, 20, 50, 0, i64::MIN).unwrap();
    let end = Timestamp::new(TODAY, 21, 30, 0, i64::MAX).unwrap();
    assert!(in_evening_window(&start, &end, TODAY));
    assert!(!in_evening_window(&end, &start, TODAY));
}

#[test]
fn is_evening_program_reads_both_times() {
    assert_eq!(
        is_evening_program("20240131205000 +0100", "20240131213000 +0100", TODAY),
        Ok(true)
    );
    assert_eq!(
        is_evening_program("20240131204500 +0100", "20240131213000 +0100", TODAY),
        Ok(false)
    );
    assert_eq!(
        is_evening_program("20240131204501 +0100", "20240131213000 +0100", TODAY),
        Ok(true)
    );
    assert_eq!(
        is_evening_program("20240131212000 +0100", "20240131223000 +0100", TODAY),
        Ok(false)
    );
    assert_eq!(
        is_evening_program("20240131211959 +0100", "20240131223000 +0100", TODAY),
        Ok(true)
    );
    assert_eq!(
        is_evening_program("20240131205000 +0100", "20240131212500 +0100", TODAY),
        Ok(false)
    );
    assert_eq!(
        is_evening_program("20240131205000 +0100", "20240131212501 +0100", TODAY),
        Ok(true)
    );
    assert_eq!(
        is_evening_program("20240130205000 +0100", "20240130213000 +0100", TODAY),
        Ok(false)
    );
}

#[test]
fn is_evening_program_goes_by_the_wall_clock_of_the_text() {
    // 20:50 in Paris is 19:50 in UTC: told in UTC, the programme starts before the window.
    assert_eq!(
        is_evening_program("20240131195000 +0000", "20240131203000 +0000", TODAY),
        Ok(false)
    );
    // Told with an end in another offset, its length is still forty minutes.
    assert_eq!(
        is_evening_program("20240131205000 +0100", "20240131203000 +0000", TODAY),
        Ok(true)
    );
}

#[test]
fn is_evening_program_fails_on_a_malformed_time() {
    assert_eq!(
        is_evening_program("yesterday", "20240131213000 +0100", TODAY),
        Err(GuideError::MalformedTimestamp)
    );
    assert_eq!(
        is_evening_program("20240131205000 +0100", "", TODAY),
        Err(GuideError::MalformedTimestamp)
    );
    assert_eq!(
        is_evening_program("20240130000000", "20240131213000", TODAY),
        Err(GuideError::MalformedTimestamp)
    );
}
