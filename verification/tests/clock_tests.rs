use rserial::clock::{
    format_date_for_filename_with_offset, format_timestamp_with_offset, offset_seconds, UtcTime, MAX_UTC_SECONDS,
};

fn at(seconds: i64, nanoseconds: u32) -> UtcTime {
    UtcTime::new(seconds, nanoseconds).unwrap()
}

#[test]
fn a_time_is_made_only_within_the_years_it_covers() {
    let first = UtcTime::new(0, 0).unwrap();
    assert_eq!((first.seconds(), first.nanoseconds()), (0, 0));
    let last = UtcTime::new(MAX_UTC_SECONDS, 999_999_999).unwrap();
    assert_eq!((last.seconds(), last.nanoseconds()), (253_402_300_799, 999_999_999));
    assert_eq!(UtcTime::new(-1, 0), None);
    assert_eq!(UtcTime::new(MAX_UTC_SECONDS + 1, 0), None);
    assert_eq!(UtcTime::new(5, 1_000_000_000), None);
    assert_eq!(UtcTime::new(i64::MIN, 0), None);
    assert_eq!(UtcTime::new(i64::MAX, u32::MAX), None);
}

#[test]
fn times_are_equal_by_seconds_and_nanoseconds() {
    assert_eq!(at(7, 9), at(7, 9));
    assert_ne!(at(7, 9), at(7, 8));
    assert_ne!(at(7, 9), at(8, 9));
}

#[test]
fn the_time_of_day_has_milliseconds_cut_off() {
    let time = at(1_700_000_000, 123_999_999);
    assert_eq!(format_timestamp_with_offset(time, 0), "22:13:20.123");
    assert_eq!(format_timestamp_with_offset(at(0, 0), 0), "00:00:00.000");
    assert_eq!(format_timestamp_with_offset(at(86_399, 5_000_000), 0), "23:59:59.005");
}

#[test]
fn the_offset_moves_the_clock() {
    let time = at(1_700_000_000, 123_456_789);
    assert_eq!(format_timestamp_with_offset(time, 480), "06:13:20.123");
    assert_eq!(format_timestamp_with_offset(time, -90), "20:43:20.123");
    assert_eq!(format_timestamp_with_offset(time, 1439), "22:12:20.123");
    assert_eq!(format_timestamp_with_offset(time, -1439), "22:14:20.123");
    assert_eq!(format_timestamp_with_offset(at(0, 0), -1), "23:59:00.000");
}

#[test]
fn an_offset_of_a_day_or_more_counts_as_none() {
    let time = at(1_700_000_000, 123_456_789);
    assert_eq!(format_timestamp_with_offset(time, 1440), "22:13:20.123");
    assert_eq!(format_timestamp_with_offset(time, -1440), "22:13:20.123");
    assert_eq!(format_timestamp_with_offset(time, i32::MAX), "22:13:20.123");
    assert_eq!(format_timestamp_with_offset(time, i32::MIN), "22:13:20.123");
    assert_eq!(offset_seconds(1440), 0);
    assert_eq!(offset_seconds(1439), 86_340);
    assert_eq!(offset_seconds(-1439), -86_340);
    assert_eq!(offset_seconds(60), 3600);
}

#[test]
fn the_file_name_stamp_has_date_and_time() {
    let time = at(1_700_000_000, 123_456_789);
    assert_eq!(format_date_for_filename_with_offset(time, 0), "2023-11-14_22-13-20");
    assert_eq!(format_date_for_filename_with_offset(time, 480), "2023-11-15_06-13-20");
    assert_eq!(format_date_for_filename_with_offset(at(0, 0), 0), "1970-01-01_00-00-00");
    assert_eq!(format_date_for_filename_with_offset(at(MAX_UTC_SECONDS, 0), 0), "9999-12-31_23-59-59");
}
