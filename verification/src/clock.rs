//! Points in time and their rendering in a time zone at a fixed offset from
//! UTC.

use vstd::prelude::*;

verus! {

/// The last second of the year 9999, in seconds since the Unix epoch.
pub const MAX_UTC_SECONDS: i64 = 253_402_300_799;

/// The pattern of a time of day with milliseconds: `HH:MM:SS.mmm`.
pub const CLOCK_PATTERN: &'static str = "%H:%M:%S%.3f";

/// The pattern of the date and time in a recording's file name.
pub const FILE_STAMP_PATTERN: &'static str = "%Y-%m-%d_%H-%M-%S";

/// The pattern of the date and time with milliseconds in a table row.
pub const ROW_STAMP_PATTERN: &'static str = "%Y-%m-%d %H:%M:%S%.3f";

/// The pattern of the date, the time and the offset in a report's heading.
pub const HEADING_STAMP_PATTERN: &'static str = "%Y-%m-%d %H:%M:%S %z";

/// Whether `seconds` and `nanoseconds` make a point in time that the library
/// holds: one in the years 1970 to 9999, with less than a second of
/// nanoseconds.
pub open spec fn valid_time(seconds: int, nanoseconds: int) -> bool {
    &&& 0 <= seconds <= MAX_UTC_SECONDS
    &&& 0 <= nanoseconds < 1_000_000_000
}

/// A point in time in the years 1970 to 9999: whole seconds since
/// 1970-01-01 00:00:00 UTC, leap seconds not counted, and the nanoseconds
/// since that whole second.
#[derive(Clone, Copy, Debug, PartialEq, Eq, Structural)]
pub struct UtcTime {
    seconds: i64,
    nanoseconds: u32,
}

impl UtcTime {
    #[verifier::type_invariant]
    spec fn in_range(self) -> bool {
        valid_time(self.seconds as int, self.nanoseconds as int)
    }

    /// The whole seconds since the epoch.
    pub closed spec fn spec_seconds(&self) -> i64 {
        self.seconds
    }

    /// The nanoseconds since the whole second.
    pub closed spec fn spec_nanoseconds(&self) -> u32 {
        self.nanoseconds
    }

    /// The time with these seconds and nanoseconds, if the library holds
    /// it.
    pub fn new(seconds: i64, nanoseconds: u32) -> (time: Option<UtcTime>)
        ensures
            time is Some <==> valid_time(seconds as int, nanoseconds as int),
            time matches Some(t) ==> t.seconds() == seconds && t.nanoseconds() == nanoseconds,
    {
        if 0 <= seconds && seconds <= MAX_UTC_SECONDS && nanoseconds < 1_000_000_000 {
            Some(UtcTime { seconds, nanoseconds })
        } else {
            None
        }
    }

    /// The whole seconds since the epoch.
    #[verifier::when_used_as_spec(spec_seconds)]
    pub fn seconds(&self) -> (seconds: i64)
        ensures
            seconds == self.spec_seconds(),
            0 <= seconds <= MAX_UTC_SECONDS,
    {
        proof {
            use_type_invariant(self);
        }
        self.seconds
    }

    /// The nanoseconds since the whole second.
    #[verifier::when_used_as_spec(spec_nanoseconds)]
    pub fn nanoseconds(&self) -> (nanoseconds: u32)
        ensures
            nanoseconds == self.spec_nanoseconds(),
            nanoseconds < 1_000_000_000,
    {
        proof {
            use_type_invariant(self);
        }
        self.nanoseconds
    }

    /// Two times of the same seconds and nanoseconds are one time.
    pub proof fn lemma_same_time(self, other: UtcTime)
        requires
            self.seconds() == other.seconds(),
            self.nanoseconds() == other.nanoseconds(),
        ensures
            self == other,
    {
    }
}

/// The decimal digit for `n`.
pub open spec fn digit(n: int) -> char {
    seq!['0', '1', '2', '3', '4', '5', '6', '7', '8', '9'][n]
}

/// The two decimal digits of `n`, for `n` below 100.
pub open spec fn two_digits(n: int) -> Seq<char> {
    seq![digit(n / 10), digit(n % 10)]
}

/// The time of day `HH:MM:SS.mmm` of the point in time `seconds` and
/// `nanoseconds` after the epoch, on a clock that is `offset_seconds` ahead
/// of UTC.
pub open spec fn clock_text(seconds: int, nanoseconds: int, offset_seconds: int) -> Seq<char> {
    let second_of_day = (seconds + offset_seconds) % 86_400;
    let millisecond = nanoseconds / 1_000_000;
    two_digits(second_of_day / 3600) + seq![':'] + two_digits(second_of_day / 60 % 60) + seq![':']
        + two_digits(second_of_day % 60) + seq!['.', digit(millisecond / 100)] + two_digits(
        millisecond % 100,
    )
}

/// What `chrono` writes for the point in time `seconds` and `nanoseconds`
/// after the epoch, shifted by `offset_seconds`, under `pattern`.
pub uninterp spec fn formatted_time(
    seconds: int,
    nanoseconds: int,
    offset_seconds: int,
    pattern: Seq<char>,
) -> Seq<char>;

/// Whether `pattern` is one of the patterns this library formats with.
pub open spec fn is_known_pattern(pattern: Seq<char>) -> bool {
    ||| pattern == CLOCK_PATTERN@
    ||| pattern == FILE_STAMP_PATTERN@
    ||| pattern == ROW_STAMP_PATTERN@
    ||| pattern == HEADING_STAMP_PATTERN@
}

/// `chrono::DateTime::format`, on the time `chrono::DateTime::from_timestamp`
/// makes of `time`, moved by `with_timezone` to the zone that
/// `chrono::FixedOffset::east_opt` makes of `offset_seconds`.
///
/// Trusted: the text is a function of the arguments alone, and under
/// [`CLOCK_PATTERN`] it is the zero-padded hour, minute and second of the
/// shifted time and its milliseconds, cut off and not rounded. Every
/// `UtcTime` lies in years that `from_timestamp` accepts; `offset_seconds`
/// is kept to less than a day either way, as `east_opt` asks, and `pattern`
/// to patterns that `format` can write.
#[verifier::external_body]
pub(crate) fn chrono_format(time: UtcTime, offset_seconds: i32, pattern: &str) -> (text: String)
    requires
        -86_400 < offset_seconds < 86_400,
        is_known_pattern(pattern@),
    ensures
        text@ == formatted_time(
            time.seconds() as int,
            time.nanoseconds() as int,
            offset_seconds as int,
            pattern@,
        ),
        pattern@ == CLOCK_PATTERN@ ==> text@ == clock_text(
            time.seconds() as int,
            time.nanoseconds() as int,
            offset_seconds as int,
        ),
{
    let zone = chrono::FixedOffset::east_opt(offset_seconds).unwrap();
    let utc = chrono::DateTime::from_timestamp(time.seconds, time.nanoseconds).unwrap();
    utc.with_timezone(&zone).format(pattern).to_string()
}

/// The offset in seconds of a clock that is `offset_minutes` ahead of UTC,
/// or 0 where that is a day or more either way.
pub open spec fn effective_offset(offset_minutes: int) -> int {
    if -86_400 < offset_minutes * 60 < 86_400 {
        offset_minutes * 60
    } else {
        0
    }
}

/// The offset in seconds of a clock that is `offset_minutes` ahead of UTC,
/// or 0 where that is a day or more either way.
pub fn offset_seconds(offset_minutes: i32) -> (seconds: i32)
    ensures
        seconds == effective_offset(offset_minutes as int),
        -86_400 < seconds < 86_400,
{
    if -1440 < offset_minutes && offset_minutes < 1440 {
        offset_minutes * 60
    } else {
        0
    }
}

/// The time of day of `time` as `HH:MM:SS.mmm`, on a clock that is
/// `offset_minutes` ahead of UTC. An offset of a day or more counts as none.
pub fn format_timestamp_with_offset(time: UtcTime, offset_minutes: i32) -> (text: String)
    ensures
        text@ == clock_text(
            time.seconds() as int,
            time.nanoseconds() as int,
            effective_offset(offset_minutes as int),
        ),
{
    chrono_format(time, offset_seconds(offset_minutes), CLOCK_PATTERN)
}

/// The date and time of `time` as they stand in a recording's file name, on
/// a clock that is `offset_minutes` ahead of UTC. An offset of a day or more
/// counts as none.
pub fn format_date_for_filename_with_offset(time: UtcTime, offset_minutes: i32) -> (text: String)
    ensures
        text@ == formatted_time(
            time.seconds() as int,
            time.nanoseconds() as int,
            effective_offset(offset_minutes as int),
            FILE_STAMP_PATTERN@,
        ),
{
    chrono_format(time, offset_seconds(offset_minutes), FILE_STAMP_PATTERN)
}

} // verus!
