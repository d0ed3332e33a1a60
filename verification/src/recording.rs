//! What goes into a recording and how its file is named.
//!
//! The text channel gets one line per payload, `[HH:MM:SS.mmm] TX: ` or
//! `[HH:MM:SS.mmm] RX: ` followed by the payload as text. A recording's file
//! is named after the device and the time at which the recording starts.

use crate::clock::{
    clock_text,
    effective_offset,
    format_date_for_filename_with_offset,
    format_timestamp_with_offset,
    formatted_time,
    UtcTime,
    FILE_STAMP_PATTERN,
};
use crate::text::{collect_chars, push_char, utf8_lossy, utf8_lossy_string};
use crate::types::Direction;
use vstd::prelude::*;

verus! {

/// The two letters that stand for a direction in a recording.
pub open spec fn direction_label(direction: Direction) -> Seq<char> {
    match direction {
        Direction::Sent => seq!['T', 'X'],
        Direction::Received => seq!['R', 'X'],
    }
}

/// The line that the text channel gets for the payload `data`:
/// `[HH:MM:SS.mmm] TX: ` or `[HH:MM:SS.mmm] RX: `, the payload read as
/// UTF-8 with what is malformed replaced, and a line feed.
pub open spec fn record_line(
    data: Seq<u8>,
    direction: Direction,
    now: UtcTime,
    offset_minutes: i32,
) -> Seq<char> {
    seq!['['] + clock_text(
        now.seconds() as int,
        now.nanoseconds() as int,
        effective_offset(offset_minutes as int),
    ) + seq![']', ' '] + direction_label(direction) + seq![':', ' '] + utf8_lossy(data) + seq!['\n']
}

/// The character that stands for `c` in a file name: an underscore for a
/// character that file names cannot hold, else `c`.
pub open spec fn file_name_char(c: char) -> char {
    if c == '/' || c == '\\' || c == ':' || c == '*' || c == '?' || c == '"' || c == '<' || c
        == '>' || c == '|' {
        '_'
    } else {
        c
    }
}

/// The name of a recording's file: the device name as file names can hold
/// it, or `UNKNOWN` without a device, then an underscore, the date and time
/// `stamp`, a dot and `extension`.
pub open spec fn recording_file_name(
    port_name: Option<Seq<char>>,
    stamp: Seq<char>,
    extension: Seq<char>,
) -> Seq<char> {
    let device = match port_name {
        Some(name) => name,
        None => seq!['U', 'N', 'K', 'N', 'O', 'W', 'N'],
    };
    device.map_values(|c: char| file_name_char(c)) + seq!['_'] + stamp + seq!['.'] + extension
}

/// The characters of an optional text.
pub open spec fn chars_of(text: Option<&str>) -> Option<Seq<char>> {
    match text {
        Some(t) => Some(t@),
        None => None,
    }
}

/// One file-name character for `c`.
fn file_name_char_of(c: char) -> (shown: char)
    ensures
        shown == file_name_char(c),
{
    if c == '/' || c == '\\' || c == ':' || c == '*' || c == '?' || c == '"' || c == '<' || c
        == '>' || c == '|' {
        '_'
    } else {
        c
    }
}

/// The line that the text channel gets for the payload `data` that
/// travelled in `direction` at the time `now`, on a clock that is
/// `offset_minutes` ahead of UTC.
pub fn text_record_line(
    data: &[u8],
    direction: Direction,
    now: UtcTime,
    offset_minutes: i32,
) -> (line: String)
    ensures
        line@ == record_line(data@, direction, now, offset_minutes),
{
    let clock = format_timestamp_with_offset(now, offset_minutes);
    let payload = utf8_lossy_string(data);
    let mut line = String::new();
    push_char(&mut line, '[');
    line.append(clock.as_str());
    push_char(&mut line, ']');
    push_char(&mut line, ' ');
    match direction {
        Direction::Sent => push_char(&mut line, 'T'),
        Direction::Received => push_char(&mut line, 'R'),
    }
    push_char(&mut line, 'X');
    push_char(&mut line, ':');
    push_char(&mut line, ' ');
    line.append(payload.as_str());
    push_char(&mut line, '\n');
    line
}

/// The name of the file of a recording of the device `port_name` that
/// starts at the time `now`, on a clock that is `offset_minutes` ahead of
/// UTC: the device name with each character that file names cannot hold
/// replaced by an underscore, or `UNKNOWN` without a device, then an
/// underscore, the date and time, a dot and `extension`.
pub fn recording_name(
    port_name: Option<&str>,
    extension: &str,
    now: UtcTime,
    offset_minutes: i32,
) -> (name: String)
    ensures
        name@ == recording_file_name(
            chars_of(port_name),
            formatted_time(
                now.seconds() as int,
                now.nanoseconds() as int,
                effective_offset(offset_minutes as int),
                FILE_STAMP_PATTERN@,
            ),
            extension@,
        ),
{
    let device: Vec<char> = match port_name {
        Some(port) => collect_chars(port),
        None => vec!['U', 'N', 'K', 'N', 'O', 'W', 'N'],
    };
    let mut name = String::new();
    let mut at: usize = 0;
    while at < device.len()
        invariant
            at <= device.len(),
            name@ == device@.map_values(|c: char| file_name_char(c)).subrange(0, at as int),
        decreases device.len() - at,
    {
        push_char(&mut name, file_name_char_of(device[at]));
        at += 1;
    }
    let stamp = format_date_for_filename_with_offset(now, offset_minutes);
    push_char(&mut name, '_');
    name.append(stamp.as_str());
    push_char(&mut name, '.');
    name.append(extension);
    name
}

} // verus!
