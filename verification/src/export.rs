//! The log as a report: plain text with a heading and one line per entry,
//! or comma-separated rows.
//!
//! Times are given on a clock that is a number of minutes ahead of UTC; an
//! offset of a day or more counts as none.

use crate::clock::{
    chrono_format,
    effective_offset,
    formatted_time,
    offset_seconds,
    UtcTime,
    HEADING_STAMP_PATTERN,
    ROW_STAMP_PATTERN,
};
use crate::log_buffer::entry_views;
use crate::recording::{record_line, text_record_line};
use crate::text::{collect_chars, push_char, utf8_lossy, utf8_lossy_string};
use crate::types::{Direction, LogEntry, LogEntryView};
use vstd::prelude::*;

verus! {

/// The first line of a plain-text report.
pub const REPORT_TITLE: &'static str = "RSerial Debug Assistant - Log Export";

/// What the second line of a plain-text report starts with.
pub const REPORT_GENERATED: &'static str = "Generated: ";

/// The first line of a table of rows.
pub const TABLE_HEADER: &'static str = "timestamp,direction,port,data";

/// The width of the rule under the heading of a plain-text report.
pub const RULE_WIDTH: usize = 60;

/// The heading of a plain-text report made at the time `now`: the title,
/// the date and time of making with the offset of the clock, a rule of
/// equals signs and an empty line.
pub open spec fn report_heading(now: UtcTime, offset_minutes: i32) -> Seq<char> {
    REPORT_TITLE@ + seq!['\n'] + REPORT_GENERATED@ + formatted_time(
        now.seconds() as int,
        now.nanoseconds() as int,
        effective_offset(offset_minutes as int),
        HEADING_STAMP_PATTERN@,
    ) + seq!['\n'] + Seq::new(RULE_WIDTH as nat, |at: int| '=') + seq!['\n', '\n']
}

/// The lines of a plain-text report for `entries`, one for each entry:
/// `[HH:MM:SS.mmm] TX: ` or `[HH:MM:SS.mmm] RX: ` and the payload read as
/// UTF-8 with what is malformed replaced.
pub open spec fn report_lines(entries: Seq<LogEntryView>, offset_minutes: i32) -> Seq<char>
    decreases entries.len(),
{
    if entries.len() == 0 {
        Seq::empty()
    } else {
        report_lines(entries.drop_last(), offset_minutes) + record_line(
            entries.last().data,
            entries.last().direction,
            entries.last().timestamp,
            offset_minutes,
        )
    }
}

/// The plain-text report of `entries`, made at the time `now`.
pub open spec fn text_report(entries: Seq<LogEntryView>, now: UtcTime, offset_minutes: i32) -> Seq<
    char,
> {
    report_heading(now, offset_minutes) + report_lines(entries, offset_minutes)
}

/// `text` with every double quote doubled.
pub open spec fn quotes_doubled(text: Seq<char>) -> Seq<char>
    decreases text.len(),
{
    if text.len() == 0 {
        Seq::empty()
    } else if text.last() == '"' {
        quotes_doubled(text.drop_last()) + seq!['"', '"']
    } else {
        quotes_doubled(text.drop_last()).push(text.last())
    }
}

/// The word for a direction in a table.
pub open spec fn direction_name(direction: Direction) -> Seq<char> {
    match direction {
        Direction::Sent => seq!['S', 'e', 'n', 't'],
        Direction::Received => seq!['R', 'e', 'c', 'e', 'i', 'v', 'e', 'd'],
    }
}

/// The row of a table for `entry`: the date and time with milliseconds,
/// the direction, the device name as it is, and in double quotes the
/// payload read as UTF-8 with what is malformed replaced and every double
/// quote doubled.
pub open spec fn table_row(entry: LogEntryView, offset_minutes: i32) -> Seq<char> {
    formatted_time(
        entry.timestamp.seconds() as int,
        entry.timestamp.nanoseconds() as int,
        effective_offset(offset_minutes as int),
        ROW_STAMP_PATTERN@,
    ) + seq![','] + direction_name(entry.direction) + seq![','] + entry.port_name + seq![',', '"']
        + quotes_doubled(utf8_lossy(entry.data)) + seq!['"', '\n']
}

/// The rows of a table for `entries`, one for each entry.
pub open spec fn table_rows(entries: Seq<LogEntryView>, offset_minutes: i32) -> Seq<char>
    decreases entries.len(),
{
    if entries.len() == 0 {
        Seq::empty()
    } else {
        table_rows(entries.drop_last(), offset_minutes) + table_row(
            entries.last(),
            offset_minutes,
        )
    }
}

/// The table of `entries`: the header line and one row for each entry.
pub open spec fn table_report(entries: Seq<LogEntryView>, offset_minutes: i32) -> Seq<char> {
    TABLE_HEADER@ + seq!['\n'] + table_rows(entries, offset_minutes)
}

/// The plain-text report of `entries`, made at the time `now`, with times
/// on a clock that is `offset_minutes` ahead of UTC.
pub fn export_text(entries: &[LogEntry], now: UtcTime, offset_minutes: i32) -> (report: String)
    ensures
        report@ == text_report(entry_views(entries@), now, offset_minutes),
{
    let mut report = String::new();
    report.append(REPORT_TITLE);
    push_char(&mut report, '\n');
    report.append(REPORT_GENERATED);
    let made = chrono_format(now, offset_seconds(offset_minutes), HEADING_STAMP_PATTERN);
    report.append(made.as_str());
    push_char(&mut report, '\n');
    let ghost before_rule = report@;
    let mut width: usize = 0;
    while width < RULE_WIDTH
        invariant
            width <= RULE_WIDTH,
            report@ == before_rule + Seq::new(width as nat, |at: int| '='),
        decreases RULE_WIDTH - width,
    {
        push_char(&mut report, '=');
        width += 1;
    }
    push_char(&mut report, '\n');
    push_char(&mut report, '\n');
    let ghost views = entry_views(entries@);
    let mut at: usize = 0;
    while at < entries.len()
        invariant
            at <= entries@.len(),
            views == entry_views(entries@),
            report@ == report_heading(now, offset_minutes) + report_lines(
                views.subrange(0, at as int),
                offset_minutes,
            ),
        decreases entries@.len() - at,
    {
        let entry = &entries[at];
        proof {
            assert(views[at as int] == entry@);
            let longer = views.subrange(0, at + 1);
            assert(longer.drop_last() =~= views.subrange(0, at as int));
        }
        let line = text_record_line(
            entry.data.as_slice(),
            entry.direction,
            entry.timestamp,
            offset_minutes,
        );
        report.append(line.as_str());
        at += 1;
    }
    assert(views.subrange(0, views.len() as int) =~= views);
    report
}

/// Appends `text` to `row` with every double quote doubled.
fn append_quoted(row: &mut String, text: &str)
    ensures
        final(row)@ == old(row)@ + quotes_doubled(text@),
{
    let chars = collect_chars(text);
    let mut at: usize = 0;
    while at < chars.len()
        invariant
            at <= chars@.len(),
            row@ == old(row)@ + quotes_doubled(chars@.subrange(0, at as int)),
        decreases chars@.len() - at,
    {
        let c = chars[at];
        proof {
            let longer = chars@.subrange(0, at + 1);
            assert(longer.drop_last() =~= chars@.subrange(0, at as int));
        }
        if c == '"' {
            push_char(row, '"');
        }
        push_char(row, c);
        at += 1;
    }
    assert(chars@.subrange(0, chars@.len() as int) =~= chars@);
}

/// Appends the row of a table for `entry` to `table`.
fn append_row(table: &mut String, entry: &LogEntry, offset_minutes: i32)
    ensures
        final(table)@ == old(table)@ + table_row(entry@, offset_minutes),
{
    let stamp = chrono_format(entry.timestamp, offset_seconds(offset_minutes), ROW_STAMP_PATTERN);
    let payload = utf8_lossy_string(entry.data.as_slice());
    table.append(stamp.as_str());
    push_char(table, ',');
    match entry.direction {
        Direction::Sent => {
            push_char(table, 'S');
            push_char(table, 'e');
            push_char(table, 'n');
            push_char(table, 't');
        },
        Direction::Received => {
            push_char(table, 'R');
            push_char(table, 'e');
            push_char(table, 'c');
            push_char(table, 'e');
            push_char(table, 'i');
            push_char(table, 'v');
            push_char(table, 'e');
            push_char(table, 'd');
        },
    }
    push_char(table, ',');
    table.append(entry.port_name.as_str());
    push_char(table, ',');
    push_char(table, '"');
    append_quoted(table, payload.as_str());
    push_char(table, '"');
    push_char(table, '\n');
}

/// The table of `entries`, with times on a clock that is `offset_minutes`
/// ahead of UTC.
pub fn export_csv(entries: &[LogEntry], offset_minutes: i32) -> (table: String)
    ensures
        table@ == table_report(entry_views(entries@), offset_minutes),
{
    let mut table = String::new();
    table.append(TABLE_HEADER);
    push_char(&mut table, '\n');
    let ghost views = entry_views(entries@);
    let mut at: usize = 0;
    while at < entries.len()
        invariant
            at <= entries@.len(),
            views == entry_views(entries@),
            table@ == TABLE_HEADER@ + seq!['\n'] + table_rows(
                views.subrange(0, at as int),
                offset_minutes,
            ),
        decreases entries@.len() - at,
    {
        let entry = &entries[at];
        proof {
            assert(views[at as int] == entry@);
            let longer = views.subrange(0, at + 1);
            assert(longer.drop_last() =~= views.subrange(0, at as int));
        }
        append_row(&mut table, entry, offset_minutes);
        at += 1;
    }
    assert(views.subrange(0, views.len() as int) =~= views);
    table
}

} // verus!
