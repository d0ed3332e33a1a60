//! The connection manager: the one owner of the state of a connection, of
//! its log, its counters and its settings.
//!
//! The manager performs no input or output. Its caller opens and closes the
//! line and the recording files, reads the clock, and tells the manager what
//! happened; the manager keeps the books and says what is to be written.
//! Wall-clock time comes in as a [`UtcTime`], the time on the line as
//! milliseconds on a clock that never goes back.

use crate::clock::{
    clock_text,
    effective_offset,
    format_timestamp_with_offset,
    formatted_time,
    UtcTime,
    FILE_STAMP_PATTERN,
};
use crate::display::{display_text, format_data_for_display};
use crate::error::SerialError;
use crate::export::{export_csv, export_text, table_report, text_report};
use crate::gbk::MAX_CODED_LEN;
use crate::log_buffer::{
    clamped_limit,
    entry_views,
    most_recent,
    LogBuffer,
    DEFAULT_LOG_LIMIT,
    MAX_LOG_LIMIT,
    MIN_LOG_LIMIT,
};
use crate::segmenter::{
    frames_of,
    frames_view,
    idle_flush_due,
    lemma_framing_conserves,
    lemma_total_len_nonnegative,
    lemma_total_len_prefix,
    remainder_of,
    total_len,
    FrameSegmenter,
};
use crate::recording::{record_line, recording_file_name, recording_name, text_record_line};
use crate::types::{
    clone_text,
    text_of,
    ConnectionStatus,
    ConnectionStatusView,
    DataFormat,
    Direction,
    DisplaySettings,
    ExportFormat,
    FrameDelimiterView,
    FrameSegmentationConfig,
    FrameSegmentationConfigView,
    FrameSegmentationMode,
    LogEntry,
    LogEntryView,
    ReceiveDisplayFormat,
    RecordingStatus,
    RecordingStatusView,
    SerialConfig,
    SpecialCharConfig,
    TextEncoding,
    MAX_FRAME_TIMEOUT_MS,
    MIN_FRAME_TIMEOUT_MS,
};
use vstd::prelude::*;

verus! {

/// The state of a connection manager as a value of sequences.
pub struct SerialManagerView {
    /// The parameters of the open connection.
    pub config: Option<SerialConfig>,
    pub is_connected: bool,
    /// The name of the device of the open connection.
    pub port_name: Option<Seq<char>>,
    /// The log, oldest entry first.
    pub logs: Seq<LogEntryView>,
    pub bytes_sent: u64,
    pub bytes_received: u64,
    /// When the open connection was made.
    pub connection_time: Option<UtcTime>,
    /// The limit of the log.
    pub max_log_entries: usize,
    pub segmentation: FrameSegmentationConfigView,
    pub recording: RecordingStatusView,
    pub log_directory: Seq<char>,
    pub timezone_offset_minutes: i32,
    pub display_settings: DisplaySettings,
    /// The bytes read from the line that no frame holds yet.
    pub buffered: Seq<u8>,
    /// When the last byte arrived, in milliseconds.
    pub last_data_ms: u64,
    /// Whether the reader loop of the open connection is still at work. It
    /// is not after a read has failed, though the connection counts as open
    /// until it is closed.
    pub reader_alive: bool,
}

/// What holds of the state of every manager.
pub open spec fn state_ok(state: SerialManagerView) -> bool {
    &&& MIN_LOG_LIMIT <= state.max_log_entries <= MAX_LOG_LIMIT
    &&& state.logs.len() <= state.max_log_entries
    &&& MIN_FRAME_TIMEOUT_MS <= state.segmentation.timeout_ms <= MAX_FRAME_TIMEOUT_MS
    &&& state.recording.text_recording_active <==> state.recording.text_file_path is Some
    &&& state.recording.raw_recording_active <==> state.recording.raw_file_path is Some
    &&& state.is_connected <==> state.port_name is Some
    &&& state.is_connected <==> state.config is Some
    &&& state.is_connected <==> state.connection_time is Some
    &&& !state.is_connected ==> state.bytes_sent == 0 && state.bytes_received == 0
    &&& !state.is_connected ==> state.buffered.len() == 0
    &&& state.reader_alive ==> state.is_connected
    &&& state.buffered.len() <= MAX_CODED_LEN
}

/// The recording status with no channel active.
pub open spec fn no_recording() -> RecordingStatusView {
    RecordingStatusView {
        text_recording_active: false,
        raw_recording_active: false,
        text_file_path: None,
        raw_file_path: None,
    }
}

/// The state of a new manager that records under `log_directory`.
pub open spec fn initial_state(log_directory: Seq<char>) -> SerialManagerView {
    SerialManagerView {
        config: None,
        is_connected: false,
        port_name: None,
        logs: Seq::empty(),
        bytes_sent: 0,
        bytes_received: 0,
        connection_time: None,
        max_log_entries: DEFAULT_LOG_LIMIT,
        segmentation: FrameSegmentationConfigView {
            mode: FrameSegmentationMode::Timeout,
            timeout_ms: 10,
            delimiter: FrameDelimiterView::AnyNewline,
        },
        recording: no_recording(),
        log_directory,
        timezone_offset_minutes: 0,
        display_settings: DisplaySettings {
            format: ReceiveDisplayFormat::Txt,
            encoding: TextEncoding::Utf8,
            special_char_config: SpecialCharConfig {
                enabled: true,
                convert_lf: true,
                convert_cr: true,
                convert_tab: true,
                convert_null: true,
                convert_esc: true,
                convert_spaces: true,
            },
            show_timestamps: true,
        },
        buffered: Seq::empty(),
        last_data_ms: 0,
        reader_alive: false,
    }
}

/// The state after a disconnect. An open connection is closed: its name,
/// parameters and start time go, the counters return to zero, both
/// recording channels stop and the bytes that no frame holds yet are
/// dropped. Without an open connection nothing changes.
pub open spec fn disconnected(state: SerialManagerView) -> SerialManagerView {
    if state.is_connected {
        SerialManagerView {
            config: None,
            is_connected: false,
            port_name: None,
            bytes_sent: 0,
            bytes_received: 0,
            connection_time: None,
            recording: no_recording(),
            buffered: Seq::empty(),
            reader_alive: false,
            ..state
        }
    } else {
        state
    }
}

/// The state after the line `port_name` was opened with `config` at the
/// time `now`, `now_ms` on the clock of the line. A connection that was open
/// is closed first.
pub open spec fn connected(
    state: SerialManagerView,
    port_name: Seq<char>,
    config: SerialConfig,
    now: UtcTime,
    now_ms: u64,
) -> SerialManagerView {
    SerialManagerView {
        config: Some(config),
        is_connected: true,
        port_name: Some(port_name),
        bytes_sent: 0,
        bytes_received: 0,
        connection_time: Some(now),
        buffered: Seq::empty(),
        last_data_ms: now_ms,
        reader_alive: true,
        ..disconnected(state)
    }
}

/// The log entry for the payload `data` that travelled in `direction` at
/// the time `now`, rendered under the settings of `state`.
pub open spec fn entry_for(
    state: SerialManagerView,
    data: Seq<u8>,
    direction: Direction,
    now: UtcTime,
) -> LogEntryView {
    LogEntryView {
        id: None,
        timestamp: now,
        direction,
        data,
        format: DataFormat::Text,
        port_name: match state.port_name {
            Some(name) => name,
            None => Seq::empty(),
        },
        display_text: display_text(data, state.display_settings),
        timestamp_formatted: if state.display_settings.show_timestamps {
            Some(
                clock_text(
                    now.seconds() as int,
                    now.nanoseconds() as int,
                    effective_offset(state.timezone_offset_minutes as int),
                ),
            )
        } else {
            None
        },
    }
}

/// The state with `entry` taken into the log as the newest one.
pub open spec fn with_entry(state: SerialManagerView, entry: LogEntryView) -> SerialManagerView {
    SerialManagerView {
        logs: most_recent(state.logs.push(entry), state.max_log_entries as int),
        ..state
    }
}

/// The state after the frame `frame` was received at the time `now`: one
/// entry more in the log, and the frame's length more bytes received.
pub open spec fn with_received_frame(
    state: SerialManagerView,
    frame: Seq<u8>,
    now: UtcTime,
) -> SerialManagerView {
    SerialManagerView {
        bytes_received: (state.bytes_received + frame.len()) as u64,
        ..with_entry(state, entry_for(state, frame, Direction::Received, now))
    }
}

/// The state after each of `frames` was received at the time `now`, one
/// after the other.
pub open spec fn with_received_frames(
    state: SerialManagerView,
    frames: Seq<Seq<u8>>,
    now: UtcTime,
) -> SerialManagerView
    decreases frames.len(),
{
    if frames.len() == 0 {
        state
    } else {
        with_received_frame(
            with_received_frames(state, frames.drop_last(), now),
            frames.last(),
            now,
        )
    }
}

/// The state after `bytes` were read from the line at the time `now`,
/// `now_ms` on the clock of the line. The bytes join those that no frame
/// holds yet. In a mode that scans for delimiters every finished frame is
/// received, in order, and the bytes behind the last delimiter stay. Without
/// an open connection nothing changes.
pub open spec fn received(
    state: SerialManagerView,
    bytes: Seq<u8>,
    now: UtcTime,
    now_ms: u64,
) -> SerialManagerView {
    if !state.is_connected {
        state
    } else if state.segmentation.mode.spec_scans_delimiters() {
        with_received_frames(
            SerialManagerView {
                buffered: remainder_of(state.buffered + bytes, state.segmentation.delimiter),
                last_data_ms: now_ms,
                ..state
            },
            frames_of(state.buffered + bytes, state.segmentation.delimiter),
            now,
        )
    } else {
        SerialManagerView { buffered: state.buffered + bytes, last_data_ms: now_ms, ..state }
    }
}

/// The frames that are finished when `bytes` are read from the line.
pub open spec fn received_frames(state: SerialManagerView, bytes: Seq<u8>) -> Seq<Seq<u8>> {
    if state.is_connected && state.segmentation.mode.spec_scans_delimiters() {
        frames_of(state.buffered + bytes, state.segmentation.delimiter)
    } else {
        Seq::empty()
    }
}

/// The lines that the text channel gets for the received `frames`: one for
/// each frame while text recording is active, else none.
pub open spec fn lines_for(state: SerialManagerView, frames: Seq<Seq<u8>>, now: UtcTime) -> Seq<
    Seq<char>,
> {
    if state.recording.text_recording_active {
        frames.map_values(
            |frame: Seq<u8>|
                record_line(frame, Direction::Received, now, state.timezone_offset_minutes),
        )
    } else {
        Seq::empty()
    }
}

/// Whether the bytes that no frame holds yet are due as a frame at the time
/// `now_ms` on the clock of the line, because the line has been silent for
/// longer than the timeout.
pub open spec fn flush_due(state: SerialManagerView, now_ms: u64) -> bool {
    state.is_connected && idle_flush_due(
        state.buffered,
        state.last_data_ms,
        now_ms,
        state.segmentation,
    )
}

/// The state after a read from the line brought nothing at the time `now`,
/// `now_ms` on the clock of the line: where the flush is due, the bytes that
/// no frame holds yet are received as one frame.
pub open spec fn idled(state: SerialManagerView, now: UtcTime, now_ms: u64) -> SerialManagerView {
    if flush_due(state, now_ms) {
        with_received_frame(
            SerialManagerView { buffered: Seq::empty(), ..state },
            state.buffered,
            now,
        )
    } else {
        state
    }
}

/// The state after `data` was sent at the time `now`: one entry more in the
/// log, and the length of `data` more bytes sent.
pub open spec fn sent(state: SerialManagerView, data: Seq<u8>, now: UtcTime) -> SerialManagerView {
    SerialManagerView {
        bytes_sent: (state.bytes_sent + data.len()) as u64,
        ..with_entry(state, entry_for(state, data, Direction::Sent, now))
    }
}

/// Whether `len` more bytes from the line are within what the manager can
/// take in: the bytes that wait for a frame stay within `MAX_CODED_LEN`, and
/// the counter of received bytes can count them all.
pub open spec fn receive_fits(state: SerialManagerView, len: int) -> bool {
    &&& state.buffered.len() + len <= MAX_CODED_LEN
    &&& state.bytes_received + state.buffered.len() + len <= u64::MAX
}

/// Whether a payload of `len` bytes is within what the manager can record
/// as sent: it is no longer than `MAX_CODED_LEN`, and the counter of sent
/// bytes can count it.
pub open spec fn send_fits(state: SerialManagerView, len: int) -> bool {
    &&& len <= MAX_CODED_LEN
    &&& state.bytes_sent + len <= u64::MAX
}

/// Whether the reader loop goes on after the outcome `outcome` of a read:
/// a connection is open, the read did not fail, and what it brought is
/// within what the manager can take in.
pub open spec fn step_goes_on(state: SerialManagerView, outcome: ReadOutcome) -> bool {
    state.is_connected && match outcome {
        ReadOutcome::Data(bytes) => receive_fits(state, bytes@.len() as int),
        ReadOutcome::Idle => receive_fits(state, 0),
        ReadOutcome::Failed => false,
    }
}

/// What the reader loop does after the outcome `outcome` of a read: it
/// reads again at once after bytes, pauses after a read that brought
/// nothing, and stops where it does not go on.
pub open spec fn step_next(state: SerialManagerView, outcome: ReadOutcome) -> ReaderNext {
    if !step_goes_on(state, outcome) {
        ReaderNext::Stop
    } else if outcome is Data {
        ReaderNext::ReadAgain
    } else {
        ReaderNext::Pause
    }
}

/// The state after one step of the reader loop. Where the loop does not
/// go on, the reader is no longer at work and nothing else changes.
pub open spec fn stepped(
    state: SerialManagerView,
    outcome: ReadOutcome,
    now: UtcTime,
    now_ms: u64,
) -> SerialManagerView {
    if !step_goes_on(state, outcome) {
        SerialManagerView { reader_alive: false, ..state }
    } else {
        match outcome {
            ReadOutcome::Data(bytes) => received(state, bytes@, now, now_ms),
            _ => idled(state, now, now_ms),
        }
    }
}

/// The lines that one step of the reader loop gives to the text channel.
pub open spec fn step_lines(
    state: SerialManagerView,
    outcome: ReadOutcome,
    now: UtcTime,
    now_ms: u64,
) -> Seq<Seq<char>> {
    if !step_goes_on(state, outcome) {
        Seq::empty()
    } else {
        match outcome {
            ReadOutcome::Data(bytes) => lines_for(state, received_frames(state, bytes@), now),
            _ => if flush_due(state, now_ms) && state.recording.text_recording_active {
                seq![
                    record_line(
                        state.buffered,
                        Direction::Received,
                        now,
                        state.timezone_offset_minutes,
                    ),
                ]
            } else {
                Seq::empty()
            },
        }
    }
}

/// The views of the strings `lines`.
pub open spec fn lines_view(lines: Seq<String>) -> Seq<Seq<char>> {
    lines.map_values(|line: String| line@)
}

/// What a read from the line brought.
#[derive(Debug, PartialEq, Eq)]
pub enum ReadOutcome {
    /// These bytes, at least one.
    Data(Vec<u8>),
    /// Nothing within the read timeout.
    Idle,
    /// An error other than a timeout.
    Failed,
}

/// What the reader loop does after a step.
#[derive(Clone, Copy, Debug, PartialEq, Eq, Structural)]
pub enum ReaderNext {
    /// Read from the line again at once.
    ReadAgain,
    /// Sleep for a moment, then read again.
    Pause,
    /// Stop reading: the connection is closed or dead.
    Stop,
}

/// What one step of the reader loop hands back.
#[derive(Debug, PartialEq, Eq)]
pub struct ReaderStep {
    /// The lines to append to the text recording, in order.
    pub text_lines: Vec<String>,
    /// What the loop does next.
    pub next: ReaderNext,
}

/// The connection manager.
pub struct SerialManager {
    config: Option<SerialConfig>,
    is_connected: bool,
    port_name: Option<String>,
    logs: LogBuffer,
    bytes_sent: u64,
    bytes_received: u64,
    connection_time: Option<UtcTime>,
    frame_segmentation_config: FrameSegmentationConfig,
    recording: RecordingStatus,
    log_directory: String,
    timezone_offset_minutes: i32,
    display_settings: DisplaySettings,
    segmenter: FrameSegmenter,
    reader_alive: bool,
}

impl View for SerialManager {
    type V = SerialManagerView;

    closed spec fn view(&self) -> SerialManagerView {
        SerialManagerView {
            config: self.config,
            is_connected: self.is_connected,
            port_name: text_of(self.port_name),
            logs: self.logs@,
            bytes_sent: self.bytes_sent,
            bytes_received: self.bytes_received,
            connection_time: self.connection_time,
            max_log_entries: self.logs.limit() as usize,
            segmentation: self.frame_segmentation_config@,
            recording: self.recording@,
            log_directory: self.log_directory@,
            timezone_offset_minutes: self.timezone_offset_minutes,
            display_settings: self.display_settings,
            buffered: self.segmenter.buffer@,
            last_data_ms: self.segmenter.last_data_ms,
            reader_alive: self.reader_alive,
        }
    }
}

impl SerialManager {
    /// The manager is in a state that its operations leave it in.
    pub closed spec fn wf(&self) -> bool {
        &&& self.logs.wf()
        &&& state_ok(self@)
    }

    /// What holds of the state of every manager holds of a well-formed one.
    pub proof fn lemma_state_ok(&self)
        requires
            self.wf(),
        ensures
            state_ok(self@),
    {
    }

    /// A manager without a connection, with an empty log of the default
    /// limit, the default settings and no recording, that records under
    /// `log_directory`.
    pub fn new(log_directory: String) -> (manager: Self)
        ensures
            manager.wf(),
            manager@ == initial_state(log_directory@),
    {
        let manager = SerialManager {
            config: None,
            is_connected: false,
            port_name: None,
            logs: LogBuffer::new(),
            bytes_sent: 0,
            bytes_received: 0,
            connection_time: None,
            frame_segmentation_config: FrameSegmentationConfig::default(),
            recording: RecordingStatus::default(),
            log_directory,
            timezone_offset_minutes: 0,
            display_settings: DisplaySettings::default(),
            segmenter: FrameSegmenter::new(0),
            reader_alive: false,
        };
        proof {
            manager.logs.lemma_within_limit();
        }
        manager
    }

    /// Whether a connection is open.
    pub fn is_connected(&self) -> (connected: bool)
        ensures
            connected == self@.is_connected,
    {
        self.is_connected
    }

    /// Whether the reader loop of the open connection is still at work.
    pub fn is_reader_alive(&self) -> (alive: bool)
        ensures
            alive == self@.reader_alive,
    {
        self.reader_alive
    }

    /// Records that the line `port_name` was opened with `config` at the
    /// time `now`, `now_ms` on the clock of the line. A connection that was
    /// open is closed first, as by `disconnect`. The counters start at zero
    /// and no byte waits for a frame.
    pub fn connect(&mut self, port_name: &str, config: SerialConfig, now: UtcTime, now_ms: u64)
        requires
            old(self).wf(),
        ensures
            final(self).wf(),
            final(self)@ == connected(old(self)@, port_name@, config, now, now_ms),
    {
        let _ = self.disconnect();
        let mut name = String::new();
        name.append(port_name);
        self.config = Some(config);
        self.is_connected = true;
        self.port_name = Some(name);
        self.connection_time = Some(now);
        self.segmenter = FrameSegmenter::new(now_ms);
        self.reader_alive = true;
    }

    /// Closes the connection. Both recording channels stop, the counters
    /// return to zero, and the bytes that no frame holds yet are dropped.
    /// Without an open connection nothing changes. There is no failure.
    pub fn disconnect(&mut self) -> (done: Result<(), SerialError>)
        requires
            old(self).wf(),
        ensures
            final(self).wf(),
            done is Ok,
            final(self)@ == disconnected(old(self)@),
            !old(self)@.is_connected ==> final(self)@ == old(self)@,
    {
        if self.is_connected {
            self.stop_all_recordings();
            self.is_connected = false;
            self.port_name = None;
            self.config = None;
            self.bytes_sent = 0;
            self.bytes_received = 0;
            self.connection_time = None;
            self.segmenter.buffer = Vec::new();
            self.reader_alive = false;
        }
        Ok(())
    }

    /// The log entry for the payload `data` that travelled in `direction`
    /// at the time `now`.
    fn make_entry(&self, data: Vec<u8>, direction: Direction, now: UtcTime) -> (entry: LogEntry)
        requires
            data@.len() <= MAX_CODED_LEN,
        ensures
            entry@ == entry_for(self@, data@, direction, now),
    {
        let display_text = format_data_for_display(data.as_slice(), &self.display_settings);
        let timestamp_formatted = if self.display_settings.show_timestamps {
            Some(format_timestamp_with_offset(now, self.timezone_offset_minutes))
        } else {
            None
        };
        let port_name = match &self.port_name {
            Some(name) => name.clone(),
            None => String::new(),
        };
        LogEntry {
            id: None,
            timestamp: now,
            direction,
            data,
            format: DataFormat::Text,
            port_name,
            display_text,
            timestamp_formatted,
        }
    }

    /// Takes `entry` into the log as the newest one. Where the log is full,
    /// the oldest entry leaves.
    fn add_log(&mut self, entry: LogEntry)
        requires
            old(self).logs.wf(),
            state_ok(old(self)@),
        ensures
            final(self).wf(),
            final(self)@ == with_entry(old(self)@, entry@),
    {
        self.logs.push(entry);
        proof {
            self.logs.lemma_within_limit();
        }
    }

    /// Records that `data` went out on the line at the time `now`: the
    /// counter of sent bytes grows by the length of `data`, and the log
    /// gets an entry with the display text of `data` under the settings of
    /// the moment. Without an open connection this fails with
    /// `NotConnected` and nothing changes.
    pub fn send_data(&mut self, data: Vec<u8>, now: UtcTime) -> (done: Result<(), SerialError>)
        requires
            old(self).wf(),
            send_fits(old(self)@, data@.len() as int),
        ensures
            final(self).wf(),
            !old(self)@.is_connected ==> done == Err::<(), SerialError>(SerialError::NotConnected)
                && final(self)@ == old(self)@,
            old(self)@.is_connected ==> done is Ok && final(self)@ == sent(old(self)@, data@, now),
    {
        if !self.is_connected {
            return Err(SerialError::NotConnected);
        }
        let sent_len = data.len() as u64;
        let entry = self.make_entry(data, Direction::Sent, now);
        self.bytes_sent = self.bytes_sent + sent_len;
        self.add_log(entry);
        Ok(())
    }

    /// Receives the frame `frame` at the time `now`.
    fn receive_frame(&mut self, frame: Vec<u8>, now: UtcTime)
        requires
            old(self).wf(),
            old(self)@.is_connected,
            frame@.len() <= MAX_CODED_LEN,
            old(self)@.bytes_received + frame@.len() <= u64::MAX,
        ensures
            final(self).wf(),
            final(self)@ == with_received_frame(old(self)@, frame@, now),
    {
        let frame_len = frame.len() as u64;
        let entry = self.make_entry(frame, Direction::Received, now);
        self.bytes_received = self.bytes_received + frame_len;
        self.add_log(entry);
    }

    /// Takes in the bytes `bytes` that were read from the line at the time
    /// `now`, `now_ms` on the clock of the line, and hands back the lines to
    /// append to the text recording.
    ///
    /// The bytes join those that no frame holds yet. In a mode that scans
    /// for delimiters, every frame that is finished by then is received, in
    /// order: for each frame the log gets one entry and the counter of
    /// received bytes grows by the frame's length. While text recording is
    /// active each frame gives one line. Without an open connection nothing
    /// happens.
    pub fn receive(&mut self, bytes: &[u8], now: UtcTime, now_ms: u64) -> (lines: Vec<String>)
        requires
            old(self).wf(),
            receive_fits(old(self)@, bytes@.len() as int),
        ensures
            final(self).wf(),
            final(self)@ == received(old(self)@, bytes@, now, now_ms),
            lines_view(lines@) == lines_for(old(self)@, received_frames(old(self)@, bytes@), now),
    {
        let mut lines: Vec<String> = Vec::new();
        if !self.is_connected {
            return lines;
        }
        let ghost all = self.segmenter.buffer@ + bytes@;
        let ghost delimiter = self.frame_segmentation_config@.delimiter;
        let frames = self.segmenter.push(bytes, now_ms, &self.frame_segmentation_config);
        let ghost pending = frames_view(frames@);
        let ghost start = self@;
        proof {
            lemma_framing_conserves(all, delimiter);
        }
        let recording = self.recording.text_recording_active;
        let offset = self.timezone_offset_minutes;
        for frame in it: frames
            invariant
                it.seq() == frames@,
                self.wf(),
                    start.is_connected,
                pending == frames_view(frames@),
                total_len(pending) <= MAX_CODED_LEN,
                start.bytes_received + total_len(pending) <= u64::MAX,
                recording == old(self)@.recording.text_recording_active,
                offset == old(self)@.timezone_offset_minutes,
                self@ == with_received_frames(start, pending.subrange(0, it.index()), now),
                self@.bytes_received == start.bytes_received + total_len(
                    pending.subrange(0, it.index()),
                ),
                lines_view(lines@) == lines_for(old(self)@, pending.subrange(0, it.index()), now),
        {
            let ghost at = it.index();
            proof {
                lemma_total_len_prefix(pending, at);
                assert(pending.subrange(0, at + 1).drop_last() =~= pending.subrange(0, at));
                lemma_connected_stays(start, pending.subrange(0, at), now);
            }
            if recording {
                let line = text_record_line(frame.as_slice(), Direction::Received, now, offset);
                assert(lines_view(lines@.push(line)) =~= lines_view(lines@).push(line@));
                lines.push(line);
            }
            self.receive_frame(frame, now);
        }
        assert(pending.subrange(0, pending.len() as int) =~= pending);
        lines
    }

    /// Takes note that a read from the line brought nothing at the time
    /// `now`, `now_ms` on the clock of the line, and hands back the line to
    /// append to the text recording, if there is one.
    ///
    /// Where the mode honours timeouts, bytes wait for a frame, and the
    /// last of them came more than the timeout ago, these bytes are
    /// received as one frame. Otherwise, and without an open connection,
    /// nothing happens.
    pub fn idle(&mut self, now: UtcTime, now_ms: u64) -> (line: Option<String>)
        requires
            old(self).wf(),
            receive_fits(old(self)@, 0),
        ensures
            final(self).wf(),
            final(self)@ == idled(old(self)@, now, now_ms),
            text_of(line) == if flush_due(old(self)@, now_ms) && old(
                self,
            )@.recording.text_recording_active {
                Some(
                    record_line(
                        old(self)@.buffered,
                        Direction::Received,
                        now,
                        old(self)@.timezone_offset_minutes,
                    ),
                )
            } else {
                None
            },
    {
        if !self.is_connected {
            return None;
        }
        match self.segmenter.flush_idle(now_ms, &self.frame_segmentation_config) {
            Some(frame) => {
                let line = if self.recording.text_recording_active {
                    Some(
                        text_record_line(
                            frame.as_slice(),
                            Direction::Received,
                            now,
                            self.timezone_offset_minutes,
                        ),
                    )
                } else {
                    None
                };
                self.receive_frame(frame, now);
                line
            },
            None => None,
        }
    }

    /// Whether `len` more bytes from the line are within what the manager
    /// can take in.
    pub fn can_receive(&self, len: usize) -> (fits: bool)
        requires
            self.wf(),
        ensures
            fits == receive_fits(self@, len as int),
    {
        let buffered = self.segmenter.buffer.len();
        if len > MAX_CODED_LEN || buffered > MAX_CODED_LEN - len {
            return false;
        }
        let more: u64 = (buffered + len) as u64;
        self.bytes_received <= u64::MAX - more
    }

    /// Whether a payload of `len` bytes is within what the manager can
    /// record as sent.
    pub fn can_send(&self, len: usize) -> (fits: bool)
        ensures
            fits == send_fits(self@, len as int),
    {
        len <= MAX_CODED_LEN && self.bytes_sent <= u64::MAX - (len as u64)
    }

    /// One step of the reader loop: what to do about the outcome of a read
    /// from the line at the time `now`, `now_ms` on the clock of the line.
    ///
    /// Bytes are taken in as by `receive`, and the loop reads again at once.
    /// A read that brought nothing is noted as by `idle`, and the loop
    /// pauses. The loop stops, and nothing changes, after a failed read,
    /// without an open connection, and where the bytes are more than the
    /// manager can take in.
    pub fn reader_step(&mut self, outcome: ReadOutcome, now: UtcTime, now_ms: u64) -> (step:
        ReaderStep)
        requires
            old(self).wf(),
        ensures
            final(self).wf(),
            lines_view(step.text_lines@) == step_lines(old(self)@, outcome, now, now_ms),
            step.next == step_next(old(self)@, outcome),
            final(self)@ == stepped(old(self)@, outcome, now, now_ms),
    {
        let goes_on = self.is_connected && match &outcome {
            ReadOutcome::Data(bytes) => self.can_receive(bytes.len()),
            ReadOutcome::Idle => self.can_receive(0),
            ReadOutcome::Failed => false,
        };
        if !goes_on {
            self.reader_alive = false;
            return ReaderStep { text_lines: Vec::new(), next: ReaderNext::Stop };
        }
        match outcome {
            ReadOutcome::Data(bytes) => {
                let text_lines = self.receive(bytes.as_slice(), now, now_ms);
                ReaderStep { text_lines, next: ReaderNext::ReadAgain }
            },
            ReadOutcome::Idle => {
                let mut text_lines: Vec<String> = Vec::new();
                if let Some(line) = self.idle(now, now_ms) {
                    text_lines.push(line);
                }
                ReaderStep { text_lines, next: ReaderNext::Pause }
            },
            ReadOutcome::Failed => ReaderStep { text_lines: Vec::new(), next: ReaderNext::Stop },
        }
    }

    /// A snapshot of the connection and its counters.
    pub fn get_status(&self) -> (status: ConnectionStatus)
        ensures
            status@ == (ConnectionStatusView {
                is_connected: self@.is_connected,
                port_name: self@.port_name,
                config: self@.config,
                bytes_sent: self@.bytes_sent,
                bytes_received: self@.bytes_received,
                connection_time: self@.connection_time,
            }),
    {
        ConnectionStatus {
            is_connected: self.is_connected,
            port_name: clone_text(&self.port_name),
            config: self.config,
            bytes_sent: self.bytes_sent,
            bytes_received: self.bytes_received,
            connection_time: self.connection_time,
        }
    }

    /// Copies of the entries of the log, oldest first.
    pub fn get_logs(&self) -> (entries: Vec<LogEntry>)
        ensures
            entry_views(entries@) == self@.logs,
    {
        self.logs.entries()
    }

    /// Empties the log. The limit stays.
    pub fn clear_logs(&mut self)
        requires
            old(self).wf(),
        ensures
            final(self).wf(),
            final(self)@ == (SerialManagerView { logs: Seq::empty(), ..old(self)@ }),
    {
        self.logs.clear();
    }

    /// Sets the limit of the log to `max_entries`, brought into the range
    /// from 100 to 10000, and drops at once the oldest entries that the new
    /// limit has no room for.
    pub fn set_max_log_entries(&mut self, max_entries: usize)
        requires
            old(self).wf(),
        ensures
            final(self).wf(),
            final(self)@ == (SerialManagerView {
                max_log_entries: clamped_limit(max_entries as int) as usize,
                logs: most_recent(old(self)@.logs, clamped_limit(max_entries as int)),
                ..old(self)@
            }),
    {
        self.logs.set_max_entries(max_entries);
        proof {
            self.logs.lemma_within_limit();
        }
    }

    /// The limit of the log.
    pub fn get_max_log_entries(&self) -> (limit: usize)
        ensures
            limit == self@.max_log_entries,
    {
        self.logs.max_entries()
    }

    /// Sets how the received bytes are cut into frames, with the timeout
    /// brought into the range from 10 to 1000 milliseconds. The bytes that
    /// no frame holds yet stay and fall under the new rule.
    pub fn set_frame_segmentation_config(&mut self, config: FrameSegmentationConfig)
        requires
            old(self).wf(),
        ensures
            final(self).wf(),
            final(self)@ == (SerialManagerView {
                segmentation: FrameSegmentationConfigView {
                    timeout_ms: if config.timeout_ms < MIN_FRAME_TIMEOUT_MS {
                        MIN_FRAME_TIMEOUT_MS
                    } else if config.timeout_ms > MAX_FRAME_TIMEOUT_MS {
                        MAX_FRAME_TIMEOUT_MS
                    } else {
                        config.timeout_ms
                    },
                    ..config@
                },
                ..old(self)@
            }),
    {
        let timeout_ms = if config.timeout_ms < MIN_FRAME_TIMEOUT_MS {
            MIN_FRAME_TIMEOUT_MS
        } else if config.timeout_ms > MAX_FRAME_TIMEOUT_MS {
            MAX_FRAME_TIMEOUT_MS
        } else {
            config.timeout_ms
        };
        self.frame_segmentation_config = FrameSegmentationConfig {
            mode: config.mode,
            timeout_ms,
            delimiter: config.delimiter,
        };
    }

    /// How the received bytes are cut into frames.
    pub fn get_frame_segmentation_config(&self) -> (config: FrameSegmentationConfig)
        ensures
            config@ == self@.segmentation,
    {
        self.frame_segmentation_config.clone()
    }

    /// Sets whether payloads are displayed as text or in hexadecimal. The
    /// entries in the log keep their text.
    pub fn set_display_format(&mut self, format: ReceiveDisplayFormat)
        requires
            old(self).wf(),
        ensures
            final(self).wf(),
            final(self)@ == (SerialManagerView {
                display_settings: DisplaySettings { format, ..old(self)@.display_settings },
                ..old(self)@
            }),
    {
        self.display_settings.format = format;
    }

    /// Sets the encoding in which payloads are read as text.
    pub fn set_text_encoding(&mut self, encoding: TextEncoding)
        requires
            old(self).wf(),
        ensures
            final(self).wf(),
            final(self)@ == (SerialManagerView {
                display_settings: DisplaySettings { encoding, ..old(self)@.display_settings },
                ..old(self)@
            }),
    {
        self.display_settings.encoding = encoding;
    }

    /// Sets which characters of decoded text are shown as glyphs.
    pub fn set_special_char_config(&mut self, config: SpecialCharConfig)
        requires
            old(self).wf(),
        ensures
            final(self).wf(),
            final(self)@ == (SerialManagerView {
                display_settings: DisplaySettings {
                    special_char_config: config,
                    ..old(self)@.display_settings
                },
                ..old(self)@
            }),
    {
        self.display_settings.special_char_config = config;
    }

    /// Sets whether new entries carry their time of day as text.
    pub fn set_show_timestamps(&mut self, show: bool)
        requires
            old(self).wf(),
        ensures
            final(self).wf(),
            final(self)@ == (SerialManagerView {
                display_settings: DisplaySettings {
                    show_timestamps: show,
                    ..old(self)@.display_settings
                },
                ..old(self)@
            }),
    {
        self.display_settings.show_timestamps = show;
    }

    /// How payloads are rendered for display.
    pub fn get_display_settings(&self) -> (settings: DisplaySettings)
        ensures
            settings == self@.display_settings,
    {
        self.display_settings
    }

    /// Sets the directory under which recordings are made.
    pub fn set_log_directory(&mut self, path: String)
        requires
            old(self).wf(),
        ensures
            final(self).wf(),
            final(self)@ == (SerialManagerView { log_directory: path@, ..old(self)@ }),
    {
        self.log_directory = path;
    }

    /// The directory under which recordings are made.
    pub fn get_log_directory(&self) -> (path: String)
        ensures
            path@ == self@.log_directory,
    {
        self.log_directory.clone()
    }

    /// By how many minutes the clock of timestamps and file names is ahead
    /// of UTC.
    pub fn get_timezone_offset(&self) -> (offset_minutes: i32)
        ensures
            offset_minutes == self@.timezone_offset_minutes,
    {
        self.timezone_offset_minutes
    }

    /// The number of bytes read from the line that no frame holds yet.
    pub fn buffered_len(&self) -> (len: usize)
        ensures
            len == self@.buffered.len(),
    {
        self.segmenter.buffer.len()
    }

    /// Sets by how many minutes the clock of timestamps and file names is
    /// ahead of UTC.
    pub fn set_timezone_offset(&mut self, offset_minutes: i32)
        requires
            old(self).wf(),
        ensures
            final(self).wf(),
            final(self)@ == (SerialManagerView {
                timezone_offset_minutes: offset_minutes,
                ..old(self)@
            }),
    {
        self.timezone_offset_minutes = offset_minutes;
    }

    /// The name of the file of a recording that starts at the time `now`:
    /// the device name with each character that file names cannot hold
    /// replaced by an underscore, or `UNKNOWN` without a connection, then
    /// an underscore, the date and time on the manager's clock, a dot and
    /// `extension`.
    pub fn generate_recording_filename(&self, extension: &str, now: UtcTime) -> (name: String)
        ensures
            name@ == recording_file_name(
                self@.port_name,
                formatted_time(
                    now.seconds() as int,
                    now.nanoseconds() as int,
                    effective_offset(self@.timezone_offset_minutes as int),
                    FILE_STAMP_PATTERN@,
                ),
                extension@,
            ),
    {
        let device = match &self.port_name {
            Some(port) => Some(port.as_str()),
            None => None,
        };
        recording_name(device, extension, now, self.timezone_offset_minutes)
    }

    /// Records that text recording has started into the file `path`, and
    /// hands the path back. While text recording is active this fails with
    /// `TextRecordingActive` and nothing changes.
    pub fn start_text_recording(&mut self, path: String) -> (started: Result<String, SerialError>)
        requires
            old(self).wf(),
        ensures
            final(self).wf(),
            old(self)@.recording.text_recording_active ==> {
                &&& started matches Err(e)
                &&& e == SerialError::TextRecordingActive
                &&& final(self)@ == old(self)@
            },
            !old(self)@.recording.text_recording_active ==> {
                &&& started matches Ok(p)
                &&& p@ == path@
                &&& final(self)@ == (SerialManagerView {
                    recording: RecordingStatusView {
                        text_recording_active: true,
                        text_file_path: Some(path@),
                        ..old(self)@.recording
                    },
                    ..old(self)@
                })
            },
    {
        if self.recording.text_recording_active {
            return Err(SerialError::TextRecordingActive);
        }
        let copy = path.clone();
        self.recording.text_recording_active = true;
        self.recording.text_file_path = Some(path);
        Ok(copy)
    }

    /// Records that text recording has stopped: the channel is inactive
    /// and has no file. There is no failure.
    pub fn stop_text_recording(&mut self) -> (done: Result<(), SerialError>)
        requires
            old(self).wf(),
        ensures
            final(self).wf(),
            done is Ok,
            final(self)@ == (SerialManagerView {
                recording: RecordingStatusView {
                    text_recording_active: false,
                    text_file_path: None,
                    ..old(self)@.recording
                },
                ..old(self)@
            }),
    {
        self.recording.text_recording_active = false;
        self.recording.text_file_path = None;
        Ok(())
    }

    /// Records that raw recording has started into the file `path`, and
    /// hands the path back. While raw recording is active this fails with
    /// `RawRecordingActive` and nothing changes.
    pub fn start_raw_recording(&mut self, path: String) -> (started: Result<String, SerialError>)
        requires
            old(self).wf(),
        ensures
            final(self).wf(),
            old(self)@.recording.raw_recording_active ==> {
                &&& started matches Err(e)
                &&& e == SerialError::RawRecordingActive
                &&& final(self)@ == old(self)@
            },
            !old(self)@.recording.raw_recording_active ==> {
                &&& started matches Ok(p)
                &&& p@ == path@
                &&& final(self)@ == (SerialManagerView {
                    recording: RecordingStatusView {
                        raw_recording_active: true,
                        raw_file_path: Some(path@),
                        ..old(self)@.recording
                    },
                    ..old(self)@
                })
            },
    {
        if self.recording.raw_recording_active {
            return Err(SerialError::RawRecordingActive);
        }
        let copy = path.clone();
        self.recording.raw_recording_active = true;
        self.recording.raw_file_path = Some(path);
        Ok(copy)
    }

    /// Records that raw recording has stopped: the channel is inactive and
    /// has no file. There is no failure.
    pub fn stop_raw_recording(&mut self) -> (done: Result<(), SerialError>)
        requires
            old(self).wf(),
        ensures
            final(self).wf(),
            done is Ok,
            final(self)@ == (SerialManagerView {
                recording: RecordingStatusView {
                    raw_recording_active: false,
                    raw_file_path: None,
                    ..old(self)@.recording
                },
                ..old(self)@
            }),
    {
        self.recording.raw_recording_active = false;
        self.recording.raw_file_path = None;
        Ok(())
    }

    /// Which recording channels are active, and the file of each.
    pub fn get_recording_status(&self) -> (status: RecordingStatus)
        ensures
            status@ == self@.recording,
    {
        self.recording.clone()
    }

    /// The line to append to the text recording for the payload `data` that
    /// travelled in `direction` at the time `now`. There is none while text
    /// recording is inactive.
    pub fn write_to_text_file(&self, data: &[u8], direction: Direction, now: UtcTime) -> (line:
        Option<String>)
        ensures
            text_of(line) == if self@.recording.text_recording_active {
                Some(record_line(data@, direction, now, self@.timezone_offset_minutes))
            } else {
                None
            },
    {
        if self.recording.text_recording_active {
            Some(text_record_line(data, direction, now, self.timezone_offset_minutes))
        } else {
            None
        }
    }

    /// The bytes to append to the raw recording for the payload `data`:
    /// `data` as it is. There are none while raw recording is inactive.
    pub fn write_to_raw_file<'a>(&self, data: &'a [u8]) -> (bytes: Option<&'a [u8]>)
        ensures
            match bytes {
                Some(b) => self@.recording.raw_recording_active && b@ == data@,
                None => !self@.recording.raw_recording_active,
            },
    {
        if self.recording.raw_recording_active {
            Some(data)
        } else {
            None
        }
    }

    /// The log as a report in `format`, made at the time `now`, with times
    /// on a clock that is `timezone_offset_minutes` ahead of UTC: the
    /// plain-text report or the table. There is none for JSON, which is no
    /// text of this library's making.
    pub fn export_logs(
        &self,
        format: ExportFormat,
        timezone_offset_minutes: i32,
        now: UtcTime,
    ) -> (report: Option<String>)
        requires
            self.wf(),
        ensures
            text_of(report) == match format {
                ExportFormat::Txt => Some(text_report(self@.logs, now, timezone_offset_minutes)),
                ExportFormat::Csv => Some(table_report(self@.logs, timezone_offset_minutes)),
                ExportFormat::Json => None,
            },
    {
        let entries = self.get_logs();
        match format {
            ExportFormat::Txt => Some(
                export_text(entries.as_slice(), now, timezone_offset_minutes),
            ),
            ExportFormat::Csv => Some(export_csv(entries.as_slice(), timezone_offset_minutes)),
            ExportFormat::Json => None,
        }
    }

    /// Records that both recording channels have stopped.
    pub fn stop_all_recordings(&mut self)
        requires
            old(self).wf(),
        ensures
            final(self).wf(),
            final(self)@ == (SerialManagerView { recording: no_recording(), ..old(self)@ }),
    {
        let _ = self.stop_text_recording();
        let _ = self.stop_raw_recording();
    }
}

/// A disconnect without an open connection changes nothing, and a second
/// disconnect changes nothing after the first.
pub proof fn lemma_disconnect_idempotent(state: SerialManagerView)
    ensures
        !state.is_connected ==> disconnected(state) == state,
        disconnected(disconnected(state)) == disconnected(state),
{
}

/// Received frames are counted byte for byte, and touch nothing but the
/// log and the counter of received bytes.
pub proof fn lemma_frames_are_counted(state: SerialManagerView, frames: Seq<Seq<u8>>, now: UtcTime)
    requires
        state.bytes_received + total_len(frames) <= u64::MAX,
    ensures
        with_received_frames(state, frames, now).bytes_received == state.bytes_received
            + total_len(frames),
        with_received_frames(state, frames, now) == (SerialManagerView {
            logs: with_received_frames(state, frames, now).logs,
            bytes_received: with_received_frames(state, frames, now).bytes_received,
            ..state
        }),
    decreases frames.len(),
{
    if frames.len() > 0 {
        lemma_total_len_nonnegative(frames.drop_last());
        lemma_frames_are_counted(state, frames.drop_last(), now);
    }
}

/// No byte from the line is lost or counted twice: after bytes were read
/// on an open connection, the bytes counted as received and the bytes that
/// still wait for a frame are, together, as many more as were read.
pub proof fn lemma_every_byte_is_kept(
    state: SerialManagerView,
    bytes: Seq<u8>,
    now: UtcTime,
    now_ms: u64,
)
    requires
        state.is_connected,
        state.bytes_received + state.buffered.len() + bytes.len() <= u64::MAX,
    ensures
        received(state, bytes, now, now_ms).bytes_received + received(
            state,
            bytes,
            now,
            now_ms,
        ).buffered.len() == state.bytes_received + state.buffered.len() + bytes.len(),
{
    if state.segmentation.mode.spec_scans_delimiters() {
        let all = state.buffered + bytes;
        let delimiter = state.segmentation.delimiter;
        lemma_framing_conserves(all, delimiter);
        lemma_frames_are_counted(
            SerialManagerView {
                buffered: remainder_of(all, delimiter),
                last_data_ms: now_ms,
                ..state
            },
            frames_of(all, delimiter),
            now,
        );
    }
}

/// Silence that lasts longer than the timeout leaves no byte waiting: where
/// the flush is due, all bytes that waited are received as one frame.
pub proof fn lemma_silence_empties_the_buffer(state: SerialManagerView, now: UtcTime, now_ms: u64)
    requires
        flush_due(state, now_ms),
    ensures
        idled(state, now, now_ms).buffered.len() == 0,
        idled(state, now, now_ms).logs == most_recent(
            state.logs.push(entry_for(state, state.buffered, Direction::Received, now)),
            state.max_log_entries as int,
        ),
{
}

/// Receiving frames leaves the connection open.
pub proof fn lemma_connected_stays(state: SerialManagerView, frames: Seq<Seq<u8>>, now: UtcTime)
    ensures
        with_received_frames(state, frames, now).is_connected == state.is_connected,
        with_received_frames(state, frames, now).recording == state.recording,
        with_received_frames(state, frames, now).timezone_offset_minutes
            == state.timezone_offset_minutes,
    decreases frames.len(),
{
    if frames.len() > 0 {
        lemma_connected_stays(state, frames.drop_last(), now);
    }
}

} // verus!
