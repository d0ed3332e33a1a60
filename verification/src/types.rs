//! The data model: connection parameters, framing and display settings, log
//! entries and status snapshots.
//!
//! Types that own a `String` or a `Vec` have a view that holds the same
//! fields as sequences; the contracts of the library speak of those views.

use crate::clock::UtcTime;
use crate::delimiter::{CR, LF};
use vstd::prelude::*;

verus! {

/// One entry of the host's list of serial devices.
#[derive(Debug, PartialEq, Eq)]
pub struct SerialPortInfo {
    pub port_name: String,
    pub port_type: String,
    pub description: Option<String>,
    pub manufacturer: Option<String>,
    pub product: Option<String>,
    pub serial_number: Option<String>,
    pub vid: Option<u16>,
    pub pid: Option<u16>,
}

/// A serial device as a value of sequences.
pub struct SerialPortInfoView {
    pub port_name: Seq<char>,
    pub port_type: Seq<char>,
    pub description: Option<Seq<char>>,
    pub manufacturer: Option<Seq<char>>,
    pub product: Option<Seq<char>>,
    pub serial_number: Option<Seq<char>>,
    pub vid: Option<u16>,
    pub pid: Option<u16>,
}

/// Number of data bits per character.
#[derive(Clone, Copy, Debug, PartialEq, Eq, Structural)]
pub enum DataBits {
    Five,
    Six,
    Seven,
    Eight,
}

/// Parity checking mode.
#[derive(Clone, Copy, Debug, PartialEq, Eq, Structural)]
pub enum Parity {
    Disabled,
    Odd,
    Even,
    Mark,
    Space,
}

/// Number of stop bits.
#[derive(Clone, Copy, Debug, PartialEq, Eq, Structural)]
pub enum StopBits {
    One,
    OnePointFive,
    Two,
}

/// Flow control mode.
#[derive(Clone, Copy, Debug, PartialEq, Eq, Structural)]
pub enum FlowControl {
    Disabled,
    Software,
    Hardware,
}

/// The parameters of one connection. A connection keeps the parameters it
/// was opened with; other parameters take a new connection.
#[derive(Clone, Copy, Debug, PartialEq, Eq, Structural)]
pub struct SerialConfig {
    pub baud_rate: u32,
    pub data_bits: DataBits,
    pub parity: Parity,
    pub stop_bits: StopBits,
    pub flow_control: FlowControl,
    pub timeout: u64,
}

impl Default for SerialConfig {
    /// 115200 baud, 8 data bits, no parity, 1 stop bit, no flow control, a
    /// timeout of 1000.
    fn default() -> (config: Self)
        ensures
            config == (SerialConfig {
                baud_rate: 115200,
                data_bits: DataBits::Eight,
                parity: Parity::Disabled,
                stop_bits: StopBits::One,
                flow_control: FlowControl::Disabled,
                timeout: 1000,
            }),
    {
        SerialConfig {
            baud_rate: 115200,
            data_bits: DataBits::Eight,
            parity: Parity::Disabled,
            stop_bits: StopBits::One,
            flow_control: FlowControl::Disabled,
            timeout: 1000,
        }
    }
}

/// How outgoing data is written down by the caller.
#[derive(Clone, Copy, Debug, PartialEq, Eq, Structural)]
pub enum DataFormat {
    Text,
    Hex,
}

/// A text encoding for payloads.
#[derive(Clone, Copy, Debug, PartialEq, Eq, Structural)]
pub enum TextEncoding {
    Utf8,
    Gbk,
}

impl Default for TextEncoding {
    fn default() -> (encoding: Self)
        ensures
            encoding == TextEncoding::Utf8,
    {
        TextEncoding::Utf8
    }
}

/// Which way a payload travelled.
#[derive(Clone, Copy, Debug, PartialEq, Eq, Structural)]
pub enum Direction {
    Sent,
    Received,
}

/// One frame of traffic, with its display text as it was rendered when the
/// entry was made.
#[derive(Debug, PartialEq, Eq)]
pub struct LogEntry {
    pub id: Option<i64>,
    pub timestamp: UtcTime,
    pub direction: Direction,
    pub data: Vec<u8>,
    pub format: DataFormat,
    pub port_name: String,
    /// The payload rendered under the display settings of the moment.
    pub display_text: String,
    /// The time of day of the entry, absent when timestamps were switched
    /// off at the moment.
    pub timestamp_formatted: Option<String>,
}

/// A log entry as a value of sequences.
pub struct LogEntryView {
    pub id: Option<i64>,
    pub timestamp: UtcTime,
    pub direction: Direction,
    pub data: Seq<u8>,
    pub format: DataFormat,
    pub port_name: Seq<char>,
    pub display_text: Seq<char>,
    pub timestamp_formatted: Option<Seq<char>>,
}

/// The characters of an optional string.
pub open spec fn text_of(text: Option<String>) -> Option<Seq<char>> {
    match text {
        Some(s) => Some(s@),
        None => None,
    }
}

impl View for LogEntry {
    type V = LogEntryView;

    open spec fn view(&self) -> LogEntryView {
        LogEntryView {
            id: self.id,
            timestamp: self.timestamp,
            direction: self.direction,
            data: self.data@,
            format: self.format,
            port_name: self.port_name@,
            display_text: self.display_text@,
            timestamp_formatted: text_of(self.timestamp_formatted),
        }
    }
}

/// A copy of an optional string.
pub fn clone_text(text: &Option<String>) -> (copy: Option<String>)
    ensures
        text_of(copy) == text_of(*text),
{
    match text {
        Some(s) => Some(s.clone()),
        None => None,
    }
}

/// A copy of a byte vector.
pub fn clone_bytes(bytes: &Vec<u8>) -> (copy: Vec<u8>)
    ensures
        copy@ == bytes@,
{
    let copy = bytes.clone();
    copy
}

impl View for SerialPortInfo {
    type V = SerialPortInfoView;

    open spec fn view(&self) -> SerialPortInfoView {
        SerialPortInfoView {
            port_name: self.port_name@,
            port_type: self.port_type@,
            description: text_of(self.description),
            manufacturer: text_of(self.manufacturer),
            product: text_of(self.product),
            serial_number: text_of(self.serial_number),
            vid: self.vid,
            pid: self.pid,
        }
    }
}

impl Clone for SerialPortInfo {
    fn clone(&self) -> (copy: Self)
        ensures
            copy@ == self@,
    {
        SerialPortInfo {
            port_name: self.port_name.clone(),
            port_type: self.port_type.clone(),
            description: clone_text(&self.description),
            manufacturer: clone_text(&self.manufacturer),
            product: clone_text(&self.product),
            serial_number: clone_text(&self.serial_number),
            vid: self.vid,
            pid: self.pid,
        }
    }
}

impl Clone for LogEntry {
    fn clone(&self) -> (copy: Self)
        ensures
            copy@ == self@,
    {
        LogEntry {
            id: self.id,
            timestamp: self.timestamp,
            direction: self.direction,
            data: clone_bytes(&self.data),
            format: self.format,
            port_name: self.port_name.clone(),
            display_text: self.display_text.clone(),
            timestamp_formatted: clone_text(&self.timestamp_formatted),
        }
    }
}

/// A snapshot of the connection and its traffic counters.
#[derive(Debug, PartialEq, Eq)]
pub struct ConnectionStatus {
    pub is_connected: bool,
    pub port_name: Option<String>,
    pub config: Option<SerialConfig>,
    pub bytes_sent: u64,
    pub bytes_received: u64,
    pub connection_time: Option<UtcTime>,
}

/// A connection status as a value of sequences.
pub struct ConnectionStatusView {
    pub is_connected: bool,
    pub port_name: Option<Seq<char>>,
    pub config: Option<SerialConfig>,
    pub bytes_sent: u64,
    pub bytes_received: u64,
    pub connection_time: Option<UtcTime>,
}

impl View for ConnectionStatus {
    type V = ConnectionStatusView;

    open spec fn view(&self) -> ConnectionStatusView {
        ConnectionStatusView {
            is_connected: self.is_connected,
            port_name: text_of(self.port_name),
            config: self.config,
            bytes_sent: self.bytes_sent,
            bytes_received: self.bytes_received,
            connection_time: self.connection_time,
        }
    }
}

impl Clone for ConnectionStatus {
    fn clone(&self) -> (copy: Self)
        ensures
            copy@ == self@,
    {
        ConnectionStatus {
            is_connected: self.is_connected,
            port_name: clone_text(&self.port_name),
            config: self.config,
            bytes_sent: self.bytes_sent,
            bytes_received: self.bytes_received,
            connection_time: self.connection_time,
        }
    }
}

/// The file formats of a log export.
#[derive(Clone, Copy, Debug, PartialEq, Eq, Structural)]
pub enum ExportFormat {
    Txt,
    Csv,
    Json,
}

/// What ends a frame.
#[derive(Clone, Copy, Debug, PartialEq, Eq, Structural)]
pub enum FrameSegmentationMode {
    /// Silence on the line ends a frame.
    Timeout,
    /// A delimiter ends a frame.
    Delimiter,
    /// A delimiter ends a frame, and so does silence on the line.
    Combined,
}

impl Default for FrameSegmentationMode {
    fn default() -> (mode: Self)
        ensures
            mode == FrameSegmentationMode::Timeout,
    {
        FrameSegmentationMode::Timeout
    }
}

impl FrameSegmentationMode {
    /// Whether a delimiter ends a frame in this mode.
    pub open spec fn spec_scans_delimiters(self) -> bool {
        self == FrameSegmentationMode::Delimiter || self == FrameSegmentationMode::Combined
    }

    /// Whether silence on the line ends a frame in this mode.
    pub open spec fn spec_honours_timeout(self) -> bool {
        self == FrameSegmentationMode::Timeout || self == FrameSegmentationMode::Combined
    }

    /// Whether a delimiter ends a frame in this mode.
    #[verifier::when_used_as_spec(spec_scans_delimiters)]
    pub fn scans_delimiters(self) -> (scans: bool)
        ensures
            scans == self.spec_scans_delimiters(),
    {
        match self {
            FrameSegmentationMode::Timeout => false,
            FrameSegmentationMode::Delimiter => true,
            FrameSegmentationMode::Combined => true,
        }
    }

    /// Whether silence on the line ends a frame in this mode.
    #[verifier::when_used_as_spec(spec_honours_timeout)]
    pub fn honours_timeout(self) -> (honours: bool)
        ensures
            honours == self.spec_honours_timeout(),
    {
        match self {
            FrameSegmentationMode::Timeout => true,
            FrameSegmentationMode::Delimiter => false,
            FrameSegmentationMode::Combined => true,
        }
    }
}

/// The byte pattern that ends a frame.
#[derive(Debug, PartialEq, Eq)]
pub enum FrameDelimiter {
    /// A carriage return, a line feed, or the two in this order, each as one
    /// line ending.
    AnyNewline,
    CR,
    LF,
    CRLF,
    Custom(Vec<u8>),
}

/// A frame delimiter as a value of sequences.
pub enum FrameDelimiterView {
    AnyNewline,
    CR,
    LF,
    CRLF,
    Custom(Seq<u8>),
}

impl FrameDelimiterView {
    /// The bytes of the delimiter; none for the any-newline delimiter, which
    /// is no fixed pattern.
    pub open spec fn pattern(self) -> Seq<u8> {
        match self {
            FrameDelimiterView::AnyNewline => Seq::empty(),
            FrameDelimiterView::CR => seq![CR],
            FrameDelimiterView::LF => seq![LF],
            FrameDelimiterView::CRLF => seq![CR, LF],
            FrameDelimiterView::Custom(bytes) => bytes,
        }
    }
}

impl View for FrameDelimiter {
    type V = FrameDelimiterView;

    open spec fn view(&self) -> FrameDelimiterView {
        match self {
            FrameDelimiter::AnyNewline => FrameDelimiterView::AnyNewline,
            FrameDelimiter::CR => FrameDelimiterView::CR,
            FrameDelimiter::LF => FrameDelimiterView::LF,
            FrameDelimiter::CRLF => FrameDelimiterView::CRLF,
            FrameDelimiter::Custom(bytes) => FrameDelimiterView::Custom(bytes@),
        }
    }
}

impl Default for FrameDelimiter {
    fn default() -> (delimiter: Self)
        ensures
            delimiter@ == FrameDelimiterView::AnyNewline,
    {
        FrameDelimiter::AnyNewline
    }
}

impl Clone for FrameDelimiter {
    fn clone(&self) -> (copy: Self)
        ensures
            copy@ == self@,
    {
        match self {
            FrameDelimiter::AnyNewline => FrameDelimiter::AnyNewline,
            FrameDelimiter::CR => FrameDelimiter::CR,
            FrameDelimiter::LF => FrameDelimiter::LF,
            FrameDelimiter::CRLF => FrameDelimiter::CRLF,
            FrameDelimiter::Custom(bytes) => FrameDelimiter::Custom(clone_bytes(bytes)),
        }
    }
}

impl FrameDelimiter {
    /// The bytes of the delimiter; none for the any-newline delimiter, which
    /// is no fixed pattern.
    pub fn to_bytes(&self) -> (bytes: Vec<u8>)
        ensures
            bytes@ == self@.pattern(),
    {
        let bytes = match self {
            FrameDelimiter::AnyNewline => Vec::new(),
            FrameDelimiter::CR => vec![CR],
            FrameDelimiter::LF => vec![LF],
            FrameDelimiter::CRLF => vec![CR, LF],
            FrameDelimiter::Custom(bytes) => clone_bytes(bytes),
        };
        bytes
    }

    /// Whether this is the any-newline delimiter.
    pub fn is_any_newline(&self) -> (any: bool)
        ensures
            any == (self@ is AnyNewline),
    {
        match self {
            FrameDelimiter::AnyNewline => true,
            _ => false,
        }
    }
}

/// The smallest frame timeout, in milliseconds.
pub const MIN_FRAME_TIMEOUT_MS: u64 = 10;

/// The largest frame timeout, in milliseconds.
pub const MAX_FRAME_TIMEOUT_MS: u64 = 1000;

/// How the received byte stream is cut into frames.
#[derive(Debug, PartialEq, Eq)]
pub struct FrameSegmentationConfig {
    pub mode: FrameSegmentationMode,
    pub timeout_ms: u64,
    pub delimiter: FrameDelimiter,
}

/// A segmentation configuration as a value of sequences.
pub struct FrameSegmentationConfigView {
    pub mode: FrameSegmentationMode,
    pub timeout_ms: u64,
    pub delimiter: FrameDelimiterView,
}

impl View for FrameSegmentationConfig {
    type V = FrameSegmentationConfigView;

    open spec fn view(&self) -> FrameSegmentationConfigView {
        FrameSegmentationConfigView {
            mode: self.mode,
            timeout_ms: self.timeout_ms,
            delimiter: self.delimiter@,
        }
    }
}

impl Default for FrameSegmentationConfig {
    /// Timeout mode with a timeout of 10 ms and the any-newline delimiter.
    fn default() -> (config: Self)
        ensures
            config@ == (FrameSegmentationConfigView {
                mode: FrameSegmentationMode::Timeout,
                timeout_ms: 10,
                delimiter: FrameDelimiterView::AnyNewline,
            }),
    {
        FrameSegmentationConfig {
            mode: FrameSegmentationMode::Timeout,
            timeout_ms: 10,
            delimiter: FrameDelimiter::AnyNewline,
        }
    }
}

impl Clone for FrameSegmentationConfig {
    fn clone(&self) -> (copy: Self)
        ensures
            copy@ == self@,
    {
        FrameSegmentationConfig {
            mode: self.mode,
            timeout_ms: self.timeout_ms,
            delimiter: self.delimiter.clone(),
        }
    }
}

/// Which recording channels are active, and the file of each.
#[derive(Debug, PartialEq, Eq)]
pub struct RecordingStatus {
    pub text_recording_active: bool,
    pub raw_recording_active: bool,
    pub text_file_path: Option<String>,
    pub raw_file_path: Option<String>,
}

/// A recording status as a value of sequences.
pub struct RecordingStatusView {
    pub text_recording_active: bool,
    pub raw_recording_active: bool,
    pub text_file_path: Option<Seq<char>>,
    pub raw_file_path: Option<Seq<char>>,
}

impl View for RecordingStatus {
    type V = RecordingStatusView;

    open spec fn view(&self) -> RecordingStatusView {
        RecordingStatusView {
            text_recording_active: self.text_recording_active,
            raw_recording_active: self.raw_recording_active,
            text_file_path: text_of(self.text_file_path),
            raw_file_path: text_of(self.raw_file_path),
        }
    }
}

impl Default for RecordingStatus {
    /// No channel active.
    fn default() -> (status: Self)
        ensures
            status@ == (RecordingStatusView {
                text_recording_active: false,
                raw_recording_active: false,
                text_file_path: None,
                raw_file_path: None,
            }),
    {
        RecordingStatus {
            text_recording_active: false,
            raw_recording_active: false,
            text_file_path: None,
            raw_file_path: None,
        }
    }
}

impl Clone for RecordingStatus {
    fn clone(&self) -> (copy: Self)
        ensures
            copy@ == self@,
    {
        RecordingStatus {
            text_recording_active: self.text_recording_active,
            raw_recording_active: self.raw_recording_active,
            text_file_path: clone_text(&self.text_file_path),
            raw_file_path: clone_text(&self.raw_file_path),
        }
    }
}

/// How received payloads are rendered.
#[derive(Clone, Copy, Debug, PartialEq, Eq, Structural)]
pub enum ReceiveDisplayFormat {
    Txt,
    Hex,
}

impl Default for ReceiveDisplayFormat {
    fn default() -> (format: Self)
        ensures
            format == ReceiveDisplayFormat::Txt,
    {
        ReceiveDisplayFormat::Txt
    }
}

/// Which characters of decoded text are shown as visible glyphs. `enabled`
/// switches the whole substitution; each other field switches one character.
#[derive(Clone, Copy, Debug, PartialEq, Eq, Structural)]
pub struct SpecialCharConfig {
    pub enabled: bool,
    pub convert_lf: bool,
    pub convert_cr: bool,
    pub convert_tab: bool,
    pub convert_null: bool,
    pub convert_esc: bool,
    pub convert_spaces: bool,
}

impl Default for SpecialCharConfig {
    /// Every substitution switched on.
    fn default() -> (config: Self)
        ensures
            config == (SpecialCharConfig {
                enabled: true,
                convert_lf: true,
                convert_cr: true,
                convert_tab: true,
                convert_null: true,
                convert_esc: true,
                convert_spaces: true,
            }),
    {
        SpecialCharConfig {
            enabled: true,
            convert_lf: true,
            convert_cr: true,
            convert_tab: true,
            convert_null: true,
            convert_esc: true,
            convert_spaces: true,
        }
    }
}

/// How payloads are rendered for display. A change holds for the entries
/// made after it; an entry keeps the text it was made with.
#[derive(Clone, Copy, Debug, PartialEq, Eq, Structural)]
pub struct DisplaySettings {
    pub format: ReceiveDisplayFormat,
    pub encoding: TextEncoding,
    pub special_char_config: SpecialCharConfig,
    pub show_timestamps: bool,
}

impl Default for DisplaySettings {
    /// Text in UTF-8, every substitution switched on, timestamps shown.
    fn default() -> (settings: Self)
        ensures
            settings == (DisplaySettings {
                format: ReceiveDisplayFormat::Txt,
                encoding: TextEncoding::Utf8,
                special_char_config: SpecialCharConfig {
                    enabled: true,
                    convert_lf: true,
                    convert_cr: true,
                    convert_tab: true,
                    convert_null: true,
                    convert_esc: true,
                    convert_spaces: true,
                },
                show_timestamps: true,
            }),
    {
        DisplaySettings {
            format: ReceiveDisplayFormat::Txt,
            encoding: TextEncoding::Utf8,
            special_char_config: SpecialCharConfig::default(),
            show_timestamps: true,
        }
    }
}

} // verus!
