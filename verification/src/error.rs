//! The errors that the library reports.

use vstd::prelude::*;

verus! {

/// Why an operation was refused.
#[derive(Clone, Copy, Debug, PartialEq, Eq, Structural)]
pub enum SerialError {
    /// Data was to be sent while no connection was open.
    NotConnected,
    /// Text recording was to be started while it was running.
    TextRecordingActive,
    /// Raw recording was to be started while it was running.
    RawRecordingActive,
    /// A hexadecimal payload held an odd number of digits.
    OddHexLength,
    /// A hexadecimal payload held something that is no hexadecimal digit.
    InvalidHex,
}

impl SerialError {
    /// The error in words.
    pub fn message(&self) -> (text: &'static str)
        ensures
            text@ == match *self {
                SerialError::NotConnected => "No port is currently open"@,
                SerialError::TextRecordingActive => "Text recording is already active"@,
                SerialError::RawRecordingActive => "Raw recording is already active"@,
                SerialError::OddHexLength => "Hex string must have even number of characters"@,
                SerialError::InvalidHex => "Invalid hex characters"@,
            },
    {
        match self {
            SerialError::NotConnected => "No port is currently open",
            SerialError::TextRecordingActive => "Text recording is already active",
            SerialError::RawRecordingActive => "Raw recording is already active",
            SerialError::OddHexLength => "Hex string must have even number of characters",
            SerialError::InvalidHex => "Invalid hex characters",
        }
    }
}

} // verus!
