//! The backend of a serial-link terminal: it turns the byte stream of a
//! serial line into timestamped, display-ready log entries and keeps the
//! books of a connection.
//!
//! The library performs no input or output. A program around it opens the
//! line and the recording files, reads the clock and runs the reader thread;
//! it tells the [`serial_manager::SerialManager`] what happened and writes
//! what the manager hands back.
//!
//! - [`delimiter`] finds frame boundaries in a buffer.
//! - [`segmenter`] gathers bytes and decides when a frame is finished.
//! - [`display`] renders a payload as hexadecimal digits or as text.
//! - [`payload`] turns what the user wrote into the bytes to send.
//! - [`log_buffer`] is the bounded log.
//! - [`recording`] and [`export`] say what goes into files.
//! - [`serial_manager`] is the state of a connection and its transitions.
//! - [`version`] and [`updater`] judge a published release.
//! - [`clock`], [`gbk`] and [`text`] hold what rests on `chrono`,
//!   `encoding_rs` and `std`.

pub mod clock;
pub mod delimiter;
pub mod display;
pub mod error;
pub mod export;
pub mod gbk;
pub mod log_buffer;
pub mod payload;
pub mod recording;
pub mod segmenter;
pub mod serial_manager;
pub mod text;
pub mod types;
pub mod updater;
pub mod version;
