use rserial::types::{
    DataBits, FlowControl, FrameDelimiter, FrameSegmentationConfig, FrameSegmentationMode, Parity,
    ReceiveDisplayFormat, RecordingStatus, SerialConfig, SerialPortInfo, StopBits, TextEncoding,
};

#[test]
fn delimiters_have_their_bytes() {
    assert_eq!(FrameDelimiter::AnyNewline.to_bytes(), Vec::<u8>::new());
    assert_eq!(FrameDelimiter::CR.to_bytes(), vec![0x0D]);
    assert_eq!(FrameDelimiter::LF.to_bytes(), vec![0x0A]);
    assert_eq!(FrameDelimiter::CRLF.to_bytes(), vec![0x0D, 0x0A]);
    assert_eq!(FrameDelimiter::Custom(vec![1, 2, 3]).to_bytes(), vec![1, 2, 3]);
    assert_eq!(FrameDelimiter::Custom(Vec::new()).to_bytes(), Vec::<u8>::new());
}

#[test]
fn only_the_any_newline_delimiter_is_any_newline() {
    assert!(FrameDelimiter::AnyNewline.is_any_newline());
    assert!(!FrameDelimiter::CR.is_any_newline());
    assert!(!FrameDelimiter::LF.is_any_newline());
    assert!(!FrameDelimiter::CRLF.is_any_newline());
    assert!(!FrameDelimiter::Custom(Vec::new()).is_any_newline());
}

#[test]
fn default_connection_parameters() {
    let config = SerialConfig::default();
    assert_eq!(config.baud_rate, 115200);
    assert_eq!(config.data_bits, DataBits::Eight);
    assert_eq!(config.parity, Parity::Disabled);
    assert_eq!(config.stop_bits, StopBits::One);
    assert_eq!(config.flow_control, FlowControl::Disabled);
    assert_eq!(config.timeout, 1000);
}

#[test]
fn default_segmentation_is_by_timeout() {
    let config = FrameSegmentationConfig::default();
    assert_eq!(config.mode, FrameSegmentationMode::Timeout);
    assert_eq!(config.timeout_ms, 10);
    assert_eq!(config.delimiter, FrameDelimiter::AnyNewline);
    assert_eq!(FrameSegmentationMode::default(), FrameSegmentationMode::Timeout);
    assert_eq!(FrameDelimiter::default(), FrameDelimiter::AnyNewline);
    assert_eq!(config.clone(), config);
}

#[test]
fn modes_say_what_ends_a_frame() {
    assert!(FrameSegmentationMode::Timeout.honours_timeout());
    assert!(!FrameSegmentationMode::Timeout.scans_delimiters());
    assert!(!FrameSegmentationMode::Delimiter.honours_timeout());
    assert!(FrameSegmentationMode::Delimiter.scans_delimiters());
    assert!(FrameSegmentationMode::Combined.honours_timeout());
    assert!(FrameSegmentationMode::Combined.scans_delimiters());
}

#[test]
fn other_defaults() {
    assert_eq!(TextEncoding::default(), TextEncoding::Utf8);
    assert_eq!(ReceiveDisplayFormat::default(), ReceiveDisplayFormat::Txt);
    let status = RecordingStatus::default();
    assert!(!status.text_recording_active && !status.raw_recording_active);
    assert_eq!(status.text_file_path, None);
    assert_eq!(status.raw_file_path, None);
}

#[test]
fn copies_are_equal_to_what_they_copy() {
    let port = SerialPortInfo {
        port_name: "COM3".to_string(),
        port_type: "USB".to_string(),
        description: Some("adapter".to_string()),
        manufacturer: None,
        product: Some("adapter".to_string()),
        serial_number: Some("A1".to_string()),
        vid: Some(0x0403),
        pid: Some(0x6001),
    };
    assert_eq!(port.clone(), port);
    let delimiter = FrameDelimiter::Custom(vec![1, 2]);
    assert_eq!(delimiter.clone(), delimiter);
    let status = RecordingStatus {
        text_recording_active: true,
        raw_recording_active: false,
        text_file_path: Some("a.txt".to_string()),
        raw_file_path: None,
    };
    assert_eq!(status.clone(), status);
}
