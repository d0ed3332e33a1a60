use rserial::clock::UtcTime;
use rserial::log_buffer::LogBuffer;
use rserial::types::{DataFormat, Direction, LogEntry};

fn entry(number: u32) -> LogEntry {
    LogEntry {
        id: None,
        timestamp: UtcTime::new(number as i64, 0).unwrap(),
        direction: Direction::Received,
        data: number.to_be_bytes().to_vec(),
        format: DataFormat::Text,
        port_name: "COM1".to_string(),
        display_text: number.to_string(),
        timestamp_formatted: None,
    }
}

fn numbers(log: &LogBuffer) -> Vec<u32> {
    log.entries().iter().map(|e| e.display_text.parse().unwrap()).collect()
}

#[test]
fn a_new_log_is_empty_with_the_default_limit() {
    let log = LogBuffer::new();
    assert_eq!(log.len(), 0);
    assert_eq!(log.max_entries(), 1000);
    assert!(log.entries().is_empty());
}

#[test]
fn the_log_holds_as_many_entries_as_came_in_or_as_the_limit_allows() {
    for limit in [100usize, 250, 1000] {
        for count in [0u32, 1, 99, 100, 101, 250, 251, 1500] {
            let mut log = LogBuffer::new();
            log.set_max_entries(limit);
            for number in 0..count {
                log.push(entry(number));
            }
            let expected = std::cmp::min(count as usize, limit);
            assert_eq!(log.len(), expected);
            let first = count - expected as u32;
            assert_eq!(numbers(&log), (first..count).collect::<Vec<u32>>());
        }
    }
}

#[test]
fn a_full_log_drops_its_oldest_entry() {
    let mut log = LogBuffer::new();
    log.set_max_entries(100);
    for number in 0..100 {
        log.push(entry(number));
    }
    assert_eq!(numbers(&log).first(), Some(&0));
    log.push(entry(100));
    assert_eq!(log.len(), 100);
    assert_eq!(numbers(&log).first(), Some(&1));
    assert_eq!(numbers(&log).last(), Some(&100));
}

#[test]
fn a_lowered_limit_truncates_at_once_to_the_most_recent() {
    let mut log = LogBuffer::new();
    for number in 0..500 {
        log.push(entry(number));
    }
    assert_eq!(log.len(), 500);
    log.set_max_entries(100);
    assert_eq!(log.max_entries(), 100);
    assert_eq!(log.len(), 100);
    assert_eq!(numbers(&log), (400..500).collect::<Vec<u32>>());
}

#[test]
fn the_limit_is_kept_between_100_and_10000() {
    let mut log = LogBuffer::new();
    log.set_max_entries(0);
    assert_eq!(log.max_entries(), 100);
    log.set_max_entries(99);
    assert_eq!(log.max_entries(), 100);
    log.set_max_entries(10_001);
    assert_eq!(log.max_entries(), 10_000);
    log.set_max_entries(usize::MAX);
    assert_eq!(log.max_entries(), 10_000);
    log.set_max_entries(5000);
    assert_eq!(log.max_entries(), 5000);
}

#[test]
fn a_raised_limit_keeps_every_entry() {
    let mut log = LogBuffer::new();
    log.set_max_entries(100);
    for number in 0..100 {
        log.push(entry(number));
    }
    log.set_max_entries(200);
    assert_eq!(numbers(&log), (0..100).collect::<Vec<u32>>());
}

#[test]
fn clearing_empties_the_log_and_keeps_the_limit() {
    let mut log = LogBuffer::new();
    log.set_max_entries(300);
    log.push(entry(1));
    log.clear();
    assert_eq!(log.len(), 0);
    assert_eq!(log.max_entries(), 300);
}

#[test]
fn entries_come_back_as_they_went_in() {
    let mut log = LogBuffer::new();
    log.push(entry(7));
    assert_eq!(log.entries(), vec![entry(7)]);
    assert_eq!(entry(7).clone(), entry(7));
}
