use cloud_scraper::clock::{format_uuid, micros_of_reading, now_micros, ClockReading};
use cloud_scraper::identifiers::{DataKind, EntityUser, IdentifiableSink};
use cloud_scraper::sinks::LogSink;

#[test]
fn log_sink_identity() {
    let sink = LogSink::new();
    assert_eq!(LogSink::SINK_ID, "log");
    assert_eq!(sink.this_identifier(), "log");
    assert_eq!(LogSink::supported_entity_data(), vec![DataKind::Text, DataKind::Uuid]);
}

#[test]
fn uuids_are_written_hyphenated() {
    assert_eq!(
        format_uuid(0x67e5504410b1426f9247bb680e5fe0c8),
        "67e55044-10b1-426f-9247-bb680e5fe0c8"
    );
}

#[test]
fn clock_readings_become_microseconds() {
    assert_eq!(micros_of_reading(ClockReading::After(2, 500_999)), Some(2_000_500));
    assert_eq!(micros_of_reading(ClockReading::Before(1, 0)), Some(-1_000_000));
    assert_eq!(micros_of_reading(ClockReading::Before(1, 500_000_000)), Some(-1_500_000));
    assert_eq!(micros_of_reading(ClockReading::After(u64::MAX, 0)), None);
    let now = now_micros().unwrap();
    assert!((now - chrono::Utc::now().timestamp_micros()).abs() < 10_000_000);
}
