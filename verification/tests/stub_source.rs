use cloud_scraper::identifiers::{DataKind, EntityUser, IdentifiableSource};
use cloud_scraper::clock::{rfc3339, MAX_INSTANT, MIN_INSTANT};
use cloud_scraper::stub_source::{StubError, StubSource};

const SECOND: i64 = 1_000_000;

fn random_bits() -> u128 {
    uuid::Uuid::new_v4().as_u128()
}

fn now() -> i64 {
    chrono::Utc::now().timestamp_micros()
}

#[test]
fn test_stub_source_get() {
    let mut source = StubSource::new();
    let now = now();
    let since = now - SECOND;
    let entities = source.get(since, random_bits).unwrap();
    assert_eq!(entities.len(), 1);
    assert_eq!(entities[0].created_at(), since);
    assert_eq!(entities[0].updated_at(), since + SECOND);

    let since = now + 2 * SECOND;
    assert_eq!(source.get(since, random_bits).unwrap().len(), 0);

    let since = now - 2 * SECOND;
    let entities = source.get(since, random_bits).unwrap();
    assert_eq!(entities.len(), 2);
    let last = &entities[1];
    assert_eq!(last.created_at(), now - SECOND);
    assert_eq!(last.updated_at(), now);
}

#[test]
fn test_stub_source_get_empty() {
    let mut source = StubSource::new();
    let since = now();
    let entities = source.get(since, random_bits).unwrap();
    assert_eq!(entities.len(), 0);
}

#[test]
fn entities_are_named_after_their_creation_time() {
    let mut source = StubSource::new();
    let entities = source.get_with_reading(0, 3 * SECOND, random_bits).unwrap();
    assert_eq!(entities.len(), 3);
    assert_eq!(entities[0].id().name(), "uuid at 1970-01-01T00:00:00+00:00");
    assert_eq!(entities[2].id().name(), "uuid at 1970-01-01T00:00:02+00:00");
    assert_eq!(entities[2].id().source_identifier().unique_name(), "stub");
    assert_eq!(entities[2].updated_at(), 3 * SECOND);
    // Less than a second later nothing is made.
    assert_eq!(source.get_with_reading(3 * SECOND, 3 * SECOND + 999_999, random_bits).unwrap().len(), 0);
    // A second later there is one more.
    assert_eq!(source.get_with_reading(3 * SECOND, 4 * SECOND, random_bits).unwrap().len(), 1);
}

#[test]
fn updated_time_is_not_before_the_window() {
    let mut source = StubSource::new();
    assert_eq!(source.get_with_reading(10 * SECOND, 10 * SECOND + 1, random_bits).unwrap().len(), 0);
    // The previous call at 10s starts the window before `since`.
    let entities = source.get_with_reading(20 * SECOND, 12 * SECOND + 500_000, random_bits).unwrap();
    assert_eq!(entities.len(), 2);
    assert_eq!(entities[0].created_at(), 20 * SECOND);
    assert_eq!(entities[0].updated_at(), 21 * SECOND);
}

#[test]
fn test_entity_user() {
    assert_eq!(StubSource::supported_entity_data(), vec![DataKind::Uuid]);
    assert_eq!(StubSource::SOURCE_ID, "stub");
}

#[test]
fn a_window_past_the_last_instant_is_refused() {
    let mut source = StubSource::new();
    assert_eq!(source.get_with_reading(0, 0, random_bits).unwrap().len(), 0);
    let since = MAX_INSTANT - SECOND / 2;
    assert!(matches!(
        source.get_with_reading(since, 2 * SECOND, random_bits),
        Err(StubError::WindowOutOfRange(t)) if t == 2 * SECOND
    ));
    // Nothing changed: a window that fits is still measured from the first call.
    let entities = source.get_with_reading(MAX_INSTANT - 3 * SECOND, 2 * SECOND, random_bits).unwrap();
    assert_eq!(entities.len(), 2);
    assert_eq!(entities[1].updated_at(), MAX_INSTANT - SECOND);
}

#[test]
fn the_first_call_never_fails() {
    let mut source = StubSource::new();
    assert!(source.get(MAX_INSTANT, random_bits).unwrap().is_empty());
}

#[test]
fn instants_have_dates_exactly_within_the_range() {
    assert_eq!(rfc3339(MAX_INSTANT).unwrap(), "+262142-12-31T23:59:59.999999+00:00");
    assert_eq!(rfc3339(MIN_INSTANT).unwrap(), "-262143-01-01T00:00:00+00:00");
    assert!(rfc3339(MAX_INSTANT + 1).is_none());
    assert!(rfc3339(MIN_INSTANT - 1).is_none());
}

#[test]
fn entity_data_comes_from_the_draw() {
    let mut source = StubSource::new();
    let entities = source.get_with_reading(0, 2 * SECOND, || 7u128).unwrap();
    assert_eq!(entities.len(), 2);
    assert!(entities.iter().all(|e| *e.data() == 7));
}
