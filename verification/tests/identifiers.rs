use cloud_scraper::entity::Entity;
use cloud_scraper::identifiers::{
    DataKind, EntityIdentifier, EntityUser, IdentifiableSink, IdentifiableSource, SinkIdentifier,
    SourceIdentifier,
};
use std::collections::hash_map::DefaultHasher;
use std::hash::{Hash, Hasher};

struct TestSource {}

impl IdentifiableSource for TestSource {
    const SOURCE_ID: &'static str = "test source";
}

struct TestSource2 {}

impl IdentifiableSource for TestSource2 {
    const SOURCE_ID: &'static str = "test2";
}

struct TestSink {}

impl IdentifiableSink for TestSink {
    const SINK_ID: &'static str = "test";
}

impl EntityUser for TestSink {
    fn supported_entity_data() -> Vec<DataKind> {
        vec![DataKind::Text]
    }
}

#[test]
fn test_source_identifier_new() {
    let source_identifier = SourceIdentifier::new("test");
    assert_eq!(
        source_identifier,
        SourceIdentifier {
            unique_name: "test".to_string(),
        }
    );
}

#[test]
fn test_source_identifier_unique_name() {
    let source_identifier = SourceIdentifier::new("test");
    assert_eq!(source_identifier.unique_name(), "test");
}

#[test]
fn test_sink_identifier_new() {
    let sink_identifier = SinkIdentifier::new("test");
    assert_eq!(
        sink_identifier,
        SinkIdentifier {
            unique_name: "test".to_string(),
        }
    );
}

#[test]
fn test_sink_identifier_unique_name() {
    let sink_identifier = SinkIdentifier::new("test");
    assert_eq!(sink_identifier.unique_name(), "test");
}

#[test]
fn test_sink_identifier() {
    assert_eq!(TestSink::SINK_ID, "test");
}

#[test]
fn test_supported_entity_data() {
    assert_eq!(TestSink::supported_entity_data(), vec![DataKind::Text]);
    assert_eq!(TestSink {}.this_supported_entity_data(), vec![DataKind::Text]);
}

#[test]
fn this_identifier_is_the_constant() {
    assert_eq!(TestSink {}.this_identifier(), "test");
    assert_eq!(TestSource {}.this_identifier(), "test source");
}

#[test]
fn test_entity_identifier_new() {
    let entity_identifier = EntityIdentifier::new::<TestSource, String>("test");
    assert_eq!(
        entity_identifier,
        EntityIdentifier {
            name: "test".to_string(),
            source_identifier: SourceIdentifier::new(TestSource::SOURCE_ID),
        }
    );
}

fn hash(entity_identifier: &EntityIdentifier) -> u64 {
    let mut hasher = DefaultHasher::new();
    entity_identifier.hash(&mut hasher);
    hasher.finish()
}

#[test]
fn test_entity_identifier_hash() {
    let entities = vec![
        Entity::new::<TestSource>(0, "data 1".to_string(), "1", 0),
        Entity::new::<TestSource>(0, "data 2".to_string(), "2", 0),
    ];
    let hashes: Vec<u64> = entities.iter().map(|entity| hash(entity.id())).collect();
    let [hash_1, hash_2] = hashes[..] else {
        panic!("Expected 2 entities");
    };
    assert_ne!(hash_1, hash_2);

    let hash_3 = hash(&EntityIdentifier::new::<TestSource, String>("1"));
    assert_eq!(hash_1, hash_3);

    let hash_4 = hash(&EntityIdentifier::new::<TestSource2, u128>("1"));
    assert_ne!(hash_1, hash_4);
}

#[test]
fn test_entity_identifier_name() {
    let entity_identifier = EntityIdentifier::new::<TestSource, String>("test");
    assert_eq!(entity_identifier.name(), "test");
}

#[test]
fn test_entity_identifier_source_identifier() {
    let entity_identifier = EntityIdentifier::new::<TestSource, String>("test");
    assert_eq!(
        entity_identifier.source_identifier(),
        &SourceIdentifier::new(TestSource::SOURCE_ID)
    );
}

#[test]
fn duplicates_are_equal() {
    let id = EntityIdentifier::new::<TestSource, String>("x");
    assert_eq!(id.duplicate(), id);
    let s = SourceIdentifier::new("s");
    assert_eq!(s.duplicate(), s);
}
