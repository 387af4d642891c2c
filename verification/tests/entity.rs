use cloud_scraper::entity::Entity;
use cloud_scraper::identifiers::{EntityIdentifier, IdentifiableSource};
use cloud_scraper::sinks::{NoOpTranslator, UuidToStringTranslator};
use cloud_scraper::stub_source::StubSource;

struct TestSource {}

impl IdentifiableSource for TestSource {
    const SOURCE_ID: &'static str = "test source";
}

fn now() -> i64 {
    chrono::Utc::now().timestamp_micros()
}

#[test]
fn test_entity_new() {
    let created_at = now() - 86_400_000_000;
    let updated_at = now();
    let entity = Entity::new::<TestSource>(created_at, "data".to_string(), "1", updated_at);
    assert_eq!(
        entity,
        Entity {
            created_at,
            data: "data".to_string(),
            id: EntityIdentifier::new::<TestSource, String>("1"),
            updated_at,
        }
    );
}

#[test]
fn test_entity_id() {
    let t = now();
    let entity = Entity::new::<TestSource>(t, "data".to_string(), "1", t);
    assert_eq!(entity.id(), &EntityIdentifier::new::<TestSource, String>("1"));
}

#[test]
fn test_entity_created_at() {
    let entity = Entity::new::<TestSource>(5, "data".to_string(), "1", 7);
    assert_eq!(entity.created_at(), 5);
}

#[test]
fn test_entity_updated_at() {
    let entity = Entity::new::<TestSource>(5, "data".to_string(), "1", 7);
    assert_eq!(entity.updated_at(), 7);
}

#[test]
fn test_entity_data() {
    let t = now();
    let entity = Entity::new::<TestSource>(t, "data".to_string(), "1", t);
    assert_eq!(entity.data(), &"data".to_string());
}

#[test]
fn test_translate() {
    let translator = UuidToStringTranslator::new();
    let uuid = uuid::Uuid::new_v4();
    let t = now();
    let entity = Entity::new::<StubSource>(t, uuid.as_u128(), "1", t);

    let translated_entity: Entity<String> = translator.translate(&entity);

    assert_eq!(translated_entity.created_at(), entity.created_at());
    assert_eq!(translated_entity.data(), uuid.to_string().as_str());
    assert_eq!(translated_entity.id(), entity.id());
    assert_eq!(translated_entity.updated_at(), entity.updated_at());
}

#[test]
fn translated_uuid_is_hyphenated_text() {
    let entity = Entity::new::<StubSource>(1, 0x67e5504410b1426f9247bb680e5fe0c8u128, "1", 2);
    let translated = UuidToStringTranslator::new().translate(&entity);
    assert_eq!(translated.data(), "67e55044-10b1-426f-9247-bb680e5fe0c8");
}

#[test]
fn no_op_translation_keeps_everything() {
    let entity = Entity::new::<TestSource>(3, "data".to_string(), "n", 4);
    let translated = NoOpTranslator::new().translate(&entity);
    assert_eq!(translated, entity);
}

#[test]
fn with_data_keeps_identity_and_times() {
    let entity = Entity::new::<TestSource>(3, 17u128, "n", 4);
    let other = entity.with_data(&"text".to_string());
    assert_eq!(other.id(), entity.id());
    assert_eq!(other.created_at(), 3);
    assert_eq!(other.updated_at(), 4);
    assert_eq!(other.data(), "text");
}

#[test]
fn test_entity_new_now() {
    let entity = Entity::new_now::<TestSource>("data".to_string(), "1").unwrap();
    let expected_entity = Entity::new::<TestSource>(
        entity.created_at,
        "data".to_string(),
        "1",
        entity.updated_at,
    );
    assert_eq!(entity, expected_entity);
    assert!(now() - entity.created_at() < 1_000_000);
    assert!(now() - entity.updated_at() < 1_000_000);
}
