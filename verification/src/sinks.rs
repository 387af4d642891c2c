use vstd::prelude::*;

use crate::clock::{format_uuid, uuid_text};
use crate::entity::Entity;
use crate::identifiers::{DataKind, EntityUser, IdentifiableSink};

verus! {

/// A sink that writes every entity it gets to the log.
#[derive(Debug)]
pub struct LogSink {}

impl LogSink {
    pub fn new() -> (r: Self) {
        LogSink {}
    }
}

impl IdentifiableSink for LogSink {
    const SINK_ID: &'static str = "log";

    fn this_identifier(&self) -> (r: &'static str)
        ensures
            r@ == "log"@,
    {
        Self::SINK_ID
    }
}

impl EntityUser for LogSink {
    fn supported_entity_data() -> (r: Vec<DataKind>)
        ensures
            r@ == seq![DataKind::Text, DataKind::Uuid],
    {
        vec![DataKind::Text, DataKind::Uuid]
    }
}

/// Makes entities carrying a UUID into entities carrying its text.
#[derive(Clone, Debug)]
pub struct UuidToStringTranslator;

impl UuidToStringTranslator {
    pub fn new() -> (r: Self) {
        UuidToStringTranslator
    }

    /// The same entity carrying the hyphenated text of its UUID.
    pub fn translate(&self, entity: &Entity<u128>) -> (r: Entity<String>)
        ensures
            r.data@ == uuid_text(entity.data),
            r.created_at == entity.created_at,
            r.id@ == entity.id@,
            r.updated_at == entity.updated_at,
    {
        let text = format_uuid(entity.data);
        entity.with_data(&text)
    }
}

/// Passes entities on unchanged.
#[derive(Clone, Debug)]
pub struct NoOpTranslator;

impl NoOpTranslator {
    pub fn new() -> (r: Self) {
        NoOpTranslator
    }

    /// The same entity, carrying a clone of its data.
    pub fn translate<T: Clone>(&self, entity: &Entity<T>) -> (r: Entity<T>)
        ensures
            cloned(entity.data, r.data),
            r.created_at == entity.created_at,
            r.id@ == entity.id@,
            r.updated_at == entity.updated_at,
    {
        entity.with_data(entity.data())
    }
}

} // verus!
