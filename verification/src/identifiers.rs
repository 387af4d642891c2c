use vstd::prelude::*;

verus! {

/// The unique name of a source of entities.
#[derive(Clone, Debug, PartialEq, Eq, Hash, PartialOrd, Ord)]
pub struct SourceIdentifier {
    pub unique_name: String,
}

impl View for SourceIdentifier {
    type V = Seq<char>;

    open spec fn view(&self) -> Seq<char> {
        self.unique_name@
    }
}

impl SourceIdentifier {
    pub fn new(unique_name: &str) -> (r: Self)
        ensures
            r@ == unique_name@,
    {
        SourceIdentifier { unique_name: unique_name.to_string() }
    }

    pub fn unique_name(&self) -> (r: &str)
        ensures
            r@ == self@,
    {
        self.unique_name.as_str()
    }

    /// A copy with the same name.
    pub fn duplicate(&self) -> (r: Self)
        ensures
            r@ == self@,
    {
        SourceIdentifier { unique_name: self.unique_name.clone() }
    }
}

/// The unique name of a sink of entities.
#[derive(Clone, Debug, PartialEq, Eq, Hash, PartialOrd, Ord)]
pub struct SinkIdentifier {
    pub unique_name: String,
}

impl View for SinkIdentifier {
    type V = Seq<char>;

    open spec fn view(&self) -> Seq<char> {
        self.unique_name@
    }
}

impl SinkIdentifier {
    pub fn new(unique_name: &str) -> (r: Self)
        ensures
            r@ == unique_name@,
    {
        SinkIdentifier { unique_name: unique_name.to_string() }
    }

    pub fn unique_name(&self) -> (r: &str)
        ensures
            r@ == self@,
    {
        self.unique_name.as_str()
    }
}

/// The kinds of data that entities carry.
#[derive(Clone, Copy, Debug, PartialEq, Eq, Hash)]
pub enum DataKind {
    /// Text data.
    Text,
    /// A 128-bit unique identifier.
    Uuid,
    /// A note of Google Keep.
    GoogleKeep,
}

/// A node that consumes or produces entities of some kinds of data.
pub trait EntityUser {
    /// The kinds of data this node handles.
    fn supported_entity_data() -> Vec<DataKind>;

    /// The kinds of data this node handles: what `supported_entity_data` gives.
    fn this_supported_entity_data(&self) -> (r: Vec<DataKind>)
        ensures
            call_ensures(Self::supported_entity_data, (), r),
    {
        let supported = Self::supported_entity_data;
        supported()
    }
}

/// A type that produces entities and names itself with a constant identifier.
pub trait IdentifiableSource {
    const SOURCE_ID: &'static str;

    fn this_identifier(&self) -> (r: &'static str)
        ensures
            r@ == Self::SOURCE_ID@,
    {
        Self::SOURCE_ID
    }
}

/// A type that consumes entities and names itself with a constant identifier.
pub trait IdentifiableSink {
    const SINK_ID: &'static str;

    fn this_identifier(&self) -> (r: &'static str)
        ensures
            r@ == Self::SINK_ID@,
    {
        Self::SINK_ID
    }
}

/// Identifies an entity: its name within a source, and that source.
#[derive(Clone, Debug, PartialEq, Eq, Hash, PartialOrd, Ord)]
pub struct EntityIdentifier {
    pub name: String,
    pub source_identifier: SourceIdentifier,
}

/// The plain model of an entity identifier: its name and its source's name.
pub struct EntityIdentifierView {
    pub name: Seq<char>,
    pub source: Seq<char>,
}

impl View for EntityIdentifier {
    type V = EntityIdentifierView;

    open spec fn view(&self) -> EntityIdentifierView {
        EntityIdentifierView { name: self.name@, source: self.source_identifier@ }
    }
}

impl EntityIdentifier {
    /// The identifier of the entity named `name` in source `S`; `D` is the kind of data
    /// that the entity carries.
    pub fn new<S: IdentifiableSource, D>(name: &str) -> (r: Self)
        ensures
            r@.name == name@,
            r@.source == S::SOURCE_ID@,
    {
        EntityIdentifier {
            name: name.to_string(),
            source_identifier: SourceIdentifier::new(S::SOURCE_ID),
        }
    }

    pub fn name(&self) -> (r: &str)
        ensures
            r@ == self@.name,
    {
        self.name.as_str()
    }

    pub fn source_identifier(&self) -> (r: &SourceIdentifier)
        ensures
            r@ == self@.source,
    {
        &self.source_identifier
    }

    /// A copy with the same name and source.
    pub fn duplicate(&self) -> (r: Self)
        ensures
            r@ == self@,
    {
        EntityIdentifier {
            name: self.name.clone(),
            source_identifier: self.source_identifier.duplicate(),
        }
    }
}

} // verus!
