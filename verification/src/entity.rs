use vstd::prelude::*;

use crate::clock::{now_micros, MAX_INSTANT, MIN_INSTANT};
use crate::identifiers::{EntityIdentifier, IdentifiableSource};

verus! {

/// A piece of data taken from a source, with its identity and its times (microseconds after
/// the Unix epoch).
#[derive(Debug, PartialEq)]
pub struct Entity<D> {
    pub created_at: i64,
    pub data: D,
    pub id: EntityIdentifier,
    pub updated_at: i64,
}

impl<D> Entity<D> {
    /// The entity named `id` in source `S`.
    pub fn new<S: IdentifiableSource>(created_at: i64, data: D, id: &str, updated_at: i64) -> (r: Self)
        ensures
            r.created_at == created_at,
            r.data == data,
            r.id@.name == id@,
            r.id@.source == S::SOURCE_ID@,
            r.updated_at == updated_at,
    {
        Entity { created_at, data, id: EntityIdentifier::new::<S, D>(id), updated_at }
    }

    /// The entity named `id` in source `S`, created and updated at the times the clock reads
    /// (read once for each); `None` where the clock reads an instant that dates cannot be
    /// given for.
    pub fn new_now<S: IdentifiableSource>(data: D, id: &str) -> (r: Option<Self>)
        ensures
            r matches Some(e) ==> {
                &&& MIN_INSTANT <= e.created_at <= MAX_INSTANT
                &&& MIN_INSTANT <= e.updated_at <= MAX_INSTANT
                &&& e.data == data
                &&& e.id@.name == id@
                &&& e.id@.source == S::SOURCE_ID@
            },
    {
        match now_micros() {
            Some(created_at) => match now_micros() {
                Some(updated_at) => Some(Self::new::<S>(created_at, data, id, updated_at)),
                None => None,
            },
            None => None,
        }
    }

    pub fn id(&self) -> (r: &EntityIdentifier)
        ensures
            r == &self.id,
    {
        &self.id
    }

    pub fn created_at(&self) -> (r: i64)
        ensures
            r == self.created_at,
    {
        self.created_at
    }

    pub fn updated_at(&self) -> (r: i64)
        ensures
            r == self.updated_at,
    {
        self.updated_at
    }

    pub fn data(&self) -> (r: &D)
        ensures
            r == &self.data,
    {
        &self.data
    }

    /// The same entity (identity and times) carrying a clone of `data`.
    pub fn with_data<N: Clone>(&self, data: &N) -> (r: Entity<N>)
        ensures
            r.created_at == self.created_at,
            cloned(*data, r.data),
            r.id@ == self.id@,
            r.updated_at == self.updated_at,
    {
        Entity {
            created_at: self.created_at,
            data: data.clone(),
            id: self.id.duplicate(),
            updated_at: self.updated_at,
        }
    }
}

} // verus!
