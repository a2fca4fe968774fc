//! The records of a workshop, each under its identifier.

use crate::motorcycle::{Motorcycle, MotorcycleView};
use vstd::hash_map::StringHashMap;
use vstd::prelude::*;

verus! {

/// Maps identifiers to tuning records.
pub struct Registry {
    records: StringHashMap<Motorcycle>,
}

impl View for Registry {
    type V = Map<Seq<char>, MotorcycleView>;

    closed spec fn view(&self) -> Map<Seq<char>, MotorcycleView> {
        self.records@.map_values(|m: Motorcycle| m@)
    }
}

impl Registry {
    /// Every record in the registry is consistent.
    pub open spec fn consistent(&self) -> bool {
        forall|id: Seq<char>| #[trigger] self@.contains_key(id) ==> self@[id].consistent()
    }

    /// A registry without records.
    pub fn new() -> (registry: Registry)
        ensures
            registry@ == Map::<Seq<char>, MotorcycleView>::empty(),
    {
        Registry { records: StringHashMap::new() }
    }

    /// Puts `record` under `id`, in place of the record that was there, if
    /// one was.
    pub fn insert(&mut self, id: String, record: Motorcycle)
        ensures
            final(self)@ == old(self)@.insert(id@, record@),
    {
        self.records.insert(id, record);
    }

    /// The record under `id`, if there is one.
    pub fn get(&self, id: &str) -> (found: Option<&Motorcycle>)
        ensures
            match found {
                Some(record) => self@.contains_key(id@) && record@ == self@[id@],
                None => !self@.contains_key(id@),
            },
    {
        self.records.get(id)
    }

    /// Whether a record stands under `id`.
    pub fn contains(&self, id: &str) -> (present: bool)
        ensures
            present == self@.contains_key(id@),
    {
        self.records.contains_key(id)
    }

    /// The number of records.
    pub fn len(&self) -> (n: usize)
        ensures
            n == self@.len(),
    {
        assert(self@.dom() =~= self.records@.dom());
        self.records.len()
    }
}

} // verus!
