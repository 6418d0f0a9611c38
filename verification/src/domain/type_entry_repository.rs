use vstd::prelude::*;

use super::entity::Entity;
use super::entity_repository::Repository;
use super::type_entry::{TypeEntry, TypeEntryId, TypeEntryModel};

verus! {

/// The type entries, by their offsets.
pub struct TypeEntryRepository(pub Repository<TypeEntry>);

impl View for TypeEntryRepository {
    type V = Map<usize, TypeEntry>;

    open spec fn view(&self) -> Map<usize, TypeEntry> {
        self.0@
    }
}

impl TypeEntryRepository {
    pub fn new() -> (res: Self)
        ensures
            res@ == Map::<usize, TypeEntry>::empty(),
    {
        Self(Repository::new())
    }

    pub fn save(&mut self, entity: TypeEntry)
        ensures
            final(self)@ == old(self)@.insert(entity.id.0.0, entity),
    {
        self.0.save(entity)
    }

    /// How many entries are saved.
    pub fn len(&self) -> (res: usize)
        ensures
            res == self@.len(),
    {
        self.0.len()
    }

    pub fn find_by_id(&self, id: &TypeEntryId) -> (res: Option<&TypeEntry>)
        ensures
            match res {
                Some(e) => self@.contains_key(id.0.0) && self@[id.0.0] == *e,
                None => !self@.contains_key(id.0.0),
            },
    {
        self.0.find_by_id(id)
    }
}

/// The entries of a repository, as values.
pub open spec fn type_entries_view(m: Map<usize, TypeEntry>) -> Map<usize, TypeEntryModel> {
    m.map_values(|e: TypeEntry| e@)
}

} // verus!
