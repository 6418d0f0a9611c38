use vstd::prelude::*;

use super::entity::Entity;
use super::entity_repository::Repository;
use super::variable_declaration_entry::{
    VariableDeclarationEntry, VariableDeclarationEntryId, VariableDeclarationModel,
};

verus! {

/// The variable declarations, by their offsets.
pub struct VariableDeclarationRepository(pub Repository<VariableDeclarationEntry>);

impl View for VariableDeclarationRepository {
    type V = Map<usize, VariableDeclarationEntry>;

    open spec fn view(&self) -> Map<usize, VariableDeclarationEntry> {
        self.0@
    }
}

impl VariableDeclarationRepository {
    pub fn new() -> (res: Self)
        ensures
            res@ == Map::<usize, VariableDeclarationEntry>::empty(),
    {
        Self(Repository::new())
    }

    pub fn save(&mut self, entity: VariableDeclarationEntry)
        ensures
            final(self)@ == old(self)@.insert(entity.id.0.0, entity),
    {
        self.0.save(entity)
    }

    /// How many entries are saved.
    pub fn len(&self) -> (res: usize)
        ensures
            res == self@.len(),
    {
        self.0.len()
    }

    pub fn find_by_id(&self, id: &VariableDeclarationEntryId) -> (res: Option<&VariableDeclarationEntry>)
        ensures
            match res {
                Some(e) => self@.contains_key(id.0.0) && self@[id.0.0] == *e,
                None => !self@.contains_key(id.0.0),
            },
    {
        self.0.find_by_id(id)
    }
}

/// The entries of a repository, as values.
pub open spec fn declarations_view(m: Map<usize, VariableDeclarationEntry>) -> Map<usize, VariableDeclarationModel> {
    m.map_values(|e: VariableDeclarationEntry| e@)
}

} // verus!
