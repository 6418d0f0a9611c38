use vstd::prelude::*;

use super::entity::Entity;
use super::type_entry::TypeEntryId;
use crate::library::dwarf::Offset;

verus! {

/// The identity of a variable declaration: the offset of its debugging
/// information entry.
#[derive(Debug, PartialEq, Eq, Hash, Clone, Copy, Structural)]
pub struct VariableDeclarationEntryId(pub Offset);

impl VariableDeclarationEntryId {
    pub fn new(offset: Offset) -> (res: Self)
        ensures
            res.0 == offset,
    {
        Self(offset)
    }

    /// The offset that identifies the declaration.
    pub fn offset(&self) -> (res: Offset)
        ensures
            res == self.0,
    {
        self.0
    }
}

/// The declaration of a variable (an `extern` one, say): its name and type.
#[derive(Debug, Clone, PartialEq, Eq)]
pub struct VariableDeclarationEntry {
    pub id: VariableDeclarationEntryId,
    pub name: String,
    pub type_ref: TypeEntryId,
}

impl VariableDeclarationEntry {
    pub fn new(id: VariableDeclarationEntryId, name: String, type_ref: TypeEntryId) -> (res: Self)
        ensures
            res.id == id,
            res.name == name,
            res.type_ref == type_ref,
    {
        Self { id, name, type_ref }
    }
}

impl Entity for VariableDeclarationEntry {
    type Id = VariableDeclarationEntryId;

    open spec fn spec_id(&self) -> VariableDeclarationEntryId {
        self.id
    }

    open spec fn id_key(id: VariableDeclarationEntryId) -> usize {
        id.0.0
    }

    fn id(&self) -> (res: &VariableDeclarationEntryId) {
        &self.id
    }

    proof fn lemma_id_key_injective(a: VariableDeclarationEntryId, b: VariableDeclarationEntryId) {
    }

    fn key_of(id: &VariableDeclarationEntryId) -> (res: usize) {
        id.0.0
    }
}

/// A variable declaration as a value.
pub struct VariableDeclarationModel {
    pub id: usize,
    pub name: Seq<char>,
    pub type_ref: usize,
}

impl View for VariableDeclarationEntry {
    type V = VariableDeclarationModel;

    open spec fn view(&self) -> VariableDeclarationModel {
        VariableDeclarationModel { id: self.id.0.0, name: self.name@, type_ref: self.type_ref.0.0 }
    }
}

} // verus!
