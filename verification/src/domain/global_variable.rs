use vstd::prelude::*;

pub use super::variable_declaration_entry::{VariableDeclarationEntry, VariableDeclarationEntryId};
use super::type_entry::TypeEntryId;
use crate::library::dwarf::Location;

verus! {

/// The address of a variable or of a part of one.
#[derive(Debug, Clone, Copy, PartialEq, Eq, Structural)]
pub struct Address(pub Location);

impl Address {
    pub fn new(location: Location) -> (res: Address)
        ensures
            res.0 == location,
    {
        Address(location)
    }

    /// Moves the address `size` bytes further.
    pub fn add(&mut self, size: usize)
        requires
            old(self).0.0 + size <= usize::MAX,
        ensures
            final(self).0.0 == old(self).0.0 + size,
    {
        self.0.add(size);
    }

    /// The address as a number.
    pub fn value(&self) -> (res: usize)
        ensures
            res == self.0.0,
    {
        self.0.value()
    }
}

/// The number that an optional address stands for.
pub open spec fn option_address_value(a: Option<Address>) -> Option<usize> {
    match a {
        Some(a) => Some(a.0.0),
        None => None,
    }
}

/// A variable defined in the program: with its own name and type, or with
/// a declaration that gives them.
#[derive(Debug, PartialEq)]
pub enum GlobalVariable {
    NoSpec { address: Option<Address>, name: String, type_ref: TypeEntryId },
    HasSpec { address: Option<Address>, spec: VariableDeclarationEntryId },
}

impl GlobalVariable {
    pub fn new_variable(address: Option<Address>, name: String, type_ref: TypeEntryId) -> (res: Self)
        ensures
            res == (GlobalVariable::NoSpec { address, name, type_ref }),
    {
        Self::NoSpec { address, name, type_ref }
    }

    pub fn new_variable_with_spec(address: Option<Address>, spec: VariableDeclarationEntryId) -> (res: Self)
        ensures
            res == (GlobalVariable::HasSpec { address, spec }),
    {
        Self::HasSpec { address, spec }
    }
}

/// A global variable as a value.
pub enum GlobalVariableModel {
    NoSpec { address: Option<usize>, name: Seq<char>, type_ref: usize },
    HasSpec { address: Option<usize>, spec: usize },
}

impl View for GlobalVariable {
    type V = GlobalVariableModel;

    open spec fn view(&self) -> GlobalVariableModel {
        match self {
            GlobalVariable::NoSpec { address, name, type_ref } => GlobalVariableModel::NoSpec {
                address: option_address_value(*address),
                name: name@,
                type_ref: type_ref.0.0,
            },
            GlobalVariable::HasSpec { address, spec } => GlobalVariableModel::HasSpec {
                address: option_address_value(*address),
                spec: spec.0.0,
            },
        }
    }
}

} // verus!
