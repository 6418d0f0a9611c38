use vstd::prelude::*;

use super::variable_declaration_repository::VariableDeclarationRepository;

verus! {

/// The variable declarations, by their offsets: the same store as
/// `VariableDeclarationRepository`, under the name that the extraction of
/// entries uses.
pub type VariableDeclarationEntryRepository = VariableDeclarationRepository;

} // verus!
