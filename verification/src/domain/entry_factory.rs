use vstd::prelude::*;

use super::global_variable::{Address, GlobalVariable, GlobalVariableModel};
use super::type_entry::{
    EnumeratorEntry, EnumeratorModel, StructureMemberModel, StructureTypeMemberEntry, TypeEntry,
    TypeEntryId, TypeEntryModel, TypeKindModel, UnionMemberModel, UnionTypeMemberEntry,
    type_id_value,
};
use super::variable_declaration_entry::{
    VariableDeclarationEntry, VariableDeclarationEntryId, VariableDeclarationModel,
};
use crate::library::dwarf::{DwarfInfo, DwarfInfoModel, DwarfTag, dwarf_info_views, lemma_dwarf_info_views};

verus! {

/// Makes type entries, variables and variable declarations out of
/// debugging information entries.
pub struct EntryFactory;

/// What a debugging information entry makes.
pub enum FromDwarfInfoOutput {
    /// Nothing: the entry is read as a part of another one, or not at all.
    Nothing,
    GlobalVariable(GlobalVariable),
    /// A type entry, and a message for each nested entry that was passed
    /// over for want of an attribute.
    TypeEntry { entry: TypeEntry, children_warnings: Vec<String> },
    VariableDeclarationEntry(VariableDeclarationEntry),
}

/// What a debugging information entry makes, as a value.
pub enum FromDwarfInfoOutputModel {
    Nothing,
    GlobalVariable(GlobalVariableModel),
    TypeEntry { entry: TypeEntryModel, children_warnings: Seq<Seq<char>> },
    VariableDeclarationEntry(VariableDeclarationModel),
}

pub open spec fn strings_view(s: Seq<String>) -> Seq<Seq<char>> {
    s.map_values(|w: String| w@)
}

impl View for FromDwarfInfoOutput {
    type V = FromDwarfInfoOutputModel;

    open spec fn view(&self) -> FromDwarfInfoOutputModel {
        match self {
            FromDwarfInfoOutput::Nothing => FromDwarfInfoOutputModel::Nothing,
            FromDwarfInfoOutput::GlobalVariable(v) => FromDwarfInfoOutputModel::GlobalVariable(v@),
            FromDwarfInfoOutput::TypeEntry { entry, children_warnings } => FromDwarfInfoOutputModel::TypeEntry {
                entry: entry@,
                children_warnings: strings_view(children_warnings@),
            },
            FromDwarfInfoOutput::VariableDeclarationEntry(d) => FromDwarfInfoOutputModel::VariableDeclarationEntry(d@),
        }
    }
}

/// A result of `EntryFactory::from_dwarf_info` as a value.
pub open spec fn output_result_view(r: Result<FromDwarfInfoOutput, String>) -> Result<FromDwarfInfoOutputModel, Seq<char>> {
    match r {
        Ok(o) => Ok(o@),
        Err(e) => Err(e@),
    }
}

// ---------------------------------------------------------------------
// What each kind of entry makes
// ---------------------------------------------------------------------

/// A type entry with no messages about nested entries.
pub open spec fn type_output(id: usize, kind: TypeKindModel) -> FromDwarfInfoOutputModel {
    FromDwarfInfoOutputModel::TypeEntry {
        entry: TypeEntryModel { id, kind },
        children_warnings: Seq::empty(),
    }
}

pub open spec fn spec_variable_without_declaration(m: DwarfInfoModel) -> Result<GlobalVariableModel, Seq<char>> {
    match m.specification {
        None => match m.name {
            None => Err("variable entry should have name"@),
            Some(name) => match m.type_offset {
                None => Err("variable entry should have type"@),
                Some(t) => Ok(GlobalVariableModel::NoSpec { address: m.location, name, type_ref: t }),
            },
        },
        Some(dec) => Ok(GlobalVariableModel::HasSpec { address: m.location, spec: dec }),
    }
}

pub open spec fn spec_variable_with_declaration(m: DwarfInfoModel) -> Result<VariableDeclarationModel, Seq<char>> {
    match m.name {
        None => Err("variable entry with declaration should have name"@),
        Some(name) => match m.type_offset {
            None => Err("variable entry with declaration should have type"@),
            Some(t) => Ok(VariableDeclarationModel { id: m.offset, name, type_ref: t }),
        },
    }
}

pub open spec fn spec_variable(m: DwarfInfoModel) -> Result<FromDwarfInfoOutputModel, Seq<char>> {
    match m.declaration {
        None => match spec_variable_without_declaration(m) {
            Ok(v) => Ok(FromDwarfInfoOutputModel::GlobalVariable(v)),
            Err(e) => Err(e),
        },
        Some(_) => match spec_variable_with_declaration(m) {
            Ok(d) => Ok(FromDwarfInfoOutputModel::VariableDeclarationEntry(d)),
            Err(e) => Err(e),
        },
    }
}

pub open spec fn spec_typedef(m: DwarfInfoModel) -> Result<FromDwarfInfoOutputModel, Seq<char>> {
    match m.name {
        None => Err("typedef entry should have name"@),
        Some(name) => match m.type_offset {
            None => Err("typedef entry should have type"@),
            Some(t) => Ok(type_output(m.offset, TypeKindModel::TypeDef { name, type_ref: t })),
        },
    }
}

pub open spec fn spec_volatile_type(m: DwarfInfoModel) -> Result<FromDwarfInfoOutputModel, Seq<char>> {
    match m.type_offset {
        None => Err("volatile_type entry should have type"@),
        Some(t) => Ok(type_output(m.offset, TypeKindModel::VolatileType { type_ref: t })),
    }
}

pub open spec fn spec_const_type(m: DwarfInfoModel) -> Result<FromDwarfInfoOutputModel, Seq<char>> {
    match m.type_offset {
        None => Err("const_type entry should have type"@),
        Some(t) => Ok(type_output(m.offset, TypeKindModel::ConstType { type_ref: t })),
    }
}

pub open spec fn spec_pointer_type(m: DwarfInfoModel) -> Result<FromDwarfInfoOutputModel, Seq<char>> {
    match m.byte_size {
        None => Err("pointer_type entry should have size"@),
        Some(size) => Ok(type_output(m.offset, TypeKindModel::PointerType { size, type_ref: m.type_offset })),
    }
}

pub open spec fn spec_base_type(m: DwarfInfoModel) -> Result<FromDwarfInfoOutputModel, Seq<char>> {
    match m.name {
        None => Err("base_type entry should have name"@),
        Some(name) => match m.byte_size {
            None => Err("base_type entry should have size"@),
            Some(size) => Ok(type_output(m.offset, TypeKindModel::BaseType { name, size })),
        },
    }
}

/// The enumerators of an enumeration's nested entries, and a message for
/// each nested entry passed over: one without a name, or without a value.
pub open spec fn spec_enumerators(children: Seq<DwarfInfoModel>) -> (Seq<EnumeratorModel>, Seq<Seq<char>>)
    decreases children.len(),
{
    if children.len() == 0 {
        (Seq::empty(), Seq::empty())
    } else {
        let (es, ws) = spec_enumerators(children.drop_last());
        let c = children.last();
        match c.name {
            None => (es, ws.push("enumerator entry should have name"@)),
            Some(name) => match c.const_value {
                None => (es, ws.push("enumerator entry should have const_value"@)),
                Some(value) => (es.push(EnumeratorModel { name, value }), ws),
            },
        }
    }
}

pub open spec fn spec_enumeration_type(m: DwarfInfoModel) -> Result<FromDwarfInfoOutputModel, Seq<char>> {
    match m.type_offset {
        None => Err("enumeration_type entry should have type"@),
        Some(t) => {
            let (enumerators, warnings) = spec_enumerators(m.children);
            Ok(FromDwarfInfoOutputModel::TypeEntry {
                entry: TypeEntryModel {
                    id: m.offset,
                    kind: TypeKindModel::EnumType { name: m.name, type_ref: t, enumerators },
                },
                children_warnings: warnings,
            })
        },
    }
}

/// The members of a structure's nested entries, and a message for each
/// nested entry passed over: one without a name, a place or a type.
pub open spec fn spec_structure_members(children: Seq<DwarfInfoModel>) -> (Seq<StructureMemberModel>, Seq<Seq<char>>)
    decreases children.len(),
{
    if children.len() == 0 {
        (Seq::empty(), Seq::empty())
    } else {
        let (ms, ws) = spec_structure_members(children.drop_last());
        let c = children.last();
        match c.name {
            None => (ms, ws.push("member entry should have name"@)),
            Some(name) => match c.data_member_location {
                None => (ms, ws.push("member entry should have data_member_location"@)),
                Some(location) => match c.type_offset {
                    None => (ms, ws.push("member entry should have type"@)),
                    Some(t) => (
                        ms.push(
                            StructureMemberModel {
                                name,
                                location,
                                type_ref: t,
                                bit_size: c.bit_size,
                                bit_offset: c.bit_offset,
                            },
                        ),
                        ws,
                    ),
                },
            },
        }
    }
}

pub open spec fn spec_structure_type(m: DwarfInfoModel) -> Result<FromDwarfInfoOutputModel, Seq<char>> {
    match m.byte_size {
        None => Err("structure_type entry should have size"@),
        Some(size) => {
            let (members, warnings) = spec_structure_members(m.children);
            Ok(FromDwarfInfoOutputModel::TypeEntry {
                entry: TypeEntryModel {
                    id: m.offset,
                    kind: TypeKindModel::StructureType { name: m.name, size, members },
                },
                children_warnings: warnings,
            })
        },
    }
}

/// The members of a union's nested entries, and a message for each nested
/// entry passed over: one without a name or a type.
pub open spec fn spec_union_members(children: Seq<DwarfInfoModel>) -> (Seq<UnionMemberModel>, Seq<Seq<char>>)
    decreases children.len(),
{
    if children.len() == 0 {
        (Seq::empty(), Seq::empty())
    } else {
        let (ms, ws) = spec_union_members(children.drop_last());
        let c = children.last();
        match c.name {
            None => (ms, ws.push("member entry should have name"@)),
            Some(name) => match c.type_offset {
                None => (ms, ws.push("member entry should have type"@)),
                Some(t) => (
                    ms.push(UnionMemberModel { name, type_ref: t, bit_size: c.bit_size, bit_offset: c.bit_offset }),
                    ws,
                ),
            },
        }
    }
}

pub open spec fn spec_union_type(m: DwarfInfoModel) -> Result<FromDwarfInfoOutputModel, Seq<char>> {
    match m.byte_size {
        None => Err("structure_type entry should have size"@),
        Some(size) => {
            let (members, warnings) = spec_union_members(m.children);
            Ok(FromDwarfInfoOutputModel::TypeEntry {
                entry: TypeEntryModel {
                    id: m.offset,
                    kind: TypeKindModel::UnionType { name: m.name, size, members },
                },
                children_warnings: warnings,
            })
        },
    }
}

/// The upper bound of the first subrange among an array's nested entries
/// that has one.
pub open spec fn spec_array_upper_bound(children: Seq<DwarfInfoModel>) -> Option<usize>
    decreases children.len(),
{
    if children.len() == 0 {
        None
    } else if children[0].tag == DwarfTag::DW_TAG_subrange_type && children[0].upper_bound is Some {
        children[0].upper_bound
    } else {
        spec_array_upper_bound(children.drop_first())
    }
}

pub open spec fn spec_array_type(m: DwarfInfoModel) -> Result<FromDwarfInfoOutputModel, Seq<char>> {
    match m.type_offset {
        None => Err("array_type entry should have type"@),
        Some(t) => Ok(
            type_output(
                m.offset,
                TypeKindModel::ArrayType {
                    element_type_ref: t,
                    upper_bound: spec_array_upper_bound(m.children),
                },
            ),
        ),
    }
}

/// The types of a function type's parameters, and a message for each
/// parameter without a type; other nested entries count for nothing.
pub open spec fn spec_function_arguments(children: Seq<DwarfInfoModel>) -> (Seq<usize>, Seq<Seq<char>>)
    decreases children.len(),
{
    if children.len() == 0 {
        (Seq::empty(), Seq::empty())
    } else {
        let (ts, ws) = spec_function_arguments(children.drop_last());
        let c = children.last();
        if c.tag == DwarfTag::DW_TAG_formal_parameter {
            match c.type_offset {
                Some(t) => (ts.push(t), ws),
                None => (ts, ws.push("formal_parameter entry should have type"@)),
            }
        } else {
            (ts, ws)
        }
    }
}

pub open spec fn spec_function_type(m: DwarfInfoModel) -> FromDwarfInfoOutputModel {
    let (arguments, warnings) = spec_function_arguments(m.children);
    FromDwarfInfoOutputModel::TypeEntry {
        entry: TypeEntryModel {
            id: m.offset,
            kind: TypeKindModel::FunctionType { argument_type_ref: arguments, return_type_ref: m.type_offset },
        },
        children_warnings: warnings,
    }
}

/// What a debugging information entry makes, or why it makes nothing.
pub open spec fn spec_from_dwarf_info(m: DwarfInfoModel) -> Result<FromDwarfInfoOutputModel, Seq<char>> {
    match m.tag {
        DwarfTag::DW_TAG_variable => spec_variable(m),
        DwarfTag::DW_TAG_typedef => spec_typedef(m),
        DwarfTag::DW_TAG_volatile_type => spec_volatile_type(m),
        DwarfTag::DW_TAG_const_type => spec_const_type(m),
        DwarfTag::DW_TAG_pointer_type => spec_pointer_type(m),
        DwarfTag::DW_TAG_base_type => spec_base_type(m),
        DwarfTag::DW_TAG_enumeration_type => spec_enumeration_type(m),
        DwarfTag::DW_TAG_structure_type => spec_structure_type(m),
        DwarfTag::DW_TAG_union_type => spec_union_type(m),
        DwarfTag::DW_TAG_array_type => spec_array_type(m),
        DwarfTag::DW_TAG_subroutine_type => Ok(spec_function_type(m)),
        _ => Ok(FromDwarfInfoOutputModel::Nothing),
    }
}

// ---------------------------------------------------------------------
// Implementation
// ---------------------------------------------------------------------

impl FromDwarfInfoOutput {
    fn new_type_entry_with_children_warnings(entry: TypeEntry, children_warnings: Vec<String>) -> (res: Self)
        ensures
            res == (FromDwarfInfoOutput::TypeEntry { entry, children_warnings }),
    {
        Self::TypeEntry { entry, children_warnings }
    }

    fn new_type_entry_with_no_children_warnings(entry: TypeEntry) -> (res: Self)
        ensures
            res@ == (FromDwarfInfoOutputModel::TypeEntry { entry: entry@, children_warnings: Seq::empty() }),
    {
        let children_warnings: Vec<String> = Vec::new();
        proof {
            assert(strings_view(children_warnings@) =~= Seq::<Seq<char>>::empty());
        }
        Self::TypeEntry { entry, children_warnings }
    }
}

/// Turns a literal into an owned string with the same characters.
fn message(s: &str) -> (res: String)
    ensures
        res@ == s@,
{
    s.to_owned()
}

impl EntryFactory {
    /// What a debugging information entry makes: a global variable, a
    /// variable declaration, a type entry, nothing, or the reason why an
    /// entry that should make something cannot.
    pub fn from_dwarf_info(entry: &DwarfInfo) -> (res: Result<FromDwarfInfoOutput, String>)
        ensures
            output_result_view(res) == spec_from_dwarf_info(entry@),
    {
        match entry.tag() {
            DwarfTag::DW_TAG_variable => Self::variable_from_dwarf_info(entry),
            DwarfTag::DW_TAG_typedef => Self::typedef_from_dwarf_info(entry),
            DwarfTag::DW_TAG_volatile_type => Self::volatile_type_from_dwarf_info(entry),
            DwarfTag::DW_TAG_const_type => Self::const_type_from_dwarf_info(entry),
            DwarfTag::DW_TAG_pointer_type => Self::pointer_type_from_dwarf_info(entry),
            DwarfTag::DW_TAG_base_type => Self::base_type_from_dwarf_info(entry),
            DwarfTag::DW_TAG_enumeration_type => Self::enumeration_type_from_dwarf_info(entry),
            DwarfTag::DW_TAG_structure_type => Self::structure_type_from_dwarf_info(entry),
            DwarfTag::DW_TAG_union_type => Self::union_type_from_dwarf_info(entry),
            DwarfTag::DW_TAG_array_type => Self::array_type_from_dwarf_info(entry),
            DwarfTag::DW_TAG_subroutine_type => Ok(Self::function_type_from_dwarf_info(entry)),
            DwarfTag::DW_TAG_enumerator => Ok(FromDwarfInfoOutput::Nothing),
            DwarfTag::DW_TAG_subrange_type => Ok(FromDwarfInfoOutput::Nothing),
            DwarfTag::DW_TAG_formal_parameter => Ok(FromDwarfInfoOutput::Nothing),
            DwarfTag::DW_TAG_unimplemented => Ok(FromDwarfInfoOutput::Nothing),
        }
    }

    fn variable_from_dwarf_info(entry: &DwarfInfo) -> (res: Result<FromDwarfInfoOutput, String>)
        ensures
            output_result_view(res) == spec_variable(entry@),
    {
        match entry.declaration() {
            None => match Self::variable_without_declaration_from_dwarf_info(entry) {
                Ok(global_variable) => Ok(FromDwarfInfoOutput::GlobalVariable(global_variable)),
                Err(e) => Err(e),
            },
            Some(_) => match Self::variable_with_declaration_from_dwarf_info(entry) {
                Ok(dec) => Ok(FromDwarfInfoOutput::VariableDeclarationEntry(dec)),
                Err(e) => Err(e),
            },
        }
    }

    fn variable_without_declaration_from_dwarf_info(entry: &DwarfInfo) -> (res: Result<GlobalVariable, String>)
        ensures
            match res {
                Ok(v) => spec_variable_without_declaration(entry@) == Ok::<GlobalVariableModel, Seq<char>>(v@),
                Err(e) => spec_variable_without_declaration(entry@) == Err::<GlobalVariableModel, Seq<char>>(e@),
            },
    {
        let address = match entry.location() {
            Some(location) => Some(Address::new(location)),
            None => None,
        };
        match entry.specification() {
            None => {
                let name = match entry.name() {
                    Some(name) => name,
                    None => return Err(message("variable entry should have name")),
                };
                let type_ref = match entry.type_offset() {
                    Some(type_ref) => TypeEntryId::new(type_ref),
                    None => return Err(message("variable entry should have type")),
                };
                Ok(GlobalVariable::new_variable(address, name, type_ref))
            },
            Some(dec_ref) => {
                let spec = VariableDeclarationEntryId::new(dec_ref);
                Ok(GlobalVariable::new_variable_with_spec(address, spec))
            },
        }
    }

    fn variable_with_declaration_from_dwarf_info(entry: &DwarfInfo) -> (res: Result<VariableDeclarationEntry, String>)
        ensures
            match res {
                Ok(d) => spec_variable_with_declaration(entry@) == Ok::<VariableDeclarationModel, Seq<char>>(d@),
                Err(e) => spec_variable_with_declaration(entry@) == Err::<VariableDeclarationModel, Seq<char>>(e@),
            },
    {
        let id = VariableDeclarationEntryId::new(entry.offset());
        let name = match entry.name() {
            Some(name) => name,
            None => return Err(message("variable entry with declaration should have name")),
        };
        let type_ref = match entry.type_offset() {
            Some(type_ref) => TypeEntryId::new(type_ref),
            None => return Err(message("variable entry with declaration should have type")),
        };
        Ok(VariableDeclarationEntry::new(id, name, type_ref))
    }

    fn typedef_from_dwarf_info(entry: &DwarfInfo) -> (res: Result<FromDwarfInfoOutput, String>)
        ensures
            output_result_view(res) == spec_typedef(entry@),
    {
        let id = TypeEntryId::new(entry.offset());
        let name = match entry.name() {
            Some(name) => name,
            None => return Err(message("typedef entry should have name")),
        };
        let type_ref = match entry.type_offset() {
            Some(type_ref) => TypeEntryId::new(type_ref),
            None => return Err(message("typedef entry should have type")),
        };
        let entry = TypeEntry::new_typedef_entry(id, name, type_ref);
        Ok(FromDwarfInfoOutput::new_type_entry_with_no_children_warnings(entry))
    }

    fn volatile_type_from_dwarf_info(entry: &DwarfInfo) -> (res: Result<FromDwarfInfoOutput, String>)
        ensures
            output_result_view(res) == spec_volatile_type(entry@),
    {
        let id = TypeEntryId::new(entry.offset());
        let type_ref = match entry.type_offset() {
            Some(type_ref) => TypeEntryId::new(type_ref),
            None => return Err(message("volatile_type entry should have type")),
        };
        let entry = TypeEntry::new_volatile_type_entry(id, type_ref);
        Ok(FromDwarfInfoOutput::new_type_entry_with_no_children_warnings(entry))
    }

    fn const_type_from_dwarf_info(entry: &DwarfInfo) -> (res: Result<FromDwarfInfoOutput, String>)
        ensures
            output_result_view(res) == spec_const_type(entry@),
    {
        let id = TypeEntryId::new(entry.offset());
        let type_ref = match entry.type_offset() {
            Some(type_ref) => TypeEntryId::new(type_ref),
            None => return Err(message("const_type entry should have type")),
        };
        let entry = TypeEntry::new_const_type_entry(id, type_ref);
        Ok(FromDwarfInfoOutput::new_type_entry_with_no_children_warnings(entry))
    }

    fn pointer_type_from_dwarf_info(entry: &DwarfInfo) -> (res: Result<FromDwarfInfoOutput, String>)
        ensures
            output_result_view(res) == spec_pointer_type(entry@),
    {
        let id = TypeEntryId::new(entry.offset());
        let size = match entry.byte_size() {
            Some(size) => size,
            None => return Err(message("pointer_type entry should have size")),
        };
        let type_ref = match entry.type_offset() {
            Some(t) => Some(TypeEntryId::new(t)),
            None => None,
        };
        let entry = TypeEntry::new_pointer_type_entry(id, size, type_ref);
        Ok(FromDwarfInfoOutput::new_type_entry_with_no_children_warnings(entry))
    }

    fn base_type_from_dwarf_info(entry: &DwarfInfo) -> (res: Result<FromDwarfInfoOutput, String>)
        ensures
            output_result_view(res) == spec_base_type(entry@),
    {
        let id = TypeEntryId::new(entry.offset());
        let name = match entry.name() {
            Some(name) => name,
            None => return Err(message("base_type entry should have name")),
        };
        let size = match entry.byte_size() {
            Some(size) => size,
            None => return Err(message("base_type entry should have size")),
        };
        let entry = TypeEntry::new_base_type_entry(id, name, size);
        Ok(FromDwarfInfoOutput::new_type_entry_with_no_children_warnings(entry))
    }

    fn enumeration_type_from_dwarf_info(entry: &DwarfInfo) -> (res: Result<FromDwarfInfoOutput, String>)
        ensures
            output_result_view(res) == spec_enumeration_type(entry@),
    {
        let id = TypeEntryId::new(entry.offset());
        let name = entry.name();
        let type_ref = match entry.type_offset() {
            Some(type_ref) => TypeEntryId::new(type_ref),
            None => return Err(message("enumeration_type entry should have type")),
        };
        let children = entry.children();
        proof {
            lemma_dwarf_info_views(children@);
        }
        let mut children_warnings: Vec<String> = Vec::new();
        let mut enumerators: Vec<EnumeratorEntry> = Vec::new();
        let mut i: usize = 0;
        while i < children.len()
            invariant
                i <= children@.len(),
                children == &entry.children,
                dwarf_info_views(children@).len() == children@.len(),
                forall|j: int| 0 <= j < children@.len() ==> #[trigger] dwarf_info_views(children@)[j] == children@[j]@,
                spec_enumerators(dwarf_info_views(children@).take(i as int)) == (
                    enumerators@.map_values(|e: EnumeratorEntry| e@),
                    strings_view(children_warnings@),
                ),
            decreases children@.len() - i,
        {
            let child = &children[i];
            let ghost cs = dwarf_info_views(children@);
            let ghost before = (enumerators@, children_warnings@);
            proof {
                assert(cs.take(i + 1).drop_last() =~= cs.take(i as int));
                assert(cs.take(i + 1).last() == child@);
            }
            match child.name() {
                None => {
                    children_warnings.push(message("enumerator entry should have name"));
                },
                Some(name) => match child.const_value() {
                    None => {
                        children_warnings.push(message("enumerator entry should have const_value"));
                    },
                    Some(value) => {
                        enumerators.push(EnumeratorEntry { name, value });
                    },
                },
            }
            proof {
                assert(enumerators@.map_values(|e: EnumeratorEntry| e@) =~= spec_enumerators(cs.take(i + 1)).0);
                assert(strings_view(children_warnings@) =~= spec_enumerators(cs.take(i + 1)).1);
            }
            i = i + 1;
        }
        proof {
            assert(dwarf_info_views(children@).take(children@.len() as int) =~= dwarf_info_views(children@));
        }
        let entry = TypeEntry::new_enum_type_entry(id, name, type_ref, enumerators);
        Ok(FromDwarfInfoOutput::new_type_entry_with_children_warnings(entry, children_warnings))
    }

    fn structure_type_from_dwarf_info(entry: &DwarfInfo) -> (res: Result<FromDwarfInfoOutput, String>)
        ensures
            output_result_view(res) == spec_structure_type(entry@),
    {
        let id = TypeEntryId::new(entry.offset());
        let name = entry.name();
        let size = match entry.byte_size() {
            Some(size) => size,
            None => return Err(message("structure_type entry should have size")),
        };
        let children = entry.children();
        proof {
            lemma_dwarf_info_views(children@);
        }
        let mut children_warnings: Vec<String> = Vec::new();
        let mut members: Vec<StructureTypeMemberEntry> = Vec::new();
        let mut i: usize = 0;
        while i < children.len()
            invariant
                i <= children@.len(),
                children == &entry.children,
                dwarf_info_views(children@).len() == children@.len(),
                forall|j: int| 0 <= j < children@.len() ==> #[trigger] dwarf_info_views(children@)[j] == children@[j]@,
                spec_structure_members(dwarf_info_views(children@).take(i as int)) == (
                    members@.map_values(|m: StructureTypeMemberEntry| m@),
                    strings_view(children_warnings@),
                ),
            decreases children@.len() - i,
        {
            let child = &children[i];
            let ghost cs = dwarf_info_views(children@);
            proof {
                assert(cs.take(i + 1).drop_last() =~= cs.take(i as int));
                assert(cs.take(i + 1).last() == child@);
            }
            match child.name() {
                None => {
                    children_warnings.push(message("member entry should have name"));
                },
                Some(name) => match child.data_member_location() {
                    None => {
                        children_warnings.push(message("member entry should have data_member_location"));
                    },
                    Some(location) => match child.type_offset() {
                        None => {
                            children_warnings.push(message("member entry should have type"));
                        },
                        Some(type_ref) => {
                            let bit_size = child.bit_size();
                            let bit_offset = child.bit_offset();
                            members.push(
                                StructureTypeMemberEntry::new(
                                    name,
                                    location,
                                    TypeEntryId::new(type_ref),
                                    bit_size,
                                    bit_offset,
                                ),
                            );
                        },
                    },
                },
            }
            proof {
                assert(members@.map_values(|m: StructureTypeMemberEntry| m@) =~= spec_structure_members(cs.take(i + 1)).0);
                assert(strings_view(children_warnings@) =~= spec_structure_members(cs.take(i + 1)).1);
            }
            i = i + 1;
        }
        proof {
            assert(dwarf_info_views(children@).take(children@.len() as int) =~= dwarf_info_views(children@));
        }
        let entry = TypeEntry::new_structure_type_entry(id, name, size, members);
        Ok(FromDwarfInfoOutput::new_type_entry_with_children_warnings(entry, children_warnings))
    }

    fn union_type_from_dwarf_info(entry: &DwarfInfo) -> (res: Result<FromDwarfInfoOutput, String>)
        ensures
            output_result_view(res) == spec_union_type(entry@),
    {
        let id = TypeEntryId::new(entry.offset());
        let name = entry.name();
        let size = match entry.byte_size() {
            Some(size) => size,
            None => return Err(message("structure_type entry should have size")),
        };
        let children = entry.children();
        proof {
            lemma_dwarf_info_views(children@);
        }
        let mut children_warnings: Vec<String> = Vec::new();
        let mut members: Vec<UnionTypeMemberEntry> = Vec::new();
        let mut i: usize = 0;
        while i < children.len()
            invariant
                i <= children@.len(),
                children == &entry.children,
                dwarf_info_views(children@).len() == children@.len(),
                forall|j: int| 0 <= j < children@.len() ==> #[trigger] dwarf_info_views(children@)[j] == children@[j]@,
                spec_union_members(dwarf_info_views(children@).take(i as int)) == (
                    members@.map_values(|m: UnionTypeMemberEntry| m@),
                    strings_view(children_warnings@),
                ),
            decreases children@.len() - i,
        {
            let child = &children[i];
            let ghost cs = dwarf_info_views(children@);
            proof {
                assert(cs.take(i + 1).drop_last() =~= cs.take(i as int));
                assert(cs.take(i + 1).last() == child@);
            }
            match child.name() {
                None => {
                    children_warnings.push(message("member entry should have name"));
                },
                Some(name) => match child.type_offset() {
                    None => {
                        children_warnings.push(message("member entry should have type"));
                    },
                    Some(type_ref) => {
                        let bit_size = child.bit_size();
                        let bit_offset = child.bit_offset();
                        members.push(UnionTypeMemberEntry::new(name, TypeEntryId::new(type_ref), bit_size, bit_offset));
                    },
                },
            }
            proof {
                assert(members@.map_values(|m: UnionTypeMemberEntry| m@) =~= spec_union_members(cs.take(i + 1)).0);
                assert(strings_view(children_warnings@) =~= spec_union_members(cs.take(i + 1)).1);
            }
            i = i + 1;
        }
        proof {
            assert(dwarf_info_views(children@).take(children@.len() as int) =~= dwarf_info_views(children@));
        }
        let entry = TypeEntry::new_union_type_entry(id, name, size, members);
        Ok(FromDwarfInfoOutput::new_type_entry_with_children_warnings(entry, children_warnings))
    }

    fn array_type_from_dwarf_info(entry: &DwarfInfo) -> (res: Result<FromDwarfInfoOutput, String>)
        ensures
            output_result_view(res) == spec_array_type(entry@),
    {
        let id = TypeEntryId::new(entry.offset());
        let type_ref = match entry.type_offset() {
            Some(type_ref) => TypeEntryId::new(type_ref),
            None => return Err(message("array_type entry should have type")),
        };
        let children = entry.children();
        proof {
            lemma_dwarf_info_views(children@);
        }
        let mut upper_bound: Option<usize> = None;
        let mut i: usize = 0;
        proof {
            assert(dwarf_info_views(children@).skip(0) =~= dwarf_info_views(children@));
        }
        while i < children.len() && upper_bound.is_none()
            invariant
                i <= children@.len(),
                children == &entry.children,
                dwarf_info_views(children@).len() == children@.len(),
                forall|j: int| 0 <= j < children@.len() ==> #[trigger] dwarf_info_views(children@)[j] == children@[j]@,
                upper_bound is None ==> spec_array_upper_bound(dwarf_info_views(children@)) == spec_array_upper_bound(
                    dwarf_info_views(children@).skip(i as int),
                ),
                upper_bound is Some ==> spec_array_upper_bound(dwarf_info_views(children@)) == upper_bound,
            decreases children@.len() - i,
        {
            let child = &children[i];
            let ghost cs = dwarf_info_views(children@);
            proof {
                assert(cs.skip(i as int)[0] == child@);
                assert(cs.skip(i as int).drop_first() =~= cs.skip(i + 1));
            }
            if child.tag() == DwarfTag::DW_TAG_subrange_type {
                upper_bound = child.upper_bound();
            }
            i = i + 1;
        }
        proof {
            let cs = dwarf_info_views(children@);
            if upper_bound is None {
                assert(cs.skip(children@.len() as int).len() == 0);
            }
        }
        let entry = TypeEntry::new_array_type_entry(id, type_ref, upper_bound);
        Ok(FromDwarfInfoOutput::new_type_entry_with_no_children_warnings(entry))
    }

    fn function_type_from_dwarf_info(entry: &DwarfInfo) -> (res: FromDwarfInfoOutput)
        ensures
            res@ == spec_function_type(entry@),
    {
        let id = TypeEntryId::new(entry.offset());
        let children = entry.children();
        proof {
            lemma_dwarf_info_views(children@);
        }
        let mut children_warnings: Vec<String> = Vec::new();
        let mut argument_type_ref: Vec<TypeEntryId> = Vec::new();
        let mut i: usize = 0;
        while i < children.len()
            invariant
                i <= children@.len(),
                children == &entry.children,
                dwarf_info_views(children@).len() == children@.len(),
                forall|j: int| 0 <= j < children@.len() ==> #[trigger] dwarf_info_views(children@)[j] == children@[j]@,
                spec_function_arguments(dwarf_info_views(children@).take(i as int)) == (
                    argument_type_ref@.map_values(|t: TypeEntryId| type_id_value(t)),
                    strings_view(children_warnings@),
                ),
            decreases children@.len() - i,
        {
            let child = &children[i];
            let ghost cs = dwarf_info_views(children@);
            proof {
                assert(cs.take(i + 1).drop_last() =~= cs.take(i as int));
                assert(cs.take(i + 1).last() == child@);
            }
            match (child.tag(), child.type_offset()) {
                (DwarfTag::DW_TAG_formal_parameter, Some(type_ref)) => {
                    argument_type_ref.push(TypeEntryId::new(type_ref));
                },
                (DwarfTag::DW_TAG_formal_parameter, None) => {
                    children_warnings.push(message("formal_parameter entry should have type"));
                },
                _ => {},
            }
            proof {
                assert(argument_type_ref@.map_values(|t: TypeEntryId| type_id_value(t)) =~= spec_function_arguments(cs.take(i + 1)).0);
                assert(strings_view(children_warnings@) =~= spec_function_arguments(cs.take(i + 1)).1);
            }
            i = i + 1;
        }
        proof {
            assert(dwarf_info_views(children@).take(children@.len() as int) =~= dwarf_info_views(children@));
        }
        let return_type_ref = match entry.type_offset() {
            Some(type_ref) => Some(TypeEntryId::new(type_ref)),
            None => None,
        };
        let entry = TypeEntry::new_function_type_entry(id, argument_type_ref, return_type_ref);
        FromDwarfInfoOutput::new_type_entry_with_children_warnings(entry, children_warnings)
    }
}

} // verus!
