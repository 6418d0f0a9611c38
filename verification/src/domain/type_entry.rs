use std::marker::PhantomData;

use vstd::prelude::*;

use super::entity::Entity;
use crate::library::dwarf::Offset;
use crate::library::text::{IntoName, option_string_view};

verus! {

/// The identity of a type entry: the offset of its debugging information
/// entry.
#[derive(Debug, PartialEq, Eq, Hash, Clone, Copy, Structural)]
pub struct TypeEntryId(pub Offset);

impl TypeEntryId {
    pub fn new(offset: Offset) -> (res: TypeEntryId)
        ensures
            res.0 == offset,
    {
        TypeEntryId(offset)
    }

    /// The offset that identifies the type entry.
    pub fn offset(&self) -> (res: Offset)
        ensures
            res == self.0,
    {
        self.0
    }
}

/// The number that a type entry id stands for.
pub open spec fn type_id_value(id: TypeEntryId) -> usize {
    id.0.0
}

pub open spec fn option_type_id_value(id: Option<TypeEntryId>) -> Option<usize> {
    match id {
        Some(id) => Some(id.0.0),
        None => None,
    }
}

/// What a type entry describes.
#[derive(Debug, Clone, PartialEq)]
pub enum TypeEntryKind {
    TypeDef { name: String, type_ref: TypeEntryId },
    VolatileType { type_ref: TypeEntryId },
    ConstType { type_ref: TypeEntryId },
    PointerType { size: usize, type_ref: Option<TypeEntryId> },
    BaseType { name: String, size: usize },
    EnumType {
        name: Option<String>,
        type_ref: TypeEntryId,
        enumerators: Vec<EnumeratorEntry>,
    },
    StructureType { name: Option<String>, size: usize, members: Vec<StructureTypeMemberEntry> },
    UnionType { name: Option<String>, size: usize, members: Vec<UnionTypeMemberEntry> },
    ArrayType { element_type_ref: TypeEntryId, upper_bound: Option<usize> },
    FunctionType { argument_type_ref: Vec<TypeEntryId>, return_type_ref: Option<TypeEntryId> },
}

/// A constant of an enumeration type.
#[derive(Debug, Clone, PartialEq)]
pub struct EnumeratorEntry {
    pub name: String,
    pub value: isize,
}

/// A type described by the debugging information.
#[derive(Debug, Clone, PartialEq)]
pub struct TypeEntry {
    pub id: TypeEntryId,
    pub kind: TypeEntryKind,
}

/// Marks a member of a structure.
#[derive(Debug, Clone, Copy, PartialEq)]
pub struct Structure;

/// Marks a member of a union.
#[derive(Debug, Clone, Copy, PartialEq)]
pub struct Union;

/// A member of an aggregate: its name, its place from the start of the
/// aggregate, its type and, for a bit field, its bit size and bit offset.
#[derive(Debug, PartialEq)]
pub struct MemberEntry<T> {
    pub name: String,
    pub location: usize,
    pub type_ref: TypeEntryId,
    pub bit_size: Option<usize>,
    pub bit_offset: Option<usize>,
    pub _phantom: PhantomData<T>,
}

impl<T> Clone for MemberEntry<T> {
    fn clone(&self) -> (res: Self)
        ensures
            res == *self,
    {
        MemberEntry {
            name: self.name.clone(),
            location: self.location,
            type_ref: self.type_ref,
            bit_size: self.bit_size,
            bit_offset: self.bit_offset,
            _phantom: PhantomData,
        }
    }
}

/// A member of a structure.
#[derive(Debug, Clone, PartialEq)]
pub struct StructureTypeMemberEntry(pub MemberEntry<Structure>);

/// A member of a union: its name, its type and, for a bit field, its bit
/// size and bit offset. All members start where the union starts.
#[derive(Debug, Clone, PartialEq)]
pub struct UnionTypeMemberEntry {
    pub name: String,
    pub type_ref: TypeEntryId,
    pub bit_size: Option<usize>,
    pub bit_offset: Option<usize>,
}

// ---------------------------------------------------------------------
// Values of type entries
// ---------------------------------------------------------------------

pub struct EnumeratorModel {
    pub name: Seq<char>,
    pub value: isize,
}

pub struct StructureMemberModel {
    pub name: Seq<char>,
    pub location: usize,
    pub type_ref: usize,
    pub bit_size: Option<usize>,
    pub bit_offset: Option<usize>,
}

pub struct UnionMemberModel {
    pub name: Seq<char>,
    pub type_ref: usize,
    pub bit_size: Option<usize>,
    pub bit_offset: Option<usize>,
}

/// A type entry's kind as a value: strings as characters, vectors as
/// sequences, ids as numbers.
pub enum TypeKindModel {
    TypeDef { name: Seq<char>, type_ref: usize },
    VolatileType { type_ref: usize },
    ConstType { type_ref: usize },
    PointerType { size: usize, type_ref: Option<usize> },
    BaseType { name: Seq<char>, size: usize },
    EnumType { name: Option<Seq<char>>, type_ref: usize, enumerators: Seq<EnumeratorModel> },
    StructureType { name: Option<Seq<char>>, size: usize, members: Seq<StructureMemberModel> },
    UnionType { name: Option<Seq<char>>, size: usize, members: Seq<UnionMemberModel> },
    ArrayType { element_type_ref: usize, upper_bound: Option<usize> },
    FunctionType { argument_type_ref: Seq<usize>, return_type_ref: Option<usize> },
}

pub struct TypeEntryModel {
    pub id: usize,
    pub kind: TypeKindModel,
}

impl View for EnumeratorEntry {
    type V = EnumeratorModel;

    open spec fn view(&self) -> EnumeratorModel {
        EnumeratorModel { name: self.name@, value: self.value }
    }
}

impl View for StructureTypeMemberEntry {
    type V = StructureMemberModel;

    open spec fn view(&self) -> StructureMemberModel {
        StructureMemberModel {
            name: self.0.name@,
            location: self.0.location,
            type_ref: type_id_value(self.0.type_ref),
            bit_size: self.0.bit_size,
            bit_offset: self.0.bit_offset,
        }
    }
}

impl View for UnionTypeMemberEntry {
    type V = UnionMemberModel;

    open spec fn view(&self) -> UnionMemberModel {
        UnionMemberModel {
            name: self.name@,
            type_ref: type_id_value(self.type_ref),
            bit_size: self.bit_size,
            bit_offset: self.bit_offset,
        }
    }
}

impl View for TypeEntryKind {
    type V = TypeKindModel;

    open spec fn view(&self) -> TypeKindModel {
        match self {
            TypeEntryKind::TypeDef { name, type_ref } => TypeKindModel::TypeDef {
                name: name@,
                type_ref: type_id_value(*type_ref),
            },
            TypeEntryKind::VolatileType { type_ref } => TypeKindModel::VolatileType {
                type_ref: type_id_value(*type_ref),
            },
            TypeEntryKind::ConstType { type_ref } => TypeKindModel::ConstType {
                type_ref: type_id_value(*type_ref),
            },
            TypeEntryKind::PointerType { size, type_ref } => TypeKindModel::PointerType {
                size: *size,
                type_ref: option_type_id_value(*type_ref),
            },
            TypeEntryKind::BaseType { name, size } => TypeKindModel::BaseType {
                name: name@,
                size: *size,
            },
            TypeEntryKind::EnumType { name, type_ref, enumerators } => TypeKindModel::EnumType {
                name: option_string_view(*name),
                type_ref: type_id_value(*type_ref),
                enumerators: enumerators@.map_values(|e: EnumeratorEntry| e@),
            },
            TypeEntryKind::StructureType { name, size, members } => TypeKindModel::StructureType {
                name: option_string_view(*name),
                size: *size,
                members: members@.map_values(|m: StructureTypeMemberEntry| m@),
            },
            TypeEntryKind::UnionType { name, size, members } => TypeKindModel::UnionType {
                name: option_string_view(*name),
                size: *size,
                members: members@.map_values(|m: UnionTypeMemberEntry| m@),
            },
            TypeEntryKind::ArrayType { element_type_ref, upper_bound } => TypeKindModel::ArrayType {
                element_type_ref: type_id_value(*element_type_ref),
                upper_bound: *upper_bound,
            },
            TypeEntryKind::FunctionType { argument_type_ref, return_type_ref } => TypeKindModel::FunctionType {
                argument_type_ref: argument_type_ref@.map_values(|t: TypeEntryId| type_id_value(t)),
                return_type_ref: option_type_id_value(*return_type_ref),
            },
        }
    }
}

impl View for TypeEntry {
    type V = TypeEntryModel;

    open spec fn view(&self) -> TypeEntryModel {
        TypeEntryModel { id: type_id_value(self.id), kind: self.kind@ }
    }
}

// ---------------------------------------------------------------------
// Constructors
// ---------------------------------------------------------------------

impl TypeEntry {
    pub fn new_typedef_entry(id: TypeEntryId, name: String, type_ref: TypeEntryId) -> (res: TypeEntry)
        ensures
            res.id == id,
            res.kind == (TypeEntryKind::TypeDef { name, type_ref }),
    {
        let kind = TypeEntryKind::TypeDef { name, type_ref };
        TypeEntry { id, kind }
    }

    pub fn new_volatile_type_entry(id: TypeEntryId, type_ref: TypeEntryId) -> (res: TypeEntry)
        ensures
            res.id == id,
            res.kind == (TypeEntryKind::VolatileType { type_ref }),
    {
        let kind = TypeEntryKind::VolatileType { type_ref };
        TypeEntry { id, kind }
    }

    pub fn new_const_type_entry(id: TypeEntryId, type_ref: TypeEntryId) -> (res: TypeEntry)
        ensures
            res.id == id,
            res.kind == (TypeEntryKind::ConstType { type_ref }),
    {
        let kind = TypeEntryKind::ConstType { type_ref };
        TypeEntry { id, kind }
    }

    pub fn new_pointer_type_entry(id: TypeEntryId, size: usize, type_ref: Option<TypeEntryId>) -> (res: TypeEntry)
        ensures
            res.id == id,
            res.kind == (TypeEntryKind::PointerType { size, type_ref }),
    {
        let kind = TypeEntryKind::PointerType { size, type_ref };
        TypeEntry { id, kind }
    }

    pub fn new_base_type_entry(id: TypeEntryId, name: String, size: usize) -> (res: TypeEntry)
        ensures
            res.id == id,
            res.kind == (TypeEntryKind::BaseType { name, size }),
    {
        let kind = TypeEntryKind::BaseType { name, size };
        TypeEntry { id, kind }
    }

    pub fn new_enum_type_entry(
        id: TypeEntryId,
        name: Option<String>,
        type_ref: TypeEntryId,
        enumerators: Vec<EnumeratorEntry>,
    ) -> (res: TypeEntry)
        ensures
            res.id == id,
            res.kind == (TypeEntryKind::EnumType { name, type_ref, enumerators }),
    {
        let kind = TypeEntryKind::EnumType { name, type_ref, enumerators };
        TypeEntry { id, kind }
    }

    pub fn new_structure_type_entry(
        id: TypeEntryId,
        name: Option<String>,
        size: usize,
        members: Vec<StructureTypeMemberEntry>,
    ) -> (res: TypeEntry)
        ensures
            res.id == id,
            res.kind == (TypeEntryKind::StructureType { name, size, members }),
    {
        let kind = TypeEntryKind::StructureType { name, size, members };
        TypeEntry { id, kind }
    }

    pub fn new_union_type_entry(
        id: TypeEntryId,
        name: Option<String>,
        size: usize,
        members: Vec<UnionTypeMemberEntry>,
    ) -> (res: TypeEntry)
        ensures
            res.id == id,
            res.kind == (TypeEntryKind::UnionType { name, size, members }),
    {
        let kind = TypeEntryKind::UnionType { name, size, members };
        TypeEntry { id, kind }
    }

    pub fn new_array_type_entry(
        id: TypeEntryId,
        element_type_ref: TypeEntryId,
        upper_bound: Option<usize>,
    ) -> (res: TypeEntry)
        ensures
            res.id == id,
            res.kind == (TypeEntryKind::ArrayType { element_type_ref, upper_bound }),
    {
        let kind = TypeEntryKind::ArrayType { element_type_ref, upper_bound };
        TypeEntry { id, kind }
    }

    pub fn new_function_type_entry(
        id: TypeEntryId,
        argument_type_ref: Vec<TypeEntryId>,
        return_type_ref: Option<TypeEntryId>,
    ) -> (res: TypeEntry)
        ensures
            res.id == id,
            res.kind == (TypeEntryKind::FunctionType { argument_type_ref, return_type_ref }),
    {
        let kind = TypeEntryKind::FunctionType { argument_type_ref, return_type_ref };
        TypeEntry { id, kind }
    }

    pub fn id(&self) -> (res: TypeEntryId)
        ensures
            res == self.id,
    {
        self.id
    }
}

impl Entity for TypeEntry {
    type Id = TypeEntryId;

    open spec fn spec_id(&self) -> TypeEntryId {
        self.id
    }

    open spec fn id_key(id: TypeEntryId) -> usize {
        id.0.0
    }

    fn id(&self) -> (res: &TypeEntryId) {
        &self.id
    }

    proof fn lemma_id_key_injective(a: TypeEntryId, b: TypeEntryId) {
    }

    fn key_of(id: &TypeEntryId) -> (res: usize) {
        id.0.0
    }
}

impl StructureTypeMemberEntry {
    pub fn new(
        name: String,
        location: usize,
        type_ref: TypeEntryId,
        bit_size: Option<usize>,
        bit_offset: Option<usize>,
    ) -> (res: Self)
        ensures
            res.0.name == name,
            res.0.location == location,
            res.0.type_ref == type_ref,
            res.0.bit_size == bit_size,
            res.0.bit_offset == bit_offset,
    {
        Self(MemberEntry { name, location, type_ref, bit_size, bit_offset, _phantom: PhantomData })
    }
}

impl From<MemberEntry<Structure>> for StructureTypeMemberEntry {
    fn from(entry: MemberEntry<Structure>) -> (res: Self) {
        Self(entry)
    }
}

impl vstd::std_specs::convert::FromSpecImpl<MemberEntry<Structure>> for StructureTypeMemberEntry {
    open spec fn obeys_from_spec() -> bool {
        true
    }

    open spec fn from_spec(entry: MemberEntry<Structure>) -> Self {
        StructureTypeMemberEntry(entry)
    }
}

impl UnionTypeMemberEntry {
    pub fn new(name: String, type_ref: TypeEntryId, bit_size: Option<usize>, bit_offset: Option<usize>) -> (res:
        Self)
        ensures
            res.name == name,
            res.type_ref == type_ref,
            res.bit_size == bit_size,
            res.bit_offset == bit_offset,
    {
        UnionTypeMemberEntry { name, type_ref, bit_size, bit_offset }
    }
}

impl From<MemberEntry<Union>> for UnionTypeMemberEntry {
    fn from(entry: MemberEntry<Union>) -> (res: Self) {
        UnionTypeMemberEntry {
            name: entry.name,
            type_ref: entry.type_ref,
            bit_size: entry.bit_size,
            bit_offset: entry.bit_offset,
        }
    }
}

impl vstd::std_specs::convert::FromSpecImpl<MemberEntry<Union>> for UnionTypeMemberEntry {
    open spec fn obeys_from_spec() -> bool {
        true
    }

    open spec fn from_spec(entry: MemberEntry<Union>) -> Self {
        UnionTypeMemberEntry {
            name: entry.name,
            type_ref: entry.type_ref,
            bit_size: entry.bit_size,
            bit_offset: entry.bit_offset,
        }
    }
}

/// Builds a `MemberEntry`: the name, the place and the type must be given
/// (a union member's place is 0 from the start); the bit size and the bit
/// offset are absent unless given.
pub struct MemberEntryBuilder<NameP, LocationP, TypeRefP, T> {
    pub name: NameP,
    pub location: LocationP,
    pub type_ref: TypeRefP,
    pub bit_size: Option<usize>,
    pub bit_offset: Option<usize>,
    pub _phantom: PhantomData<T>,
}

impl MemberEntryBuilder<(), (), (), Structure> {
    pub fn new_structure() -> (res: Self)
        ensures
            res.bit_size is None,
            res.bit_offset is None,
    {
        MemberEntryBuilder {
            name: (),
            location: (),
            type_ref: (),
            bit_size: None,
            bit_offset: None,
            _phantom: PhantomData,
        }
    }
}

impl MemberEntryBuilder<(), usize, (), Union> {
    pub fn new_union() -> (res: Self)
        ensures
            res.location == 0,
            res.bit_size is None,
            res.bit_offset is None,
    {
        MemberEntryBuilder {
            name: (),
            location: 0,
            type_ref: (),
            bit_size: None,
            bit_offset: None,
            _phantom: PhantomData,
        }
    }
}

impl<T> MemberEntryBuilder<String, usize, TypeEntryId, T> {
    pub fn build(self) -> (res: MemberEntry<T>)
        ensures
            res.name == self.name,
            res.location == self.location,
            res.type_ref == self.type_ref,
            res.bit_size == self.bit_size,
            res.bit_offset == self.bit_offset,
    {
        MemberEntry {
            name: self.name,
            location: self.location,
            type_ref: self.type_ref,
            bit_size: self.bit_size,
            bit_offset: self.bit_offset,
            _phantom: PhantomData,
        }
    }
}

impl<LocationP, TypeRefP, T> MemberEntryBuilder<(), LocationP, TypeRefP, T> {
    pub fn name<S: IntoName>(self, name: S) -> (res: MemberEntryBuilder<String, LocationP, TypeRefP, T>)
        ensures
            res.name@ == name.name_view(),
            res.location == self.location,
            res.type_ref == self.type_ref,
            res.bit_size == self.bit_size,
            res.bit_offset == self.bit_offset,
    {
        MemberEntryBuilder {
            name: name.into_name(),
            location: self.location,
            type_ref: self.type_ref,
            bit_size: self.bit_size,
            bit_offset: self.bit_offset,
            _phantom: PhantomData,
        }
    }
}

impl<NameP, TypeRefP> MemberEntryBuilder<NameP, (), TypeRefP, Structure> {
    pub fn location(self, location: usize) -> (res: MemberEntryBuilder<NameP, usize, TypeRefP, Structure>)
        ensures
            res.name == self.name,
            res.location == location,
            res.type_ref == self.type_ref,
            res.bit_size == self.bit_size,
            res.bit_offset == self.bit_offset,
    {
        MemberEntryBuilder {
            name: self.name,
            location: location,
            type_ref: self.type_ref,
            bit_size: self.bit_size,
            bit_offset: self.bit_offset,
            _phantom: PhantomData,
        }
    }
}

impl<NameP, LocationP, T> MemberEntryBuilder<NameP, LocationP, (), T> {
    pub fn type_ref(self, type_ref: TypeEntryId) -> (res: MemberEntryBuilder<NameP, LocationP, TypeEntryId, T>)
        ensures
            res.name == self.name,
            res.location == self.location,
            res.type_ref == type_ref,
            res.bit_size == self.bit_size,
            res.bit_offset == self.bit_offset,
    {
        MemberEntryBuilder {
            name: self.name,
            location: self.location,
            type_ref: type_ref,
            bit_size: self.bit_size,
            bit_offset: self.bit_offset,
            _phantom: PhantomData,
        }
    }
}

impl<NameP, LocationP, TypeRefP, T> MemberEntryBuilder<NameP, LocationP, TypeRefP, T> {
    pub fn bit_size(self, size: Option<usize>) -> (res: Self)
        ensures
            res == (MemberEntryBuilder { bit_size: size, ..self }),
    {
        let mut b = self;
        b.bit_size = size;
        b
    }

    pub fn bit_offset(self, offset: Option<usize>) -> (res: Self)
        ensures
            res == (MemberEntryBuilder { bit_offset: offset, ..self }),
    {
        let mut b = self;
        b.bit_offset = offset;
        b
    }
}

} // verus!
