use vstd::prelude::*;

use super::global_variable::{Address, GlobalVariable, GlobalVariableModel, option_address_value};
use super::global_variable_view::{
    Enumerator, GlobalVariableView, GlobalVariableViewBuilder, TypeView, TypeViewModel,
    VariableViewModel, enumerators_view, lemma_variable_views, lemma_variable_views_push,
    variable_views,
};
use super::type_entry::{
    EnumeratorEntry, EnumeratorModel, StructureMemberModel, StructureTypeMemberEntry,
    TypeEntryId, TypeEntryKind, TypeEntryModel, TypeKindModel, UnionMemberModel,
    UnionTypeMemberEntry,
};
use super::type_entry_repository::{TypeEntryRepository, type_entries_view};
use super::variable_declaration_entry::{VariableDeclarationEntryId, VariableDeclarationModel};
use super::variable_declaration_repository::{VariableDeclarationRepository, declarations_view};
use crate::library::dwarf::Location;
use crate::library::text::{clone_option_string, decimal, decimal_string};

verus! {

/// Makes the views of global variables out of the type entries and the
/// variable declarations.
///
/// Types are followed from one entry to the next (a typedef to its type, a
/// structure to the types of its members, ...) at most once more than there
/// are type entries (the last step may find a missing entry): a longer chain
/// runs through a cycle, which the debugging information of a program never
/// holds, and gives no view.
pub struct GlobalVariableViewFactory<'type_repo, 'dec_repo> {
    pub type_entry_repository: &'type_repo TypeEntryRepository,
    pub variable_declaration_repository: &'dec_repo VariableDeclarationRepository,
}

/// An address went past the largest address while the parts of a variable
/// were placed.
#[derive(Debug, Clone, Copy, PartialEq, Eq, Structural)]
pub struct AddressOverflow;

// ---------------------------------------------------------------------
// What the views are
// ---------------------------------------------------------------------

/// The view of a variable or part without parts.
pub open spec fn leaf_view(
    name: Seq<char>,
    address: Option<usize>,
    size: usize,
    bit_size: Option<usize>,
    bit_offset: Option<usize>,
    type_view: TypeViewModel,
) -> VariableViewModel {
    VariableViewModel { name, address, size, bit_size, bit_offset, type_view, children: Seq::empty() }
}

/// A view with its type replaced by what `f` makes of it; no view and an
/// overflow stay as they are.
pub open spec fn retype(
    r: Result<Option<VariableViewModel>, ()>,
    f: spec_fn(TypeViewModel) -> TypeViewModel,
) -> Result<Option<VariableViewModel>, ()> {
    match r {
        Ok(Some(v)) => Ok(Some(VariableViewModel { type_view: f(v.type_view), ..v })),
        _ => r,
    }
}

/// An address `offset` bytes after `base`, or an overflow.
pub open spec fn offset_address(base: Option<usize>, offset: int) -> Result<Option<usize>, ()> {
    match base {
        None => Ok(None),
        Some(b) => if b + offset <= usize::MAX {
            Ok(Some((b + offset) as usize))
        } else {
            Err(())
        },
    }
}

/// The shown type of the type entry with offset `t`, following at most
/// `fuel` entries: none when an entry is missing.
pub open spec fn spec_type_view(types: Map<usize, TypeEntryModel>, t: usize, fuel: nat) -> Option<TypeViewModel>
    decreases fuel,
{
    if fuel == 0 || !types.contains_key(t) {
        None
    } else {
        let f = (fuel - 1) as nat;
        match types[t].kind {
            TypeKindModel::TypeDef { name, type_ref } => match spec_type_view(types, type_ref, f) {
                Some(v) => Some(TypeViewModel::TypeDef { name, type_view: Box::new(v) }),
                None => None,
            },
            TypeKindModel::VolatileType { type_ref } => match spec_type_view(types, type_ref, f) {
                Some(v) => Some(TypeViewModel::Volatile { type_view: Box::new(v) }),
                None => None,
            },
            TypeKindModel::ConstType { type_ref } => match spec_type_view(types, type_ref, f) {
                Some(v) => Some(TypeViewModel::Const { type_view: Box::new(v) }),
                None => None,
            },
            TypeKindModel::PointerType { type_ref, .. } => match type_ref {
                None => Some(TypeViewModel::VoidPointer),
                Some(r) => match spec_type_view(types, r, f) {
                    Some(v) => Some(TypeViewModel::Pointer { type_view: Box::new(v) }),
                    None => None,
                },
            },
            TypeKindModel::BaseType { name, .. } => Some(TypeViewModel::Base { name }),
            TypeKindModel::EnumType { name, type_ref, enumerators } => match spec_type_view(types, type_ref, f) {
                Some(v) => Some(TypeViewModel::Enum { name, type_view: Box::new(v), enumerators }),
                None => None,
            },
            TypeKindModel::StructureType { name, .. } => Some(TypeViewModel::Structure { name }),
            TypeKindModel::UnionType { name, .. } => Some(TypeViewModel::Union { name }),
            TypeKindModel::ArrayType { element_type_ref, upper_bound } => match spec_type_view(
                types,
                element_type_ref,
                f,
            ) {
                Some(v) => Some(TypeViewModel::Array { element_type: Box::new(v), upper_bound }),
                None => None,
            },
            TypeKindModel::FunctionType { .. } => Some(TypeViewModel::Function),
        }
    }
}

/// The view of a variable (or part) named `name` at `address` whose type is
/// the entry with offset `t`, following at most `fuel` entries: none when
/// an entry is missing or the type is a function's, an overflow when a part
/// is placed past the largest address.
///
/// A typedef, volatile, const or enumeration type wraps the view of its
/// type; a pointer or a base type has no parts; a structure's parts are its
/// members (each at the structure's address plus the member's place), a
/// union's parts its members (each at the union's address); an array's
/// parts are its elements `0` to the upper bound (only `0` when it has
/// none), each right after the one before, and its size is theirs.
pub open spec fn spec_variable_view(
    types: Map<usize, TypeEntryModel>,
    name: Seq<char>,
    address: Option<usize>,
    bit_size: Option<usize>,
    bit_offset: Option<usize>,
    t: usize,
    fuel: nat,
) -> Result<Option<VariableViewModel>, ()>
    decreases fuel, 0nat,
{
    if fuel == 0 || !types.contains_key(t) {
        Ok(None)
    } else {
        let f = (fuel - 1) as nat;
        match types[t].kind {
            TypeKindModel::TypeDef { name: kind_name, type_ref } => retype(
                spec_variable_view(types, name, address, bit_size, bit_offset, type_ref, f),
                |v: TypeViewModel| TypeViewModel::TypeDef { name: kind_name, type_view: Box::new(v) },
            ),
            TypeKindModel::VolatileType { type_ref } => retype(
                spec_variable_view(types, name, address, bit_size, bit_offset, type_ref, f),
                |v: TypeViewModel| TypeViewModel::Volatile { type_view: Box::new(v) },
            ),
            TypeKindModel::ConstType { type_ref } => retype(
                spec_variable_view(types, name, address, bit_size, bit_offset, type_ref, f),
                |v: TypeViewModel| TypeViewModel::Const { type_view: Box::new(v) },
            ),
            TypeKindModel::PointerType { size, type_ref } => match type_ref {
                None => Ok(Some(leaf_view(name, address, size, bit_size, bit_offset, TypeViewModel::VoidPointer))),
                Some(r) => match spec_type_view(types, r, f) {
                    Some(v) => Ok(
                        Some(
                            leaf_view(
                                name,
                                address,
                                size,
                                bit_size,
                                bit_offset,
                                TypeViewModel::Pointer { type_view: Box::new(v) },
                            ),
                        ),
                    ),
                    None => Ok(None),
                },
            },
            TypeKindModel::BaseType { name: kind_name, size } => Ok(
                Some(leaf_view(name, address, size, bit_size, bit_offset, TypeViewModel::Base { name: kind_name })),
            ),
            TypeKindModel::EnumType { name: kind_name, type_ref, enumerators } => retype(
                spec_variable_view(types, name, address, bit_size, bit_offset, type_ref, f),
                |v: TypeViewModel|
                    TypeViewModel::Enum { name: kind_name, type_view: Box::new(v), enumerators },
            ),
            TypeKindModel::StructureType { name: kind_name, size, members } => match spec_structure_members(
                types,
                address,
                members,
                f,
            ) {
                Ok(children) => Ok(
                    Some(
                        VariableViewModel {
                            name,
                            address,
                            size,
                            bit_size,
                            bit_offset,
                            type_view: TypeViewModel::Structure { name: kind_name },
                            children,
                        },
                    ),
                ),
                Err(e) => Err(e),
            },
            TypeKindModel::UnionType { name: kind_name, size, members } => match spec_union_members(
                types,
                address,
                members,
                f,
            ) {
                Ok(children) => Ok(
                    Some(
                        VariableViewModel {
                            name,
                            address,
                            size,
                            bit_size,
                            bit_offset,
                            type_view: TypeViewModel::Union { name: kind_name },
                            children,
                        },
                    ),
                ),
                Err(e) => Err(e),
            },
            TypeKindModel::ArrayType { element_type_ref, upper_bound } => match spec_type_view(
                types,
                element_type_ref,
                f,
            ) {
                None => Ok(None),
                Some(element_type) => {
                    let elements = match upper_bound {
                        None => match spec_variable_view(
                            types,
                            decimal(0),
                            address,
                            None,
                            None,
                            element_type_ref,
                            f,
                        ) {
                            Ok(Some(v)) => Ok((seq![v], v.size)),
                            Ok(None) => Ok((Seq::empty(), 0usize)),
                            Err(e) => Err(e),
                        },
                        Some(u) => spec_array_elements(types, address, element_type_ref, f, (u + 1) as nat),
                    };
                    match elements {
                        Ok((children, size)) => Ok(
                            Some(
                                VariableViewModel {
                                    name,
                                    address,
                                    size,
                                    bit_size,
                                    bit_offset,
                                    type_view: TypeViewModel::Array {
                                        element_type: Box::new(element_type),
                                        upper_bound,
                                    },
                                    children,
                                },
                            ),
                        ),
                        Err(e) => Err(e),
                    }
                },
            },
            TypeKindModel::FunctionType { .. } => Ok(None),
        }
    }
}

/// The views of the members of a structure at `base`, in order; the members
/// that have no view are left out.
pub open spec fn spec_structure_members(
    types: Map<usize, TypeEntryModel>,
    base: Option<usize>,
    members: Seq<StructureMemberModel>,
    fuel: nat,
) -> Result<Seq<VariableViewModel>, ()>
    decreases fuel, members.len(),
{
    if members.len() == 0 {
        Ok(Seq::empty())
    } else {
        match spec_structure_members(types, base, members.drop_last(), fuel) {
            Err(e) => Err(e),
            Ok(views) => {
                let m = members.last();
                match offset_address(base, m.location as int) {
                    Err(e) => Err(e),
                    Ok(address) => match spec_variable_view(
                        types,
                        m.name,
                        address,
                        m.bit_size,
                        m.bit_offset,
                        m.type_ref,
                        fuel,
                    ) {
                        Err(e) => Err(e),
                        Ok(None) => Ok(views),
                        Ok(Some(v)) => Ok(views.push(v)),
                    },
                }
            },
        }
    }
}

/// The views of the members of a union at `base`, in order; the members
/// that have no view are left out.
pub open spec fn spec_union_members(
    types: Map<usize, TypeEntryModel>,
    base: Option<usize>,
    members: Seq<UnionMemberModel>,
    fuel: nat,
) -> Result<Seq<VariableViewModel>, ()>
    decreases fuel, members.len(),
{
    if members.len() == 0 {
        Ok(Seq::empty())
    } else {
        match spec_union_members(types, base, members.drop_last(), fuel) {
            Err(e) => Err(e),
            Ok(views) => {
                let m = members.last();
                match spec_variable_view(types, m.name, base, m.bit_size, m.bit_offset, m.type_ref, fuel) {
                    Err(e) => Err(e),
                    Ok(None) => Ok(views),
                    Ok(Some(v)) => Ok(views.push(v)),
                }
            },
        }
    }
}

/// The views of the first `k` elements of an array at `address`, and the
/// size they take: element `n` is named `n` and placed right after the
/// elements before it.
pub open spec fn spec_array_elements(
    types: Map<usize, TypeEntryModel>,
    address: Option<usize>,
    element_type_ref: usize,
    fuel: nat,
    k: nat,
) -> Result<(Seq<VariableViewModel>, usize), ()>
    decreases fuel, k,
{
    if k == 0 {
        Ok((Seq::empty(), 0usize))
    } else {
        match spec_array_elements(types, address, element_type_ref, fuel, (k - 1) as nat) {
            Err(e) => Err(e),
            Ok((views, size)) => match offset_address(address, size as int) {
                Err(e) => Err(e),
                Ok(element_address) => match spec_variable_view(
                    types,
                    decimal((k - 1) as nat),
                    element_address,
                    None,
                    None,
                    element_type_ref,
                    fuel,
                ) {
                    Err(e) => Err(e),
                    Ok(None) => Ok((views, size)),
                    Ok(Some(v)) => if size + v.size <= usize::MAX {
                        Ok((views.push(v), (size + v.size) as usize))
                    } else {
                        Err(())
                    },
                },
            },
        }
    }
}

/// The view of a global variable: its own name and type, or those of its
/// declaration (none when the declaration is missing).
pub open spec fn spec_from_global_variable(
    types: Map<usize, TypeEntryModel>,
    decs: Map<usize, VariableDeclarationModel>,
    variable: GlobalVariableModel,
    fuel: nat,
) -> Result<Option<VariableViewModel>, ()> {
    match variable {
        GlobalVariableModel::NoSpec { address, name, type_ref } => spec_variable_view(
            types,
            name,
            address,
            None,
            None,
            type_ref,
            fuel,
        ),
        GlobalVariableModel::HasSpec { address, spec } => if decs.contains_key(spec) {
            spec_variable_view(types, decs[spec].name, address, None, None, decs[spec].type_ref, fuel)
        } else {
            Ok(None)
        },
    }
}

pub open spec fn option_variable_view(v: Option<GlobalVariableView>) -> Option<VariableViewModel> {
    match v {
        Some(v) => Some(v@),
        None => None,
    }
}

pub open spec fn option_type_view(v: Option<TypeView>) -> Option<TypeViewModel> {
    match v {
        Some(v) => Some(v@),
        None => None,
    }
}

/// A view, no view or an overflow, as a value.
pub open spec fn view_result(r: Result<Option<GlobalVariableView>, AddressOverflow>) -> Result<Option<VariableViewModel>, ()> {
    match r {
        Ok(v) => Ok(option_variable_view(v)),
        Err(_) => Err(()),
    }
}

pub open spec fn structure_members_view(s: Seq<StructureTypeMemberEntry>) -> Seq<StructureMemberModel> {
    s.map_values(|m: StructureTypeMemberEntry| m@)
}

pub open spec fn union_members_view(s: Seq<UnionTypeMemberEntry>) -> Seq<UnionMemberModel> {
    s.map_values(|m: UnionTypeMemberEntry| m@)
}

// ---------------------------------------------------------------------
// Facts about the views
// ---------------------------------------------------------------------

/// An overflow among the first members is an overflow for all of them.
pub proof fn lemma_structure_members_overflow(
    types: Map<usize, TypeEntryModel>,
    base: Option<usize>,
    members: Seq<StructureMemberModel>,
    fuel: nat,
    i: int,
    j: int,
)
    requires
        0 <= i <= j <= members.len(),
        spec_structure_members(types, base, members.take(i), fuel) is Err,
    ensures
        spec_structure_members(types, base, members.take(j), fuel) is Err,
    decreases j - i,
{
    if j > i {
        lemma_structure_members_overflow(types, base, members, fuel, i, j - 1);
        assert(members.take(j).drop_last() =~= members.take(j - 1));
    }
}

/// An overflow among the first members is an overflow for all of them.
pub proof fn lemma_union_members_overflow(
    types: Map<usize, TypeEntryModel>,
    base: Option<usize>,
    members: Seq<UnionMemberModel>,
    fuel: nat,
    i: int,
    j: int,
)
    requires
        0 <= i <= j <= members.len(),
        spec_union_members(types, base, members.take(i), fuel) is Err,
    ensures
        spec_union_members(types, base, members.take(j), fuel) is Err,
    decreases j - i,
{
    if j > i {
        lemma_union_members_overflow(types, base, members, fuel, i, j - 1);
        assert(members.take(j).drop_last() =~= members.take(j - 1));
    }
}

/// An overflow among the first elements is an overflow for all of them.
pub proof fn lemma_array_elements_overflow(
    types: Map<usize, TypeEntryModel>,
    address: Option<usize>,
    element_type_ref: usize,
    fuel: nat,
    i: nat,
    j: nat,
)
    requires
        i <= j,
        spec_array_elements(types, address, element_type_ref, fuel, i) is Err,
    ensures
        spec_array_elements(types, address, element_type_ref, fuel, j) is Err,
    decreases j - i,
{
    if j > i {
        lemma_array_elements_overflow(types, address, element_type_ref, fuel, i, (j - 1) as nat);
    }
}

// ---------------------------------------------------------------------
// Laws of the layout
// ---------------------------------------------------------------------

/// The type of a view is the shown type of the entry it was made from:
/// whenever the view of a variable (or part) of type `t` is made, the shown
/// type of `t`, with the same fuel, is that view's type. So a pointer to a
/// const, volatile, enumeration, union or pointer type shows that type as
/// its part would show it.
pub proof fn law_view_type_is_the_shown_type(
    types: Map<usize, TypeEntryModel>,
    name: Seq<char>,
    address: Option<usize>,
    bit_size: Option<usize>,
    bit_offset: Option<usize>,
    t: usize,
    fuel: nat,
)
    ensures
        spec_variable_view(types, name, address, bit_size, bit_offset, t, fuel) matches Ok(Some(v)) ==> spec_type_view(
            types,
            t,
            fuel,
        ) == Some(v.type_view),
    decreases fuel,
{
    if fuel > 0 && types.contains_key(t) {
        let f = (fuel - 1) as nat;
        match types[t].kind {
            TypeKindModel::TypeDef { type_ref, .. } => {
                law_view_type_is_the_shown_type(types, name, address, bit_size, bit_offset, type_ref, f);
            },
            TypeKindModel::VolatileType { type_ref } => {
                law_view_type_is_the_shown_type(types, name, address, bit_size, bit_offset, type_ref, f);
            },
            TypeKindModel::ConstType { type_ref } => {
                law_view_type_is_the_shown_type(types, name, address, bit_size, bit_offset, type_ref, f);
            },
            TypeKindModel::EnumType { type_ref, .. } => {
                law_view_type_is_the_shown_type(types, name, address, bit_size, bit_offset, type_ref, f);
            },
            _ => {},
        }
    }
}

/// A shown type wrapped by `wrap`, when there is one.
pub open spec fn wrapped(
    inner: Option<TypeViewModel>,
    wrap: spec_fn(TypeViewModel) -> TypeViewModel,
) -> Option<TypeViewModel> {
    match inner {
        Some(v) => Some(wrap(v)),
        None => None,
    }
}

/// What the shown type of an entry is, by the kind of the entry: a
/// typedef, volatile, const, pointer, enumeration or array entry shows the
/// type of the entry it refers to (when that one can be shown) wrapped in a
/// typedef, volatile, const, pointer, enumeration (with its name and
/// values) or array (with its upper bound); a pointer to nothing shows as a
/// void pointer; a base, structure or union entry shows its own name as a
/// base, structure or union type; a function entry shows as a function.
pub proof fn law_shown_type_of_each_kind(types: Map<usize, TypeEntryModel>, t: usize, fuel: nat)
    requires
        types.contains_key(t),
    ensures
        ({
            let shown = spec_type_view(types, t, fuel + 1);
            match types[t].kind {
                TypeKindModel::TypeDef { name, type_ref } => shown == wrapped(
                    spec_type_view(types, type_ref, fuel),
                    |v: TypeViewModel| TypeViewModel::TypeDef { name, type_view: Box::new(v) },
                ),
                TypeKindModel::VolatileType { type_ref } => shown == wrapped(
                    spec_type_view(types, type_ref, fuel),
                    |v: TypeViewModel| TypeViewModel::Volatile { type_view: Box::new(v) },
                ),
                TypeKindModel::ConstType { type_ref } => shown == wrapped(
                    spec_type_view(types, type_ref, fuel),
                    |v: TypeViewModel| TypeViewModel::Const { type_view: Box::new(v) },
                ),
                TypeKindModel::PointerType { type_ref, .. } => match type_ref {
                    None => shown == Some(TypeViewModel::VoidPointer),
                    Some(r) => shown == wrapped(
                        spec_type_view(types, r, fuel),
                        |v: TypeViewModel| TypeViewModel::Pointer { type_view: Box::new(v) },
                    ),
                },
                TypeKindModel::BaseType { name, .. } => shown == Some(TypeViewModel::Base { name }),
                TypeKindModel::EnumType { name, type_ref, enumerators } => shown == wrapped(
                    spec_type_view(types, type_ref, fuel),
                    |v: TypeViewModel| TypeViewModel::Enum { name, type_view: Box::new(v), enumerators },
                ),
                TypeKindModel::StructureType { name, .. } => shown == Some(TypeViewModel::Structure { name }),
                TypeKindModel::UnionType { name, .. } => shown == Some(TypeViewModel::Union { name }),
                TypeKindModel::ArrayType { element_type_ref, upper_bound } => shown == wrapped(
                    spec_type_view(types, element_type_ref, fuel),
                    |v: TypeViewModel| TypeViewModel::Array { element_type: Box::new(v), upper_bound },
                ),
                TypeKindModel::FunctionType { .. } => shown == Some(TypeViewModel::Function),
            }
        }),
{
}

/// A view keeps the name, address and bit field it was asked for: the type
/// decides only the size, the type shown and the parts.
pub proof fn law_view_keeps_place(
    types: Map<usize, TypeEntryModel>,
    name: Seq<char>,
    address: Option<usize>,
    bit_size: Option<usize>,
    bit_offset: Option<usize>,
    t: usize,
    fuel: nat,
)
    requires
        spec_variable_view(types, name, address, bit_size, bit_offset, t, fuel) is Ok,
        spec_variable_view(types, name, address, bit_size, bit_offset, t, fuel)->Ok_0 is Some,
    ensures
        ({
            let v = spec_variable_view(types, name, address, bit_size, bit_offset, t, fuel)->Ok_0->Some_0;
            &&& v.name == name
            &&& v.address == address
            &&& v.bit_size == bit_size
            &&& v.bit_offset == bit_offset
        }),
    decreases fuel,
{
    if fuel > 0 && types.contains_key(t) {
        let f = (fuel - 1) as nat;
        match types[t].kind {
            TypeKindModel::TypeDef { type_ref, .. } => {
                law_view_keeps_place(types, name, address, bit_size, bit_offset, type_ref, f);
            },
            TypeKindModel::VolatileType { type_ref } => {
                law_view_keeps_place(types, name, address, bit_size, bit_offset, type_ref, f);
            },
            TypeKindModel::ConstType { type_ref } => {
                law_view_keeps_place(types, name, address, bit_size, bit_offset, type_ref, f);
            },
            TypeKindModel::EnumType { type_ref, .. } => {
                law_view_keeps_place(types, name, address, bit_size, bit_offset, type_ref, f);
            },
            _ => {},
        }
    }
}

/// Every member of a union is placed at the union's own address; when every
/// member has a view, member `i` keeps its own name and bit field.
pub proof fn law_union_members_at_base(
    types: Map<usize, TypeEntryModel>,
    base: Option<usize>,
    members: Seq<UnionMemberModel>,
    fuel: nat,
)
    requires
        spec_union_members(types, base, members, fuel) is Ok,
    ensures
        ({
            let views = spec_union_members(types, base, members, fuel)->Ok_0;
            &&& views.len() <= members.len()
            &&& forall|i: int| 0 <= i < views.len() ==> (#[trigger] views[i]).address == base
            &&& views.len() == members.len() ==> forall|i: int|
                0 <= i < members.len() ==> {
                    let v = #[trigger] views[i];
                    &&& v.name == members[i].name
                    &&& v.bit_size == members[i].bit_size
                    &&& v.bit_offset == members[i].bit_offset
                }
        }),
    decreases members.len(),
{
    if members.len() > 0 {
        let rest = members.drop_last();
        law_union_members_at_base(types, base, rest, fuel);
        let m = members.last();
        let r = spec_variable_view(types, m.name, base, m.bit_size, m.bit_offset, m.type_ref, fuel);
        if r is Ok && r->Ok_0 is Some {
            law_view_keeps_place(types, m.name, base, m.bit_size, m.bit_offset, m.type_ref, fuel);
        }
        let views = spec_union_members(types, base, members, fuel)->Ok_0;
        let prev = spec_union_members(types, base, rest, fuel)->Ok_0;
        if views.len() == members.len() {
            assert forall|i: int| 0 <= i < members.len() implies {
                let v = #[trigger] views[i];
                &&& v.name == members[i].name
                &&& v.bit_size == members[i].bit_size
                &&& v.bit_offset == members[i].bit_offset
            } by {
                if i < members.len() - 1 {
                    assert(members[i] == rest[i]);
                    assert(prev[i] == views[i]);
                }
            }
        }
    }
}

/// When every member of a structure has a view, member `i` is placed at the
/// structure's address plus its own location, under its own name and bit
/// field.
pub proof fn law_structure_members_at_location(
    types: Map<usize, TypeEntryModel>,
    base: usize,
    members: Seq<StructureMemberModel>,
    fuel: nat,
)
    requires
        spec_structure_members(types, Some(base), members, fuel) is Ok,
        spec_structure_members(types, Some(base), members, fuel)->Ok_0.len() == members.len(),
    ensures
        forall|i: int|
            0 <= i < members.len() ==> {
                let v = #[trigger] spec_structure_members(types, Some(base), members, fuel)->Ok_0[i];
                &&& v.address == Some((base + members[i].location) as usize)
                &&& base + members[i].location <= usize::MAX
                &&& v.name == members[i].name
                &&& v.bit_size == members[i].bit_size
                &&& v.bit_offset == members[i].bit_offset
            },
    decreases members.len(),
{
    if members.len() > 0 {
        let rest = members.drop_last();
        let prev = spec_structure_members(types, Some(base), rest, fuel);
        let m = members.last();
        lemma_structure_members_len(types, Some(base), rest, fuel);
        let address = offset_address(Some(base), m.location as int);
        let r = spec_variable_view(types, m.name, address->Ok_0, m.bit_size, m.bit_offset, m.type_ref, fuel);
        assert(r is Ok && r->Ok_0 is Some);
        law_view_keeps_place(types, m.name, address->Ok_0, m.bit_size, m.bit_offset, m.type_ref, fuel);
        law_structure_members_at_location(types, base, rest, fuel);
        assert forall|i: int| 0 <= i < members.len() implies {
            let v = #[trigger] spec_structure_members(types, Some(base), members, fuel)->Ok_0[i];
            &&& v.address == Some((base + members[i].location) as usize)
            &&& base + members[i].location <= usize::MAX
            &&& v.name == members[i].name
            &&& v.bit_size == members[i].bit_size
            &&& v.bit_offset == members[i].bit_offset
        } by {
            if i < members.len() - 1 {
                assert(members[i] == rest[i]);
                assert(spec_structure_members(types, Some(base), rest, fuel)->Ok_0[i] == spec_structure_members(
                    types,
                    Some(base),
                    members,
                    fuel,
                )->Ok_0[i]);
            }
        }
    }
}

/// The views of the first members are never more than those members.
pub proof fn lemma_structure_members_len(
    types: Map<usize, TypeEntryModel>,
    base: Option<usize>,
    members: Seq<StructureMemberModel>,
    fuel: nat,
)
    ensures
        spec_structure_members(types, base, members, fuel) is Ok ==> spec_structure_members(
            types,
            base,
            members,
            fuel,
        )->Ok_0.len() <= members.len(),
    decreases members.len(),
{
    if members.len() > 0 {
        lemma_structure_members_len(types, base, members.drop_last(), fuel);
    }
}

/// When every element of an array has a view and all of them have the same
/// size `s`, element `i` is named `i` and placed `i * s` bytes after the
/// array, and the array takes `k * s` bytes.
pub proof fn law_array_elements_layout(
    types: Map<usize, TypeEntryModel>,
    base: usize,
    element_type_ref: usize,
    fuel: nat,
    k: nat,
    s: usize,
)
    requires
        spec_array_elements(types, Some(base), element_type_ref, fuel, k) is Ok,
        spec_array_elements(types, Some(base), element_type_ref, fuel, k)->Ok_0.0.len() == k,
        forall|i: int|
            0 <= i < k ==> (#[trigger] spec_array_elements(
                types,
                Some(base),
                element_type_ref,
                fuel,
                k,
            )->Ok_0.0[i]).size == s,
    ensures
        ({
            let (views, size) = spec_array_elements(types, Some(base), element_type_ref, fuel, k)->Ok_0;
            &&& size == k * s
            &&& forall|i: int|
                0 <= i < k ==> {
                    &&& (#[trigger] views[i]).address == Some((base + i * s) as usize)
                    &&& base + i * s <= usize::MAX
                    &&& views[i].name == decimal(i as nat)
                }
        }),
    decreases k,
{
    if k > 0 {
        let kk = (k - 1) as nat;
        let prev = spec_array_elements(types, Some(base), element_type_ref, fuel, kk);
        lemma_array_elements_len(types, Some(base), element_type_ref, fuel, kk);
        let (views, size) = prev->Ok_0;
        let cur = spec_array_elements(types, Some(base), element_type_ref, fuel, k)->Ok_0;
        assert(views.len() == kk);
        assert(cur.0 == views.push(cur.0[kk as int]));
        assert forall|i: int| 0 <= i < kk implies (#[trigger] views[i]).size == s by {
            assert(views[i] == cur.0[i]);
        }
        law_array_elements_layout(types, base, element_type_ref, fuel, kk, s);
        let element_address = offset_address(Some(base), size as int);
        law_view_keeps_place(
            types,
            decimal(kk),
            element_address->Ok_0,
            None,
            None,
            element_type_ref,
            fuel,
        );
        assert(size == kk * s);
        assert(k * s == kk * s + s) by (nonlinear_arith)
            requires
                k == kk + 1,
        ;
        assert forall|i: int| 0 <= i < k implies {
            &&& (#[trigger] cur.0[i]).address == Some((base + i * s) as usize)
            &&& base + i * s <= usize::MAX
            &&& cur.0[i].name == decimal(i as nat)
        } by {
            if i < kk {
                assert(cur.0[i] == views[i]);
            }
        }
    }
}

/// Whether a type has a view, and its size, do not depend on where the
/// view is placed nor on its name: two views of one type that place no part
/// past the largest address are both there or both missing, and of one size.
pub proof fn lemma_view_shape_independent_of_place(
    types: Map<usize, TypeEntryModel>,
    name1: Seq<char>,
    address1: Option<usize>,
    bit_size1: Option<usize>,
    bit_offset1: Option<usize>,
    name2: Seq<char>,
    address2: Option<usize>,
    bit_size2: Option<usize>,
    bit_offset2: Option<usize>,
    t: usize,
    fuel: nat,
)
    requires
        spec_variable_view(types, name1, address1, bit_size1, bit_offset1, t, fuel) is Ok,
        spec_variable_view(types, name2, address2, bit_size2, bit_offset2, t, fuel) is Ok,
    ensures
        ({
            let r1 = spec_variable_view(types, name1, address1, bit_size1, bit_offset1, t, fuel)->Ok_0;
            let r2 = spec_variable_view(types, name2, address2, bit_size2, bit_offset2, t, fuel)->Ok_0;
            &&& (r1 is Some) == (r2 is Some)
            &&& r1 is Some ==> r1->Some_0.size == r2->Some_0.size
        }),
    decreases fuel, 0nat,
{
    if fuel > 0 && types.contains_key(t) {
        let f = (fuel - 1) as nat;
        match types[t].kind {
            TypeKindModel::TypeDef { type_ref, .. } => {
                lemma_view_shape_independent_of_place(
                    types,
                    name1,
                    address1,
                    bit_size1,
                    bit_offset1,
                    name2,
                    address2,
                    bit_size2,
                    bit_offset2,
                    type_ref,
                    f,
                );
            },
            TypeKindModel::VolatileType { type_ref } => {
                lemma_view_shape_independent_of_place(
                    types,
                    name1,
                    address1,
                    bit_size1,
                    bit_offset1,
                    name2,
                    address2,
                    bit_size2,
                    bit_offset2,
                    type_ref,
                    f,
                );
            },
            TypeKindModel::ConstType { type_ref } => {
                lemma_view_shape_independent_of_place(
                    types,
                    name1,
                    address1,
                    bit_size1,
                    bit_offset1,
                    name2,
                    address2,
                    bit_size2,
                    bit_offset2,
                    type_ref,
                    f,
                );
            },
            TypeKindModel::EnumType { type_ref, .. } => {
                lemma_view_shape_independent_of_place(
                    types,
                    name1,
                    address1,
                    bit_size1,
                    bit_offset1,
                    name2,
                    address2,
                    bit_size2,
                    bit_offset2,
                    type_ref,
                    f,
                );
            },
            TypeKindModel::ArrayType { element_type_ref, upper_bound } => {
                if spec_type_view(types, element_type_ref, f) is Some {
                    match upper_bound {
                        None => {
                            lemma_view_shape_independent_of_place(
                                types,
                                decimal(0),
                                address1,
                                None,
                                None,
                                decimal(0),
                                address2,
                                None,
                                None,
                                element_type_ref,
                                f,
                            );
                        },
                        Some(u) => {
                            lemma_array_elements_independent_of_place(
                                types,
                                address1,
                                address2,
                                element_type_ref,
                                f,
                                (u + 1) as nat,
                            );
                        },
                    }
                }
            },
            _ => {},
        }
    }
}

/// The elements of an array have, wherever the array is placed, the same
/// number and the same sizes, when no part lies past the largest address.
pub proof fn lemma_array_elements_independent_of_place(
    types: Map<usize, TypeEntryModel>,
    address1: Option<usize>,
    address2: Option<usize>,
    element_type_ref: usize,
    fuel: nat,
    k: nat,
)
    requires
        spec_array_elements(types, address1, element_type_ref, fuel, k) is Ok,
        spec_array_elements(types, address2, element_type_ref, fuel, k) is Ok,
    ensures
        ({
            let (views1, size1) = spec_array_elements(types, address1, element_type_ref, fuel, k)->Ok_0;
            let (views2, size2) = spec_array_elements(types, address2, element_type_ref, fuel, k)->Ok_0;
            &&& views1.len() == views2.len()
            &&& size1 == size2
        }),
    decreases fuel, k,
{
    if k > 0 {
        let kk = (k - 1) as nat;
        lemma_array_elements_independent_of_place(types, address1, address2, element_type_ref, fuel, kk);
        let (views1, size1) = spec_array_elements(types, address1, element_type_ref, fuel, kk)->Ok_0;
        let (views2, size2) = spec_array_elements(types, address2, element_type_ref, fuel, kk)->Ok_0;
        let e1 = offset_address(address1, size1 as int)->Ok_0;
        let e2 = offset_address(address2, size2 as int)->Ok_0;
        lemma_view_shape_independent_of_place(
            types,
            decimal(kk),
            e1,
            None,
            None,
            decimal(kk),
            e2,
            None,
            None,
            element_type_ref,
            fuel,
        );
    }
}

/// When every element of an array has a view, each has the size of the
/// view of the element type at the array's own address (the first
/// element's view).
pub proof fn law_array_elements_same_size(
    types: Map<usize, TypeEntryModel>,
    address: Option<usize>,
    element_type_ref: usize,
    fuel: nat,
    k: nat,
)
    requires
        k > 0,
        spec_array_elements(types, address, element_type_ref, fuel, k) is Ok,
        spec_array_elements(types, address, element_type_ref, fuel, k)->Ok_0.0.len() == k,
    ensures
        ({
            let first = spec_variable_view(types, decimal(0), address, None, None, element_type_ref, fuel);
            let views = spec_array_elements(types, address, element_type_ref, fuel, k)->Ok_0.0;
            &&& first is Ok
            &&& first->Ok_0 is Some
            &&& forall|i: int| 0 <= i < k ==> (#[trigger] views[i]).size == first->Ok_0->Some_0.size
        }),
    decreases k,
{
    let first = spec_variable_view(types, decimal(0), address, None, None, element_type_ref, fuel);
    let kk = (k - 1) as nat;
    let prev = spec_array_elements(types, address, element_type_ref, fuel, kk);
    let cur = spec_array_elements(types, address, element_type_ref, fuel, k)->Ok_0;
    lemma_array_elements_len(types, address, element_type_ref, fuel, kk);
    if k == 1 {
        assert(prev == Ok::<(Seq<VariableViewModel>, usize), ()>((Seq::empty(), 0usize)));
        assert(offset_address(address, 0) == Ok::<Option<usize>, ()>(address));
    } else {
        law_array_elements_same_size(types, address, element_type_ref, fuel, kk);
        let (views, size) = prev->Ok_0;
        let element_address = offset_address(address, size as int)->Ok_0;
        lemma_view_shape_independent_of_place(
            types,
            decimal(kk),
            element_address,
            None,
            None,
            decimal(0),
            address,
            None,
            None,
            element_type_ref,
            fuel,
        );
        assert(cur.0 == views.push(cur.0[kk as int]));
        assert forall|i: int| 0 <= i < k implies (#[trigger] cur.0[i]).size == first->Ok_0->Some_0.size by {
            if i < kk {
                assert(cur.0[i] == views[i]);
            }
        }
    }
}

/// An array of `k` elements that all have views, at `base`: with `s` the
/// size of the element type's view, element `i` is named `i` and placed
/// `i * s` bytes after the array, and the array takes `k * s` bytes.
pub proof fn law_array_layout(
    types: Map<usize, TypeEntryModel>,
    base: usize,
    element_type_ref: usize,
    fuel: nat,
    k: nat,
)
    requires
        k > 0,
        spec_array_elements(types, Some(base), element_type_ref, fuel, k) is Ok,
        spec_array_elements(types, Some(base), element_type_ref, fuel, k)->Ok_0.0.len() == k,
    ensures
        ({
            let first = spec_variable_view(types, decimal(0), Some(base), None, None, element_type_ref, fuel);
            let s = first->Ok_0->Some_0.size;
            let (views, size) = spec_array_elements(types, Some(base), element_type_ref, fuel, k)->Ok_0;
            &&& first is Ok
            &&& first->Ok_0 is Some
            &&& size == k * s
            &&& forall|i: int|
                0 <= i < k ==> {
                    &&& (#[trigger] views[i]).address == Some((base + i * s) as usize)
                    &&& views[i].name == decimal(i as nat)
                    &&& views[i].size == s
                }
        }),
{
    law_array_elements_same_size(types, Some(base), element_type_ref, fuel, k);
    let first = spec_variable_view(types, decimal(0), Some(base), None, None, element_type_ref, fuel);
    law_array_elements_layout(types, base, element_type_ref, fuel, k, first->Ok_0->Some_0.size);
}

/// The views of the first `k` elements are never more than `k`.
pub proof fn lemma_array_elements_len(
    types: Map<usize, TypeEntryModel>,
    address: Option<usize>,
    element_type_ref: usize,
    fuel: nat,
    k: nat,
)
    ensures
        spec_array_elements(types, address, element_type_ref, fuel, k) is Ok ==> spec_array_elements(
            types,
            address,
            element_type_ref,
            fuel,
            k,
        )->Ok_0.0.len() <= k,
    decreases k,
{
    if k > 0 {
        lemma_array_elements_len(types, address, element_type_ref, fuel, (k - 1) as nat);
    }
}

// ---------------------------------------------------------------------
// The depth limit
// ---------------------------------------------------------------------

/// The entry `r`, when there is one, has a lower rank than `t`.
pub open spec fn below(types: Map<usize, TypeEntryModel>, rank: spec_fn(usize) -> nat, r: usize, t: usize) -> bool {
    types.contains_key(r) ==> rank(r) < rank(t)
}

/// Every entry that the entry `t` refers to has a lower rank than `t`.
pub open spec fn refers_below(types: Map<usize, TypeEntryModel>, rank: spec_fn(usize) -> nat, t: usize) -> bool {
    match types[t].kind {
        TypeKindModel::TypeDef { type_ref, .. } => below(types, rank, type_ref, t),
        TypeKindModel::VolatileType { type_ref } => below(types, rank, type_ref, t),
        TypeKindModel::ConstType { type_ref } => below(types, rank, type_ref, t),
        TypeKindModel::PointerType { type_ref, .. } => match type_ref {
            Some(r) => below(types, rank, r, t),
            None => true,
        },
        TypeKindModel::EnumType { type_ref, .. } => below(types, rank, type_ref, t),
        TypeKindModel::StructureType { members, .. } => forall|i: int|
            0 <= i < members.len() ==> below(types, rank, #[trigger] members[i].type_ref, t),
        TypeKindModel::UnionType { members, .. } => forall|i: int|
            0 <= i < members.len() ==> below(types, rank, #[trigger] members[i].type_ref, t),
        TypeKindModel::ArrayType { element_type_ref, .. } => below(types, rank, element_type_ref, t),
        _ => true,
    }
}

/// Every type entry refers only to entries of lower rank: the references
/// between the entries have no cycle.
pub open spec fn ranked(types: Map<usize, TypeEntryModel>, rank: spec_fn(usize) -> nat) -> bool {
    forall|t: usize| types.contains_key(t) ==> #[trigger] refers_below(types, rank, t)
}

/// The fuel `f` is above the rank of the entry `t`, when there is one.
pub open spec fn fuel_above(types: Map<usize, TypeEntryModel>, rank: spec_fn(usize) -> nat, t: usize, f: nat) -> bool {
    types.contains_key(t) ==> rank(t) < f
}

/// Fuel above the rank of a type gives the same shown type.
pub proof fn lemma_type_view_fuel(
    types: Map<usize, TypeEntryModel>,
    rank: spec_fn(usize) -> nat,
    t: usize,
    f1: nat,
    f2: nat,
)
    requires
        ranked(types, rank),
        fuel_above(types, rank, t, f1),
        fuel_above(types, rank, t, f2),
    ensures
        spec_type_view(types, t, f1) == spec_type_view(types, t, f2),
    decreases f1,
{
    if types.contains_key(t) {
        assert(refers_below(types, rank, t));
        let g1 = (f1 - 1) as nat;
        let g2 = (f2 - 1) as nat;
        match types[t].kind {
            TypeKindModel::TypeDef { type_ref, .. } => lemma_type_view_fuel(types, rank, type_ref, g1, g2),
            TypeKindModel::VolatileType { type_ref } => lemma_type_view_fuel(types, rank, type_ref, g1, g2),
            TypeKindModel::ConstType { type_ref } => lemma_type_view_fuel(types, rank, type_ref, g1, g2),
            TypeKindModel::PointerType { type_ref, .. } => match type_ref {
                Some(r) => lemma_type_view_fuel(types, rank, r, g1, g2),
                None => {},
            },
            TypeKindModel::EnumType { type_ref, .. } => lemma_type_view_fuel(types, rank, type_ref, g1, g2),
            TypeKindModel::ArrayType { element_type_ref, .. } => lemma_type_view_fuel(
                types,
                rank,
                element_type_ref,
                g1,
                g2,
            ),
            _ => {},
        }
    }
}

/// Fuel above the rank of a type gives the same view.
pub proof fn lemma_variable_view_fuel(
    types: Map<usize, TypeEntryModel>,
    rank: spec_fn(usize) -> nat,
    name: Seq<char>,
    address: Option<usize>,
    bit_size: Option<usize>,
    bit_offset: Option<usize>,
    t: usize,
    f1: nat,
    f2: nat,
)
    requires
        ranked(types, rank),
        fuel_above(types, rank, t, f1),
        fuel_above(types, rank, t, f2),
    ensures
        spec_variable_view(types, name, address, bit_size, bit_offset, t, f1) == spec_variable_view(
            types,
            name,
            address,
            bit_size,
            bit_offset,
            t,
            f2,
        ),
    decreases f1, 0nat,
{
    if types.contains_key(t) {
        assert(refers_below(types, rank, t));
        let g1 = (f1 - 1) as nat;
        let g2 = (f2 - 1) as nat;
        match types[t].kind {
            TypeKindModel::TypeDef { type_ref, .. } => {
                lemma_variable_view_fuel(types, rank, name, address, bit_size, bit_offset, type_ref, g1, g2);
            },
            TypeKindModel::VolatileType { type_ref } => {
                lemma_variable_view_fuel(types, rank, name, address, bit_size, bit_offset, type_ref, g1, g2);
            },
            TypeKindModel::ConstType { type_ref } => {
                lemma_variable_view_fuel(types, rank, name, address, bit_size, bit_offset, type_ref, g1, g2);
            },
            TypeKindModel::EnumType { type_ref, .. } => {
                lemma_variable_view_fuel(types, rank, name, address, bit_size, bit_offset, type_ref, g1, g2);
            },
            TypeKindModel::PointerType { type_ref, .. } => match type_ref {
                Some(r) => lemma_type_view_fuel(types, rank, r, g1, g2),
                None => {},
            },
            TypeKindModel::StructureType { members, .. } => {
                lemma_structure_members_fuel(types, rank, address, members, g1, g2);
            },
            TypeKindModel::UnionType { members, .. } => {
                lemma_union_members_fuel(types, rank, address, members, g1, g2);
            },
            TypeKindModel::ArrayType { element_type_ref, upper_bound } => {
                lemma_type_view_fuel(types, rank, element_type_ref, g1, g2);
                match upper_bound {
                    None => lemma_variable_view_fuel(
                        types,
                        rank,
                        decimal(0),
                        address,
                        None,
                        None,
                        element_type_ref,
                        g1,
                        g2,
                    ),
                    Some(u) => lemma_array_elements_fuel(
                        types,
                        rank,
                        address,
                        element_type_ref,
                        g1,
                        g2,
                        (u + 1) as nat,
                    ),
                }
            },
            _ => {},
        }
    }
}

/// Fuel above the ranks of the members' types gives the same members.
pub proof fn lemma_structure_members_fuel(
    types: Map<usize, TypeEntryModel>,
    rank: spec_fn(usize) -> nat,
    base: Option<usize>,
    members: Seq<StructureMemberModel>,
    f1: nat,
    f2: nat,
)
    requires
        ranked(types, rank),
        forall|i: int|
            0 <= i < members.len() ==> fuel_above(types, rank, #[trigger] members[i].type_ref, f1)
                && fuel_above(types, rank, members[i].type_ref, f2),
    ensures
        spec_structure_members(types, base, members, f1) == spec_structure_members(types, base, members, f2),
    decreases f1, members.len(),
{
    if members.len() > 0 {
        let rest = members.drop_last();
        assert forall|i: int| 0 <= i < rest.len() implies fuel_above(types, rank, #[trigger] rest[i].type_ref, f1)
            && fuel_above(types, rank, rest[i].type_ref, f2) by {
            assert(rest[i] == members[i]);
        }
        lemma_structure_members_fuel(types, rank, base, rest, f1, f2);
        let m = members.last();
        assert(m == members[members.len() - 1]);
        let address = offset_address(base, m.location as int);
        if address is Ok {
            lemma_variable_view_fuel(
                types,
                rank,
                m.name,
                address->Ok_0,
                m.bit_size,
                m.bit_offset,
                m.type_ref,
                f1,
                f2,
            );
        }
    }
}

/// Fuel above the ranks of the members' types gives the same members.
pub proof fn lemma_union_members_fuel(
    types: Map<usize, TypeEntryModel>,
    rank: spec_fn(usize) -> nat,
    base: Option<usize>,
    members: Seq<UnionMemberModel>,
    f1: nat,
    f2: nat,
)
    requires
        ranked(types, rank),
        forall|i: int|
            0 <= i < members.len() ==> fuel_above(types, rank, #[trigger] members[i].type_ref, f1)
                && fuel_above(types, rank, members[i].type_ref, f2),
    ensures
        spec_union_members(types, base, members, f1) == spec_union_members(types, base, members, f2),
    decreases f1, members.len(),
{
    if members.len() > 0 {
        let rest = members.drop_last();
        assert forall|i: int| 0 <= i < rest.len() implies fuel_above(types, rank, #[trigger] rest[i].type_ref, f1)
            && fuel_above(types, rank, rest[i].type_ref, f2) by {
            assert(rest[i] == members[i]);
        }
        lemma_union_members_fuel(types, rank, base, rest, f1, f2);
        let m = members.last();
        assert(m == members[members.len() - 1]);
        lemma_variable_view_fuel(types, rank, m.name, base, m.bit_size, m.bit_offset, m.type_ref, f1, f2);
    }
}

/// Fuel above the rank of the element type gives the same elements.
pub proof fn lemma_array_elements_fuel(
    types: Map<usize, TypeEntryModel>,
    rank: spec_fn(usize) -> nat,
    address: Option<usize>,
    element_type_ref: usize,
    f1: nat,
    f2: nat,
    k: nat,
)
    requires
        ranked(types, rank),
        fuel_above(types, rank, element_type_ref, f1),
        fuel_above(types, rank, element_type_ref, f2),
    ensures
        spec_array_elements(types, address, element_type_ref, f1, k) == spec_array_elements(
            types,
            address,
            element_type_ref,
            f2,
            k,
        ),
    decreases f1, k,
{
    if k > 0 {
        lemma_array_elements_fuel(types, rank, address, element_type_ref, f1, f2, (k - 1) as nat);
        let prev = spec_array_elements(types, address, element_type_ref, f1, (k - 1) as nat);
        if prev is Ok {
            let element_address = offset_address(address, prev->Ok_0.1 as int);
            if element_address is Ok {
                lemma_variable_view_fuel(
                    types,
                    rank,
                    decimal((k - 1) as nat),
                    element_address->Ok_0,
                    None,
                    None,
                    element_type_ref,
                    f1,
                    f2,
                );
            }
        }
    }
}

/// When the references between the type entries have no cycle (each entry
/// refers only to entries of lower rank, every rank below the number of
/// entries), the depth limit cuts nothing off: any larger limit gives the
/// same view of a global variable.
pub proof fn law_depth_limit_is_enough(
    types: Map<usize, TypeEntryModel>,
    decs: Map<usize, VariableDeclarationModel>,
    variable: GlobalVariableModel,
    rank: spec_fn(usize) -> nat,
    fuel: nat,
)
    requires
        ranked(types, rank),
        forall|t: usize| types.contains_key(t) ==> #[trigger] rank(t) < types.len(),
        fuel >= types.len(),
    ensures
        spec_from_global_variable(types, decs, variable, fuel) == spec_from_global_variable(
            types,
            decs,
            variable,
            types.len(),
        ),
{
    match variable {
        GlobalVariableModel::NoSpec { address, name, type_ref } => {
            lemma_variable_view_fuel(types, rank, name, address, None, None, type_ref, fuel, types.len());
        },
        GlobalVariableModel::HasSpec { address, spec } => {
            if decs.contains_key(spec) {
                lemma_variable_view_fuel(
                    types,
                    rank,
                    decs[spec].name,
                    address,
                    None,
                    None,
                    decs[spec].type_ref,
                    fuel,
                    types.len(),
                );
            }
        },
    }
}

// ---------------------------------------------------------------------
// Implementation
// ---------------------------------------------------------------------

/// How many type entries are followed at most when there are `count`: one
/// more than there are (none more at the largest count).
pub open spec fn depth_limit_for(count: nat) -> nat {
    if count < usize::MAX {
        count + 1
    } else {
        count
    }
}

/// The depth limit for `count` type entries (see `depth_limit_for`).
pub fn depth_limit_value(count: usize) -> (res: usize)
    ensures
        res == depth_limit_for(count as nat),
{
    if count < usize::MAX {
        count + 1
    } else {
        count
    }
}

/// The view of a global variable depends on nothing but the variable and
/// the type entries and declarations that the factory reads (it only reads
/// them, through shared references): two factories over the same entries
/// give the same view, or both an overflow.
pub proof fn law_view_depends_on_the_entries_alone<'a, 'b, 'c, 'd>(
    f: GlobalVariableViewFactory<'a, 'b>,
    g: GlobalVariableViewFactory<'c, 'd>,
    variable: GlobalVariableModel,
)
    requires
        f.types() == g.types(),
        f.declarations() == g.declarations(),
    ensures
        spec_from_global_variable(f.types(), f.declarations(), variable, f.depth_limit()) == spec_from_global_variable(
            g.types(),
            g.declarations(),
            variable,
            g.depth_limit(),
        ),
{
    assert(f.type_entry_repository@.dom() =~= f.types().dom());
    assert(g.type_entry_repository@.dom() =~= g.types().dom());
}

impl<'type_repo, 'dec_repo> GlobalVariableViewFactory<'type_repo, 'dec_repo> {
    /// The type entries, as values.
    pub open spec fn types(&self) -> Map<usize, TypeEntryModel> {
        type_entries_view(self.type_entry_repository@)
    }

    /// The variable declarations, as values.
    pub open spec fn declarations(&self) -> Map<usize, VariableDeclarationModel> {
        declarations_view(self.variable_declaration_repository@)
    }

    /// How many type entries are followed at most (see `depth_limit_for`).
    pub open spec fn depth_limit(&self) -> nat {
        depth_limit_for(self.type_entry_repository@.len())
    }

    pub fn new(
        type_entry_repository: &'type_repo TypeEntryRepository,
        variable_declaration_repository: &'dec_repo VariableDeclarationRepository,
    ) -> (res: Self)
        ensures
            res.type_entry_repository == type_entry_repository,
            res.variable_declaration_repository == variable_declaration_repository,
    {
        Self { type_entry_repository, variable_declaration_repository }
    }

    /// The view of a global variable, or `Err` when one of its parts would
    /// be placed past the largest address.
    pub fn checked_from_global_variable(&self, global_variable: GlobalVariable) -> (res: Result<
        Option<GlobalVariableView>,
        AddressOverflow,
    >)
        ensures
            view_result(res) == spec_from_global_variable(
                self.types(),
                self.declarations(),
                global_variable@,
                self.depth_limit(),
            ),
    {
        let fuel = depth_limit_value(self.type_entry_repository.len());
        match global_variable {
            GlobalVariable::HasSpec { address, spec } => self.from_global_variable_with_spec(address, spec, fuel),
            GlobalVariable::NoSpec { address, name, type_ref } => self.variable_view_from_type_ref(
                name,
                address,
                None,
                None,
                &type_ref,
                fuel,
            ),
        }
    }

    /// The view of a global variable, when none of its parts is placed past
    /// the largest address.
    pub fn from_global_variable(&self, global_variable: GlobalVariable) -> (res: Option<GlobalVariableView>)
        requires
            spec_from_global_variable(
                self.types(),
                self.declarations(),
                global_variable@,
                self.depth_limit(),
            ) is Ok,
        ensures
            Ok::<Option<VariableViewModel>, ()>(option_variable_view(res)) == spec_from_global_variable(
                self.types(),
                self.declarations(),
                global_variable@,
                self.depth_limit(),
            ),
    {
        match self.checked_from_global_variable(global_variable) {
            Ok(view) => view,
            Err(_) => None,
        }
    }

    fn from_global_variable_with_spec(
        &self,
        address: Option<Address>,
        spec: VariableDeclarationEntryId,
        fuel: usize,
    ) -> (res: Result<Option<GlobalVariableView>, AddressOverflow>)
        ensures
            view_result(res) == spec_from_global_variable(
                self.types(),
                self.declarations(),
                GlobalVariableModel::HasSpec { address: option_address_value(address), spec: spec.0.0 },
                fuel as nat,
            ),
    {
        match self.variable_declaration_repository.find_by_id(&spec) {
            None => Ok(None),
            Some(variable_dec) => {
                proof {
                    assert(self.declarations()[spec.0.0] == variable_dec@);
                }
                self.variable_view_from_type_ref(
                    variable_dec.name.clone(),
                    address,
                    None,
                    None,
                    &variable_dec.type_ref,
                    fuel,
                )
            },
        }
    }

    fn variable_view_from_type_ref(
        &self,
        variable_name: String,
        address: Option<Address>,
        bit_size: Option<usize>,
        bit_offset: Option<usize>,
        type_ref: &TypeEntryId,
        fuel: usize,
    ) -> (res: Result<Option<GlobalVariableView>, AddressOverflow>)
        ensures
            view_result(res) == spec_variable_view(
                self.types(),
                variable_name@,
                option_address_value(address),
                bit_size,
                bit_offset,
                type_ref.0.0,
                fuel as nat,
            ),
        decreases fuel, 0nat,
    {
        if fuel == 0 {
            return Ok(None);
        }
        match self.type_entry_repository.find_by_id(type_ref) {
            None => Ok(None),
            Some(type_entry) => {
                proof {
                    assert(self.types()[type_ref.0.0] == type_entry@);
                }
                match &type_entry.kind {
                    TypeEntryKind::TypeDef { name: kind_name, type_ref } => self.typedef_variable_view(
                        variable_name,
                        address,
                        bit_size,
                        bit_offset,
                        kind_name.clone(),
                        type_ref,
                        fuel - 1,
                    ),
                    TypeEntryKind::VolatileType { type_ref } => self.volatile_type_variable_view(
                        variable_name,
                        address,
                        bit_size,
                        bit_offset,
                        type_ref,
                        fuel - 1,
                    ),
                    TypeEntryKind::ConstType { type_ref } => self.const_type_variable_view(
                        variable_name,
                        address,
                        bit_size,
                        bit_offset,
                        type_ref,
                        fuel - 1,
                    ),
                    TypeEntryKind::PointerType { size, type_ref } => Ok(
                        self.pointer_type_variable_view(
                            variable_name,
                            address,
                            *size,
                            bit_size,
                            bit_offset,
                            type_ref.as_ref(),
                            fuel - 1,
                        ),
                    ),
                    TypeEntryKind::BaseType { name: kind_name, size } => Ok(
                        Some(
                            Self::base_type_variable_view(
                                variable_name,
                                address,
                                *size,
                                bit_size,
                                bit_offset,
                                kind_name.clone(),
                            ),
                        ),
                    ),
                    TypeEntryKind::EnumType { name: kind_name, type_ref, enumerators } => self.enum_type_variable_view(
                        variable_name,
                        address,
                        bit_size,
                        bit_offset,
                        clone_option_string(kind_name),
                        type_ref,
                        enumerators,
                        fuel - 1,
                    ),
                    TypeEntryKind::StructureType { name: kind_name, size, members } => {
                        match self.structure_type_variable_view(
                            variable_name,
                            address,
                            *size,
                            bit_size,
                            bit_offset,
                            clone_option_string(kind_name),
                            members,
                            fuel - 1,
                        ) {
                            Ok(view) => Ok(Some(view)),
                            Err(e) => Err(e),
                        }
                    },
                    TypeEntryKind::UnionType { name: kind_name, size, members } => {
                        match self.union_type_variable_view(
                            variable_name,
                            address,
                            *size,
                            bit_size,
                            bit_offset,
                            clone_option_string(kind_name),
                            members,
                            fuel - 1,
                        ) {
                            Ok(view) => Ok(Some(view)),
                            Err(e) => Err(e),
                        }
                    },
                    TypeEntryKind::ArrayType { element_type_ref, upper_bound } => self.array_type_variable_view(
                        variable_name,
                        address,
                        bit_size,
                        bit_offset,
                        element_type_ref,
                        *upper_bound,
                        fuel - 1,
                    ),
                    TypeEntryKind::FunctionType { .. } => Ok(None),
                }
            },
        }
    }

    fn typedef_variable_view(
        &self,
        variable_name: String,
        address: Option<Address>,
        bit_size: Option<usize>,
        bit_offset: Option<usize>,
        kind_name: String,
        type_ref: &TypeEntryId,
        fuel: usize,
    ) -> (res: Result<Option<GlobalVariableView>, AddressOverflow>)
        ensures
            view_result(res) == retype(
                spec_variable_view(
                    self.types(),
                    variable_name@,
                    option_address_value(address),
                    bit_size,
                    bit_offset,
                    type_ref.0.0,
                    fuel as nat,
                ),
                |v: TypeViewModel| TypeViewModel::TypeDef { name: kind_name@, type_view: Box::new(v) },
            ),
        decreases fuel, 1nat,
    {
        let ghost name_view = kind_name@;
        let mut global_variable_view = match self.variable_view_from_type_ref(
            variable_name,
            address,
            bit_size,
            bit_offset,
            type_ref,
            fuel,
        ) {
            Ok(Some(view)) => view,
            Ok(None) => return Ok(None),
            Err(e) => return Err(e),
        };
        let mut type_view = TypeView::Function;
        std::mem::swap(&mut type_view, &mut global_variable_view.type_view);
        global_variable_view.type_view = TypeView::new_typedef_type_view(kind_name, type_view);
        Ok(Some(global_variable_view))
    }

    fn volatile_type_variable_view(
        &self,
        variable_name: String,
        address: Option<Address>,
        bit_size: Option<usize>,
        bit_offset: Option<usize>,
        type_ref: &TypeEntryId,
        fuel: usize,
    ) -> (res: Result<Option<GlobalVariableView>, AddressOverflow>)
        ensures
            view_result(res) == retype(
                spec_variable_view(
                    self.types(),
                    variable_name@,
                    option_address_value(address),
                    bit_size,
                    bit_offset,
                    type_ref.0.0,
                    fuel as nat,
                ),
                |v: TypeViewModel| TypeViewModel::Volatile { type_view: Box::new(v) },
            ),
        decreases fuel, 1nat,
    {
        let mut global_variable_view = match self.variable_view_from_type_ref(
            variable_name,
            address,
            bit_size,
            bit_offset,
            type_ref,
            fuel,
        ) {
            Ok(Some(view)) => view,
            Ok(None) => return Ok(None),
            Err(e) => return Err(e),
        };
        let mut type_view = TypeView::Function;
        std::mem::swap(&mut type_view, &mut global_variable_view.type_view);
        global_variable_view.type_view = TypeView::new_volatile_type_view(type_view);
        Ok(Some(global_variable_view))
    }

    fn const_type_variable_view(
        &self,
        variable_name: String,
        address: Option<Address>,
        bit_size: Option<usize>,
        bit_offset: Option<usize>,
        type_ref: &TypeEntryId,
        fuel: usize,
    ) -> (res: Result<Option<GlobalVariableView>, AddressOverflow>)
        ensures
            view_result(res) == retype(
                spec_variable_view(
                    self.types(),
                    variable_name@,
                    option_address_value(address),
                    bit_size,
                    bit_offset,
                    type_ref.0.0,
                    fuel as nat,
                ),
                |v: TypeViewModel| TypeViewModel::Const { type_view: Box::new(v) },
            ),
        decreases fuel, 1nat,
    {
        let mut global_variable_view = match self.variable_view_from_type_ref(
            variable_name,
            address,
            bit_size,
            bit_offset,
            type_ref,
            fuel,
        ) {
            Ok(Some(view)) => view,
            Ok(None) => return Ok(None),
            Err(e) => return Err(e),
        };
        let mut type_view = TypeView::Function;
        std::mem::swap(&mut type_view, &mut global_variable_view.type_view);
        global_variable_view.type_view = TypeView::new_const_type_view(type_view);
        Ok(Some(global_variable_view))
    }

    fn pointer_type_variable_view(
        &self,
        variable_name: String,
        address: Option<Address>,
        size: usize,
        bit_size: Option<usize>,
        bit_offset: Option<usize>,
        type_ref: Option<&TypeEntryId>,
        fuel: usize,
    ) -> (res: Option<GlobalVariableView>)
        ensures
            option_variable_view(res) == match type_ref {
                None => Some(
                    leaf_view(
                        variable_name@,
                        option_address_value(address),
                        size,
                        bit_size,
                        bit_offset,
                        TypeViewModel::VoidPointer,
                    ),
                ),
                Some(r) => match spec_type_view(self.types(), r.0.0, fuel as nat) {
                    Some(v) => Some(
                        leaf_view(
                            variable_name@,
                            option_address_value(address),
                            size,
                            bit_size,
                            bit_offset,
                            TypeViewModel::Pointer { type_view: Box::new(v) },
                        ),
                    ),
                    None => None,
                },
            },
    {
        match type_ref {
            None => {
                let view = GlobalVariableViewBuilder::new().name(variable_name).address(address).size(
                    size,
                ).bit_size(bit_size).bit_offset(bit_offset).type_view(
                    TypeView::new_void_pointer_type_view(),
                ).build();
                proof {
                    lemma_variable_views(view.children@);
                    assert(view@.children =~= Seq::<VariableViewModel>::empty());
                }
                Some(view)
            },
            Some(type_ref) => {
                let type_view = match self.type_view_from_type_entry(type_ref, fuel) {
                    Some(type_view) => type_view,
                    None => return None,
                };
                let view = GlobalVariableViewBuilder::new().name(variable_name).address(address).size(
                    size,
                ).bit_size(bit_size).bit_offset(bit_offset).type_view(
                    TypeView::new_pointer_type_view(type_view),
                ).build();
                proof {
                    lemma_variable_views(view.children@);
                    assert(view@.children =~= Seq::<VariableViewModel>::empty());
                }
                Some(view)
            },
        }
    }

    fn base_type_variable_view(
        variable_name: String,
        address: Option<Address>,
        size: usize,
        bit_size: Option<usize>,
        bit_offset: Option<usize>,
        kind_name: String,
    ) -> (res: GlobalVariableView)
        ensures
            res@ == leaf_view(
                variable_name@,
                option_address_value(address),
                size,
                bit_size,
                bit_offset,
                TypeViewModel::Base { name: kind_name@ },
            ),
    {
        let view = GlobalVariableViewBuilder::new().name(variable_name).address(address).size(size).bit_size(
            bit_size,
        ).bit_offset(bit_offset).type_view(TypeView::new_base_type_view(kind_name)).build();
        proof {
            lemma_variable_views(view.children@);
            assert(view@.children =~= Seq::<VariableViewModel>::empty());
        }
        view
    }

    fn enum_type_variable_view(
        &self,
        variable_name: String,
        address: Option<Address>,
        bit_size: Option<usize>,
        bit_offset: Option<usize>,
        kind_name: Option<String>,
        type_ref: &TypeEntryId,
        enumerators: &Vec<EnumeratorEntry>,
        fuel: usize,
    ) -> (res: Result<Option<GlobalVariableView>, AddressOverflow>)
        ensures
            view_result(res) == retype(
                spec_variable_view(
                    self.types(),
                    variable_name@,
                    option_address_value(address),
                    bit_size,
                    bit_offset,
                    type_ref.0.0,
                    fuel as nat,
                ),
                |v: TypeViewModel|
                    TypeViewModel::Enum {
                        name: crate::library::text::option_string_view(kind_name),
                        type_view: Box::new(v),
                        enumerators: enumerators@.map_values(|e: EnumeratorEntry| e@),
                    },
            ),
        decreases fuel, 1nat,
    {
        let mut global_variable_view = match self.variable_view_from_type_ref(
            variable_name,
            address,
            bit_size,
            bit_offset,
            type_ref,
            fuel,
        ) {
            Ok(Some(view)) => view,
            Ok(None) => return Ok(None),
            Err(e) => return Err(e),
        };
        let mut shown: Vec<Enumerator> = Vec::new();
        let mut i: usize = 0;
        while i < enumerators.len()
            invariant
                i <= enumerators@.len(),
                shown@.len() == i,
                forall|k: int| 0 <= k < i ==> #[trigger] shown@[k]@ == enumerators@[k]@,
            decreases enumerators@.len() - i,
        {
            shown.push(Enumerator::from(&enumerators[i]));
            i = i + 1;
        }
        proof {
            assert(enumerators_view(shown@) =~= enumerators@.map_values(|e: EnumeratorEntry| e@));
        }
        let ghost name_view = crate::library::text::option_string_view(kind_name);
        let ghost shown_view = enumerators_view(shown@);
        let mut type_view = TypeView::Function;
        std::mem::swap(&mut type_view, &mut global_variable_view.type_view);
        global_variable_view.type_view = TypeView::new_enum_type_view(kind_name, type_view, shown);
        Ok(Some(global_variable_view))
    }

    fn structure_type_variable_view(
        &self,
        variable_name: String,
        address: Option<Address>,
        size: usize,
        bit_size: Option<usize>,
        bit_offset: Option<usize>,
        kind_name: Option<String>,
        members: &Vec<StructureTypeMemberEntry>,
        fuel: usize,
    ) -> (res: Result<GlobalVariableView, AddressOverflow>)
        ensures
            match res {
                Ok(view) => spec_structure_members(
                    self.types(),
                    option_address_value(address),
                    structure_members_view(members@),
                    fuel as nat,
                ) == Ok::<Seq<VariableViewModel>, ()>(view@.children) && view@ == (VariableViewModel {
                    name: variable_name@,
                    address: option_address_value(address),
                    size,
                    bit_size,
                    bit_offset,
                    type_view: TypeViewModel::Structure {
                        name: crate::library::text::option_string_view(kind_name),
                    },
                    children: view@.children,
                }),
                Err(_) => spec_structure_members(
                    self.types(),
                    option_address_value(address),
                    structure_members_view(members@),
                    fuel as nat,
                ) is Err,
            },
        decreases fuel, 2nat,
    {
        let children = match self.members_variable_view(address.as_ref(), members, fuel) {
            Ok(children) => children,
            Err(e) => return Err(e),
        };
        Ok(
            GlobalVariableViewBuilder::new().name(variable_name).address(address).size(size).bit_size(
                bit_size,
            ).bit_offset(bit_offset).type_view(TypeView::new_structure_type_view(kind_name)).children(
                children,
            ).build(),
        )
    }

    fn union_type_variable_view(
        &self,
        variable_name: String,
        address: Option<Address>,
        size: usize,
        bit_size: Option<usize>,
        bit_offset: Option<usize>,
        kind_name: Option<String>,
        members: &Vec<UnionTypeMemberEntry>,
        fuel: usize,
    ) -> (res: Result<GlobalVariableView, AddressOverflow>)
        ensures
            match res {
                Ok(view) => spec_union_members(
                    self.types(),
                    option_address_value(address),
                    union_members_view(members@),
                    fuel as nat,
                ) == Ok::<Seq<VariableViewModel>, ()>(view@.children) && view@ == (VariableViewModel {
                    name: variable_name@,
                    address: option_address_value(address),
                    size,
                    bit_size,
                    bit_offset,
                    type_view: TypeViewModel::Union {
                        name: crate::library::text::option_string_view(kind_name),
                    },
                    children: view@.children,
                }),
                Err(_) => spec_union_members(
                    self.types(),
                    option_address_value(address),
                    union_members_view(members@),
                    fuel as nat,
                ) is Err,
            },
        decreases fuel, 2nat,
    {
        let children = match self.union_members_variable_view(address.as_ref(), members, fuel) {
            Ok(children) => children,
            Err(e) => return Err(e),
        };
        Ok(
            GlobalVariableViewBuilder::new().name(variable_name).address(address).size(size).bit_size(
                bit_size,
            ).bit_offset(bit_offset).type_view(TypeView::new_union_type_view(kind_name)).children(
                children,
            ).build(),
        )
    }

    fn members_variable_view(
        &self,
        base_address: Option<&Address>,
        members: &Vec<StructureTypeMemberEntry>,
        fuel: usize,
    ) -> (res: Result<Vec<GlobalVariableView>, AddressOverflow>)
        ensures
            match res {
                Ok(views) => spec_structure_members(
                    self.types(),
                    match base_address {
                        Some(a) => Some(a.0.0),
                        None => None,
                    },
                    structure_members_view(members@),
                    fuel as nat,
                ) == Ok::<Seq<VariableViewModel>, ()>(variable_views(views@)),
                Err(_) => spec_structure_members(
                    self.types(),
                    match base_address {
                        Some(a) => Some(a.0.0),
                        None => None,
                    },
                    structure_members_view(members@),
                    fuel as nat,
                ) is Err,
            },
        decreases fuel, 1nat,
    {
        let ghost base = match base_address {
            Some(a) => Some(a.0.0),
            None => None::<usize>,
        };
        let ghost ms = structure_members_view(members@);
        let mut views: Vec<GlobalVariableView> = Vec::new();
        let mut i: usize = 0;
        proof {
            lemma_variable_views(views@);
            assert(ms.take(0) =~= Seq::<StructureMemberModel>::empty());
            assert(variable_views(views@) =~= Seq::<VariableViewModel>::empty());
        }
        while i < members.len()
            invariant
                i <= members@.len(),
                ms == structure_members_view(members@),
                base == match base_address {
                    Some(a) => Some(a.0.0),
                    None => None::<usize>,
                },
                spec_structure_members(self.types(), base, ms.take(i as int), fuel as nat) == Ok::<
                    Seq<VariableViewModel>,
                    (),
                >(variable_views(views@)),
            decreases members@.len() - i,
        {
            let member = &members[i];
            proof {
                assert(ms.take(i + 1).drop_last() =~= ms.take(i as int));
                assert(ms.take(i + 1).last() == member@);
            }
            let address = match base_address {
                None => None,
                Some(addr) => match addr.0.0.checked_add(member.0.location) {
                    Some(a) => Some(Address::new(Location::new(a))),
                    None => {
                        proof {
                            lemma_structure_members_overflow(
                                self.types(),
                                base,
                                ms,
                                fuel as nat,
                                i + 1,
                                ms.len() as int,
                            );
                            assert(ms.take(ms.len() as int) =~= ms);
                        }
                        return Err(AddressOverflow);
                    },
                },
            };
            let ghost before = views@;
            match self.variable_view_from_type_ref(
                member.0.name.clone(),
                address,
                member.0.bit_size,
                member.0.bit_offset,
                &member.0.type_ref,
                fuel,
            ) {
                Ok(Some(view)) => {
                    views.push(view);
                    proof {
                        lemma_variable_views_push(before, view);
                    }
                },
                Ok(None) => {},
                Err(e) => {
                    proof {
                        lemma_structure_members_overflow(
                            self.types(),
                            base,
                            ms,
                            fuel as nat,
                            i + 1,
                            ms.len() as int,
                        );
                        assert(ms.take(ms.len() as int) =~= ms);
                    }
                    return Err(e);
                },
            }
            i = i + 1;
        }
        proof {
            assert(ms.take(members@.len() as int) =~= ms);
        }
        Ok(views)
    }

    fn union_members_variable_view(
        &self,
        base_address: Option<&Address>,
        members: &Vec<UnionTypeMemberEntry>,
        fuel: usize,
    ) -> (res: Result<Vec<GlobalVariableView>, AddressOverflow>)
        ensures
            match res {
                Ok(views) => spec_union_members(
                    self.types(),
                    match base_address {
                        Some(a) => Some(a.0.0),
                        None => None,
                    },
                    union_members_view(members@),
                    fuel as nat,
                ) == Ok::<Seq<VariableViewModel>, ()>(variable_views(views@)),
                Err(_) => spec_union_members(
                    self.types(),
                    match base_address {
                        Some(a) => Some(a.0.0),
                        None => None,
                    },
                    union_members_view(members@),
                    fuel as nat,
                ) is Err,
            },
        decreases fuel, 1nat,
    {
        let ghost base = match base_address {
            Some(a) => Some(a.0.0),
            None => None::<usize>,
        };
        let ghost ms = union_members_view(members@);
        let mut views: Vec<GlobalVariableView> = Vec::new();
        let mut i: usize = 0;
        proof {
            lemma_variable_views(views@);
            assert(ms.take(0) =~= Seq::<UnionMemberModel>::empty());
            assert(variable_views(views@) =~= Seq::<VariableViewModel>::empty());
        }
        while i < members.len()
            invariant
                i <= members@.len(),
                ms == union_members_view(members@),
                base == match base_address {
                    Some(a) => Some(a.0.0),
                    None => None::<usize>,
                },
                spec_union_members(self.types(), base, ms.take(i as int), fuel as nat) == Ok::<
                    Seq<VariableViewModel>,
                    (),
                >(variable_views(views@)),
            decreases members@.len() - i,
        {
            let member = &members[i];
            proof {
                assert(ms.take(i + 1).drop_last() =~= ms.take(i as int));
                assert(ms.take(i + 1).last() == member@);
            }
            let address = match base_address {
                None => None,
                Some(addr) => Some(*addr),
            };
            let ghost before = views@;
            match self.variable_view_from_type_ref(
                member.name.clone(),
                address,
                member.bit_size,
                member.bit_offset,
                &member.type_ref,
                fuel,
            ) {
                Ok(Some(view)) => {
                    views.push(view);
                    proof {
                        lemma_variable_views_push(before, view);
                    }
                },
                Ok(None) => {},
                Err(e) => {
                    proof {
                        lemma_union_members_overflow(
                            self.types(),
                            base,
                            ms,
                            fuel as nat,
                            i + 1,
                            ms.len() as int,
                        );
                        assert(ms.take(ms.len() as int) =~= ms);
                    }
                    return Err(e);
                },
            }
            i = i + 1;
        }
        proof {
            assert(ms.take(members@.len() as int) =~= ms);
        }
        Ok(views)
    }

    fn array_type_variable_view(
        &self,
        variable_name: String,
        address: Option<Address>,
        bit_size: Option<usize>,
        bit_offset: Option<usize>,
        element_type_ref: &TypeEntryId,
        upper_bound: Option<usize>,
        fuel: usize,
    ) -> (res: Result<Option<GlobalVariableView>, AddressOverflow>)
        ensures
            view_result(res) == match spec_type_view(self.types(), element_type_ref.0.0, fuel as nat) {
                None => Ok(None),
                Some(element_type) => match spec_array_elements_of(
                    self.types(),
                    option_address_value(address),
                    element_type_ref.0.0,
                    fuel as nat,
                    upper_bound,
                ) {
                    Ok((children, size)) => Ok(
                        Some(
                            VariableViewModel {
                                name: variable_name@,
                                address: option_address_value(address),
                                size,
                                bit_size,
                                bit_offset,
                                type_view: TypeViewModel::Array {
                                    element_type: Box::new(element_type),
                                    upper_bound,
                                },
                                children,
                            },
                        ),
                    ),
                    Err(e) => Err(e),
                },
            },
        decreases fuel, 2nat,
    {
        let type_view = match self.type_view_from_type_entry(element_type_ref, fuel) {
            Some(type_view) => type_view,
            None => return Ok(None),
        };
        let (elements, size) = match self.array_elements_(&address, upper_bound, *element_type_ref, fuel) {
            Ok(r) => r,
            Err(e) => return Err(e),
        };
        Ok(
            Some(
                GlobalVariableViewBuilder::new().name(variable_name).address(address).size(size).bit_size(
                    bit_size,
                ).bit_offset(bit_offset).type_view(
                    TypeView::new_array_type_view(type_view, upper_bound),
                ).children(elements).build(),
            ),
        )
    }

    fn array_elements_(
        &self,
        address: &Option<Address>,
        upper_bound: Option<usize>,
        element_type_ref: TypeEntryId,
        fuel: usize,
    ) -> (res: Result<(Vec<GlobalVariableView>, usize), AddressOverflow>)
        ensures
            match res {
                Ok((elements, size)) => spec_array_elements_of(
                    self.types(),
                    option_address_value(*address),
                    element_type_ref.0.0,
                    fuel as nat,
                    upper_bound,
                ) == Ok::<(Seq<VariableViewModel>, usize), ()>((variable_views(elements@), size)),
                Err(_) => spec_array_elements_of(
                    self.types(),
                    option_address_value(*address),
                    element_type_ref.0.0,
                    fuel as nat,
                    upper_bound,
                ) is Err,
            },
        decreases fuel, 1nat,
    {
        let ghost a = option_address_value(*address);
        let ghost t = element_type_ref.0.0;
        let mut elements: Vec<GlobalVariableView> = Vec::new();
        let mut size: usize = 0;
        proof {
            lemma_variable_views(elements@);
            assert(variable_views(elements@) =~= Seq::<VariableViewModel>::empty());
        }
        match upper_bound {
            None => {
                match self.variable_view_from_type_ref(
                    decimal_string(0),
                    *address,
                    None,
                    None,
                    &element_type_ref,
                    fuel,
                ) {
                    Ok(Some(element_view)) => {
                        size = element_view.size;
                        elements.push(element_view);
                        proof {
                            lemma_variable_views_push(Seq::empty(), element_view);
                            assert(Seq::<GlobalVariableView>::empty().push(element_view) =~= elements@);
                            assert(seq![element_view@] =~= Seq::<VariableViewModel>::empty().push(
                                element_view@,
                            ));
                        }
                    },
                    Ok(None) => {},
                    Err(e) => return Err(e),
                }
                Ok((elements, size))
            },
            Some(ub) => {
                let mut n: usize = 0;
                loop
                    invariant_except_break
                        n <= ub,
                        spec_array_elements(self.types(), a, t, fuel as nat, n as nat) == Ok::<
                            (Seq<VariableViewModel>, usize),
                            (),
                        >((variable_views(elements@), size)),
                    invariant
                        upper_bound == Some(ub),
                        a == option_address_value(*address),
                        t == element_type_ref.0.0,
                    ensures
                        spec_array_elements(self.types(), a, t, fuel as nat, (ub + 1) as nat) == Ok::<
                            (Seq<VariableViewModel>, usize),
                            (),
                        >((variable_views(elements@), size)),
                    decreases ub - n,
                {
                    let element_address = match address {
                        None => None,
                        Some(addr) => match addr.0.0.checked_add(size) {
                            Some(v) => Some(Address::new(Location::new(v))),
                            None => {
                                proof {
                                    assert(spec_array_elements(self.types(), a, t, fuel as nat, n as nat) == Ok::<
                                        (Seq<VariableViewModel>, usize),
                                        (),
                                    >((variable_views(elements@), size)));
                                    assert(spec_array_elements(self.types(), a, t, fuel as nat, (n + 1) as nat) is Err);
                                    lemma_array_elements_overflow(
                                        self.types(),
                                        a,
                                        t,
                                        fuel as nat,
                                        (n + 1) as nat,
                                        (ub + 1) as nat,
                                    );
                                    assert(spec_array_elements_of(
                                        self.types(),
                                        option_address_value(*address),
                                        element_type_ref.0.0,
                                        fuel as nat,
                                        Some(ub),
                                    ) is Err);
                                }
                                return Err(AddressOverflow);
                            },
                        },
                    };
                    let ghost before = elements@;
                    match self.variable_view_from_type_ref(
                        decimal_string(n),
                        element_address,
                        None,
                        None,
                        &element_type_ref,
                        fuel,
                    ) {
                        Ok(Some(element_view)) => {
                            match size.checked_add(element_view.size) {
                                Some(s) => {
                                    size = s;
                                },
                                None => {
                                    proof {
                                        assert(spec_array_elements(self.types(), a, t, fuel as nat, (n + 1) as nat) is Err);
                                        lemma_array_elements_overflow(
                                            self.types(),
                                            a,
                                            t,
                                            fuel as nat,
                                            (n + 1) as nat,
                                            (ub + 1) as nat,
                                        );
                                    }
                                    return Err(AddressOverflow);
                                },
                            }
                            elements.push(element_view);
                            proof {
                                lemma_variable_views_push(before, element_view);
                            }
                        },
                        Ok(None) => {},
                        Err(e) => {
                            proof {
                                lemma_array_elements_overflow(
                                    self.types(),
                                    a,
                                    t,
                                    fuel as nat,
                                    (n + 1) as nat,
                                    (ub + 1) as nat,
                                );
                            }
                            return Err(e);
                        },
                    }
                    if n == ub {
                        break ;
                    }
                    n = n + 1;
                }
                Ok((elements, size))
            },
        }
    }

    pub(crate) fn type_view_from_type_entry(&self, type_entry_id: &TypeEntryId, fuel: usize) -> (res: Option<TypeView>)
        ensures
            option_type_view(res) == spec_type_view(self.types(), type_entry_id.0.0, fuel as nat),
        decreases fuel,
    {
        if fuel == 0 {
            return None;
        }
        let type_entry = match self.type_entry_repository.find_by_id(type_entry_id) {
            None => return None,
            Some(type_entry) => type_entry,
        };
        proof {
            assert(self.types()[type_entry_id.0.0] == type_entry@);
        }
        match &type_entry.kind {
            TypeEntryKind::TypeDef { name, type_ref } => {
                let type_view = match self.type_view_from_type_entry(type_ref, fuel - 1) {
                    Some(v) => v,
                    None => return None,
                };
                Some(TypeView::new_typedef_type_view(name.clone(), type_view))
            },
            TypeEntryKind::VolatileType { type_ref } => {
                let type_view = match self.type_view_from_type_entry(type_ref, fuel - 1) {
                    Some(v) => v,
                    None => return None,
                };
                Some(TypeView::new_volatile_type_view(type_view))
            },
            TypeEntryKind::ConstType { type_ref } => {
                let type_view = match self.type_view_from_type_entry(type_ref, fuel - 1) {
                    Some(v) => v,
                    None => return None,
                };
                Some(TypeView::new_const_type_view(type_view))
            },
            TypeEntryKind::PointerType { type_ref, .. } => match type_ref {
                None => Some(TypeView::new_void_pointer_type_view()),
                Some(type_ref) => {
                    let type_view = match self.type_view_from_type_entry(type_ref, fuel - 1) {
                        Some(v) => v,
                        None => return None,
                    };
                    Some(TypeView::new_pointer_type_view(type_view))
                },
            },
            TypeEntryKind::BaseType { name, .. } => Some(TypeView::new_base_type_view(name.clone())),
            TypeEntryKind::EnumType { name, type_ref, enumerators } => {
                let type_view = match self.type_view_from_type_entry(type_ref, fuel - 1) {
                    Some(v) => v,
                    None => return None,
                };
                let mut shown: Vec<Enumerator> = Vec::new();
                let mut i: usize = 0;
                while i < enumerators.len()
                    invariant
                        i <= enumerators@.len(),
                        shown@.len() == i,
                        forall|k: int| 0 <= k < i ==> #[trigger] shown@[k]@ == enumerators@[k]@,
                    decreases enumerators@.len() - i,
                {
                    shown.push(Enumerator::from(&enumerators[i]));
                    i = i + 1;
                }
                proof {
                    assert(enumerators_view(shown@) =~= enumerators@.map_values(|e: EnumeratorEntry| e@));
                }
                Some(TypeView::new_enum_type_view(clone_option_string(name), type_view, shown))
            },
            TypeEntryKind::StructureType { name, .. } => Some(
                TypeView::new_structure_type_view(clone_option_string(name)),
            ),
            TypeEntryKind::UnionType { name, .. } => Some(TypeView::new_union_type_view(clone_option_string(name))),
            TypeEntryKind::ArrayType { element_type_ref, upper_bound } => {
                let type_view = match self.type_view_from_type_entry(element_type_ref, fuel - 1) {
                    Some(v) => v,
                    None => return None,
                };
                Some(TypeView::new_array_type_view(type_view, *upper_bound))
            },
            TypeEntryKind::FunctionType { .. } => Some(TypeView::new_function_type_view()),
        }
    }
}

/// The elements of an array at `address` and the size they take: only the
/// element `0` when there is no upper bound, the elements `0` to the upper
/// bound when there is one.
pub open spec fn spec_array_elements_of(
    types: Map<usize, TypeEntryModel>,
    address: Option<usize>,
    element_type_ref: usize,
    fuel: nat,
    upper_bound: Option<usize>,
) -> Result<(Seq<VariableViewModel>, usize), ()> {
    match upper_bound {
        None => match spec_variable_view(types, decimal(0), address, None, None, element_type_ref, fuel) {
            Ok(Some(v)) => Ok((seq![v], v.size)),
            Ok(None) => Ok((Seq::empty(), 0usize)),
            Err(e) => Err(e),
        },
        Some(u) => spec_array_elements(types, address, element_type_ref, fuel, (u + 1) as nat),
    }
}

} // verus!
