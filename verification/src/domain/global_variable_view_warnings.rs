use vstd::prelude::*;

use super::entry_factory::strings_view;
use super::global_variable::{GlobalVariable, GlobalVariableModel};
use super::global_variable_view_factory::{GlobalVariableViewFactory, depth_limit_value, spec_type_view};
use super::type_entry::{
    StructureMemberModel, StructureTypeMemberEntry, TypeEntryId, TypeEntryKind, TypeEntryModel,
    TypeKindModel, UnionMemberModel, UnionTypeMemberEntry,
};
use super::variable_declaration_entry::VariableDeclarationModel;
use crate::library::text::{decimal, decimal_string, hex, prefixed_hex_digits};

verus! {

/// The warning about a variable (or part) that refers to a type entry that
/// is not there.
pub open spec fn unknown_type_warning(name: Seq<char>, t: usize) -> Seq<char> {
    "global variable refers unknown offset: variable: "@ + name + ", refered offset "@ + "0x"@ + hex(
        t as nat,
    )
}

/// The warning about a variable (or part) whose type is a function's.
pub open spec fn function_type_warning(name: Seq<char>, t: usize) -> Seq<char> {
    "global variable should not refer subroutine_type: variable: "@ + name + ", refered offset "@ + "0x"@
        + hex(t as nat)
}

/// The warning about a global variable whose declaration is not there.
pub open spec fn unknown_specification_warning(spec: usize) -> Seq<char> {
    "global variable refers unknown specification: refered specification offset: "@ + "0x"@ + hex(
        spec as nat,
    )
}

/// The warning about a shown type that refers to a type entry that is not
/// there.
pub open spec fn unknown_referred_type_warning(t: usize) -> Seq<char> {
    "something refers unknown offset: refered offset: "@ + "0x"@ + hex(t as nat)
}

/// The warnings that showing the type entry `t` gives, following at most
/// `fuel` entries (as `spec_type_view` does): one when an entry in the
/// chain is missing.
pub open spec fn spec_type_warnings(types: Map<usize, TypeEntryModel>, t: usize, fuel: nat) -> Seq<Seq<char>>
    decreases fuel,
{
    if fuel == 0 {
        Seq::empty()
    } else if !types.contains_key(t) {
        seq![unknown_referred_type_warning(t)]
    } else {
        let f = (fuel - 1) as nat;
        match types[t].kind {
            TypeKindModel::TypeDef { type_ref, .. } => spec_type_warnings(types, type_ref, f),
            TypeKindModel::VolatileType { type_ref } => spec_type_warnings(types, type_ref, f),
            TypeKindModel::ConstType { type_ref } => spec_type_warnings(types, type_ref, f),
            TypeKindModel::PointerType { type_ref, .. } => match type_ref {
                Some(r) => spec_type_warnings(types, r, f),
                None => Seq::empty(),
            },
            TypeKindModel::EnumType { type_ref, .. } => spec_type_warnings(types, type_ref, f),
            TypeKindModel::ArrayType { element_type_ref, .. } => spec_type_warnings(types, element_type_ref, f),
            _ => Seq::empty(),
        }
    }
}

/// The warnings that making the view of a variable (or part) named `name`
/// of the type entry `t` gives, in the order of the view's parts, following
/// at most `fuel` entries (as `spec_variable_view` does).
pub open spec fn spec_view_warnings(types: Map<usize, TypeEntryModel>, name: Seq<char>, t: usize, fuel: nat) -> Seq<
    Seq<char>,
>
    decreases fuel, 0nat,
{
    if fuel == 0 {
        Seq::empty()
    } else if !types.contains_key(t) {
        seq![unknown_type_warning(name, t)]
    } else {
        let f = (fuel - 1) as nat;
        match types[t].kind {
            TypeKindModel::TypeDef { type_ref, .. } => spec_view_warnings(types, name, type_ref, f),
            TypeKindModel::VolatileType { type_ref } => spec_view_warnings(types, name, type_ref, f),
            TypeKindModel::ConstType { type_ref } => spec_view_warnings(types, name, type_ref, f),
            TypeKindModel::EnumType { type_ref, .. } => spec_view_warnings(types, name, type_ref, f),
            TypeKindModel::PointerType { type_ref, .. } => match type_ref {
                Some(r) => spec_type_warnings(types, r, f),
                None => Seq::empty(),
            },
            TypeKindModel::BaseType { .. } => Seq::empty(),
            TypeKindModel::StructureType { members, .. } => spec_structure_members_warnings(
                types,
                members,
                f,
            ),
            TypeKindModel::UnionType { members, .. } => spec_union_members_warnings(types, members, f),
            TypeKindModel::ArrayType { element_type_ref, upper_bound } => {
                let type_warnings = spec_type_warnings(types, element_type_ref, f);
                if spec_type_view(types, element_type_ref, f) is None {
                    type_warnings
                } else {
                    type_warnings + match upper_bound {
                        None => spec_view_warnings(types, decimal(0), element_type_ref, f),
                        Some(u) => spec_elements_warnings(types, element_type_ref, f, (u + 1) as nat),
                    }
                }
            },
            TypeKindModel::FunctionType { .. } => seq![function_type_warning(name, t)],
        }
    }
}

/// The warnings of the members of a structure, one member after the other.
pub open spec fn spec_structure_members_warnings(
    types: Map<usize, TypeEntryModel>,
    members: Seq<StructureMemberModel>,
    fuel: nat,
) -> Seq<Seq<char>>
    decreases fuel, members.len(),
{
    if members.len() == 0 {
        Seq::empty()
    } else {
        spec_structure_members_warnings(types, members.drop_last(), fuel) + spec_view_warnings(
            types,
            members.last().name,
            members.last().type_ref,
            fuel,
        )
    }
}

/// The warnings of the members of a union, one member after the other.
pub open spec fn spec_union_members_warnings(
    types: Map<usize, TypeEntryModel>,
    members: Seq<UnionMemberModel>,
    fuel: nat,
) -> Seq<Seq<char>>
    decreases fuel, members.len(),
{
    if members.len() == 0 {
        Seq::empty()
    } else {
        spec_union_members_warnings(types, members.drop_last(), fuel) + spec_view_warnings(
            types,
            members.last().name,
            members.last().type_ref,
            fuel,
        )
    }
}

/// The warnings of the first `k` elements of an array, element `n` named
/// `n`.
pub open spec fn spec_elements_warnings(
    types: Map<usize, TypeEntryModel>,
    element_type_ref: usize,
    fuel: nat,
    k: nat,
) -> Seq<Seq<char>>
    decreases fuel, k,
{
    if k == 0 {
        Seq::empty()
    } else {
        spec_elements_warnings(types, element_type_ref, fuel, (k - 1) as nat) + spec_view_warnings(
            types,
            decimal((k - 1) as nat),
            element_type_ref,
            fuel,
        )
    }
}

/// The warnings that making the view of a global variable gives: its
/// declaration missing, or those of its type.
pub open spec fn spec_variable_warnings(
    types: Map<usize, TypeEntryModel>,
    decs: Map<usize, VariableDeclarationModel>,
    variable: GlobalVariableModel,
    fuel: nat,
) -> Seq<Seq<char>> {
    match variable {
        GlobalVariableModel::NoSpec { name, type_ref, .. } => spec_view_warnings(types, name, type_ref, fuel),
        GlobalVariableModel::HasSpec { spec, .. } => if decs.contains_key(spec) {
            spec_view_warnings(types, decs[spec].name, decs[spec].type_ref, fuel)
        } else {
            seq![unknown_specification_warning(spec)]
        },
    }
}

/// Appends a warning built from `prefix`, `name`, `middle` and the offset
/// `t` after `0x`.
fn push_warning(out: &mut Vec<String>, prefix: &str, name: &str, middle: &str, t: usize)
    ensures
        strings_view(final(out)@) == strings_view(old(out)@).push(
            prefix@ + name@ + middle@ + "0x"@ + hex(t as nat),
        ),
{
    let mut w = prefix.to_owned();
    w.append(name);
    w.append(middle);
    w.append(prefixed_hex_digits(t).as_str());
    let ghost before = out@;
    out.push(w);
    proof {
        assert(strings_view(out@) =~= strings_view(before).push(w@));
        assert(w@ =~= prefix@ + name@ + middle@ + "0x"@ + hex(t as nat));
    }
}

impl<'type_repo, 'dec_repo> GlobalVariableViewFactory<'type_repo, 'dec_repo> {
    /// The warnings that making the view of a global variable gives (see
    /// `spec_variable_warnings`): a missing declaration or type entry, a
    /// variable of a function's type.
    pub fn warnings_of(&self, global_variable: &GlobalVariable) -> (res: Vec<String>)
        ensures
            strings_view(res@) == spec_variable_warnings(
                self.types(),
                self.declarations(),
                global_variable@,
                self.depth_limit(),
            ),
    {
        let fuel = depth_limit_value(self.type_entry_repository.len());
        let mut out: Vec<String> = Vec::new();
        proof {
            assert(strings_view(out@) =~= Seq::<Seq<char>>::empty());
        }
        match global_variable {
            GlobalVariable::NoSpec { name, type_ref, .. } => {
                self.view_warnings(name, type_ref, fuel, &mut out);
                proof {
                    assert(strings_view(out@) =~= Seq::<Seq<char>>::empty() + spec_view_warnings(
                        self.types(),
                        name@,
                        type_ref.0.0,
                        fuel as nat,
                    ));
                }
            },
            GlobalVariable::HasSpec { spec, .. } => {
                match self.variable_declaration_repository.find_by_id(spec) {
                    None => {
                        push_warning(
                            &mut out,
                            "global variable refers unknown specification: refered specification offset: ",
                            "",
                            "",
                            spec.0.0,
                        );
                        proof {
                            reveal_strlit("");
                            assert(strings_view(out@) =~= seq![unknown_specification_warning(spec.0.0)]);
                        }
                    },
                    Some(dec) => {
                        proof {
                            assert(self.declarations()[spec.0.0] == dec@);
                        }
                        self.view_warnings(&dec.name, &dec.type_ref, fuel, &mut out);
                        proof {
                            assert(strings_view(out@) =~= Seq::<Seq<char>>::empty() + spec_view_warnings(
                                self.types(),
                                dec.name@,
                                dec.type_ref.0.0,
                                fuel as nat,
                            ));
                        }
                    },
                }
            },
        }
        out
    }

    /// Appends the warnings of showing the type entry `t` (see
    /// `spec_type_warnings`).
    fn type_warnings(&self, t: &TypeEntryId, fuel: usize, out: &mut Vec<String>)
        ensures
            strings_view(final(out)@) == strings_view(old(out)@) + spec_type_warnings(
                self.types(),
                t.0.0,
                fuel as nat,
            ),
        decreases fuel,
    {
        if fuel == 0 {
            proof {
                assert(strings_view(out@) =~= strings_view(out@) + Seq::<Seq<char>>::empty());
            }
            return;
        }
        match self.type_entry_repository.find_by_id(t) {
            None => {
                push_warning(out, "something refers unknown offset: refered offset: ", "", "", t.0.0);
                proof {
                    reveal_strlit("");
                }
            },
            Some(entry) => {
                proof {
                    assert(self.types()[t.0.0] == entry@);
                }
                match &entry.kind {
                    TypeEntryKind::TypeDef { type_ref, .. } => self.type_warnings(type_ref, fuel - 1, out),
                    TypeEntryKind::VolatileType { type_ref } => self.type_warnings(type_ref, fuel - 1, out),
                    TypeEntryKind::ConstType { type_ref } => self.type_warnings(type_ref, fuel - 1, out),
                    TypeEntryKind::PointerType { type_ref, .. } => match type_ref {
                        Some(r) => self.type_warnings(r, fuel - 1, out),
                        None => {
                            proof {
                                assert(strings_view(out@) =~= strings_view(out@) + Seq::<Seq<char>>::empty());
                            }
                        },
                    },
                    TypeEntryKind::EnumType { type_ref, .. } => self.type_warnings(type_ref, fuel - 1, out),
                    TypeEntryKind::ArrayType { element_type_ref, .. } => self.type_warnings(
                        element_type_ref,
                        fuel - 1,
                        out,
                    ),
                    _ => {
                        proof {
                            assert(strings_view(out@) =~= strings_view(out@) + Seq::<Seq<char>>::empty());
                        }
                    },
                }
            },
        }
    }

    /// Appends the warnings of making the view of a variable (or part)
    /// named `name` of the type entry `t` (see `spec_view_warnings`).
    fn view_warnings(&self, name: &String, t: &TypeEntryId, fuel: usize, out: &mut Vec<String>)
        ensures
            strings_view(final(out)@) == strings_view(old(out)@) + spec_view_warnings(
                self.types(),
                name@,
                t.0.0,
                fuel as nat,
            ),
        decreases fuel, 0nat,
    {
        let ghost start = strings_view(out@);
        if fuel == 0 {
            proof {
                assert(strings_view(out@) =~= start + Seq::<Seq<char>>::empty());
            }
            return;
        }
        match self.type_entry_repository.find_by_id(t) {
            None => {
                push_warning(
                    out,
                    "global variable refers unknown offset: variable: ",
                    name.as_str(),
                    ", refered offset ",
                    t.0.0,
                );
            },
            Some(entry) => {
                proof {
                    assert(self.types()[t.0.0] == entry@);
                }
                match &entry.kind {
                    TypeEntryKind::TypeDef { type_ref, .. } => self.view_warnings(name, type_ref, fuel - 1, out),
                    TypeEntryKind::VolatileType { type_ref } => self.view_warnings(name, type_ref, fuel - 1, out),
                    TypeEntryKind::ConstType { type_ref } => self.view_warnings(name, type_ref, fuel - 1, out),
                    TypeEntryKind::EnumType { type_ref, .. } => self.view_warnings(name, type_ref, fuel - 1, out),
                    TypeEntryKind::PointerType { type_ref, .. } => match type_ref {
                        Some(r) => self.type_warnings(r, fuel - 1, out),
                        None => {
                            proof {
                                assert(strings_view(out@) =~= start + Seq::<Seq<char>>::empty());
                            }
                        },
                    },
                    TypeEntryKind::BaseType { .. } => {
                        proof {
                            assert(strings_view(out@) =~= start + Seq::<Seq<char>>::empty());
                        }
                    },
                    TypeEntryKind::StructureType { members, .. } => {
                        self.structure_members_warnings(members, fuel - 1, out);
                    },
                    TypeEntryKind::UnionType { members, .. } => {
                        self.union_members_warnings(members, fuel - 1, out);
                    },
                    TypeEntryKind::ArrayType { element_type_ref, upper_bound } => {
                        self.type_warnings(element_type_ref, fuel - 1, out);
                        let ghost after_type = strings_view(out@);
                        let has_type = self.type_view_from_type_entry_exists(element_type_ref, fuel - 1);
                        if has_type {
                            match upper_bound {
                                None => {
                                    let zero = decimal_string(0);
                                    self.view_warnings(&zero, element_type_ref, fuel - 1, out);
                                },
                                Some(u) => {
                                    self.elements_warnings(element_type_ref, fuel - 1, *u, out);
                                },
                            }
                            proof {
                                assert(strings_view(out@) =~= start + (spec_type_warnings(
                                    self.types(),
                                    element_type_ref.0.0,
                                    (fuel - 1) as nat,
                                ) + (strings_view(out@).skip(after_type.len() as int))));
                            }
                        }
                    },
                    TypeEntryKind::FunctionType { .. } => {
                        push_warning(
                            out,
                            "global variable should not refer subroutine_type: variable: ",
                            name.as_str(),
                            ", refered offset ",
                            t.0.0,
                        );
                    },
                }
            },
        }
    }

    /// Appends the warnings of the members of a structure.
    fn structure_members_warnings(&self, members: &Vec<StructureTypeMemberEntry>, fuel: usize, out: &mut Vec<String>)
        ensures
            strings_view(final(out)@) == strings_view(old(out)@) + spec_structure_members_warnings(
                self.types(),
                members@.map_values(|m: StructureTypeMemberEntry| m@),
                fuel as nat,
            ),
        decreases fuel, 1nat,
    {
        let ghost ms = members@.map_values(|m: StructureTypeMemberEntry| m@);
        let ghost start = strings_view(out@);
        let mut i: usize = 0;
        proof {
            assert(ms.take(0) =~= Seq::<StructureMemberModel>::empty());
            assert(strings_view(out@) =~= start + Seq::<Seq<char>>::empty());
        }
        while i < members.len()
            invariant
                i <= members@.len(),
                ms == members@.map_values(|m: StructureTypeMemberEntry| m@),
                strings_view(out@) == start + spec_structure_members_warnings(self.types(), ms.take(i as int), fuel as nat),
            decreases members@.len() - i,
        {
            let member = &members[i];
            proof {
                assert(ms.take(i + 1).drop_last() =~= ms.take(i as int));
                assert(ms.take(i + 1).last() == member@);
            }
            let ghost before = strings_view(out@);
            self.view_warnings(&member.0.name, &member.0.type_ref, fuel, out);
            proof {
                assert(strings_view(out@) =~= start + spec_structure_members_warnings(
                    self.types(),
                    ms.take(i + 1),
                    fuel as nat,
                ));
            }
            i = i + 1;
        }
        proof {
            assert(ms.take(members@.len() as int) =~= ms);
        }
    }

    /// Appends the warnings of the members of a union.
    fn union_members_warnings(&self, members: &Vec<UnionTypeMemberEntry>, fuel: usize, out: &mut Vec<String>)
        ensures
            strings_view(final(out)@) == strings_view(old(out)@) + spec_union_members_warnings(
                self.types(),
                members@.map_values(|m: UnionTypeMemberEntry| m@),
                fuel as nat,
            ),
        decreases fuel, 1nat,
    {
        let ghost ms = members@.map_values(|m: UnionTypeMemberEntry| m@);
        let ghost start = strings_view(out@);
        let mut i: usize = 0;
        proof {
            assert(ms.take(0) =~= Seq::<UnionMemberModel>::empty());
            assert(strings_view(out@) =~= start + Seq::<Seq<char>>::empty());
        }
        while i < members.len()
            invariant
                i <= members@.len(),
                ms == members@.map_values(|m: UnionTypeMemberEntry| m@),
                strings_view(out@) == start + spec_union_members_warnings(self.types(), ms.take(i as int), fuel as nat),
            decreases members@.len() - i,
        {
            let member = &members[i];
            proof {
                assert(ms.take(i + 1).drop_last() =~= ms.take(i as int));
                assert(ms.take(i + 1).last() == member@);
            }
            self.view_warnings(&member.name, &member.type_ref, fuel, out);
            proof {
                assert(strings_view(out@) =~= start + spec_union_members_warnings(
                    self.types(),
                    ms.take(i + 1),
                    fuel as nat,
                ));
            }
            i = i + 1;
        }
        proof {
            assert(ms.take(members@.len() as int) =~= ms);
        }
    }

    /// Appends the warnings of the elements `0` to `upper_bound` of an
    /// array.
    fn elements_warnings(&self, element_type_ref: &TypeEntryId, fuel: usize, upper_bound: usize, out: &mut Vec<String>)
        ensures
            strings_view(final(out)@) == strings_view(old(out)@) + spec_elements_warnings(
                self.types(),
                element_type_ref.0.0,
                fuel as nat,
                (upper_bound + 1) as nat,
            ),
        decreases fuel, 1nat,
    {
        let ghost start = strings_view(out@);
        let mut n: usize = 0;
        proof {
            assert(strings_view(out@) =~= start + Seq::<Seq<char>>::empty());
        }
        loop
            invariant_except_break
                n <= upper_bound,
                strings_view(out@) == start + spec_elements_warnings(
                    self.types(),
                    element_type_ref.0.0,
                    fuel as nat,
                    n as nat,
                ),
            ensures
                strings_view(out@) == start + spec_elements_warnings(
                    self.types(),
                    element_type_ref.0.0,
                    fuel as nat,
                    (upper_bound + 1) as nat,
                ),
            decreases upper_bound - n,
        {
            let name = decimal_string(n);
            self.view_warnings(&name, element_type_ref, fuel, out);
            proof {
                assert(strings_view(out@) =~= start + spec_elements_warnings(
                    self.types(),
                    element_type_ref.0.0,
                    fuel as nat,
                    (n + 1) as nat,
                ));
            }
            if n == upper_bound {
                break;
            }
            n = n + 1;
        }
    }

    /// Whether the type entry `t` can be shown (see `spec_type_view`).
    fn type_view_from_type_entry_exists(&self, t: &TypeEntryId, fuel: usize) -> (res: bool)
        ensures
            res == (spec_type_view(self.types(), t.0.0, fuel as nat) is Some),
    {
        self.type_view_from_type_entry(t, fuel).is_some()
    }
}

} // verus!
