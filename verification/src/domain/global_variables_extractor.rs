use vstd::prelude::*;

use super::entry_factory::{
    EntryFactory, FromDwarfInfoOutput, FromDwarfInfoOutputModel, output_result_view,
    spec_from_dwarf_info, strings_view,
};
use crate::library::text::{hex, prefixed_hex_digits};
use super::global_variable::{GlobalVariable, GlobalVariableModel};
use super::type_entry::TypeEntryModel;
use super::entity_repository::{keeps_last_saves, law_last_save_wins, saved_all};
use super::type_entry_repository::{TypeEntryRepository, type_entries_view};
use super::variable_declaration_entry::VariableDeclarationModel;
use super::variable_declaration_repository::{VariableDeclarationRepository, declarations_view};
use crate::library::dwarf::{DwarfInfo, DwarfInfoModel, dwarf_info_views, lemma_dwarf_info_views};

verus! {

/// Reads debugging information entries one after the other: keeps the type
/// entries and the variable declarations in their repositories, and
/// collects the global variables.
pub struct GlobalVariablesExtractor<'type_repo, 'dec_repo> {
    pub type_entry_repository: &'type_repo mut TypeEntryRepository,
    pub variable_declaration_repository: &'dec_repo mut VariableDeclarationRepository,
}

/// What reading the entries `infos` in order does, from the type entries
/// `types` and the declarations `decs`: the global variables collected,
/// and the type entries and declarations kept, each under its offset, a
/// later one in the place of an earlier one with the same offset. An entry
/// that makes nothing, or cannot make what it should, counts for nothing.
pub open spec fn spec_extract(
    infos: Seq<DwarfInfoModel>,
    types: Map<usize, TypeEntryModel>,
    decs: Map<usize, VariableDeclarationModel>,
) -> (Seq<GlobalVariableModel>, Map<usize, TypeEntryModel>, Map<usize, VariableDeclarationModel>)
    decreases infos.len(),
{
    if infos.len() == 0 {
        (Seq::empty(), types, decs)
    } else {
        let (vs, ts, ds) = spec_extract(infos.drop_last(), types, decs);
        match spec_from_dwarf_info(infos.last()) {
            Ok(FromDwarfInfoOutputModel::GlobalVariable(v)) => (vs.push(v), ts, ds),
            Ok(FromDwarfInfoOutputModel::TypeEntry { entry, .. }) => (vs, ts.insert(entry.id, entry), ds),
            Ok(FromDwarfInfoOutputModel::VariableDeclarationEntry(d)) => (vs, ts, ds.insert(d.id, d)),
            _ => (vs, ts, ds),
        }
    }
}

/// Reading entries in two parts, the second from what the first left in the
/// repositories, gives what reading them all at once gives: the global
/// variables of both parts in order, and the same repositories.
pub proof fn law_extract_in_two_parts(
    first: Seq<DwarfInfoModel>,
    second: Seq<DwarfInfoModel>,
    types: Map<usize, TypeEntryModel>,
    decs: Map<usize, VariableDeclarationModel>,
)
    ensures
        ({
            let (v1, t1, d1) = spec_extract(first, types, decs);
            let (v2, t2, d2) = spec_extract(second, t1, d1);
            spec_extract(first + second, types, decs) == (v1 + v2, t2, d2)
        }),
    decreases second.len(),
{
    let (v1, t1, d1) = spec_extract(first, types, decs);
    if second.len() == 0 {
        assert(first + second =~= first);
        assert(v1 + Seq::<GlobalVariableModel>::empty() =~= v1);
    } else {
        let rest = second.drop_last();
        law_extract_in_two_parts(first, rest, types, decs);
        assert((first + second).drop_last() =~= first + rest);
        assert((first + second).last() == second.last());
        let (v2, t2, d2) = spec_extract(rest, t1, d1);
        match spec_from_dwarf_info(second.last()) {
            Ok(FromDwarfInfoOutputModel::GlobalVariable(v)) => {
                assert((v1 + v2).push(v) =~= v1 + v2.push(v));
            },
            _ => {},
        }
    }
}

/// The global variable that an entry makes, if it makes one.
pub open spec fn variable_of(info: DwarfInfoModel) -> Option<GlobalVariableModel> {
    match spec_from_dwarf_info(info) {
        Ok(FromDwarfInfoOutputModel::GlobalVariable(v)) => Some(v),
        _ => None,
    }
}

/// The type entry that an entry makes, under its offset, if it makes one.
pub open spec fn type_save(info: DwarfInfoModel) -> Option<(usize, TypeEntryModel)> {
    match spec_from_dwarf_info(info) {
        Ok(FromDwarfInfoOutputModel::TypeEntry { entry, .. }) => Some((entry.id, entry)),
        _ => None,
    }
}

/// The variable declaration that an entry makes, under its offset, if it
/// makes one.
pub open spec fn declaration_save(info: DwarfInfoModel) -> Option<(usize, VariableDeclarationModel)> {
    match spec_from_dwarf_info(info) {
        Ok(FromDwarfInfoOutputModel::VariableDeclarationEntry(d)) => Some((d.id, d)),
        _ => None,
    }
}

/// Reading entries gives exactly the global variables that they make, in
/// order; each repository ends with the last entry made under each offset,
/// or with what it held there when no entry was made under it. Entries that
/// make nothing, or cannot make what they should, count for nothing.
pub proof fn law_extract_keeps_last_entries(
    infos: Seq<DwarfInfoModel>,
    types: Map<usize, TypeEntryModel>,
    decs: Map<usize, VariableDeclarationModel>,
)
    ensures
        ({
            let (vs, ts, ds) = spec_extract(infos, types, decs);
            let type_saves = infos.map_values(|i: DwarfInfoModel| type_save(i));
            let declaration_saves = infos.map_values(|i: DwarfInfoModel| declaration_save(i));
            &&& vs == infos.filter_map(|i: DwarfInfoModel| variable_of(i))
            &&& ts == saved_all(types, type_saves)
            &&& ds == saved_all(decs, declaration_saves)
            &&& keeps_last_saves(types, type_saves, ts)
            &&& keeps_last_saves(decs, declaration_saves, ds)
        }),
    decreases infos.len(),
{
    let type_saves = infos.map_values(|i: DwarfInfoModel| type_save(i));
    let declaration_saves = infos.map_values(|i: DwarfInfoModel| declaration_save(i));
    if infos.len() > 0 {
        let rest = infos.drop_last();
        law_extract_keeps_last_entries(rest, types, decs);
        assert(type_saves.drop_last() =~= rest.map_values(|i: DwarfInfoModel| type_save(i)));
        assert(declaration_saves.drop_last() =~= rest.map_values(|i: DwarfInfoModel| declaration_save(i)));
        let (vs, ts, ds) = spec_extract(rest, types, decs);
        match spec_from_dwarf_info(infos.last()) {
            Ok(FromDwarfInfoOutputModel::GlobalVariable(v)) => {
                assert(vs.push(v) =~= vs + seq![v]);
            },
            _ => {},
        }
    }
    law_last_save_wins(types, type_saves);
    law_last_save_wins(decs, declaration_saves);
}

/// The warning about a nested entry of the entry at `offset` that was
/// passed over: `Skip this entry: {message}: offset = {offset:#x}`.
pub open spec fn skip_warning(message: Seq<char>, offset: usize) -> Seq<char> {
    "Skip this entry: "@ + message + ": offset = "@ + "0x"@ + hex(offset as nat)
}

/// The warnings that reading the entries `infos` in order gives: one for
/// each nested entry that a type entry passed over, in order.
pub open spec fn spec_extract_warnings(infos: Seq<DwarfInfoModel>) -> Seq<Seq<char>>
    decreases infos.len(),
{
    if infos.len() == 0 {
        Seq::empty()
    } else {
        let last = infos.last();
        spec_extract_warnings(infos.drop_last()) + match spec_from_dwarf_info(last) {
            Ok(FromDwarfInfoOutputModel::TypeEntry { children_warnings, .. }) => children_warnings.map_values(
                |w: Seq<char>| skip_warning(w, last.offset),
            ),
            _ => Seq::empty(),
        }
    }
}

pub open spec fn global_variables_view(s: Seq<GlobalVariable>) -> Seq<GlobalVariableModel> {
    s.map_values(|v: GlobalVariable| v@)
}

impl<'type_repo, 'dec_repo> GlobalVariablesExtractor<'type_repo, 'dec_repo> {
    pub fn new(
        type_entry_repository: &'type_repo mut TypeEntryRepository,
        variable_declaration_repository: &'dec_repo mut VariableDeclarationRepository,
    ) -> (res: Self)
        ensures
            *res.type_entry_repository == *old(type_entry_repository),
            *res.variable_declaration_repository == *old(variable_declaration_repository),
            *final(type_entry_repository) == *final(res.type_entry_repository),
            *final(variable_declaration_repository) == *final(res.variable_declaration_repository),
    {
        Self { type_entry_repository, variable_declaration_repository }
    }

    /// Reads the entries in order (see `spec_extract`) and returns the
    /// global variables they hold.
    pub fn extract(&mut self, infos: Vec<DwarfInfo>) -> (res: Vec<GlobalVariable>)
        ensures
            ({
                let (vs, ts, ds) = spec_extract(
                    dwarf_info_views(infos@),
                    type_entries_view((*old(self).type_entry_repository)@),
                    declarations_view((*old(self).variable_declaration_repository)@),
                );
                &&& global_variables_view(res@) == vs
                &&& type_entries_view((*final(self).type_entry_repository)@) == ts
                &&& declarations_view((*final(self).variable_declaration_repository)@) == ds
            }),
            *final(final(self).type_entry_repository) == *final(old(self).type_entry_repository),
            *final(final(self).variable_declaration_repository) == *final(old(self).variable_declaration_repository),
    {
        let (global_variables, _) = self.extract_with_warnings(infos);
        global_variables
    }

    /// Reads the entries in order (see `spec_extract`) and returns the
    /// global variables they hold, with a warning for each nested entry
    /// passed over (see `spec_extract_warnings`).
    pub fn extract_with_warnings(&mut self, infos: Vec<DwarfInfo>) -> (res: (Vec<GlobalVariable>, Vec<String>))
        ensures
            ({
                let (vs, ts, ds) = spec_extract(
                    dwarf_info_views(infos@),
                    type_entries_view((*old(self).type_entry_repository)@),
                    declarations_view((*old(self).variable_declaration_repository)@),
                );
                &&& global_variables_view(res.0@) == vs
                &&& strings_view(res.1@) == spec_extract_warnings(dwarf_info_views(infos@))
                &&& type_entries_view((*final(self).type_entry_repository)@) == ts
                &&& declarations_view((*final(self).variable_declaration_repository)@) == ds
            }),
            *final(final(self).type_entry_repository) == *final(old(self).type_entry_repository),
            *final(final(self).variable_declaration_repository) == *final(old(self).variable_declaration_repository),
    {
        let ghost types0 = type_entries_view((*self.type_entry_repository)@);
        let ghost decs0 = declarations_view((*self.variable_declaration_repository)@);
        let ghost ms = dwarf_info_views(infos@);
        proof {
            lemma_dwarf_info_views(infos@);
            assert(ms.take(0) =~= Seq::<DwarfInfoModel>::empty());
        }
        let mut global_variables: Vec<GlobalVariable> = Vec::new();
        let mut warnings: Vec<String> = Vec::new();
        let mut i: usize = 0;
        proof {
            assert(global_variables_view(global_variables@) =~= Seq::<GlobalVariableModel>::empty());
        }
        while i < infos.len()
            invariant
                i <= infos@.len(),
                *final(self.type_entry_repository) == *final(old(self).type_entry_repository),
                *final(self.variable_declaration_repository) == *final(old(self).variable_declaration_repository),
                ms == dwarf_info_views(infos@),
                ms.len() == infos@.len(),
                strings_view(warnings@) == spec_extract_warnings(ms.take(i as int)),
                forall|j: int| 0 <= j < infos@.len() ==> #[trigger] ms[j] == infos@[j]@,
                ({
                    let (vs, ts, ds) = spec_extract(ms.take(i as int), types0, decs0);
                    &&& global_variables_view(global_variables@) == vs
                    &&& type_entries_view((*self.type_entry_repository)@) == ts
                    &&& declarations_view((*self.variable_declaration_repository)@) == ds
                }),
            decreases infos@.len() - i,
        {
            let info = &infos[i];
            proof {
                assert(ms.take(i + 1).drop_last() =~= ms.take(i as int));
                assert(ms.take(i + 1).last() == info@);
            }
            let ghost vs0 = global_variables@;
            let ghost ws0 = strings_view(warnings@);
            let ghost t0 = (*self.type_entry_repository)@;
            let ghost d0 = (*self.variable_declaration_repository)@;
            let output = EntryFactory::from_dwarf_info(info);
            match output {
                Ok(FromDwarfInfoOutput::GlobalVariable(global_variable)) => {
                    global_variables.push(global_variable);
                    proof {
                        assert(global_variables_view(global_variables@) =~= global_variables_view(vs0).push(
                            global_variables@.last()@,
                        ));
                    }
                },
                Ok(FromDwarfInfoOutput::TypeEntry { entry, children_warnings }) => {
                    let offset = info.offset().value();
                    let mut j: usize = 0;
                    while j < children_warnings.len()
                        invariant
                            j <= children_warnings@.len(),
                            strings_view(warnings@) == ws0 + strings_view(children_warnings@).take(
                                j as int,
                            ).map_values(|w: Seq<char>| skip_warning(w, offset)),
                        decreases children_warnings@.len() - j,
                    {
                        let mut w = "Skip this entry: ".to_owned();
                        w.append(children_warnings[j].as_str());
                        w.append(": offset = ");
                        w.append(prefixed_hex_digits(offset).as_str());
                        let ghost before = warnings@;
                        warnings.push(w);
                        proof {
                            let ws = strings_view(children_warnings@);
                            assert(w@ =~= skip_warning(children_warnings@[j as int]@, offset));
                            assert(strings_view(warnings@) =~= strings_view(before).push(w@));
                            assert(ws.take(j + 1).map_values(|m: Seq<char>| skip_warning(m, offset)) =~= ws.take(
                                j as int,
                            ).map_values(|m: Seq<char>| skip_warning(m, offset)).push(
                                skip_warning(children_warnings@[j as int]@, offset),
                            ));
                        }
                        j = j + 1;
                    }
                    proof {
                        assert(strings_view(children_warnings@).take(children_warnings@.len() as int)
                            =~= strings_view(children_warnings@));
                    }
                    let ghost e = entry;
                    self.type_entry_repository.save(entry);
                    proof {
                        assert(type_entries_view((*self.type_entry_repository)@) =~= type_entries_view(t0).insert(
                            e.id.0.0,
                            e@,
                        ));
                    }
                },
                Ok(FromDwarfInfoOutput::VariableDeclarationEntry(entry)) => {
                    let ghost e = entry;
                    self.variable_declaration_repository.save(entry);
                    proof {
                        assert(declarations_view((*self.variable_declaration_repository)@) =~= declarations_view(d0).insert(
                            e.id.0.0,
                            e@,
                        ));
                    }
                },
                _ => {},
            }
            i = i + 1;
        }
        proof {
            assert(ms.take(infos@.len() as int) =~= ms);
        }
        (global_variables, warnings)
    }
}

} // verus!
