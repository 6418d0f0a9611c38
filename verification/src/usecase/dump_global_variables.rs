use vstd::prelude::*;

use crate::domain::global_variable::{GlobalVariable, GlobalVariableModel};
use crate::domain::global_variable_view::{
    GlobalVariableView, VariableViewModel, lemma_variable_views_push, variable_views,
};
use crate::domain::global_variable_view_warnings::spec_variable_warnings;
use crate::domain::global_variable_view_factory::{
    AddressOverflow, GlobalVariableViewFactory, depth_limit_for, spec_from_global_variable,
};
use crate::domain::entry_factory::strings_view;
use crate::domain::global_variables_extractor::{
    GlobalVariablesExtractor, global_variables_view, law_extract_in_two_parts, law_extract_keeps_last_entries,
    spec_extract, spec_extract_warnings, variable_of,
};
use crate::domain::type_entry::TypeEntryModel;
use crate::domain::type_entry_repository::{TypeEntryRepository, type_entries_view};
use crate::domain::variable_declaration_entry::VariableDeclarationModel;
use crate::domain::variable_declaration_entry_repository::VariableDeclarationEntryRepository;
use crate::domain::variable_declaration_repository::declarations_view;
use crate::library::dwarf::{
    DwarfInfo, DwarfInfoIntoIterator, DwarfInfoModel, RawEntry, RawEntryModel, dwarf_info_views,
    spec_elf_infos, spec_elf_little_endian, units_infos, units_views,
};

verus! {

/// The views of global variables, in order, leaving out those that have
/// none; an overflow when one of them has a part placed past the largest
/// address.
pub open spec fn spec_views_of(
    types: Map<usize, TypeEntryModel>,
    decs: Map<usize, VariableDeclarationModel>,
    variables: Seq<GlobalVariableModel>,
    fuel: nat,
) -> Result<Seq<VariableViewModel>, ()>
    decreases variables.len(),
{
    if variables.len() == 0 {
        Ok(Seq::empty())
    } else {
        match spec_views_of(types, decs, variables.drop_last(), fuel) {
            Err(e) => Err(e),
            Ok(views) => match spec_from_global_variable(types, decs, variables.last(), fuel) {
                Err(e) => Err(e),
                Ok(None) => Ok(views),
                Ok(Some(v)) => Ok(views.push(v)),
            },
        }
    }
}

/// The warnings that making the views of global variables gives, one
/// variable after the other.
pub open spec fn spec_variables_warnings(
    types: Map<usize, TypeEntryModel>,
    decs: Map<usize, VariableDeclarationModel>,
    variables: Seq<GlobalVariableModel>,
    fuel: nat,
) -> Seq<Seq<char>>
    decreases variables.len(),
{
    if variables.len() == 0 {
        Seq::empty()
    } else {
        spec_variables_warnings(types, decs, variables.drop_last(), fuel) + spec_variable_warnings(
            types,
            decs,
            variables.last(),
            fuel,
        )
    }
}

/// The warnings that dumping the entries `infos` gives: those of reading
/// the entries, then those of making the view of each global variable.
pub open spec fn spec_dump_warnings(
    infos: Seq<DwarfInfoModel>,
    types: Map<usize, TypeEntryModel>,
    decs: Map<usize, VariableDeclarationModel>,
) -> Seq<Seq<char>> {
    let (variables, ts, ds) = spec_extract(infos, types, decs);
    spec_extract_warnings(infos) + spec_variables_warnings(ts, ds, variables, depth_limit_for(ts.len()))
}

/// What dumping the units does from the type entries `types` and the
/// declarations `decs`: the views of the global variables that the units
/// hold (or an overflow), and the type entries and declarations kept
/// afterwards.
pub open spec fn spec_dump(
    units: Seq<Seq<Option<RawEntryModel>>>,
    types: Map<usize, TypeEntryModel>,
    decs: Map<usize, VariableDeclarationModel>,
) -> (Result<Seq<VariableViewModel>, ()>, Map<usize, TypeEntryModel>, Map<usize, VariableDeclarationModel>) {
    spec_dump_infos(units_infos(units), types, decs)
}

/// What dumping the entries `infos` does from the type entries `types` and
/// the declarations `decs`: the views of the global variables that the
/// entries hold (or an overflow), and the type entries and declarations
/// kept afterwards.
pub open spec fn spec_dump_infos(
    infos: Seq<DwarfInfoModel>,
    types: Map<usize, TypeEntryModel>,
    decs: Map<usize, VariableDeclarationModel>,
) -> (Result<Seq<VariableViewModel>, ()>, Map<usize, TypeEntryModel>, Map<usize, VariableDeclarationModel>) {
    let (variables, ts, ds) = spec_extract(infos, types, decs);
    (spec_views_of(ts, ds, variables, depth_limit_for(ts.len())), ts, ds)
}

/// Why an ELF file could not be dumped.
#[derive(Debug, Clone, Copy, PartialEq, Eq, Structural)]
pub enum DumpError {
    /// The file cannot be parsed as an ELF file.
    NotElf,
    /// A part of a global variable lies past the largest address.
    AddressOverflow,
}

/// The view that a global variable has, if it has one (an overflow counts
/// as none).
pub open spec fn view_or_none(
    types: Map<usize, TypeEntryModel>,
    decs: Map<usize, VariableDeclarationModel>,
    fuel: nat,
) -> spec_fn(GlobalVariableModel) -> Option<VariableViewModel> {
    |v: GlobalVariableModel|
        match spec_from_global_variable(types, decs, v, fuel) {
            Ok(Some(view)) => Some(view),
            _ => None,
        }
}

/// What dumping an ELF file does from the type entries `types` and the
/// declarations `decs`: `NotElf` when it cannot be parsed, else the views
/// of its global variables with the warnings (or `AddressOverflow`), and
/// the type entries and declarations kept afterwards.
pub open spec fn spec_dump_elf(
    elf: Seq<u8>,
    types: Map<usize, TypeEntryModel>,
    decs: Map<usize, VariableDeclarationModel>,
) -> (
    Result<(Seq<VariableViewModel>, Seq<Seq<char>>), DumpError>,
    Map<usize, TypeEntryModel>,
    Map<usize, VariableDeclarationModel>,
) {
    match spec_elf_little_endian(elf) {
        None => (Err(DumpError::NotElf), types, decs),
        Some(little_endian) => {
            let infos = spec_elf_infos(elf, little_endian);
            let (views, ts, ds) = spec_dump_infos(infos, types, decs);
            (
                match views {
                    Ok(v) => Ok((v, spec_dump_warnings(infos, types, decs))),
                    Err(_) => Err(DumpError::AddressOverflow),
                },
                ts,
                ds,
            )
        },
    }
}

/// A result of `dump_elf` as values.
pub open spec fn dump_result_view(res: Result<(Vec<GlobalVariableView>, Vec<String>), DumpError>) -> Result<
    (Seq<VariableViewModel>, Seq<Seq<char>>),
    DumpError,
> {
    match res {
        Ok((views, warnings)) => Ok((variable_views(views@), strings_view(warnings@))),
        Err(e) => Err(e),
    }
}

/// Dumps the global variables of a program: reads the entries of its
/// units, keeps the type entries and declarations, and makes a view of
/// each global variable. The entries are kept from one dump to the next.
pub struct DumpGlobalVariablesUsecase {
    pub type_entry_repository: TypeEntryRepository,
    pub variable_declaration_repository: VariableDeclarationEntryRepository,
}

impl DumpGlobalVariablesUsecase {
    /// The type entries kept, as values.
    pub open spec fn types(&self) -> Map<usize, TypeEntryModel> {
        type_entries_view(self.type_entry_repository@)
    }

    /// The variable declarations kept, as values.
    pub open spec fn declarations(&self) -> Map<usize, VariableDeclarationModel> {
        declarations_view(self.variable_declaration_repository@)
    }

    pub fn new() -> (res: Self)
        ensures
            res.types() == Map::<usize, TypeEntryModel>::empty(),
            res.declarations() == Map::<usize, VariableDeclarationModel>::empty(),
    {
        let res = Self {
            type_entry_repository: TypeEntryRepository::new(),
            variable_declaration_repository: VariableDeclarationEntryRepository::new(),
        };
        proof {
            assert(res.types() =~= Map::<usize, TypeEntryModel>::empty());
            assert(res.declarations() =~= Map::<usize, VariableDeclarationModel>::empty());
        }
        res
    }

    /// The views of the global variables that the entries hold (see
    /// `spec_dump_infos`), with a warning for each nested entry passed over,
    /// or `Err` when one of them has a part placed past the largest address.
    #[verifier::rlimit(40)]
    pub fn checked_dump_infos(&mut self, infos: Vec<DwarfInfo>) -> (res: Result<
        (Vec<GlobalVariableView>, Vec<String>),
        AddressOverflow,
    >)
        ensures
            ({
                let (views, ts, ds) = spec_dump_infos(dwarf_info_views(infos@), old(self).types(), old(self).declarations());
                &&& final(self).types() == ts
                &&& final(self).declarations() == ds
                &&& match res {
                    Ok((r, warnings)) => {
                        &&& views == Ok::<Seq<VariableViewModel>, ()>(variable_views(r@))
                        &&& strings_view(warnings@) == spec_dump_warnings(
                            dwarf_info_views(infos@),
                            old(self).types(),
                            old(self).declarations(),
                        )
                    },
                    Err(_) => views is Err,
                }
            }),
    {
        let ghost ms = dwarf_info_views(infos@);
        let ghost dump = spec_dump_infos(ms, old(self).types(), old(self).declarations());
        let ghost extracted = spec_extract(ms, old(self).types(), old(self).declarations());
        let (global_variables, mut warnings) = {
            let mut global_variables_extractor = GlobalVariablesExtractor::new(
                &mut self.type_entry_repository,
                &mut self.variable_declaration_repository,
            );
            global_variables_extractor.extract_with_warnings(infos)
        };
        let global_variable_view_factory = GlobalVariableViewFactory::new(
            &self.type_entry_repository,
            &self.variable_declaration_repository,
        );
        let ghost ts = self.types();
        let ghost ds = self.declarations();
        let ghost variables = global_variables_view(global_variables@);
        let total = global_variables.len();
        proof {
            assert(variables.len() == total);
            assert(variables == extracted.0);
            assert(ts == extracted.1);
            assert(ds == extracted.2);
            assert(ts.dom() =~= self.type_entry_repository@.dom());
            assert(global_variable_view_factory.types() == ts);
            assert(global_variable_view_factory.declarations() == ds);
            assert(variables.take(0) =~= Seq::<GlobalVariableModel>::empty());
            assert(variable_views(Seq::<GlobalVariableView>::empty()) =~= Seq::<VariableViewModel>::empty());
        }
        let mut rest = global_variables;
        let mut views: Vec<GlobalVariableView> = Vec::new();
        let mut i: usize = 0;
        while rest.len() > 0
            invariant
                ms == dwarf_info_views(infos@),
                dump == spec_dump_infos(ms, old(self).types(), old(self).declarations()),
                extracted == spec_extract(ms, old(self).types(), old(self).declarations()),
                strings_view(warnings@) == spec_extract_warnings(ms) + spec_variables_warnings(
                    ts,
                    ds,
                    variables.take(i as int),
                    depth_limit_for(ts.len()),
                ),
                variables == extracted.0,
                ts == extracted.1,
                ds == extracted.2,
                self.types() == ts,
                self.declarations() == ds,
                variables.len() == i + rest@.len(),
                variables.len() <= usize::MAX,
                global_variables_view(rest@) == variables.skip(i as int),
                global_variable_view_factory.types() == ts,
                global_variable_view_factory.declarations() == ds,
                global_variable_view_factory.depth_limit() == depth_limit_for(ts.len()),
                spec_views_of(ts, ds, variables.take(i as int), depth_limit_for(ts.len())) == Ok::<
                    Seq<VariableViewModel>,
                    (),
                >(variable_views(views@)),
            decreases rest@.len(),
        {
            let ghost before = rest@;
            let variable = rest.remove(0);
            proof {
                assert(global_variables_view(before)[0] == variable@);
                assert(variables[i as int] == variable@);
                assert(rest@ =~= before.skip(1));
                assert(global_variables_view(rest@) =~= global_variables_view(before).skip(1));
                assert(global_variables_view(rest@) =~= variables.skip(i + 1));
                assert(variables.take(i + 1).drop_last() =~= variables.take(i as int));
                assert(variables.take(i + 1).last() == variable@);
            }
            let ghost seen = views@;
            let ghost warned = strings_view(warnings@);
            let mut variable_warnings = global_variable_view_factory.warnings_of(&variable);
            let ghost added = variable_warnings@;
            warnings.append(&mut variable_warnings);
            proof {
                assert(strings_view(warnings@) =~= warned + strings_view(added));
                assert(strings_view(warnings@) =~= spec_extract_warnings(ms) + spec_variables_warnings(
                    ts,
                    ds,
                    variables.take(i + 1),
                    depth_limit_for(ts.len()),
                ));
            }
            match global_variable_view_factory.checked_from_global_variable(variable) {
                Ok(Some(view)) => {
                    views.push(view);
                    proof {
                        lemma_variable_views_push(seen, view);
                    }
                },
                Ok(None) => {},
                Err(e) => {
                    proof {
                        lemma_views_of_overflow(ts, ds, variables, depth_limit_for(ts.len()), i + 1, variables.len() as int);
                        assert(variables.take(variables.len() as int) =~= variables);
                    }
                    return Err(e);
                },
            }
            i = i + 1;
        }
        proof {
            assert(variables.take(i as int) =~= variables);
        }
        Ok((views, warnings))
    }

    /// The views of the global variables that the raw entries of the units
    /// hold (see `spec_dump`), or `Err` when one of them has a part placed
    /// past the largest address.
    pub fn checked_dump_global_variables(&mut self, units: &Vec<Vec<Option<RawEntry>>>) -> (res: Result<
        Vec<GlobalVariableView>,
        AddressOverflow,
    >)
        ensures
            ({
                let (views, ts, ds) = spec_dump(units_views(units@), old(self).types(), old(self).declarations());
                &&& final(self).types() == ts
                &&& final(self).declarations() == ds
                &&& match res {
                    Ok(r) => views == Ok::<Seq<VariableViewModel>, ()>(variable_views(r@)),
                    Err(_) => views is Err,
                }
            }),
    {
        let infos = DwarfInfoIntoIterator::infos_of_units(units);
        match self.checked_dump_infos(infos) {
            Ok((views, _)) => Ok(views),
            Err(e) => Err(e),
        }
    }

    /// The views of the global variables of an ELF file (see
    /// `spec_dump_elf`), with a warning for each nested entry passed over;
    /// `Err(NotElf)` when the file cannot be parsed, `Err(AddressOverflow)`
    /// when a part of a variable lies past the largest address.
    pub fn dump_elf(&mut self, elf: &[u8]) -> (res: Result<(Vec<GlobalVariableView>, Vec<String>), DumpError>)
        ensures
            ({
                let (r, ts, ds) = spec_dump_elf(elf@, old(self).types(), old(self).declarations());
                &&& dump_result_view(res) == r
                &&& final(self).types() == ts
                &&& final(self).declarations() == ds
            }),
    {
        match DwarfInfoIntoIterator::infos_of_elf(elf) {
            None => Err(DumpError::NotElf),
            Some(infos) => match self.checked_dump_infos(infos) {
                Ok((views, warnings)) => {
                    proof {
                        assert(dump_result_view(Ok((views, warnings))) == Ok::<
                            (Seq<VariableViewModel>, Seq<Seq<char>>),
                            DumpError,
                        >((variable_views(views@), strings_view(warnings@))));
                    }
                    Ok((views, warnings))
                },
                Err(_) => Err(DumpError::AddressOverflow),
            },
        }
    }

    /// The views of the global variables that the raw entries of the units
    /// hold (see `spec_dump`), when none of them has a part placed past the
    /// largest address.
    pub fn dump_global_variables(&mut self, units: &Vec<Vec<Option<RawEntry>>>) -> (res: Vec<GlobalVariableView>)
        requires
            spec_dump(units_views(units@), old(self).types(), old(self).declarations()).0 is Ok,
        ensures
            ({
                let (views, ts, ds) = spec_dump(units_views(units@), old(self).types(), old(self).declarations());
                &&& final(self).types() == ts
                &&& final(self).declarations() == ds
                &&& views == Ok::<Seq<VariableViewModel>, ()>(variable_views(res@))
            }),
    {
        match self.checked_dump_global_variables(units) {
            Ok(views) => views,
            Err(_) => Vec::new(),
        }
    }
}

/// A fresh use case starts from no entries, and a second dump sees the
/// entries kept from the first: dumping `first` and then `second` keeps
/// what reading both at once keeps, and the second dump gives the views of
/// the global variables of `second` over all those entries.
pub proof fn law_dump_twice(first: Seq<DwarfInfoModel>, second: Seq<DwarfInfoModel>)
    ensures
        ({
            let empty_types = Map::<usize, TypeEntryModel>::empty();
            let empty_decs = Map::<usize, VariableDeclarationModel>::empty();
            let (_, t1, d1) = spec_dump_infos(first, empty_types, empty_decs);
            let (views2, t2, d2) = spec_dump_infos(second, t1, d1);
            let (_, ts, ds) = spec_extract(first + second, empty_types, empty_decs);
            &&& t2 == ts
            &&& d2 == ds
            &&& views2 == spec_views_of(ts, ds, spec_extract(second, t1, d1).0, depth_limit_for(ts.len()))
        }),
{
    let empty_types = Map::<usize, TypeEntryModel>::empty();
    let empty_decs = Map::<usize, VariableDeclarationModel>::empty();
    law_extract_in_two_parts(first, second, empty_types, empty_decs);
}

/// An overflow among the first variables is an overflow for all of them.
pub proof fn lemma_views_of_overflow(
    types: Map<usize, TypeEntryModel>,
    decs: Map<usize, VariableDeclarationModel>,
    variables: Seq<GlobalVariableModel>,
    fuel: nat,
    i: int,
    j: int,
)
    requires
        0 <= i <= j <= variables.len(),
        spec_views_of(types, decs, variables.take(i), fuel) is Err,
    ensures
        spec_views_of(types, decs, variables.take(j), fuel) is Err,
    decreases j - i,
{
    if j > i {
        lemma_views_of_overflow(types, decs, variables, fuel, i, j - 1);
        assert(variables.take(j).drop_last() =~= variables.take(j - 1));
    }
}

/// Making the views of global variables gives the view of each of them
/// that has one, in order, leaving out those that have none; it fails
/// exactly when one of them has a part placed past the largest address.
pub proof fn law_views_of_the_variables(
    types: Map<usize, TypeEntryModel>,
    decs: Map<usize, VariableDeclarationModel>,
    variables: Seq<GlobalVariableModel>,
    fuel: nat,
)
    ensures
        spec_views_of(types, decs, variables, fuel) is Err <==> exists|i: int|
            0 <= i < variables.len() && #[trigger] spec_from_global_variable(types, decs, variables[i], fuel) is Err,
        spec_views_of(types, decs, variables, fuel) is Ok ==> spec_views_of(types, decs, variables, fuel)->Ok_0
            == variables.filter_map(view_or_none(types, decs, fuel)),
    decreases variables.len(),
{
    if variables.len() > 0 {
        let rest = variables.drop_last();
        law_views_of_the_variables(types, decs, rest, fuel);
        let n = variables.len() - 1;
        assert(variables[n] == variables.last());
        if exists|i: int| 0 <= i < rest.len() && #[trigger] spec_from_global_variable(types, decs, rest[i], fuel) is Err {
            let i = choose|i: int| 0 <= i < rest.len() && #[trigger] spec_from_global_variable(types, decs, rest[i], fuel) is Err;
            assert(rest[i] == variables[i]);
        }
        if exists|i: int| 0 <= i < variables.len() && #[trigger] spec_from_global_variable(types, decs, variables[i], fuel) is Err {
            let i = choose|i: int| 0 <= i < variables.len() && #[trigger] spec_from_global_variable(types, decs, variables[i], fuel) is Err;
            if i < n {
                assert(rest[i] == variables[i]);
            }
        }
        match spec_from_global_variable(types, decs, variables.last(), fuel) {
            Ok(Some(v)) => {
                let views = spec_views_of(types, decs, rest, fuel);
                if views is Ok {
                    assert(views->Ok_0.push(v) =~= views->Ok_0 + seq![v]);
                }
            },
            _ => {},
        }
    }
}

/// Dumping an ELF file gives the views of the global variables among its
/// entries, in order, leaving out those that have none, each over the type
/// entries and declarations kept once all the entries are read; it gives
/// `AddressOverflow` exactly when one of those variables has a part placed
/// past the largest address, and `NotElf` when the file cannot be parsed.
pub proof fn law_dump_elf_gives_views_of_the_variables(
    elf: Seq<u8>,
    types: Map<usize, TypeEntryModel>,
    decs: Map<usize, VariableDeclarationModel>,
)
    ensures
        match spec_elf_little_endian(elf) {
            None => spec_dump_elf(elf, types, decs).0 == Err::<(Seq<VariableViewModel>, Seq<Seq<char>>), DumpError>(
                DumpError::NotElf,
            ),
            Some(little_endian) => {
                let infos = spec_elf_infos(elf, little_endian);
                let (variables, ts, ds) = spec_extract(infos, types, decs);
                let fuel = depth_limit_for(ts.len());
                &&& variables == infos.filter_map(|i: DwarfInfoModel| variable_of(i))
                &&& (spec_dump_elf(elf, types, decs).0 == Err::<
                    (Seq<VariableViewModel>, Seq<Seq<char>>),
                    DumpError,
                >(DumpError::AddressOverflow) <==> exists|i: int|
                    0 <= i < variables.len() && #[trigger] spec_from_global_variable(ts, ds, variables[i], fuel) is Err)
                &&& spec_dump_elf(elf, types, decs).0 is Ok ==> spec_dump_elf(elf, types, decs).0->Ok_0.0
                    == variables.filter_map(view_or_none(ts, ds, fuel))
            },
        },
{
    match spec_elf_little_endian(elf) {
        None => {},
        Some(little_endian) => {
            let infos = spec_elf_infos(elf, little_endian);
            let (variables, ts, ds) = spec_extract(infos, types, decs);
            law_extract_keeps_last_entries(infos, types, decs);
            law_views_of_the_variables(ts, ds, variables, depth_limit_for(ts.len()));
        },
    }
}

/// A fresh use case keeps no entries, so what its first dump gives depends
/// on the ELF file alone; a second dump sees the entries kept from the
/// first: it keeps what reading the entries of both files from nothing
/// keeps, and gives the views of the global variables of the second file
/// over all those entries.
pub proof fn law_fresh_dumps(first: Seq<u8>, second: Seq<u8>, fresh: DumpGlobalVariablesUsecase)
    requires
        fresh.types() == Map::<usize, TypeEntryModel>::empty(),
        fresh.declarations() == Map::<usize, VariableDeclarationModel>::empty(),
    ensures
        spec_dump_elf(first, fresh.types(), fresh.declarations()) == spec_dump_elf(
            first,
            Map::<usize, TypeEntryModel>::empty(),
            Map::<usize, VariableDeclarationModel>::empty(),
        ),
        ({
            let (_, t1, d1) = spec_dump_elf(first, fresh.types(), fresh.declarations());
            let (r2, t2, d2) = spec_dump_elf(second, t1, d1);
            match (spec_elf_little_endian(first), spec_elf_little_endian(second)) {
                (Some(le1), Some(le2)) => {
                    let infos1 = spec_elf_infos(first, le1);
                    let infos2 = spec_elf_infos(second, le2);
                    let (_, ts, ds) = spec_extract(infos1 + infos2, Map::empty(), Map::empty());
                    &&& t2 == ts
                    &&& d2 == ds
                    &&& (r2 is Ok ==> r2->Ok_0.0 == spec_views_of(
                        ts,
                        ds,
                        spec_extract(infos2, t1, d1).0,
                        depth_limit_for(ts.len()),
                    )->Ok_0)
                },
                (None, _) => t1 == fresh.types() && d1 == fresh.declarations(),
                (_, None) => t2 == t1 && d2 == d1,
            }
        }),
{
    match (spec_elf_little_endian(first), spec_elf_little_endian(second)) {
        (Some(le1), Some(le2)) => {
            law_dump_twice(spec_elf_infos(first, le1), spec_elf_infos(second, le2));
        },
        _ => {},
    }
}

} // verus!
