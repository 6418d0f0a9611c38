use troll::domain::global_variable::Address;
use troll::domain::global_variable_view::{GlobalVariableViewBuilder, TypeView};
use troll::infrastructure::fromelf::stdout::FromElfStdOut;
use troll::library::dwarf::{DwarfInfoBuilder, DwarfTag, Location, Offset, RawEntry};
use troll::usecase::dump_global_variables::DumpGlobalVariablesUsecase;

fn raw(offset: usize, tag: gimli::DwTag, has_children: bool) -> RawEntry {
    RawEntry {
        offset,
        tag: tag.0,
        has_children,
        name: None,
        type_offset: None,
        byte_size: None,
        bit_size: None,
        bit_offset: None,
        location: None,
        upper_bound: None,
        const_value: None,
        data_member_location: None,
        declaration: None,
        specification: None,
    }
}

fn base(offset: usize, name: &str, size: u64) -> Option<RawEntry> {
    let mut r = raw(offset, gimli::DW_TAG_base_type, false);
    r.name = Some(String::from(name));
    r.byte_size = Some(size);
    Some(r)
}

fn member(offset: usize, name: &str, location: u64, type_offset: usize) -> Option<RawEntry> {
    let mut r = raw(offset, gimli::DW_TAG_member, false);
    r.name = Some(String::from(name));
    r.data_member_location = Some(location);
    r.type_offset = Some(type_offset);
    Some(r)
}

fn array(offset: usize, element: usize, upper_bound: u64) -> Vec<Option<RawEntry>> {
    let mut a = raw(offset, gimli::DW_TAG_array_type, true);
    a.type_offset = Some(element);
    let mut s = raw(offset + 1, gimli::DW_TAG_subrange_type, false);
    s.upper_bound = Some(upper_bound);
    vec![Some(a), Some(s), None]
}

/// The unit of the program of the README:
/// `typedef struct hoge { int hoge; char hogehoge; int array[2]; } Hoge; Hoge hoges[3];`
fn hoges_unit() -> Vec<Option<RawEntry>> {
    let mut unit = vec![Some(raw(11, gimli::DW_TAG_compile_unit, true))];
    unit.push(base(100, "int", 4));
    unit.push(base(110, "char", 1));
    let mut structure = raw(120, gimli::DW_TAG_structure_type, true);
    structure.name = Some(String::from("hoge"));
    structure.byte_size = Some(16);
    unit.push(Some(structure));
    unit.push(member(121, "hoge", 0, 100));
    unit.push(member(122, "hogehoge", 4, 110));
    unit.push(member(123, "array", 8, 150));
    unit.push(None);
    unit.extend(array(150, 100, 1));
    let mut typedef = raw(170, gimli::DW_TAG_typedef, false);
    typedef.name = Some(String::from("Hoge"));
    typedef.type_offset = Some(120);
    unit.push(Some(typedef));
    unit.extend(array(180, 170, 2));
    let mut variable = raw(200, gimli::DW_TAG_variable, false);
    variable.name = Some(String::from("hoges"));
    variable.type_offset = Some(180);
    variable.location = Some(0x4060);
    unit.push(Some(variable));
    unit.push(None);
    unit
}

/// The lines of the example of the README.
const README_LINES: [&str; 19] = [
    "0x00004060 0x030 hoges                Hoge[2]",
    "0x00004060 0x010 hoges[0]             Hoge",
    "0x00004060 0x004 hoges[0].hoge        int",
    "0x00004064 0x001 hoges[0].hogehoge    char",
    "0x00004068 0x008 hoges[0].array       int[1]",
    "0x00004068 0x004 hoges[0].array[0]    int",
    "0x0000406c 0x004 hoges[0].array[1]    int",
    "0x00004070 0x010 hoges[1]             Hoge",
    "0x00004070 0x004 hoges[1].hoge        int",
    "0x00004074 0x001 hoges[1].hogehoge    char",
    "0x00004078 0x008 hoges[1].array       int[1]",
    "0x00004078 0x004 hoges[1].array[0]    int",
    "0x0000407c 0x004 hoges[1].array[1]    int",
    "0x00004080 0x010 hoges[2]             Hoge",
    "0x00004080 0x004 hoges[2].hoge        int",
    "0x00004084 0x001 hoges[2].hogehoge    char",
    "0x00004088 0x008 hoges[2].array       int[1]",
    "0x00004088 0x004 hoges[2].array[0]    int",
    "0x0000408c 0x004 hoges[2].array[1]    int",
];

#[test]
fn dump_of_the_readme_example() {
    let mut usecase = DumpGlobalVariablesUsecase::new();
    let views = usecase.dump_global_variables(&vec![hoges_unit()]);
    assert_eq!(views.len(), 1);
    let out = FromElfStdOut::new(views);
    let text = out.text();
    let mut lines: Vec<&str> = text.lines().collect();
    assert_eq!(lines.remove(0), "address    size  variable_name        type");
    assert_eq!(lines.pop(), Some(""));
    assert_eq!(lines, README_LINES.to_vec());
}

#[test]
fn dump_keeps_entries_from_one_dump_to_the_next() {
    let mut usecase = DumpGlobalVariablesUsecase::new();
    let types_only = vec![
        Some(raw(1, gimli::DW_TAG_compile_unit, true)),
        base(100, "int", 4),
        None,
    ];
    assert!(usecase.dump_global_variables(&vec![types_only]).is_empty());
    let mut variable = raw(200, gimli::DW_TAG_variable, false);
    variable.name = Some(String::from("x"));
    variable.type_offset = Some(100);
    variable.location = Some(0x10);
    let variables_only = vec![Some(raw(2, gimli::DW_TAG_compile_unit, true)), Some(variable), None];
    let views = usecase.dump_global_variables(&vec![variables_only]);
    let expected = GlobalVariableViewBuilder::new()
        .name("x")
        .address(Some(Address::new(Location::new(0x10))))
        .size(4)
        .type_view(TypeView::new_base_type_view("int"))
        .build();
    assert_eq!(views, vec![expected]);
}

#[test]
fn dump_reports_an_overflow() {
    let mut variable = raw(200, gimli::DW_TAG_variable, false);
    variable.name = Some(String::from("a"));
    variable.type_offset = Some(150);
    variable.location = Some(u64::MAX - 3);
    let mut unit = vec![Some(raw(1, gimli::DW_TAG_compile_unit, true)), base(100, "int", 4)];
    unit.extend(array(150, 100, 1));
    unit.push(Some(variable));
    unit.push(None);
    let mut usecase = DumpGlobalVariablesUsecase::new();
    assert!(usecase.checked_dump_global_variables(&vec![unit]).is_err());
}

#[test]
fn dump_leaves_out_variables_without_a_known_type() {
    let mut variable = raw(200, gimli::DW_TAG_variable, false);
    variable.name = Some(String::from("x"));
    variable.type_offset = Some(999);
    let unit = vec![Some(raw(1, gimli::DW_TAG_compile_unit, true)), Some(variable), None];
    let mut usecase = DumpGlobalVariablesUsecase::new();
    assert!(usecase.dump_global_variables(&vec![unit]).is_empty());
}

#[test]
fn dump_gives_the_warnings_of_reading_then_of_the_views() {
    let infos = vec![
        DwarfInfoBuilder::new()
            .offset(Offset::new(0x20))
            .tag(DwarfTag::DW_TAG_variable)
            .name("x")
            .type_offset(Offset::new(0x99))
            .location(Location::new(0x10))
            .build(),
        DwarfInfoBuilder::new()
            .offset(Offset::new(0x30))
            .tag(DwarfTag::DW_TAG_enumeration_type)
            .type_offset(Offset::new(0x40))
            .children(vec![DwarfInfoBuilder::new()
                .offset(Offset::new(0x31))
                .tag(DwarfTag::DW_TAG_enumerator)
                .name("A")
                .build()])
            .build(),
    ];
    let mut usecase = DumpGlobalVariablesUsecase::new();
    let (views, warnings) = usecase.checked_dump_infos(infos).unwrap();
    assert!(views.is_empty());
    assert_eq!(
        warnings,
        vec![
            "Skip this entry: enumerator entry should have const_value: offset = 0x30",
            "global variable refers unknown offset: variable: x, refered offset 0x99",
        ]
    );
}

#[test]
fn fresh_use_cases_give_the_same_dump_of_the_same_units() {
    let mut one = DumpGlobalVariablesUsecase::new();
    let mut other = DumpGlobalVariablesUsecase::new();
    let first = one.dump_global_variables(&vec![hoges_unit()]);
    let second = other.dump_global_variables(&vec![hoges_unit()]);
    assert_eq!(first, second);
    assert_eq!(first.len(), 1);
}
