use troll::library::dwarf::{
    DwarfInfo, DwarfInfoBuilder, DwarfInfoIntoIterator, DwarfTag, EvaluationAction, EvaluationStep,
    FirstPiece, Location, Offset, RawEntry,
};

fn raw(offset: usize, tag: u16, has_children: bool) -> RawEntry {
    RawEntry {
        offset,
        tag,
        has_children,
        name: None,
        type_offset: None,
        byte_size: None,
        bit_size: None,
        bit_offset: None,
        location: None,
        upper_bound: None,
        const_value: None,
        data_member_location: None,
        declaration: None,
        specification: None,
    }
}

fn named(mut r: RawEntry, name: &str) -> RawEntry {
    r.name = Some(String::from(name));
    r
}

#[test]
fn tag_codes_are_those_of_gimli() {
    let pairs = vec![
        (gimli::DW_TAG_variable, DwarfTag::DW_TAG_variable),
        (gimli::DW_TAG_typedef, DwarfTag::DW_TAG_typedef),
        (gimli::DW_TAG_const_type, DwarfTag::DW_TAG_const_type),
        (gimli::DW_TAG_pointer_type, DwarfTag::DW_TAG_pointer_type),
        (gimli::DW_TAG_base_type, DwarfTag::DW_TAG_base_type),
        (gimli::DW_TAG_enumeration_type, DwarfTag::DW_TAG_enumeration_type),
        (gimli::DW_TAG_enumerator, DwarfTag::DW_TAG_enumerator),
        (gimli::DW_TAG_structure_type, DwarfTag::DW_TAG_structure_type),
        (gimli::DW_TAG_union_type, DwarfTag::DW_TAG_union_type),
        (gimli::DW_TAG_array_type, DwarfTag::DW_TAG_array_type),
        (gimli::DW_TAG_subroutine_type, DwarfTag::DW_TAG_subroutine_type),
        (gimli::DW_TAG_subrange_type, DwarfTag::DW_TAG_subrange_type),
        (gimli::DW_TAG_volatile_type, DwarfTag::DW_TAG_volatile_type),
        (gimli::DW_TAG_formal_parameter, DwarfTag::DW_TAG_formal_parameter),
    ];
    for (code, tag) in pairs {
        assert_eq!(DwarfTag::from_code(code.0), tag);
    }
}

#[test]
fn other_tag_codes_are_unimplemented() {
    assert_eq!(DwarfTag::from_code(gimli::DW_TAG_member.0), DwarfTag::DW_TAG_unimplemented);
    assert_eq!(DwarfTag::from_code(gimli::DW_TAG_subprogram.0), DwarfTag::DW_TAG_unimplemented);
    assert_eq!(DwarfTag::from_code(gimli::DW_TAG_compile_unit.0), DwarfTag::DW_TAG_unimplemented);
    assert_eq!(DwarfTag::from_code(0), DwarfTag::DW_TAG_unimplemented);
    assert_eq!(DwarfTag::from_code(0xffff), DwarfTag::DW_TAG_unimplemented);
}

#[test]
fn only_a_variable_location_is_read() {
    assert!(DwarfInfoIntoIterator::reads_location(gimli::DW_TAG_variable.0));
    assert!(!DwarfInfoIntoIterator::reads_location(gimli::DW_TAG_member.0));
    assert!(!DwarfInfoIntoIterator::reads_location(gimli::DW_TAG_formal_parameter.0));
}

#[test]
fn next_info_reads_an_entry_with_its_nested_entries() {
    let mut structure = named(raw(58, gimli::DW_TAG_structure_type.0, true), "hoge");
    structure.byte_size = Some(8);
    let mut member = named(raw(71, gimli::DW_TAG_member.0, false), "fuga");
    member.data_member_location = Some(4);
    member.type_offset = Some(101);
    let entries = vec![
        Some(structure),
        Some(member),
        None,
        Some(named(raw(101, gimli::DW_TAG_base_type.0, false), "int")),
    ];
    let mut pos = 0;
    let info = DwarfInfoIntoIterator::next_info(&entries, &mut pos).unwrap();
    assert_eq!(pos, 3);
    let expected = DwarfInfoBuilder::new()
        .offset(Offset::new(58))
        .tag(DwarfTag::DW_TAG_structure_type)
        .name("hoge")
        .byte_size(8)
        .children(vec![DwarfInfoBuilder::new()
            .offset(Offset::new(71))
            .tag(DwarfTag::DW_TAG_unimplemented)
            .name("fuga")
            .data_member_location(4)
            .type_offset(Offset::new(101))
            .build()])
        .build();
    assert_eq!(info, expected);

    let next = DwarfInfoIntoIterator::next_info(&entries, &mut pos).unwrap();
    assert_eq!(pos, 4);
    assert_eq!(next.name(), Some(String::from("int")));
    assert_eq!(next.tag(), DwarfTag::DW_TAG_base_type);
    assert!(next.children().is_empty());

    assert_eq!(DwarfInfoIntoIterator::next_info(&entries, &mut pos), None);
    assert_eq!(pos, 4);
}

#[test]
fn next_info_takes_one_null_entry() {
    let entries = vec![None, Some(raw(10, gimli::DW_TAG_base_type.0, false))];
    let mut pos = 0;
    assert_eq!(DwarfInfoIntoIterator::next_info(&entries, &mut pos), None);
    assert_eq!(pos, 1);
}

#[test]
fn next_infos_stops_at_the_closing_null_entry() {
    let entries = vec![
        Some(raw(10, gimli::DW_TAG_base_type.0, false)),
        Some(raw(20, gimli::DW_TAG_base_type.0, false)),
        None,
        Some(raw(30, gimli::DW_TAG_base_type.0, false)),
    ];
    let mut pos = 0;
    let infos = DwarfInfoIntoIterator::next_infos(&entries, &mut pos);
    assert_eq!(pos, 3);
    let offsets: Vec<usize> = infos.iter().map(|i| i.offset().value()).collect();
    assert_eq!(offsets, vec![10, 20]);
}

#[test]
fn flat_entries_read_back_one_each() {
    let entries: Vec<Option<RawEntry>> =
        (0..5).map(|k| Some(raw(100 + k, gimli::DW_TAG_base_type.0, false))).collect();
    let mut pos = 0;
    let infos = DwarfInfoIntoIterator::next_infos(&entries, &mut pos);
    assert_eq!(pos, 5);
    assert_eq!(infos.len(), 5);
    for (k, info) in infos.iter().enumerate() {
        assert_eq!(info.offset(), Offset::new(100 + k));
        assert!(info.children().is_empty());
    }
}

#[test]
fn infos_of_unit_passes_over_the_unit_entry() {
    let mut variable = named(raw(45, gimli::DW_TAG_variable.0, false), "c");
    variable.type_offset = Some(72);
    variable.location = Some(8196);
    let mut member = named(raw(50, gimli::DW_TAG_member.0, false), "m");
    member.location = Some(12);
    let entries = vec![
        Some(named(raw(11, gimli::DW_TAG_compile_unit.0, true), "main.c")),
        Some(variable),
        Some(member),
        None,
    ];
    let infos = DwarfInfoIntoIterator::infos_of_unit(&entries);
    let expected = vec![
        DwarfInfoBuilder::new()
            .offset(Offset::new(45))
            .tag(DwarfTag::DW_TAG_variable)
            .name("c")
            .type_offset(Offset::new(72))
            .location(Location::new(8196))
            .build(),
        DwarfInfoBuilder::new()
            .offset(Offset::new(50))
            .tag(DwarfTag::DW_TAG_unimplemented)
            .name("m")
            .build(),
    ];
    assert_eq!(infos, expected);
    assert!(DwarfInfoIntoIterator::infos_of_unit(&Vec::new()).is_empty());
}

#[test]
fn infos_of_units_puts_units_one_after_the_other() {
    let unit = |offset: usize| {
        vec![
            Some(raw(offset, gimli::DW_TAG_compile_unit.0, true)),
            Some(named(raw(offset + 1, gimli::DW_TAG_base_type.0, false), "int")),
            None,
        ]
    };
    let units = vec![unit(0), unit(100), unit(200)];
    let infos: Vec<DwarfInfo> = DwarfInfoIntoIterator::infos_of_units(&units);
    let offsets: Vec<usize> = infos.iter().map(|i| i.offset().value()).collect();
    assert_eq!(offsets, vec![1, 101, 201]);
}

#[test]
fn attributes_are_carried_over() {
    let mut r = raw(7, gimli::DW_TAG_variable.0, false);
    r.name = Some(String::from("v"));
    r.type_offset = Some(8);
    r.byte_size = Some(4);
    r.bit_size = Some(3);
    r.bit_offset = Some(5);
    r.location = Some(0x4060);
    r.upper_bound = Some(2);
    r.const_value = Some(-9);
    r.data_member_location = Some(16);
    r.declaration = Some(true);
    r.specification = Some(99);
    let entries = vec![Some(r)];
    let mut pos = 0;
    let info = DwarfInfoIntoIterator::next_info(&entries, &mut pos).unwrap();
    assert_eq!(info.offset(), Offset::new(7));
    assert_eq!(info.tag(), DwarfTag::DW_TAG_variable);
    assert_eq!(info.name(), Some(String::from("v")));
    assert_eq!(info.type_offset(), Some(Offset::new(8)));
    assert_eq!(info.byte_size(), Some(4));
    assert_eq!(info.bit_size(), Some(3));
    assert_eq!(info.bit_offset(), Some(5));
    assert_eq!(info.location(), Some(Location::new(0x4060)));
    assert_eq!(info.upper_bound(), Some(2));
    assert_eq!(info.const_value(), Some(-9));
    assert_eq!(info.data_member_location(), Some(16));
    assert_eq!(info.declaration(), Some(true));
    assert_eq!(info.specification(), Some(Offset::new(99)));
}

#[test]
fn evaluation_decisions() {
    assert_eq!(
        DwarfInfoIntoIterator::next_evaluation_action(EvaluationStep::Complete),
        EvaluationAction::Finish
    );
    assert_eq!(
        DwarfInfoIntoIterator::next_evaluation_action(EvaluationStep::RequiresRelocatedAddress(0x1234)),
        EvaluationAction::ResumeWithRelocatedAddress(0x1234)
    );
    assert_eq!(
        DwarfInfoIntoIterator::next_evaluation_action(EvaluationStep::RequiresOther),
        EvaluationAction::GiveUp
    );
    assert_eq!(
        DwarfInfoIntoIterator::location_from_first_piece(FirstPiece::Address(0x4060)),
        Some(0x4060)
    );
    assert_eq!(DwarfInfoIntoIterator::location_from_first_piece(FirstPiece::Elsewhere), None);
    assert_eq!(DwarfInfoIntoIterator::location_from_first_piece(FirstPiece::Missing), None);
}

#[test]
fn offsets_and_locations() {
    assert_eq!(Offset::new(45).value(), 45);
    let mut location = Location::new(16428);
    location.add(4);
    assert_eq!(location.value(), 16432);
}
