use gimli::write::{Address, AttributeValue, DwarfUnit, EndianVec, Expression, Sections};
use gimli::{Encoding, Format};
use troll::library::dwarf::{
    DwarfInfo, DwarfInfoIntoIterator, DwarfTag, Location, UnitHeaderInfo, DW_AT_BIT_OFFSET, DW_AT_BIT_SIZE,
    DW_AT_BYTE_SIZE, DW_AT_CONST_VALUE, DW_AT_DATA_MEMBER_LOCATION, DW_AT_DECLARATION, DW_AT_LOCATION,
    DW_AT_NAME, DW_AT_SPECIFICATION, DW_AT_TYPE, DW_AT_UPPER_BOUND,
};
use troll::usecase::dump_global_variables::{DumpError, DumpGlobalVariablesUsecase};

/// Writes the sections of a unit with an `int`, a structure with two
/// members, a variable of the structure at 0x4060 and a declaration.
fn sections<E: gimli::Endianity>(endian: E) -> (Vec<u8>, Vec<u8>, Vec<u8>) {
    let encoding = Encoding { format: Format::Dwarf32, version: 4, address_size: 8 };
    let mut dwarf = DwarfUnit::new(encoding);
    let root = dwarf.unit.root();

    let int = dwarf.unit.add(root, gimli::DW_TAG_base_type);
    let int_name = dwarf.strings.add("int");
    dwarf.unit.get_mut(int).set(gimli::DW_AT_name, AttributeValue::StringRef(int_name));
    dwarf.unit.get_mut(int).set(gimli::DW_AT_byte_size, AttributeValue::Data1(4));

    let structure = dwarf.unit.add(root, gimli::DW_TAG_structure_type);
    dwarf.unit.get_mut(structure).set(gimli::DW_AT_name, AttributeValue::String(b"hoge".to_vec()));
    dwarf.unit.get_mut(structure).set(gimli::DW_AT_byte_size, AttributeValue::Data1(8));
    let a = dwarf.unit.add(structure, gimli::DW_TAG_member);
    dwarf.unit.get_mut(a).set(gimli::DW_AT_name, AttributeValue::String(b"a".to_vec()));
    dwarf.unit.get_mut(a).set(gimli::DW_AT_type, AttributeValue::UnitRef(int));
    dwarf.unit.get_mut(a).set(gimli::DW_AT_data_member_location, AttributeValue::Udata(0));
    let b = dwarf.unit.add(structure, gimli::DW_TAG_member);
    dwarf.unit.get_mut(b).set(gimli::DW_AT_name, AttributeValue::String(b"b".to_vec()));
    dwarf.unit.get_mut(b).set(gimli::DW_AT_type, AttributeValue::UnitRef(int));
    dwarf.unit.get_mut(b).set(gimli::DW_AT_data_member_location, AttributeValue::Udata(4));
    dwarf.unit.get_mut(b).set(gimli::DW_AT_bit_size, AttributeValue::Data1(3));
    dwarf.unit.get_mut(b).set(gimli::DW_AT_bit_offset, AttributeValue::Data1(5));

    let variable = dwarf.unit.add(root, gimli::DW_TAG_variable);
    let mut location = Expression::new();
    location.op_addr(Address::Constant(0x4060));
    dwarf.unit.get_mut(variable).set(gimli::DW_AT_name, AttributeValue::String(b"x".to_vec()));
    dwarf.unit.get_mut(variable).set(gimli::DW_AT_type, AttributeValue::UnitRef(structure));
    dwarf.unit.get_mut(variable).set(gimli::DW_AT_location, AttributeValue::Exprloc(location));

    let declaration = dwarf.unit.add(root, gimli::DW_TAG_variable);
    dwarf.unit.get_mut(declaration).set(gimli::DW_AT_name, AttributeValue::String(b"e".to_vec()));
    dwarf.unit.get_mut(declaration).set(gimli::DW_AT_type, AttributeValue::UnitRef(int));
    dwarf.unit.get_mut(declaration).set(gimli::DW_AT_declaration, AttributeValue::Flag(true));
    dwarf.unit.get_mut(declaration).set(gimli::DW_AT_const_value, AttributeValue::Sdata(-7));

    let defined = dwarf.unit.add(root, gimli::DW_TAG_variable);
    dwarf.unit.get_mut(defined).set(gimli::DW_AT_specification, AttributeValue::UnitRef(declaration));

    let mut sections = Sections::new(EndianVec::new(endian));
    dwarf.write(&mut sections).unwrap();
    (
        sections.debug_info.slice().to_vec(),
        sections.debug_abbrev.slice().to_vec(),
        sections.debug_str.slice().to_vec(),
    )
}

fn infos(little_endian: bool) -> Vec<DwarfInfo> {
    let (info, abbrev, strs) = if little_endian {
        sections(gimli::LittleEndian)
    } else {
        sections(gimli::BigEndian)
    };
    let units = DwarfInfoIntoIterator::dwarf_units(&info, &abbrev, &strs, little_endian);
    assert_eq!(units.len(), 1);
    DwarfInfoIntoIterator::infos_of_units(&units)
}

fn check(infos: Vec<DwarfInfo>) {
    assert_eq!(infos.len(), 5);
    let int = &infos[0];
    assert_eq!(int.tag(), DwarfTag::DW_TAG_base_type);
    assert_eq!(int.name(), Some(String::from("int")));
    assert_eq!(int.byte_size(), Some(4));
    assert_eq!(int.location(), None);

    let structure = &infos[1];
    assert_eq!(structure.tag(), DwarfTag::DW_TAG_structure_type);
    assert_eq!(structure.name(), Some(String::from("hoge")));
    assert_eq!(structure.byte_size(), Some(8));
    let members = structure.children();
    assert_eq!(members.len(), 2);
    assert_eq!(members[0].name(), Some(String::from("a")));
    assert_eq!(members[0].type_offset(), Some(int.offset()));
    assert_eq!(members[0].data_member_location(), Some(0));
    assert_eq!(members[1].data_member_location(), Some(4));
    assert_eq!(members[1].bit_size(), Some(3));
    assert_eq!(members[1].bit_offset(), Some(5));

    let variable = &infos[2];
    assert_eq!(variable.tag(), DwarfTag::DW_TAG_variable);
    assert_eq!(variable.name(), Some(String::from("x")));
    assert_eq!(variable.type_offset(), Some(structure.offset()));
    assert_eq!(variable.location(), Some(Location::new(0x4060)));

    let declaration = &infos[3];
    assert_eq!(declaration.declaration(), Some(true));
    assert_eq!(declaration.const_value(), Some(-7));
    assert_eq!(declaration.location(), None);

    let defined = &infos[4];
    assert_eq!(defined.specification(), Some(declaration.offset()));
    assert_eq!(defined.name(), None);
    assert!(int.offset().value() < structure.offset().value());
    assert!(structure.offset().value() < variable.offset().value());
}

#[test]
fn entries_read_from_little_endian_sections() {
    check(infos(true));
}

#[test]
fn entries_read_from_big_endian_sections() {
    check(infos(false));
}

#[test]
fn sections_read_in_the_wrong_byte_order_give_no_entries_of_the_unit() {
    let (info, abbrev, strs) = sections(gimli::LittleEndian);
    let units = DwarfInfoIntoIterator::dwarf_units(&info, &abbrev, &strs, false);
    assert!(DwarfInfoIntoIterator::infos_of_units(&units).len() < 5);
}

#[test]
fn no_sections_give_no_units() {
    assert!(DwarfInfoIntoIterator::dwarf_units(&[], &[], &[], true).is_empty());
}

#[test]
fn a_file_that_is_not_elf() {
    assert!(DwarfInfoIntoIterator::infos_of_elf(b"not an ELF file").is_none());
    let mut usecase = DumpGlobalVariablesUsecase::new();
    assert_eq!(usecase.dump_elf(b"not an ELF file").err(), Some(DumpError::NotElf));
}

#[test]
fn attribute_codes_are_those_of_gimli() {
    assert_eq!(DW_AT_LOCATION, gimli::DW_AT_location.0);
    assert_eq!(DW_AT_NAME, gimli::DW_AT_name.0);
    assert_eq!(DW_AT_BYTE_SIZE, gimli::DW_AT_byte_size.0);
    assert_eq!(DW_AT_BIT_OFFSET, gimli::DW_AT_bit_offset.0);
    assert_eq!(DW_AT_BIT_SIZE, gimli::DW_AT_bit_size.0);
    assert_eq!(DW_AT_CONST_VALUE, gimli::DW_AT_const_value.0);
    assert_eq!(DW_AT_UPPER_BOUND, gimli::DW_AT_upper_bound.0);
    assert_eq!(DW_AT_DATA_MEMBER_LOCATION, gimli::DW_AT_data_member_location.0);
    assert_eq!(DW_AT_DECLARATION, gimli::DW_AT_declaration.0);
    assert_eq!(DW_AT_SPECIFICATION, gimli::DW_AT_specification.0);
    assert_eq!(DW_AT_TYPE, gimli::DW_AT_type.0);
}

#[test]
fn location_of_an_address_expression() {
    let expression: Vec<u8> = vec![0x03, 0x34, 0x12, 0, 0, 0, 0, 0, 0];
    let header = UnitHeaderInfo {
        length: 0,
        first_entry: 0,
        dwarf64: false,
        version: 4,
        address_size: 8,
    };
    assert_eq!(DwarfInfoIntoIterator::location_of(&expression, true, header), Some(0x1234));
    let register: Vec<u8> = vec![0x50];
    assert_eq!(DwarfInfoIntoIterator::location_of(&register, true, header), None);
    let frame_base: Vec<u8> = vec![0x91, 0x08];
    assert_eq!(DwarfInfoIntoIterator::location_of(&frame_base, true, header), None);
}

#[test]
fn location_of_an_expression_that_never_ends() {
    let header = UnitHeaderInfo {
        length: 0,
        first_entry: 0,
        dwarf64: false,
        version: 4,
        address_size: 8,
    };
    let backward_skip: Vec<u8> = vec![0x2f, 0xfd, 0xff];
    assert_eq!(DwarfInfoIntoIterator::location_of(&backward_skip, true, header), None);
}

#[test]
fn location_in_a_unit_with_too_wide_addresses() {
    let expression: Vec<u8> = vec![0x03, 0x34, 0x12, 0, 0, 0, 0, 0, 0];
    let header = UnitHeaderInfo {
        length: 0,
        first_entry: 0,
        dwarf64: false,
        version: 4,
        address_size: 16,
    };
    assert_eq!(DwarfInfoIntoIterator::location_of(&expression, true, header), None);
}

/// Two units, each with an `int` and a variable of it: the references of
/// the second unit are taken from the start of that unit.
#[test]
fn references_in_a_second_unit() {
    let encoding = Encoding { format: Format::Dwarf32, version: 4, address_size: 8 };
    let mut dwarf = gimli::write::Dwarf::new();
    for (name, address) in [("first", 0x1000u64), ("second", 0x2000u64)] {
        let unit_id = dwarf.units.add(gimli::write::Unit::new(encoding, gimli::write::LineProgram::none()));
        let unit = dwarf.units.get_mut(unit_id);
        let root = unit.root();
        let int = unit.add(root, gimli::DW_TAG_base_type);
        unit.get_mut(int).set(gimli::DW_AT_name, AttributeValue::String(b"int".to_vec()));
        unit.get_mut(int).set(gimli::DW_AT_byte_size, AttributeValue::Data1(4));
        let variable = unit.add(root, gimli::DW_TAG_variable);
        let mut location = Expression::new();
        location.op_addr(Address::Constant(address));
        unit.get_mut(variable).set(gimli::DW_AT_name, AttributeValue::String(name.as_bytes().to_vec()));
        unit.get_mut(variable).set(gimli::DW_AT_type, AttributeValue::UnitRef(int));
        unit.get_mut(variable).set(gimli::DW_AT_location, AttributeValue::Exprloc(location));
    }
    let mut sections = Sections::new(EndianVec::new(gimli::LittleEndian));
    dwarf.write(&mut sections).unwrap();
    let info = sections.debug_info.slice().to_vec();
    let abbrev = sections.debug_abbrev.slice().to_vec();
    let strs = sections.debug_str.slice().to_vec();
    let units = DwarfInfoIntoIterator::dwarf_units(&info, &abbrev, &strs, true);
    assert_eq!(units.len(), 2);
    let infos = DwarfInfoIntoIterator::infos_of_units(&units);
    assert_eq!(infos.len(), 4);
    assert_eq!(infos[1].type_offset(), Some(infos[0].offset()));
    assert_eq!(infos[3].type_offset(), Some(infos[2].offset()));
    assert!(infos[2].offset().value() > infos[1].offset().value());
    assert_eq!(infos[3].name(), Some(String::from("second")));
    assert_eq!(infos[3].location(), Some(Location::new(0x2000)));
}

#[test]
fn unit_relative_references_to_section_offsets() {
    assert_eq!(DwarfInfoIntoIterator::section_offset(0x40, Some(0x2d)), Some(0x6d));
    assert_eq!(DwarfInfoIntoIterator::section_offset(0x40, None), None);
    assert_eq!(DwarfInfoIntoIterator::section_offset(usize::MAX, Some(1)), None);
    assert_eq!(DwarfInfoIntoIterator::section_offset(usize::MAX, Some(0)), Some(usize::MAX));
}
