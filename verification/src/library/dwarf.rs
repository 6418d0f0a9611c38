use vstd::prelude::*;

use object::{Object, ObjectSection};

use super::text::{clone_option_string, option_string_view, IntoName};

verus! {

/// The offset of an entry in the `.debug_info` section.
#[derive(Debug, PartialEq, Eq, Hash, Clone, Copy, Structural)]
pub struct Offset(pub usize);

impl Offset {
    pub fn new(size: usize) -> (res: Offset)
        ensures
            res.0 == size,
    {
        Offset(size)
    }

    /// The offset as a number.
    pub fn value(&self) -> (res: usize)
        ensures
            res == self.0,
    {
        self.0
    }
}

/// The address at which a variable is stored.
#[derive(Debug, Clone, Copy, PartialEq, Eq, Structural)]
pub struct Location(pub usize);

impl Location {
    pub fn new(size: usize) -> (res: Location)
        ensures
            res.0 == size,
    {
        Location(size)
    }

    /// Moves the location `size` bytes further.
    pub fn add(&mut self, size: usize)
        requires
            old(self).0 + size <= usize::MAX,
        ensures
            final(self).0 == old(self).0 + size,
    {
        self.0 = self.0 + size;
    }

    /// The location as a number.
    pub fn value(&self) -> (res: usize)
        ensures
            res == self.0,
    {
        self.0
    }
}

/// The tags of the debugging information entries that this library reads;
/// every other tag is `DW_TAG_unimplemented`.
#[allow(non_camel_case_types)]
#[derive(Debug, Clone, Copy, PartialEq, Eq, Structural)]
pub enum DwarfTag {
    DW_TAG_variable,
    DW_TAG_typedef,
    DW_TAG_const_type,
    DW_TAG_pointer_type,
    DW_TAG_base_type,
    DW_TAG_enumeration_type,
    DW_TAG_enumerator,
    DW_TAG_structure_type,
    DW_TAG_union_type,
    DW_TAG_array_type,
    DW_TAG_subroutine_type,
    DW_TAG_subrange_type,
    DW_TAG_volatile_type,
    DW_TAG_formal_parameter,
    DW_TAG_unimplemented,
}

// The codes of the tags, as DWARF fixes them.
pub const DW_TAG_ARRAY_TYPE: u16 = 0x01;
pub const DW_TAG_ENUMERATION_TYPE: u16 = 0x04;
pub const DW_TAG_FORMAL_PARAMETER: u16 = 0x05;
pub const DW_TAG_POINTER_TYPE: u16 = 0x0f;
pub const DW_TAG_STRUCTURE_TYPE: u16 = 0x13;
pub const DW_TAG_SUBROUTINE_TYPE: u16 = 0x15;
pub const DW_TAG_TYPEDEF: u16 = 0x16;
pub const DW_TAG_UNION_TYPE: u16 = 0x17;
pub const DW_TAG_SUBRANGE_TYPE: u16 = 0x21;
pub const DW_TAG_BASE_TYPE: u16 = 0x24;
pub const DW_TAG_CONST_TYPE: u16 = 0x26;
pub const DW_TAG_ENUMERATOR: u16 = 0x28;
pub const DW_TAG_VARIABLE: u16 = 0x34;
pub const DW_TAG_VOLATILE_TYPE: u16 = 0x35;

/// The tag that a tag code stands for.
pub open spec fn tag_of_code(code: u16) -> DwarfTag {
    if code == DW_TAG_VARIABLE {
        DwarfTag::DW_TAG_variable
    } else if code == DW_TAG_TYPEDEF {
        DwarfTag::DW_TAG_typedef
    } else if code == DW_TAG_CONST_TYPE {
        DwarfTag::DW_TAG_const_type
    } else if code == DW_TAG_POINTER_TYPE {
        DwarfTag::DW_TAG_pointer_type
    } else if code == DW_TAG_BASE_TYPE {
        DwarfTag::DW_TAG_base_type
    } else if code == DW_TAG_ENUMERATION_TYPE {
        DwarfTag::DW_TAG_enumeration_type
    } else if code == DW_TAG_ENUMERATOR {
        DwarfTag::DW_TAG_enumerator
    } else if code == DW_TAG_STRUCTURE_TYPE {
        DwarfTag::DW_TAG_structure_type
    } else if code == DW_TAG_UNION_TYPE {
        DwarfTag::DW_TAG_union_type
    } else if code == DW_TAG_ARRAY_TYPE {
        DwarfTag::DW_TAG_array_type
    } else if code == DW_TAG_SUBROUTINE_TYPE {
        DwarfTag::DW_TAG_subroutine_type
    } else if code == DW_TAG_SUBRANGE_TYPE {
        DwarfTag::DW_TAG_subrange_type
    } else if code == DW_TAG_VOLATILE_TYPE {
        DwarfTag::DW_TAG_volatile_type
    } else if code == DW_TAG_FORMAL_PARAMETER {
        DwarfTag::DW_TAG_formal_parameter
    } else {
        DwarfTag::DW_TAG_unimplemented
    }
}

impl DwarfTag {
    /// The tag of a tag code (the number that `DW_TAG_*` stands for).
    pub fn from_code(code: u16) -> (res: DwarfTag)
        ensures
            res == tag_of_code(code),
    {
        match code {
            DW_TAG_VARIABLE => DwarfTag::DW_TAG_variable,
            DW_TAG_TYPEDEF => DwarfTag::DW_TAG_typedef,
            DW_TAG_CONST_TYPE => DwarfTag::DW_TAG_const_type,
            DW_TAG_POINTER_TYPE => DwarfTag::DW_TAG_pointer_type,
            DW_TAG_BASE_TYPE => DwarfTag::DW_TAG_base_type,
            DW_TAG_ENUMERATION_TYPE => DwarfTag::DW_TAG_enumeration_type,
            DW_TAG_ENUMERATOR => DwarfTag::DW_TAG_enumerator,
            DW_TAG_STRUCTURE_TYPE => DwarfTag::DW_TAG_structure_type,
            DW_TAG_UNION_TYPE => DwarfTag::DW_TAG_union_type,
            DW_TAG_ARRAY_TYPE => DwarfTag::DW_TAG_array_type,
            DW_TAG_SUBROUTINE_TYPE => DwarfTag::DW_TAG_subroutine_type,
            DW_TAG_SUBRANGE_TYPE => DwarfTag::DW_TAG_subrange_type,
            DW_TAG_VOLATILE_TYPE => DwarfTag::DW_TAG_volatile_type,
            DW_TAG_FORMAL_PARAMETER => DwarfTag::DW_TAG_formal_parameter,
            _ => DwarfTag::DW_TAG_unimplemented,
        }
    }
}

/// A debugging information entry, with the attributes that this library
/// reads and the entries nested in it.
#[derive(Debug, PartialEq)]
pub struct DwarfInfo {
    pub offset: Offset,
    pub tag: DwarfTag,
    pub name: Option<String>,
    pub type_offset: Option<Offset>,
    pub byte_size: Option<usize>,
    pub bit_size: Option<usize>,
    pub bit_offset: Option<usize>,
    pub location: Option<Location>,
    pub upper_bound: Option<usize>,
    pub const_value: Option<isize>,
    pub data_member_location: Option<usize>,
    pub declaration: Option<bool>,
    pub specification: Option<Offset>,
    pub children: Vec<DwarfInfo>,
}

/// A debugging information entry as a value: what a `DwarfInfo` holds,
/// strings as characters and nested entries as a sequence.
pub struct DwarfInfoModel {
    pub offset: usize,
    pub tag: DwarfTag,
    pub name: Option<Seq<char>>,
    pub type_offset: Option<usize>,
    pub byte_size: Option<usize>,
    pub bit_size: Option<usize>,
    pub bit_offset: Option<usize>,
    pub location: Option<usize>,
    pub upper_bound: Option<usize>,
    pub const_value: Option<isize>,
    pub data_member_location: Option<usize>,
    pub declaration: Option<bool>,
    pub specification: Option<usize>,
    pub children: Seq<DwarfInfoModel>,
}

pub open spec fn option_offset_view(o: Option<Offset>) -> Option<usize> {
    match o {
        Some(o) => Some(o.0),
        None => None,
    }
}

pub open spec fn option_location_view(o: Option<Location>) -> Option<usize> {
    match o {
        Some(l) => Some(l.0),
        None => None,
    }
}

impl View for DwarfInfo {
    type V = DwarfInfoModel;

    open spec fn view(&self) -> DwarfInfoModel
        decreases self,
    {
        DwarfInfoModel {
            offset: self.offset.0,
            tag: self.tag,
            name: option_string_view(self.name),
            type_offset: option_offset_view(self.type_offset),
            byte_size: self.byte_size,
            bit_size: self.bit_size,
            bit_offset: self.bit_offset,
            location: option_location_view(self.location),
            upper_bound: self.upper_bound,
            const_value: self.const_value,
            data_member_location: self.data_member_location,
            declaration: self.declaration,
            specification: option_offset_view(self.specification),
            children: dwarf_info_views(self.children@),
        }
    }
}

/// The values of a sequence of entries.
pub open spec fn dwarf_info_views(s: Seq<DwarfInfo>) -> Seq<DwarfInfoModel>
    decreases s,
{
    if s.len() == 0 {
        Seq::empty()
    } else {
        dwarf_info_views(s.drop_last()).push(s.last()@)
    }
}

pub proof fn lemma_dwarf_info_views(s: Seq<DwarfInfo>)
    ensures
        dwarf_info_views(s).len() == s.len(),
        forall|i: int| 0 <= i < s.len() ==> #[trigger] dwarf_info_views(s)[i] == s[i]@,
    decreases s.len(),
{
    if s.len() > 0 {
        lemma_dwarf_info_views(s.drop_last());
        assert(dwarf_info_views(s) == dwarf_info_views(s.drop_last()).push(s.last()@));
    } else {
        assert(dwarf_info_views(s) == Seq::<DwarfInfoModel>::empty());
    }
}

impl DwarfInfo {
    pub fn offset(&self) -> (res: Offset)
        ensures
            res == self.offset,
    {
        self.offset
    }

    pub fn tag(&self) -> (res: DwarfTag)
        ensures
            res == self.tag,
    {
        self.tag
    }

    pub fn name(&self) -> (res: Option<String>)
        ensures
            res == self.name,
    {
        clone_option_string(&self.name)
    }

    pub fn type_offset(&self) -> (res: Option<Offset>)
        ensures
            res == self.type_offset,
    {
        self.type_offset
    }

    pub fn byte_size(&self) -> (res: Option<usize>)
        ensures
            res == self.byte_size,
    {
        self.byte_size
    }

    pub fn bit_size(&self) -> (res: Option<usize>)
        ensures
            res == self.bit_size,
    {
        self.bit_size
    }

    pub fn bit_offset(&self) -> (res: Option<usize>)
        ensures
            res == self.bit_offset,
    {
        self.bit_offset
    }

    pub fn location(&self) -> (res: Option<Location>)
        ensures
            res == self.location,
    {
        self.location
    }

    pub fn upper_bound(&self) -> (res: Option<usize>)
        ensures
            res == self.upper_bound,
    {
        self.upper_bound
    }

    pub fn const_value(&self) -> (res: Option<isize>)
        ensures
            res == self.const_value,
    {
        self.const_value
    }

    pub fn data_member_location(&self) -> (res: Option<usize>)
        ensures
            res == self.data_member_location,
    {
        self.data_member_location
    }

    pub fn declaration(&self) -> (res: Option<bool>)
        ensures
            res == self.declaration,
    {
        self.declaration
    }

    pub fn specification(&self) -> (res: Option<Offset>)
        ensures
            res == self.specification,
    {
        self.specification
    }

    pub fn children(&self) -> (res: &Vec<DwarfInfo>)
        ensures
            res == &self.children,
    {
        &self.children
    }
}

/// Builds a `DwarfInfo`: the offset and the tag must be given, every other
/// attribute is absent unless given and there are no nested entries unless
/// given.
pub struct DwarfInfoBuilder<OffsetP, TagP> {
    pub offset: OffsetP,
    pub tag: TagP,
    pub name: Option<String>,
    pub type_offset: Option<Offset>,
    pub byte_size: Option<usize>,
    pub bit_size: Option<usize>,
    pub bit_offset: Option<usize>,
    pub location: Option<Location>,
    pub upper_bound: Option<usize>,
    pub const_value: Option<isize>,
    pub data_member_location: Option<usize>,
    pub declaration: Option<bool>,
    pub specification: Option<Offset>,
    pub children: Vec<DwarfInfo>,
}

impl DwarfInfoBuilder<(), ()> {
    pub fn new() -> (res: Self)
        ensures
            res.name is None,
            res.type_offset is None,
            res.byte_size is None,
            res.bit_size is None,
            res.bit_offset is None,
            res.location is None,
            res.upper_bound is None,
            res.const_value is None,
            res.data_member_location is None,
            res.declaration is None,
            res.specification is None,
            res.children@.len() == 0,
    {
        DwarfInfoBuilder {
            offset: (),
            tag: (),
            name: None,
            type_offset: None,
            byte_size: None,
            bit_size: None,
            bit_offset: None,
            location: None,
            upper_bound: None,
            const_value: None,
            data_member_location: None,
            declaration: None,
            specification: None,
            children: Vec::new(),
        }
    }
}

/// The entry that building gives: the offset, the tag, the attributes and
/// the nested entries set on the builder.
pub open spec fn built_info(b: DwarfInfoBuilder<Offset, DwarfTag>) -> DwarfInfo {
    DwarfInfo {
        offset: b.offset,
        tag: b.tag,
        name: b.name,
        type_offset: b.type_offset,
        byte_size: b.byte_size,
        bit_size: b.bit_size,
        bit_offset: b.bit_offset,
        location: b.location,
        upper_bound: b.upper_bound,
        const_value: b.const_value,
        data_member_location: b.data_member_location,
        declaration: b.declaration,
        specification: b.specification,
        children: b.children,
    }
}

/// A call of one of the attribute setters of an entry builder, with its
/// value.
pub enum AttributeSetting {
    Name(String),
    TypeOffset(Offset),
    ByteSize(usize),
    BitSize(usize),
    BitOffset(usize),
    Location(Location),
    UpperBound(usize),
    ConstValue(isize),
    DataMemberLocation(usize),
    Declaration(bool),
    Specification(Offset),
}

/// The builder after one attribute setter call.
pub open spec fn apply_setting<O, T>(b: DwarfInfoBuilder<O, T>, setting: AttributeSetting) -> DwarfInfoBuilder<O, T> {
    match setting {
        AttributeSetting::Name(v) => DwarfInfoBuilder { name: Some(v), ..b },
        AttributeSetting::TypeOffset(v) => DwarfInfoBuilder { type_offset: Some(v), ..b },
        AttributeSetting::ByteSize(v) => DwarfInfoBuilder { byte_size: Some(v), ..b },
        AttributeSetting::BitSize(v) => DwarfInfoBuilder { bit_size: Some(v), ..b },
        AttributeSetting::BitOffset(v) => DwarfInfoBuilder { bit_offset: Some(v), ..b },
        AttributeSetting::Location(v) => DwarfInfoBuilder { location: Some(v), ..b },
        AttributeSetting::UpperBound(v) => DwarfInfoBuilder { upper_bound: Some(v), ..b },
        AttributeSetting::ConstValue(v) => DwarfInfoBuilder { const_value: Some(v), ..b },
        AttributeSetting::DataMemberLocation(v) => DwarfInfoBuilder { data_member_location: Some(v), ..b },
        AttributeSetting::Declaration(v) => DwarfInfoBuilder { declaration: Some(v), ..b },
        AttributeSetting::Specification(v) => DwarfInfoBuilder { specification: Some(v), ..b },
    }
}

/// The builder after the attribute setter calls `settings`, in order.
pub open spec fn apply_settings<O, T>(b: DwarfInfoBuilder<O, T>, settings: Seq<AttributeSetting>) -> DwarfInfoBuilder<O, T>
    decreases settings.len(),
{
    if settings.len() == 0 {
        b
    } else {
        apply_setting(apply_settings(b, settings.drop_last()), settings.last())
    }
}

/// The value of the last of `settings` that `pick` picks a value from, if
/// any does.
pub open spec fn last_set<V>(settings: Seq<AttributeSetting>, pick: spec_fn(AttributeSetting) -> Option<V>) -> Option<V>
    decreases settings.len(),
{
    if settings.len() == 0 {
        None
    } else {
        match pick(settings.last()) {
            Some(v) => Some(v),
            None => last_set(settings.drop_last(), pick),
        }
    }
}

/// Whatever attribute setters are called on a fresh entry builder (one
/// whose attributes are all absent), in whatever order, the entry built
/// has the offset, the tag and the nested entries of the builder, each
/// attribute set to the value it was last given, and each attribute never
/// set absent.
pub proof fn law_info_builder_reads_back(b: DwarfInfoBuilder<Offset, DwarfTag>, settings: Seq<AttributeSetting>)
    requires
        b.name is None,
        b.type_offset is None,
        b.byte_size is None,
        b.bit_size is None,
        b.bit_offset is None,
        b.location is None,
        b.upper_bound is None,
        b.const_value is None,
        b.data_member_location is None,
        b.declaration is None,
        b.specification is None,
    ensures
        built_info(apply_settings(b, settings)) == (DwarfInfo {
            offset: b.offset,
            tag: b.tag,
            name: last_set(settings, |s: AttributeSetting| if let AttributeSetting::Name(v) = s { Some(v) } else { None }),
            type_offset: last_set(
                settings,
                |s: AttributeSetting| if let AttributeSetting::TypeOffset(v) = s { Some(v) } else { None },
            ),
            byte_size: last_set(
                settings,
                |s: AttributeSetting| if let AttributeSetting::ByteSize(v) = s { Some(v) } else { None },
            ),
            bit_size: last_set(
                settings,
                |s: AttributeSetting| if let AttributeSetting::BitSize(v) = s { Some(v) } else { None },
            ),
            bit_offset: last_set(
                settings,
                |s: AttributeSetting| if let AttributeSetting::BitOffset(v) = s { Some(v) } else { None },
            ),
            location: last_set(
                settings,
                |s: AttributeSetting| if let AttributeSetting::Location(v) = s { Some(v) } else { None },
            ),
            upper_bound: last_set(
                settings,
                |s: AttributeSetting| if let AttributeSetting::UpperBound(v) = s { Some(v) } else { None },
            ),
            const_value: last_set(
                settings,
                |s: AttributeSetting| if let AttributeSetting::ConstValue(v) = s { Some(v) } else { None },
            ),
            data_member_location: last_set(
                settings,
                |s: AttributeSetting| if let AttributeSetting::DataMemberLocation(v) = s { Some(v) } else { None },
            ),
            declaration: last_set(
                settings,
                |s: AttributeSetting| if let AttributeSetting::Declaration(v) = s { Some(v) } else { None },
            ),
            specification: last_set(
                settings,
                |s: AttributeSetting| if let AttributeSetting::Specification(v) = s { Some(v) } else { None },
            ),
            children: b.children,
        }),
    decreases settings.len(),
{
    if settings.len() > 0 {
        law_info_builder_reads_back(b, settings.drop_last());
    }
}

impl DwarfInfoBuilder<Offset, DwarfTag> {
    pub fn build(self) -> (res: DwarfInfo)
        ensures
            res == built_info(self),
            res.offset == self.offset,
            res.tag == self.tag,
            res.name == self.name,
            res.type_offset == self.type_offset,
            res.byte_size == self.byte_size,
            res.bit_size == self.bit_size,
            res.bit_offset == self.bit_offset,
            res.location == self.location,
            res.upper_bound == self.upper_bound,
            res.const_value == self.const_value,
            res.data_member_location == self.data_member_location,
            res.declaration == self.declaration,
            res.specification == self.specification,
            res.children == self.children,
    {
        DwarfInfo {
            offset: self.offset,
            tag: self.tag,
            name: self.name,
            type_offset: self.type_offset,
            byte_size: self.byte_size,
            bit_size: self.bit_size,
            bit_offset: self.bit_offset,
            location: self.location,
            upper_bound: self.upper_bound,
            const_value: self.const_value,
            data_member_location: self.data_member_location,
            declaration: self.declaration,
            specification: self.specification,
            children: self.children,
        }
    }
}

impl<OffsetP> DwarfInfoBuilder<OffsetP, ()> {
    pub fn tag(self, tag: DwarfTag) -> (res: DwarfInfoBuilder<OffsetP, DwarfTag>)
        ensures
            res.offset == self.offset,
            res.tag == tag,
            res.name == self.name,
            res.type_offset == self.type_offset,
            res.byte_size == self.byte_size,
            res.bit_size == self.bit_size,
            res.bit_offset == self.bit_offset,
            res.location == self.location,
            res.upper_bound == self.upper_bound,
            res.const_value == self.const_value,
            res.data_member_location == self.data_member_location,
            res.declaration == self.declaration,
            res.specification == self.specification,
            res.children == self.children,
    {
        DwarfInfoBuilder {
            offset: self.offset,
            tag: tag,
            name: self.name,
            type_offset: self.type_offset,
            byte_size: self.byte_size,
            bit_size: self.bit_size,
            bit_offset: self.bit_offset,
            location: self.location,
            upper_bound: self.upper_bound,
            const_value: self.const_value,
            data_member_location: self.data_member_location,
            declaration: self.declaration,
            specification: self.specification,
            children: self.children,
        }
    }
}

impl<TagP> DwarfInfoBuilder<(), TagP> {
    pub fn offset(self, offset: Offset) -> (res: DwarfInfoBuilder<Offset, TagP>)
        ensures
            res.offset == offset,
            res.tag == self.tag,
            res.name == self.name,
            res.type_offset == self.type_offset,
            res.byte_size == self.byte_size,
            res.bit_size == self.bit_size,
            res.bit_offset == self.bit_offset,
            res.location == self.location,
            res.upper_bound == self.upper_bound,
            res.const_value == self.const_value,
            res.data_member_location == self.data_member_location,
            res.declaration == self.declaration,
            res.specification == self.specification,
            res.children == self.children,
    {
        DwarfInfoBuilder {
            offset: offset,
            tag: self.tag,
            name: self.name,
            type_offset: self.type_offset,
            byte_size: self.byte_size,
            bit_size: self.bit_size,
            bit_offset: self.bit_offset,
            location: self.location,
            upper_bound: self.upper_bound,
            const_value: self.const_value,
            data_member_location: self.data_member_location,
            declaration: self.declaration,
            specification: self.specification,
            children: self.children,
        }
    }
}

impl<OffsetP, TagP> DwarfInfoBuilder<OffsetP, TagP> {
    pub fn name<S: IntoName>(self, name: S) -> (res: Self)
        ensures
            res.name matches Some(n) && n@ == name.name_view() && res == apply_setting(self, AttributeSetting::Name(n)),
    {
        let mut b = self;
        b.name = Some(name.into_name());
        b
    }

    pub fn type_offset(self, type_offset: Offset) -> (res: Self)
        ensures
            res == apply_setting(self, AttributeSetting::TypeOffset(type_offset)),
    {
        let mut b = self;
        b.type_offset = Some(type_offset);
        b
    }

    pub fn byte_size(self, size: usize) -> (res: Self)
        ensures
            res == apply_setting(self, AttributeSetting::ByteSize(size)),
    {
        let mut b = self;
        b.byte_size = Some(size);
        b
    }

    pub fn bit_size(self, size: usize) -> (res: Self)
        ensures
            res == apply_setting(self, AttributeSetting::BitSize(size)),
    {
        let mut b = self;
        b.bit_size = Some(size);
        b
    }

    pub fn bit_offset(self, offset: usize) -> (res: Self)
        ensures
            res == apply_setting(self, AttributeSetting::BitOffset(offset)),
    {
        let mut b = self;
        b.bit_offset = Some(offset);
        b
    }

    pub fn location(self, location: Location) -> (res: Self)
        ensures
            res == apply_setting(self, AttributeSetting::Location(location)),
    {
        let mut b = self;
        b.location = Some(location);
        b
    }

    pub fn upper_bound(self, upper_bound: usize) -> (res: Self)
        ensures
            res == apply_setting(self, AttributeSetting::UpperBound(upper_bound)),
    {
        let mut b = self;
        b.upper_bound = Some(upper_bound);
        b
    }

    pub fn const_value(self, const_value: isize) -> (res: Self)
        ensures
            res == apply_setting(self, AttributeSetting::ConstValue(const_value)),
    {
        let mut b = self;
        b.const_value = Some(const_value);
        b
    }

    pub fn data_member_location(self, data_member_location: usize) -> (res: Self)
        ensures
            res == apply_setting(self, AttributeSetting::DataMemberLocation(data_member_location)),
    {
        let mut b = self;
        b.data_member_location = Some(data_member_location);
        b
    }

    pub fn declaration(self, declaration: bool) -> (res: Self)
        ensures
            res == apply_setting(self, AttributeSetting::Declaration(declaration)),
    {
        let mut b = self;
        b.declaration = Some(declaration);
        b
    }

    pub fn specification(self, specification: Offset) -> (res: Self)
        ensures
            res == apply_setting(self, AttributeSetting::Specification(specification)),
    {
        let mut b = self;
        b.specification = Some(specification);
        b
    }

    pub fn children(self, children: Vec<DwarfInfo>) -> (res: Self)
        ensures
            res == (DwarfInfoBuilder { children: children, ..self }),
    {
        let mut b = self;
        b.children = children;
        b
    }
}

/// A debugging information entry as a reader of the `.debug_info` section
/// delivers it: its offset, its tag code, whether a list of nested entries
/// follows it, and its attributes as the numbers and strings they hold. A
/// unit's entries come in depth-first order; `None` stands for a null entry,
/// which closes a list of nested entries.
#[derive(Debug, PartialEq)]
pub struct RawEntry {
    pub offset: usize,
    pub tag: u16,
    pub has_children: bool,
    pub name: Option<String>,
    pub type_offset: Option<usize>,
    pub byte_size: Option<u64>,
    pub bit_size: Option<u64>,
    pub bit_offset: Option<u64>,
    /// The address that the entry's location expression evaluates to.
    pub location: Option<u64>,
    pub upper_bound: Option<u64>,
    pub const_value: Option<i64>,
    pub data_member_location: Option<u64>,
    pub declaration: Option<bool>,
    pub specification: Option<usize>,
}

/// A raw entry as a value: its name as characters.
pub struct RawEntryModel {
    pub offset: usize,
    pub tag: u16,
    pub has_children: bool,
    pub name: Option<Seq<char>>,
    pub type_offset: Option<usize>,
    pub byte_size: Option<u64>,
    pub bit_size: Option<u64>,
    pub bit_offset: Option<u64>,
    pub location: Option<u64>,
    pub upper_bound: Option<u64>,
    pub const_value: Option<i64>,
    pub data_member_location: Option<u64>,
    pub declaration: Option<bool>,
    pub specification: Option<usize>,
}

impl View for RawEntry {
    type V = RawEntryModel;

    open spec fn view(&self) -> RawEntryModel {
        RawEntryModel {
            offset: self.offset,
            tag: self.tag,
            has_children: self.has_children,
            name: option_string_view(self.name),
            type_offset: self.type_offset,
            byte_size: self.byte_size,
            bit_size: self.bit_size,
            bit_offset: self.bit_offset,
            location: self.location,
            upper_bound: self.upper_bound,
            const_value: self.const_value,
            data_member_location: self.data_member_location,
            declaration: self.declaration,
            specification: self.specification,
        }
    }
}

/// The values of a unit's raw entries.
pub open spec fn raw_views(s: Seq<Option<RawEntry>>) -> Seq<Option<RawEntryModel>> {
    s.map_values(
        |o: Option<RawEntry>|
            match o {
                Some(r) => Some(r@),
                None => None,
            },
    )
}

/// The values of the raw entries of several units.
pub open spec fn units_views(units: Seq<Vec<Option<RawEntry>>>) -> Seq<Seq<Option<RawEntryModel>>> {
    units.map_values(|u: Vec<Option<RawEntry>>| raw_views(u@))
}

pub open spec fn option_u64_as_usize(o: Option<u64>) -> Option<usize> {
    match o {
        Some(v) => Some(v as usize),
        None => None,
    }
}

pub open spec fn option_i64_as_isize(o: Option<i64>) -> Option<isize> {
    match o {
        Some(v) => Some(v as isize),
        None => None,
    }
}

/// The entry that a raw entry and its nested entries make. Only a variable
/// has a location.
pub open spec fn raw_info_model(r: RawEntryModel, children: Seq<DwarfInfoModel>) -> DwarfInfoModel {
    DwarfInfoModel {
        offset: r.offset,
        tag: tag_of_code(r.tag),
        name: r.name,
        type_offset: r.type_offset,
        byte_size: option_u64_as_usize(r.byte_size),
        bit_size: option_u64_as_usize(r.bit_size),
        bit_offset: option_u64_as_usize(r.bit_offset),
        location: if tag_of_code(r.tag) == DwarfTag::DW_TAG_variable {
            option_u64_as_usize(r.location)
        } else {
            None
        },
        upper_bound: option_u64_as_usize(r.upper_bound),
        const_value: option_i64_as_isize(r.const_value),
        data_member_location: option_u64_as_usize(r.data_member_location),
        declaration: r.declaration,
        specification: r.specification,
        children: children,
    }
}

/// The entry at the front of a stream of raw entries, and how many raw
/// entries it takes: none at the end of the stream, and none (one null
/// entry taken) at a null entry.
pub open spec fn parse_info(s: Seq<Option<RawEntryModel>>) -> (Option<DwarfInfoModel>, int)
    decreases s.len(), 0int,
{
    if s.len() == 0 {
        (None, 0)
    } else {
        match s[0] {
            None => (None, 1),
            Some(r) => if r.has_children {
                let (cs, n) = parse_infos(s.skip(1));
                (Some(raw_info_model(r, cs)), n + 1)
            } else {
                (Some(raw_info_model(r, Seq::empty())), 1)
            },
        }
    }
}

/// The entries at the front of a stream of raw entries, up to and with the
/// null entry or the end of the stream that closes them, and how many raw
/// entries they take.
pub open spec fn parse_infos(s: Seq<Option<RawEntryModel>>) -> (Seq<DwarfInfoModel>, int)
    decreases s.len(), 1int,
{
    let (i, n) = parse_info(s);
    match i {
        None => (Seq::empty(), n),
        Some(m) => if 1 <= n <= s.len() {
            let (ms, k) = parse_infos(s.skip(n));
            (seq![m] + ms, n + k)
        } else {
            (seq![m], n)
        },
    }
}

pub proof fn lemma_parse_lengths(s: Seq<Option<RawEntryModel>>)
    ensures
        0 <= parse_info(s).1 <= s.len(),
        parse_info(s).0 is Some ==> 1 <= parse_info(s).1,
        0 <= parse_infos(s).1 <= s.len(),
    decreases s.len(),
{
    if s.len() > 0 {
        match s[0] {
            None => {},
            Some(r) => {
                if r.has_children {
                    lemma_parse_lengths(s.skip(1));
                }
            },
        }
        let (i, n) = parse_info(s);
        if i is Some {
            lemma_parse_lengths(s.skip(n));
        }
    }
}

/// Raw entries without nested entries and without a null entry read back as
/// one entry each, in their order, taking the whole stream.
pub proof fn law_flat_entries(s: Seq<Option<RawEntryModel>>)
    requires
        forall|i: int| 0 <= i < s.len() ==> (#[trigger] s[i]) is Some && !s[i]->Some_0.has_children,
    ensures
        parse_infos(s).1 == s.len(),
        parse_infos(s).0.len() == s.len(),
        forall|i: int|
            0 <= i < s.len() ==> #[trigger] parse_infos(s).0[i] == raw_info_model(
                s[i]->Some_0,
                Seq::empty(),
            ),
    decreases s.len(),
{
    if s.len() > 0 {
        let rest = s.skip(1);
        assert forall|i: int| 0 <= i < rest.len() implies (#[trigger] rest[i]) is Some
            && !rest[i]->Some_0.has_children by {
            assert(rest[i] == s[i + 1]);
        }
        law_flat_entries(rest);
        assert(s[0] is Some);
        assert(parse_info(s) == (Some(raw_info_model(s[0]->Some_0, Seq::empty())), 1int));
        let (ms, k) = parse_infos(rest);
        assert(parse_infos(s).0 == seq![raw_info_model(s[0]->Some_0, Seq::empty())] + ms);
        assert(parse_infos(s).1 == 1 + k);
        assert forall|i: int| 0 <= i < s.len() implies #[trigger] parse_infos(s).0[i] == raw_info_model(
            s[i]->Some_0,
            Seq::empty(),
        ) by {
            if i > 0 {
                assert(rest[i - 1] == s[i]);
            }
        }
    } else {
        assert(parse_info(s) == (None::<DwarfInfoModel>, 0int));
    }
}

/// The entry and its nested entries made from a raw entry.
fn info_from_raw(r: &RawEntry, children: Vec<DwarfInfo>) -> (res: DwarfInfo)
    ensures
        res@ == raw_info_model(r@, dwarf_info_views(children@)),
{
    let tag = DwarfTag::from_code(r.tag);
    let location = match (&tag, r.location) {
        (DwarfTag::DW_TAG_variable, Some(address)) => Some(Location::new(address as usize)),
        _ => None,
    };
    DwarfInfo {
        offset: Offset::new(r.offset),
        tag: tag,
        name: clone_option_string(&r.name),
        type_offset: match r.type_offset {
            Some(o) => Some(Offset::new(o)),
            None => None,
        },
        byte_size: match r.byte_size {
            Some(v) => Some(v as usize),
            None => None,
        },
        bit_size: match r.bit_size {
            Some(v) => Some(v as usize),
            None => None,
        },
        bit_offset: match r.bit_offset {
            Some(v) => Some(v as usize),
            None => None,
        },
        location: location,
        upper_bound: match r.upper_bound {
            Some(v) => Some(v as usize),
            None => None,
        },
        const_value: match r.const_value {
            Some(v) => Some(v as isize),
            None => None,
        },
        data_member_location: match r.data_member_location {
            Some(v) => Some(v as usize),
            None => None,
        },
        declaration: r.declaration,
        specification: match r.specification {
            Some(o) => Some(Offset::new(o)),
            None => None,
        },
        children: children,
    }
}

/// Where the reading of a debugging information file starts.
pub struct DwarfInfoIntoIterator {
    pub elf_path: String,
}

impl DwarfInfoIntoIterator {
    pub fn new(elf_path: String) -> (res: DwarfInfoIntoIterator)
        ensures
            res.elf_path == elf_path,
    {
        DwarfInfoIntoIterator { elf_path }
    }

    /// Whether the location of an entry with this tag code is read: only a
    /// variable's is.
    pub fn reads_location(tag: u16) -> (res: bool)
        ensures
            res == (tag_of_code(tag) == DwarfTag::DW_TAG_variable),
    {
        tag == DW_TAG_VARIABLE
    }

    /// Reads the entry at `*pos` of a unit's raw entries, with all the
    /// entries nested in it, and moves `*pos` past them.
    pub fn next_info(entries: &Vec<Option<RawEntry>>, pos: &mut usize) -> (res: Option<DwarfInfo>)
        requires
            *old(pos) <= entries@.len(),
        ensures
            *final(pos) == *old(pos) + parse_info(raw_views(entries@).skip(*old(pos) as int)).1,
            match res {
                Some(info) => parse_info(raw_views(entries@).skip(*old(pos) as int)).0 == Some(info@),
                None => parse_info(raw_views(entries@).skip(*old(pos) as int)).0 is None,
            },
        decreases entries@.len() - *old(pos), 0int,
    {
        let ghost s = raw_views(entries@).skip(*pos as int);
        proof {
            lemma_parse_lengths(s);
        }
        if *pos >= entries.len() {
            proof {
                assert(s.len() == 0);
            }
            return None;
        }
        match &entries[*pos] {
            None => {
                *pos = *pos + 1;
                None
            },
            Some(r) => {
                proof {
                    assert(s[0] == Some(r@));
                }
                *pos = *pos + 1;
                let mut children = Vec::new();
                if r.has_children {
                    proof {
                        assert(raw_views(entries@).skip(*pos as int) =~= s.skip(1));
                    }
                    children = Self::next_infos(entries, pos);
                } else {
                    proof {
                        lemma_dwarf_info_views(children@);
                        assert(dwarf_info_views(children@) =~= Seq::<DwarfInfoModel>::empty());
                    }
                }
                Some(info_from_raw(r, children))
            },
        }
    }

    /// Reads the entries from `*pos` of a unit's raw entries up to and with
    /// the null entry or the end that closes them, and moves `*pos` past
    /// them.
    pub fn next_infos(entries: &Vec<Option<RawEntry>>, pos: &mut usize) -> (res: Vec<DwarfInfo>)
        requires
            *old(pos) <= entries@.len(),
        ensures
            *final(pos) == *old(pos) + parse_infos(raw_views(entries@).skip(*old(pos) as int)).1,
            dwarf_info_views(res@) == parse_infos(raw_views(entries@).skip(*old(pos) as int)).0,
        decreases entries@.len() - *old(pos), 1int,
    {
        let ghost start = *pos as int;
        let mut infos: Vec<DwarfInfo> = Vec::new();
        proof {
            lemma_dwarf_info_views(infos@);
            assert(dwarf_info_views(infos@) =~= Seq::<DwarfInfoModel>::empty());
        }
        loop
            invariant
                start == *old(pos),
                start <= *pos <= entries@.len(),
                parse_infos(raw_views(entries@).skip(start)).0 == dwarf_info_views(infos@) + parse_infos(
                    raw_views(entries@).skip(*pos as int),
                ).0,
                start + parse_infos(raw_views(entries@).skip(start)).1 == *pos + parse_infos(
                    raw_views(entries@).skip(*pos as int),
                ).1,
            decreases entries@.len() - *pos,
        {
            let ghost s = raw_views(entries@).skip(*pos as int);
            let ghost p = *pos as int;
            proof {
                lemma_parse_lengths(s);
            }
            match Self::next_info(entries, pos) {
                None => {
                    proof {
                        assert(parse_infos(s).1 == parse_info(s).1);
                        assert(parse_infos(s).0 =~= Seq::<DwarfInfoModel>::empty());
                        assert(dwarf_info_views(infos@) + parse_infos(s).0 =~= dwarf_info_views(
                            infos@,
                        ));
                    }
                    return infos;
                },
                Some(info) => {
                    proof {
                        let n = parse_info(s).1;
                        assert(s.skip(n) =~= raw_views(entries@).skip(p + n));
                        lemma_dwarf_info_views(infos@);
                    }
                    let ghost before = infos@;
                    infos.push(info);
                    proof {
                        lemma_dwarf_info_views(infos@);
                        lemma_dwarf_info_views(before);
                        let n = parse_info(s).1;
                        assert(dwarf_info_views(infos@) =~= dwarf_info_views(before).push(info@));
                        assert(dwarf_info_views(before) + parse_infos(s).0 =~= dwarf_info_views(
                            infos@,
                        ) + parse_infos(raw_views(entries@).skip(p + n)).0);
                    }
                },
            }
        }
    }

    /// The entries of a unit, from its raw entries: the unit's own entry
    /// comes first and is passed over, the entries after it are read up to
    /// the null entry or the end that closes them.
    pub fn infos_of_unit(entries: &Vec<Option<RawEntry>>) -> (res: Vec<DwarfInfo>)
        ensures
            dwarf_info_views(res@) == parse_infos(raw_views(entries@).skip(if entries@.len() == 0 { 0int } else { 1int })).0,
    {
        let mut pos: usize = if entries.len() == 0 { 0 } else { 1 };
        Self::next_infos(entries, &mut pos)
    }
}

/// The entries of a unit, from its raw entries (see `infos_of_unit`).
pub open spec fn unit_infos(u: Seq<Option<RawEntryModel>>) -> Seq<DwarfInfoModel> {
    parse_infos(u.skip(if u.len() == 0 { 0int } else { 1int })).0
}

/// The entries of all units, one unit after the other.
pub open spec fn units_infos(units: Seq<Seq<Option<RawEntryModel>>>) -> Seq<DwarfInfoModel>
    decreases units.len(),
{
    if units.len() == 0 {
        Seq::empty()
    } else {
        units_infos(units.drop_last()) + unit_infos(units.last())
    }
}

pub proof fn lemma_dwarf_info_views_append(a: Seq<DwarfInfo>, b: Seq<DwarfInfo>)
    ensures
        dwarf_info_views(a + b) == dwarf_info_views(a) + dwarf_info_views(b),
{
    lemma_dwarf_info_views(a);
    lemma_dwarf_info_views(b);
    lemma_dwarf_info_views(a + b);
    assert(dwarf_info_views(a + b) =~= dwarf_info_views(a) + dwarf_info_views(b));
}

/// How far the evaluation of a location expression has come.
#[derive(Debug, Clone, Copy, PartialEq, Eq, Structural)]
pub enum EvaluationStep {
    /// The evaluation is done and its result can be read.
    Complete,
    /// The evaluation needs the relocated value of this address.
    RequiresRelocatedAddress(u64),
    /// The evaluation needs something else: a register, memory, a frame base.
    RequiresOther,
}

/// What to do next with the evaluation of a location expression.
#[derive(Debug, Clone, Copy, PartialEq, Eq, Structural)]
pub enum EvaluationAction {
    /// Read the result.
    Finish,
    /// Resume with this address as the relocated one.
    ResumeWithRelocatedAddress(u64),
    /// Stop: the entry has no location.
    GiveUp,
}

/// Where the first piece of an evaluated location expression is.
#[derive(Debug, Clone, Copy, PartialEq, Eq, Structural)]
pub enum FirstPiece {
    /// The piece is in memory, at this address.
    Address(u64),
    /// The piece is somewhere else (a register, a value, nowhere).
    Elsewhere,
    /// The result holds no piece.
    Missing,
}

impl DwarfInfoIntoIterator {
    /// The entries of all units, from each unit's raw entries.
    pub fn infos_of_units(units: &Vec<Vec<Option<RawEntry>>>) -> (res: Vec<DwarfInfo>)
        ensures
            dwarf_info_views(res@) == units_infos(units_views(units@)),
    {
        let mut infos: Vec<DwarfInfo> = Vec::new();
        proof {
            lemma_dwarf_info_views(infos@);
            assert(dwarf_info_views(infos@) =~= units_infos(units_views(units@).take(0)));
        }
        let mut i: usize = 0;
        while i < units.len()
            invariant
                i <= units@.len(),
                dwarf_info_views(infos@) == units_infos(units_views(units@).take(i as int)),
            decreases units@.len() - i,
        {
            let mut unit_entries = Self::infos_of_unit(&units[i]);
            let ghost before = infos@;
            let ghost added = unit_entries@;
            infos.append(&mut unit_entries);
            proof {
                lemma_dwarf_info_views_append(before, added);
                assert(units_views(units@).take(i + 1).drop_last() =~= units_views(units@).take(i as int));
                assert(units_views(units@).take(i + 1).last() == raw_views(units@[i as int]@));
            }
            i = i + 1;
        }
        proof {
            assert(units_views(units@).take(units@.len() as int) =~= units_views(units@));
        }
        infos
    }

    /// The next step of the evaluation of a variable's location: read the
    /// result when it is complete, resume with the address itself when the
    /// relocated address is asked for, and give up on anything else.
    pub fn next_evaluation_action(step: EvaluationStep) -> (res: EvaluationAction)
        ensures
            res == evaluation_action(step),
    {
        match step {
            EvaluationStep::Complete => EvaluationAction::Finish,
            EvaluationStep::RequiresRelocatedAddress(address) => EvaluationAction::ResumeWithRelocatedAddress(address),
            EvaluationStep::RequiresOther => EvaluationAction::GiveUp,
        }
    }

    /// The location of a variable from the first piece of its evaluated
    /// location expression: the address when the piece is in memory.
    pub fn location_from_first_piece(piece: FirstPiece) -> (res: Option<u64>)
        ensures
            res == first_piece_location(piece),
    {
        match piece {
            FirstPiece::Address(address) => Some(address),
            _ => None,
        }
    }
}

/// The next step of an evaluation at a given step (see
/// `next_evaluation_action`).
pub open spec fn evaluation_action(step: EvaluationStep) -> EvaluationAction {
    match step {
        EvaluationStep::Complete => EvaluationAction::Finish,
        EvaluationStep::RequiresRelocatedAddress(a) => EvaluationAction::ResumeWithRelocatedAddress(a),
        EvaluationStep::RequiresOther => EvaluationAction::GiveUp,
    }
}

/// The location that the first piece of an evaluated expression gives.
pub open spec fn first_piece_location(piece: FirstPiece) -> Option<u64> {
    match piece {
        FirstPiece::Address(a) => Some(a),
        _ => None,
    }
}

// ---------------------------------------------------------------------
// Reading an ELF file
// ---------------------------------------------------------------------

// The codes of the attributes that are read, as DWARF fixes them.
pub const DW_AT_LOCATION: u16 = 0x02;
pub const DW_AT_NAME: u16 = 0x03;
pub const DW_AT_BYTE_SIZE: u16 = 0x0b;
pub const DW_AT_BIT_OFFSET: u16 = 0x0c;
pub const DW_AT_BIT_SIZE: u16 = 0x0d;
pub const DW_AT_CONST_VALUE: u16 = 0x1c;
pub const DW_AT_UPPER_BOUND: u16 = 0x2f;
pub const DW_AT_DATA_MEMBER_LOCATION: u16 = 0x38;
pub const DW_AT_DECLARATION: u16 = 0x3c;
pub const DW_AT_SPECIFICATION: u16 = 0x47;
pub const DW_AT_TYPE: u16 = 0x49;

/// What the header of a unit of `.debug_info` gives: the length of the unit
/// with its header, the offset of its first entry within the unit, and the
/// encoding of its expressions.
#[derive(Debug, Clone, Copy, PartialEq, Eq, Structural)]
pub struct UnitHeaderInfo {
    pub length: usize,
    pub first_entry: usize,
    pub dwarf64: bool,
    pub version: u16,
    pub address_size: u8,
}

/// What reading the entry at an offset of a unit gives: whether there was
/// one to read, its tag (none for a null entry), whether entries are nested
/// in it, and the offset within the unit of the entry after it.
#[derive(Debug, Clone, Copy, PartialEq, Eq, Structural)]
pub struct EntryHead {
    pub more: bool,
    pub tag: Option<u16>,
    pub has_children: bool,
    pub next: usize,
}

/// Whether an ELF file is little endian (none when it cannot be parsed).
pub uninterp spec fn spec_elf_little_endian(elf: Seq<u8>) -> Option<bool>;

/// The data of the section with a name in an ELF file, uncompressed.
pub uninterp spec fn spec_elf_section(elf: Seq<u8>, name: Seq<char>) -> Option<Seq<u8>>;

/// The header of the unit at an offset of `.debug_info`.
pub uninterp spec fn spec_unit_header(info: Seq<u8>, little_endian: bool, offset: usize) -> Option<
    UnitHeaderInfo,
>;

/// What reading the entry at offset `entry` of the unit at `unit` gives.
pub uninterp spec fn spec_entry_head(
    info: Seq<u8>,
    abbrev: Seq<u8>,
    little_endian: bool,
    unit: usize,
    entry: usize,
) -> Option<EntryHead>;

/// The unsigned value of an attribute of an entry (its constant forms).
pub uninterp spec fn spec_attr_udata(
    info: Seq<u8>,
    abbrev: Seq<u8>,
    little_endian: bool,
    unit: usize,
    entry: usize,
    at: u16,
) -> Option<u64>;

/// The signed value of an attribute of an entry (its constant forms).
pub uninterp spec fn spec_attr_sdata(
    info: Seq<u8>,
    abbrev: Seq<u8>,
    little_endian: bool,
    unit: usize,
    entry: usize,
    at: u16,
) -> Option<i64>;

/// The value of an attribute of an entry in the unsigned LEB128 form only.
pub uninterp spec fn spec_attr_udata_form(
    info: Seq<u8>,
    abbrev: Seq<u8>,
    little_endian: bool,
    unit: usize,
    entry: usize,
    at: u16,
) -> Option<u64>;

/// The value of a flag attribute of an entry.
pub uninterp spec fn spec_attr_flag(
    info: Seq<u8>,
    abbrev: Seq<u8>,
    little_endian: bool,
    unit: usize,
    entry: usize,
    at: u16,
) -> Option<bool>;

/// The offset, relative to the start of its unit, of the entry that an
/// attribute of an entry refers to within that unit.
pub uninterp spec fn spec_attr_unit_ref(
    info: Seq<u8>,
    abbrev: Seq<u8>,
    little_endian: bool,
    unit: usize,
    entry: usize,
    at: u16,
) -> Option<usize>;

/// The bytes of a string attribute of an entry (inline or in `.debug_str`).
pub uninterp spec fn spec_attr_string(
    info: Seq<u8>,
    abbrev: Seq<u8>,
    strs: Seq<u8>,
    little_endian: bool,
    unit: usize,
    entry: usize,
    at: u16,
) -> Option<Seq<u8>>;

/// The bytes of an expression attribute of an entry.
pub uninterp spec fn spec_attr_exprloc(
    info: Seq<u8>,
    abbrev: Seq<u8>,
    little_endian: bool,
    unit: usize,
    entry: usize,
    at: u16,
) -> Option<Seq<u8>>;

/// The characters of bytes in UTF-8 (none when they are not UTF-8).
pub uninterp spec fn spec_utf8(bytes: Seq<u8>) -> Option<Seq<char>>;

/// The step an evaluation of an expression, allowed at most `max_iterations`
/// operations in all, reaches after the relocated addresses `resumes` have
/// been given to it in turn (none on an error, and none once it would run
/// more operations than allowed).
pub uninterp spec fn spec_evaluation_step(
    expression: Seq<u8>,
    little_endian: bool,
    dwarf64: bool,
    version: u16,
    address_size: u8,
    max_iterations: u32,
    resumes: Seq<u64>,
) -> Option<EvaluationStep>;

/// The first piece of the result of that evaluation.
pub uninterp spec fn spec_evaluation_first_piece(
    expression: Seq<u8>,
    little_endian: bool,
    dwarf64: bool,
    version: u16,
    address_size: u8,
    max_iterations: u32,
    resumes: Seq<u64>,
) -> Option<FirstPiece>;

/// Whether each of `resumes` was asked for: the evaluation, given the ones
/// before it, waits for a relocated address.
pub open spec fn resumes_asked_for(
    expression: Seq<u8>,
    little_endian: bool,
    dwarf64: bool,
    version: u16,
    address_size: u8,
    max_iterations: u32,
    resumes: Seq<u64>,
) -> bool {
    forall|i: int|
        0 <= i < resumes.len() ==> #[trigger] spec_evaluation_step(
            expression,
            little_endian,
            dwarf64,
            version,
            address_size,
            max_iterations,
            resumes.take(i),
        ) matches Some(EvaluationStep::RequiresRelocatedAddress(_))
}

/// Whether an ELF file is little endian: `object::File::parse` and
/// `is_little_endian`. The result is named by `spec_elf_little_endian`.
#[verifier::external_body]
fn elf_little_endian(elf: &[u8]) -> (res: Option<bool>)
    ensures
        res == spec_elf_little_endian(elf@),
{
    object::File::parse(elf).ok().map(|file| file.is_little_endian())
}

/// The uncompressed data of a section of an ELF file: `object::File::parse`,
/// `section_by_name` and `uncompressed_data`. The result is named by
/// `spec_elf_section`.
#[verifier::external_body]
fn elf_section(elf: &[u8], name: &str) -> (res: Option<Vec<u8>>)
    ensures
        match res {
            Some(v) => spec_elf_section(elf@, name@) == Some(v@),
            None => spec_elf_section(elf@, name@) is None,
        },
{
    let file = object::File::parse(elf).ok()?;
    file.section_by_name(name)?.uncompressed_data().ok().map(|data| data.into_owned())
}

/// The header of the unit at an offset of `.debug_info`:
/// `gimli::DebugInfo::header_from_offset`. The result is named by
/// `spec_unit_header`.
#[verifier::external_body]
fn unit_header(info: &[u8], little_endian: bool, offset: usize) -> (res: Option<UnitHeaderInfo>)
    ensures
        res == spec_unit_header(info@, little_endian, offset),
{
    let endian = if little_endian { gimli::RunTimeEndian::Little } else { gimli::RunTimeEndian::Big };
    let header = gimli::DebugInfo::new(info, endian).header_from_offset(gimli::DebugInfoOffset(offset)).ok()?;
    Some(UnitHeaderInfo {
        length: header.length_including_self(),
        first_entry: header.header_size(),
        dwarf64: header.format() == gimli::Format::Dwarf64,
        version: header.version(),
        address_size: header.address_size(),
    })
}

/// Reads the entry at an offset of a unit with `gimli`'s entries cursor
/// (`entries_at_offset`, `next_entry`, `current`, `next_offset`). The
/// result is named by `spec_entry_head`.
#[verifier::external_body]
fn entry_head(info: &[u8], abbrev: &[u8], little_endian: bool, unit: usize, entry: usize) -> (res: Option<EntryHead>)
    ensures
        res == spec_entry_head(info@, abbrev@, little_endian, unit, entry),
{
    let endian = if little_endian { gimli::RunTimeEndian::Little } else { gimli::RunTimeEndian::Big };
    let header = gimli::DebugInfo::new(info, endian).header_from_offset(gimli::DebugInfoOffset(unit)).ok()?;
    let abbrevs = header.abbreviations(&gimli::DebugAbbrev::new(abbrev, endian)).ok()?;
    let mut cursor = header.entries_at_offset(&abbrevs, gimli::UnitOffset(entry)).ok()?;
    let more = cursor.next_entry().ok()?;
    let current = cursor.current();
    Some(EntryHead {
        more,
        tag: current.map(|e| e.tag().0),
        has_children: current.map_or(false, |e| e.has_children()),
        next: cursor.next_offset().0,
    })
}

/// The unsigned value of an attribute: `attr_value` and `udata_value` of
/// `gimli`. The result is named by `spec_attr_udata`.
#[verifier::external_body]
fn attr_udata(info: &[u8], abbrev: &[u8], little_endian: bool, unit: usize, entry: usize, at: u16) -> (res: Option<u64>)
    ensures
        res == spec_attr_udata(info@, abbrev@, little_endian, unit, entry, at),
{
    let endian = if little_endian { gimli::RunTimeEndian::Little } else { gimli::RunTimeEndian::Big };
    let header = gimli::DebugInfo::new(info, endian).header_from_offset(gimli::DebugInfoOffset(unit)).ok()?;
    let abbrevs = header.abbreviations(&gimli::DebugAbbrev::new(abbrev, endian)).ok()?;
    let mut cursor = header.entries_at_offset(&abbrevs, gimli::UnitOffset(entry)).ok()?;
    cursor.next_entry().ok()?;
    cursor.current()?.attr_value(gimli::DwAt(at))?.udata_value()
}

/// The signed value of an attribute: `attr_value` and `sdata_value` of
/// `gimli`. The result is named by `spec_attr_sdata`.
#[verifier::external_body]
fn attr_sdata(info: &[u8], abbrev: &[u8], little_endian: bool, unit: usize, entry: usize, at: u16) -> (res: Option<i64>)
    ensures
        res == spec_attr_sdata(info@, abbrev@, little_endian, unit, entry, at),
{
    let endian = if little_endian { gimli::RunTimeEndian::Little } else { gimli::RunTimeEndian::Big };
    let header = gimli::DebugInfo::new(info, endian).header_from_offset(gimli::DebugInfoOffset(unit)).ok()?;
    let abbrevs = header.abbreviations(&gimli::DebugAbbrev::new(abbrev, endian)).ok()?;
    let mut cursor = header.entries_at_offset(&abbrevs, gimli::UnitOffset(entry)).ok()?;
    cursor.next_entry().ok()?;
    cursor.current()?.attr_value(gimli::DwAt(at))?.sdata_value()
}

/// The value of an attribute in the `Udata` form of `gimli`'s attribute
/// values only. The result is named by `spec_attr_udata_form`.
#[verifier::external_body]
fn attr_udata_form(info: &[u8], abbrev: &[u8], little_endian: bool, unit: usize, entry: usize, at: u16) -> (res: Option<
    u64,
>)
    ensures
        res == spec_attr_udata_form(info@, abbrev@, little_endian, unit, entry, at),
{
    let endian = if little_endian { gimli::RunTimeEndian::Little } else { gimli::RunTimeEndian::Big };
    let header = gimli::DebugInfo::new(info, endian).header_from_offset(gimli::DebugInfoOffset(unit)).ok()?;
    let abbrevs = header.abbreviations(&gimli::DebugAbbrev::new(abbrev, endian)).ok()?;
    let mut cursor = header.entries_at_offset(&abbrevs, gimli::UnitOffset(entry)).ok()?;
    cursor.next_entry().ok()?;
    match cursor.current()?.attr_value(gimli::DwAt(at))? {
        gimli::AttributeValue::Udata(value) => Some(value),
        _ => None,
    }
}

/// The value of an attribute in the `Flag` form of `gimli`'s attribute
/// values. The result is named by `spec_attr_flag`.
#[verifier::external_body]
fn attr_flag(info: &[u8], abbrev: &[u8], little_endian: bool, unit: usize, entry: usize, at: u16) -> (res: Option<bool>)
    ensures
        res == spec_attr_flag(info@, abbrev@, little_endian, unit, entry, at),
{
    let endian = if little_endian { gimli::RunTimeEndian::Little } else { gimli::RunTimeEndian::Big };
    let header = gimli::DebugInfo::new(info, endian).header_from_offset(gimli::DebugInfoOffset(unit)).ok()?;
    let abbrevs = header.abbreviations(&gimli::DebugAbbrev::new(abbrev, endian)).ok()?;
    let mut cursor = header.entries_at_offset(&abbrevs, gimli::UnitOffset(entry)).ok()?;
    cursor.next_entry().ok()?;
    match cursor.current()?.attr_value(gimli::DwAt(at))? {
        gimli::AttributeValue::Flag(flag) => Some(flag),
        _ => None,
    }
}

/// The unit-relative offset that an attribute in the `UnitRef` form holds
/// (`attr_value` of `gimli`, the offset taken as it is). The result is named
/// by `spec_attr_unit_ref`.
#[verifier::external_body]
fn attr_unit_ref(info: &[u8], abbrev: &[u8], little_endian: bool, unit: usize, entry: usize, at: u16) -> (res: Option<
    usize,
>)
    ensures
        res == spec_attr_unit_ref(info@, abbrev@, little_endian, unit, entry, at),
{
    let endian = if little_endian { gimli::RunTimeEndian::Little } else { gimli::RunTimeEndian::Big };
    let header = gimli::DebugInfo::new(info, endian).header_from_offset(gimli::DebugInfoOffset(unit)).ok()?;
    let abbrevs = header.abbreviations(&gimli::DebugAbbrev::new(abbrev, endian)).ok()?;
    let mut cursor = header.entries_at_offset(&abbrevs, gimli::UnitOffset(entry)).ok()?;
    cursor.next_entry().ok()?;
    match cursor.current()?.attr_value(gimli::DwAt(at))? {
        gimli::AttributeValue::UnitRef(offset) => Some(offset.0),
        _ => None,
    }
}

/// The bytes of a string attribute: `string_value` of `gimli`, with
/// `.debug_str`. The result is named by `spec_attr_string`.
#[verifier::external_body]
fn attr_string(
    info: &[u8],
    abbrev: &[u8],
    strs: &[u8],
    little_endian: bool,
    unit: usize,
    entry: usize,
    at: u16,
) -> (res: Option<Vec<u8>>)
    ensures
        match res {
            Some(v) => spec_attr_string(info@, abbrev@, strs@, little_endian, unit, entry, at) == Some(v@),
            None => spec_attr_string(info@, abbrev@, strs@, little_endian, unit, entry, at) is None,
        },
{
    let endian = if little_endian { gimli::RunTimeEndian::Little } else { gimli::RunTimeEndian::Big };
    let header = gimli::DebugInfo::new(info, endian).header_from_offset(gimli::DebugInfoOffset(unit)).ok()?;
    let abbrevs = header.abbreviations(&gimli::DebugAbbrev::new(abbrev, endian)).ok()?;
    let mut cursor = header.entries_at_offset(&abbrevs, gimli::UnitOffset(entry)).ok()?;
    cursor.next_entry().ok()?;
    let value = cursor.current()?.attr_value(gimli::DwAt(at))?;
    value.string_value(&gimli::DebugStr::new(strs, endian)).map(|r| r.slice().to_vec())
}

/// The bytes of an expression attribute: `exprloc_value` of `gimli`. The
/// result is named by `spec_attr_exprloc`.
#[verifier::external_body]
fn attr_exprloc(info: &[u8], abbrev: &[u8], little_endian: bool, unit: usize, entry: usize, at: u16) -> (res: Option<
    Vec<u8>,
>)
    ensures
        match res {
            Some(v) => spec_attr_exprloc(info@, abbrev@, little_endian, unit, entry, at) == Some(v@),
            None => spec_attr_exprloc(info@, abbrev@, little_endian, unit, entry, at) is None,
        },
{
    let endian = if little_endian { gimli::RunTimeEndian::Little } else { gimli::RunTimeEndian::Big };
    let header = gimli::DebugInfo::new(info, endian).header_from_offset(gimli::DebugInfoOffset(unit)).ok()?;
    let abbrevs = header.abbreviations(&gimli::DebugAbbrev::new(abbrev, endian)).ok()?;
    let mut cursor = header.entries_at_offset(&abbrevs, gimli::UnitOffset(entry)).ok()?;
    cursor.next_entry().ok()?;
    cursor.current()?.attr_value(gimli::DwAt(at))?.exprloc_value().map(|x| x.0.slice().to_vec())
}

/// Bytes as a UTF-8 string: `String::from_utf8`. The result is named by
/// `spec_utf8`.
#[verifier::external_body]
fn utf8_string(bytes: Vec<u8>) -> (res: Option<String>)
    ensures
        match res {
            Some(s) => spec_utf8(bytes@) == Some(s@),
            None => spec_utf8(bytes@) is None,
        },
{
    String::from_utf8(bytes).ok()
}

/// The step that `gimli`'s evaluation of an expression reaches
/// (`set_max_iterations`, `evaluate`, then `resume_with_relocated_address`
/// with each of `resumes` in turn). `gimli` ends the evaluation with the
/// error `TooManyIterations` once it would run more than `max_iterations`
/// operations; that error, as any other, gives `None`. The result is named
/// by `spec_evaluation_step`. Each resume must have been asked for
/// (`gimli` panics otherwise), and an address size above eight bytes makes
/// `gimli` overflow a shift when it makes its address mask.
#[verifier::external_body]
fn evaluation_step(
    expression: &[u8],
    little_endian: bool,
    dwarf64: bool,
    version: u16,
    address_size: u8,
    max_iterations: u32,
    resumes: &Vec<u64>,
) -> (res: Option<EvaluationStep>)
    requires
        address_size <= 8,
        resumes_asked_for(expression@, little_endian, dwarf64, version, address_size, max_iterations, resumes@),
    ensures
        res == spec_evaluation_step(expression@, little_endian, dwarf64, version, address_size, max_iterations, resumes@),
{
    let endian = if little_endian { gimli::RunTimeEndian::Little } else { gimli::RunTimeEndian::Big };
    let format = if dwarf64 { gimli::Format::Dwarf64 } else { gimli::Format::Dwarf32 };
    let encoding = gimli::Encoding { format, version, address_size };
    let mut evaluation = gimli::Expression(gimli::EndianSlice::new(expression, endian)).evaluation(encoding);
    evaluation.set_max_iterations(max_iterations);
    let first = evaluation.evaluate().ok()?;
    match resumes.iter().try_fold(first, |_, a| evaluation.resume_with_relocated_address(*a)).ok()? {
        gimli::EvaluationResult::Complete => Some(EvaluationStep::Complete),
        gimli::EvaluationResult::RequiresRelocatedAddress(a) => Some(EvaluationStep::RequiresRelocatedAddress(a)),
        _ => Some(EvaluationStep::RequiresOther),
    }
}

/// The first piece of the result of `gimli`'s evaluation of an expression
/// (as in `evaluation_step`), from `result`. The result is named by
/// `spec_evaluation_first_piece`. The evaluation must have completed
/// (`result` panics otherwise).
#[verifier::external_body]
fn evaluation_first_piece(
    expression: &[u8],
    little_endian: bool,
    dwarf64: bool,
    version: u16,
    address_size: u8,
    max_iterations: u32,
    resumes: &Vec<u64>,
) -> (res: Option<FirstPiece>)
    requires
        address_size <= 8,
        resumes_asked_for(expression@, little_endian, dwarf64, version, address_size, max_iterations, resumes@),
        spec_evaluation_step(expression@, little_endian, dwarf64, version, address_size, max_iterations, resumes@)
            == Some(EvaluationStep::Complete),
    ensures
        res == spec_evaluation_first_piece(
            expression@,
            little_endian,
            dwarf64,
            version,
            address_size,
            max_iterations,
            resumes@,
        ),
{
    let endian = if little_endian { gimli::RunTimeEndian::Little } else { gimli::RunTimeEndian::Big };
    let format = if dwarf64 { gimli::Format::Dwarf64 } else { gimli::Format::Dwarf32 };
    let encoding = gimli::Encoding { format, version, address_size };
    let mut evaluation = gimli::Expression(gimli::EndianSlice::new(expression, endian)).evaluation(encoding);
    evaluation.set_max_iterations(max_iterations);
    let first = evaluation.evaluate().ok()?;
    resumes.iter().try_fold(first, |_, a| evaluation.resume_with_relocated_address(*a)).ok()?;
    match evaluation.result().first().map(|piece| piece.location.clone()) {
        Some(gimli::Location::Address { address }) => Some(FirstPiece::Address(address)),
        Some(_) => Some(FirstPiece::Elsewhere),
        None => Some(FirstPiece::Missing),
    }
}

/// The most operations an evaluation of a location expression may run; an
/// evaluation that would run more (a backward skip or branch that never
/// ends) gives no location.
pub const EVALUATION_STEP_LIMIT: u32 = 1_000_000;

/// The location that evaluating an expression gives, when each relocated
/// address asked for is given back as it is, at most `fuel` more times
/// from `resumes` on.
pub open spec fn spec_location_from(
    expression: Seq<u8>,
    little_endian: bool,
    unit: UnitHeaderInfo,
    resumes: Seq<u64>,
    fuel: nat,
) -> Option<u64>
    decreases fuel,
{
    match spec_evaluation_step(
        expression,
        little_endian,
        unit.dwarf64,
        unit.version,
        unit.address_size,
        EVALUATION_STEP_LIMIT,
        resumes,
    ) {
        None => None,
        Some(step) => match evaluation_action(step) {
            EvaluationAction::Finish => match spec_evaluation_first_piece(
                expression,
                little_endian,
                unit.dwarf64,
                unit.version,
                unit.address_size,
                EVALUATION_STEP_LIMIT,
                resumes,
            ) {
                Some(piece) => first_piece_location(piece),
                None => None,
            },
            EvaluationAction::ResumeWithRelocatedAddress(a) => if fuel == 0 {
                None
            } else {
                spec_location_from(expression, little_endian, unit, resumes.push(a), (fuel - 1) as nat)
            },
            EvaluationAction::GiveUp => None,
        },
    }
}

/// The location of a variable from its location expression: the
/// evaluation resumed as often as it asks (at most once per byte of the
/// expression), then the address of the first piece. A unit whose
/// addresses are wider than eight bytes gives none.
pub open spec fn spec_location(expression: Seq<u8>, little_endian: bool, unit: UnitHeaderInfo) -> Option<u64> {
    if unit.address_size > 8 {
        None
    } else {
        spec_location_from(expression, little_endian, unit, Seq::empty(), expression.len())
    }
}

/// The `.debug_info` offset of an entry that a reference, relative to the
/// unit at `unit`, points to (none where it would not fit in `usize`).
pub open spec fn spec_section_offset(unit: usize, reference: Option<usize>) -> Option<usize> {
    match reference {
        Some(r) => if unit + r <= usize::MAX {
            Some((unit + r) as usize)
        } else {
            None
        },
        None => None,
    }
}

/// The raw entry that an entry read at offset `entry` of the unit at
/// `unit` gives: none for a null entry, else its attributes (a location
/// only for a variable, a name only in UTF-8).
pub open spec fn spec_raw_entry(
    info: Seq<u8>,
    abbrev: Seq<u8>,
    strs: Seq<u8>,
    little_endian: bool,
    header: UnitHeaderInfo,
    unit: usize,
    entry: usize,
    head: EntryHead,
) -> Option<RawEntryModel> {
    match head.tag {
        None => None,
        Some(tag) => Some(
            RawEntryModel {
                offset: (unit + entry) as usize,
                tag,
                has_children: head.has_children,
                name: match spec_attr_string(info, abbrev, strs, little_endian, unit, entry, DW_AT_NAME) {
                    Some(bytes) => spec_utf8(bytes),
                    None => None,
                },
                type_offset: spec_section_offset(
                    unit,
                    spec_attr_unit_ref(info, abbrev, little_endian, unit, entry, DW_AT_TYPE),
                ),
                byte_size: spec_attr_udata(info, abbrev, little_endian, unit, entry, DW_AT_BYTE_SIZE),
                bit_size: spec_attr_udata(info, abbrev, little_endian, unit, entry, DW_AT_BIT_SIZE),
                bit_offset: spec_attr_udata(info, abbrev, little_endian, unit, entry, DW_AT_BIT_OFFSET),
                location: if tag_of_code(tag) == DwarfTag::DW_TAG_variable {
                    match spec_attr_exprloc(info, abbrev, little_endian, unit, entry, DW_AT_LOCATION) {
                        Some(expression) => spec_location(expression, little_endian, header),
                        None => None,
                    }
                } else {
                    None
                },
                upper_bound: spec_attr_udata(info, abbrev, little_endian, unit, entry, DW_AT_UPPER_BOUND),
                const_value: spec_attr_sdata(info, abbrev, little_endian, unit, entry, DW_AT_CONST_VALUE),
                data_member_location: spec_attr_udata_form(
                    info,
                    abbrev,
                    little_endian,
                    unit,
                    entry,
                    DW_AT_DATA_MEMBER_LOCATION,
                ),
                declaration: spec_attr_flag(info, abbrev, little_endian, unit, entry, DW_AT_DECLARATION),
                specification: spec_section_offset(
                    unit,
                    spec_attr_unit_ref(info, abbrev, little_endian, unit, entry, DW_AT_SPECIFICATION),
                ),
            },
        ),
    }
}

/// The raw entries of the unit at `unit`, from offset `entry` within it to
/// its end, in order (at most `fuel` of them); reading stops where no entry
/// can be read or where reading would not move forward.
pub open spec fn spec_unit_entries(
    info: Seq<u8>,
    abbrev: Seq<u8>,
    strs: Seq<u8>,
    little_endian: bool,
    header: UnitHeaderInfo,
    unit: usize,
    entry: usize,
    fuel: nat,
) -> Seq<Option<RawEntryModel>>
    decreases fuel,
{
    if fuel == 0 || entry >= header.length || unit + entry > usize::MAX {
        Seq::empty()
    } else {
        match spec_entry_head(info, abbrev, little_endian, unit, entry) {
            None => Seq::empty(),
            Some(head) => if !head.more || head.next <= entry {
                Seq::empty()
            } else {
                seq![spec_raw_entry(info, abbrev, strs, little_endian, header, unit, entry, head)]
                    + spec_unit_entries(info, abbrev, strs, little_endian, header, unit, head.next, (fuel - 1) as nat)
            },
        }
    }
}

/// The raw entries of the units of `.debug_info` from offset `offset` on,
/// one unit after the other (at most `fuel` units); reading stops at the
/// end of the section or where no unit header can be read.
pub open spec fn spec_units(
    info: Seq<u8>,
    abbrev: Seq<u8>,
    strs: Seq<u8>,
    little_endian: bool,
    offset: usize,
    fuel: nat,
) -> Seq<Seq<Option<RawEntryModel>>>
    decreases fuel,
{
    if fuel == 0 || offset >= info.len() {
        Seq::empty()
    } else {
        match spec_unit_header(info, little_endian, offset) {
            None => Seq::empty(),
            Some(header) => if header.length == 0 || offset + header.length > usize::MAX {
                Seq::empty()
            } else {
                seq![
                    spec_unit_entries(
                        info,
                        abbrev,
                        strs,
                        little_endian,
                        header,
                        offset,
                        header.first_entry,
                        header.length as nat,
                    ),
                ] + spec_units(
                    info,
                    abbrev,
                    strs,
                    little_endian,
                    (offset + header.length) as usize,
                    (fuel - 1) as nat,
                )
            },
        }
    }
}

/// A section of an ELF file, or nothing when it has none.
pub open spec fn section_or_empty(elf: Seq<u8>, name: Seq<char>) -> Seq<u8> {
    match spec_elf_section(elf, name) {
        Some(data) => data,
        None => Seq::empty(),
    }
}

/// The debugging information entries of an ELF file of the given byte
/// order: those of each unit of its `.debug_info`, one unit after the
/// other.
pub open spec fn spec_elf_infos(elf: Seq<u8>, little_endian: bool) -> Seq<DwarfInfoModel> {
    units_infos(
        spec_units(
            section_or_empty(elf, ".debug_info"@),
            section_or_empty(elf, ".debug_abbrev"@),
            section_or_empty(elf, ".debug_str"@),
            little_endian,
            0,
            section_or_empty(elf, ".debug_info"@).len(),
        ),
    )
}

pub open spec fn option_raw_view(r: Option<RawEntry>) -> Option<RawEntryModel> {
    match r {
        Some(r) => Some(r@),
        None => None,
    }
}

/// A section of an ELF file, or nothing when it has none.
fn section_or_empty_bytes(elf: &[u8], name: &str) -> (res: Vec<u8>)
    ensures
        res@ == section_or_empty(elf@, name@),
{
    match elf_section(elf, name) {
        Some(data) => data,
        None => Vec::new(),
    }
}

impl DwarfInfoIntoIterator {
    /// The location of a variable from its location expression (see
    /// `spec_location`): the evaluation is resumed with each relocated
    /// address it asks for, given back as it is.
    pub fn location_of(expression: &[u8], little_endian: bool, unit: UnitHeaderInfo) -> (res: Option<u64>)
        ensures
            res == spec_location(expression@, little_endian, unit),
    {
        if unit.address_size > 8 {
            return None;
        }
        let mut resumes: Vec<u64> = Vec::new();
        let mut fuel: usize = expression.len();
        loop
            invariant
                unit.address_size <= 8,
                spec_location(expression@, little_endian, unit) == spec_location_from(
                    expression@,
                    little_endian,
                    unit,
                    resumes@,
                    fuel as nat,
                ),
                resumes_asked_for(
                    expression@,
                    little_endian,
                    unit.dwarf64,
                    unit.version,
                    unit.address_size,
                    EVALUATION_STEP_LIMIT,
                    resumes@,
                ),
            decreases fuel,
        {
            let step = match evaluation_step(
                expression,
                little_endian,
                unit.dwarf64,
                unit.version,
                unit.address_size,
                EVALUATION_STEP_LIMIT,
                &resumes,
            ) {
                Some(step) => step,
                None => return None,
            };
            match Self::next_evaluation_action(step) {
                EvaluationAction::Finish => {
                    return match evaluation_first_piece(
                        expression,
                        little_endian,
                        unit.dwarf64,
                        unit.version,
                        unit.address_size,
                        EVALUATION_STEP_LIMIT,
                        &resumes,
                    ) {
                        Some(piece) => Self::location_from_first_piece(piece),
                        None => None,
                    };
                },
                EvaluationAction::ResumeWithRelocatedAddress(address) => {
                    if fuel == 0 {
                        return None;
                    }
                    proof {
                        let asked = resumes@;
                        assert forall|i: int| 0 <= i < asked.push(address).len() implies #[trigger] spec_evaluation_step(
                            expression@,
                            little_endian,
                            unit.dwarf64,
                            unit.version,
                            unit.address_size,
                            EVALUATION_STEP_LIMIT,
                            asked.push(address).take(i),
                        ) matches Some(EvaluationStep::RequiresRelocatedAddress(_)) by {
                            if i < asked.len() {
                                assert(asked.push(address).take(i) =~= asked.take(i));
                            } else {
                                assert(asked.push(address).take(i) =~= asked);
                            }
                        }
                    }
                    resumes.push(address);
                    fuel = fuel - 1;
                },
                EvaluationAction::GiveUp => {
                    return None;
                },
            }
        }
    }

    /// The `.debug_info` offset that a unit-relative reference points to
    /// (see `spec_section_offset`).
    pub fn section_offset(unit: usize, reference: Option<usize>) -> (res: Option<usize>)
        ensures
            res == spec_section_offset(unit, reference),
    {
        match reference {
            Some(r) => unit.checked_add(r),
            None => None,
        }
    }

    /// The raw entry read at offset `entry` of the unit at `unit` (see
    /// `spec_raw_entry`).
    fn raw_entry(
        info: &[u8],
        abbrev: &[u8],
        strs: &[u8],
        little_endian: bool,
        header: UnitHeaderInfo,
        unit: usize,
        entry: usize,
        head: EntryHead,
    ) -> (res: Option<RawEntry>)
        requires
            unit + entry <= usize::MAX,
        ensures
            option_raw_view(res) == spec_raw_entry(info@, abbrev@, strs@, little_endian, header, unit, entry, head),
    {
        let tag = match head.tag {
            None => return None,
            Some(tag) => tag,
        };
        let name = match attr_string(info, abbrev, strs, little_endian, unit, entry, DW_AT_NAME) {
            Some(bytes) => utf8_string(bytes),
            None => None,
        };
        let location = if Self::reads_location(tag) {
            match attr_exprloc(info, abbrev, little_endian, unit, entry, DW_AT_LOCATION) {
                Some(expression) => Self::location_of(expression.as_slice(), little_endian, header),
                None => None,
            }
        } else {
            None
        };
        Some(
            RawEntry {
                offset: unit + entry,
                tag,
                has_children: head.has_children,
                name,
                type_offset: Self::section_offset(
                    unit,
                    attr_unit_ref(info, abbrev, little_endian, unit, entry, DW_AT_TYPE),
                ),
                byte_size: attr_udata(info, abbrev, little_endian, unit, entry, DW_AT_BYTE_SIZE),
                bit_size: attr_udata(info, abbrev, little_endian, unit, entry, DW_AT_BIT_SIZE),
                bit_offset: attr_udata(info, abbrev, little_endian, unit, entry, DW_AT_BIT_OFFSET),
                location,
                upper_bound: attr_udata(info, abbrev, little_endian, unit, entry, DW_AT_UPPER_BOUND),
                const_value: attr_sdata(info, abbrev, little_endian, unit, entry, DW_AT_CONST_VALUE),
                data_member_location: attr_udata_form(
                    info,
                    abbrev,
                    little_endian,
                    unit,
                    entry,
                    DW_AT_DATA_MEMBER_LOCATION,
                ),
                declaration: attr_flag(info, abbrev, little_endian, unit, entry, DW_AT_DECLARATION),
                specification: Self::section_offset(
                    unit,
                    attr_unit_ref(info, abbrev, little_endian, unit, entry, DW_AT_SPECIFICATION),
                ),
            },
        )
    }

    /// The raw entries of the unit at `unit` (see `spec_unit_entries`).
    pub fn unit_entries(
        info: &[u8],
        abbrev: &[u8],
        strs: &[u8],
        little_endian: bool,
        header: UnitHeaderInfo,
        unit: usize,
    ) -> (res: Vec<Option<RawEntry>>)
        ensures
            raw_views(res@) == spec_unit_entries(
                info@,
                abbrev@,
                strs@,
                little_endian,
                header,
                unit,
                header.first_entry,
                header.length as nat,
            ),
    {
        let ghost all = spec_unit_entries(
            info@,
            abbrev@,
            strs@,
            little_endian,
            header,
            unit,
            header.first_entry,
            header.length as nat,
        );
        let mut entries: Vec<Option<RawEntry>> = Vec::new();
        let mut entry = header.first_entry;
        let mut fuel: usize = header.length;
        proof {
            assert(raw_views(entries@) =~= Seq::<Option<RawEntryModel>>::empty());
            assert(all =~= raw_views(entries@) + all);
        }
        loop
            invariant
                all == spec_unit_entries(
                    info@,
                    abbrev@,
                    strs@,
                    little_endian,
                    header,
                    unit,
                    header.first_entry,
                    header.length as nat,
                ),
                all == raw_views(entries@) + spec_unit_entries(
                    info@,
                    abbrev@,
                    strs@,
                    little_endian,
                    header,
                    unit,
                    entry,
                    fuel as nat,
                ),
            decreases fuel,
        {
            let rest = Ghost(
                spec_unit_entries(info@, abbrev@, strs@, little_endian, header, unit, entry, fuel as nat),
            );
            if fuel == 0 || entry >= header.length || unit.checked_add(entry).is_none() {
                proof {
                    assert(rest@ =~= Seq::<Option<RawEntryModel>>::empty());
                    assert(all =~= raw_views(entries@));
                }
                return entries;
            }
            let head = match entry_head(info, abbrev, little_endian, unit, entry) {
                Some(head) => head,
                None => {
                    proof {
                        assert(all =~= raw_views(entries@));
                    }
                    return entries;
                },
            };
            if !head.more || head.next <= entry {
                proof {
                    assert(all =~= raw_views(entries@));
                }
                return entries;
            }
            let raw = Self::raw_entry(info, abbrev, strs, little_endian, header, unit, entry, head);
            let ghost before = entries@;
            entries.push(raw);
            proof {
                assert(raw_views(entries@) =~= raw_views(before).push(option_raw_view(raw)));
                assert(all =~= raw_views(entries@) + spec_unit_entries(
                    info@,
                    abbrev@,
                    strs@,
                    little_endian,
                    header,
                    unit,
                    head.next,
                    (fuel - 1) as nat,
                ));
            }
            entry = head.next;
            fuel = fuel - 1;
        }
    }

    /// The raw entries of every unit of `.debug_info` (see `spec_units`).
    pub fn dwarf_units(info: &[u8], abbrev: &[u8], strs: &[u8], little_endian: bool) -> (res: Vec<
        Vec<Option<RawEntry>>,
    >)
        ensures
            units_views(res@) == spec_units(info@, abbrev@, strs@, little_endian, 0, info@.len()),
    {
        let ghost all = spec_units(info@, abbrev@, strs@, little_endian, 0, info@.len());
        let mut units: Vec<Vec<Option<RawEntry>>> = Vec::new();
        let mut offset: usize = 0;
        let mut fuel: usize = info.len();
        proof {
            assert(units_views(units@) =~= Seq::<Seq<Option<RawEntryModel>>>::empty());
            assert(all =~= units_views(units@) + all);
        }
        loop
            invariant
                all == spec_units(info@, abbrev@, strs@, little_endian, 0, info@.len()),
                all == units_views(units@) + spec_units(info@, abbrev@, strs@, little_endian, offset, fuel as nat),
            decreases fuel,
        {
            if fuel == 0 || offset >= info.len() {
                proof {
                    assert(all =~= units_views(units@));
                }
                return units;
            }
            let header = match unit_header(info, little_endian, offset) {
                Some(header) => header,
                None => {
                    proof {
                        assert(all =~= units_views(units@));
                    }
                    return units;
                },
            };
            let next = match offset.checked_add(header.length) {
                Some(next) => next,
                None => {
                    proof {
                        assert(all =~= units_views(units@));
                    }
                    return units;
                },
            };
            if header.length == 0 {
                proof {
                    assert(all =~= units_views(units@));
                }
                return units;
            }
            let entries = Self::unit_entries(info, abbrev, strs, little_endian, header, offset);
            let ghost before = units@;
            units.push(entries);
            proof {
                assert(units_views(units@) =~= units_views(before).push(raw_views(entries@)));
                assert(all =~= units_views(units@) + spec_units(
                    info@,
                    abbrev@,
                    strs@,
                    little_endian,
                    next,
                    (fuel - 1) as nat,
                ));
            }
            offset = next;
            fuel = fuel - 1;
        }
    }

    /// The debugging information entries of an ELF file (see
    /// `spec_elf_infos`); none when the file cannot be parsed.
    pub fn infos_of_elf(elf: &[u8]) -> (res: Option<Vec<DwarfInfo>>)
        ensures
            match spec_elf_little_endian(elf@) {
                None => res is None,
                Some(little_endian) => res is Some && dwarf_info_views(res->Some_0@) == spec_elf_infos(
                    elf@,
                    little_endian,
                ),
            },
    {
        let little_endian = match elf_little_endian(elf) {
            Some(little_endian) => little_endian,
            None => return None,
        };
        let info = section_or_empty_bytes(elf, ".debug_info");
        let abbrev = section_or_empty_bytes(elf, ".debug_abbrev");
        let strs = section_or_empty_bytes(elf, ".debug_str");
        let units = Self::dwarf_units(info.as_slice(), abbrev.as_slice(), strs.as_slice(), little_endian);
        Some(Self::infos_of_units(&units))
    }
}

} // verus!
