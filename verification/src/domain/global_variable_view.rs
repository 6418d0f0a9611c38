use vstd::prelude::*;

use super::global_variable::{Address, option_address_value};
use super::type_entry::{EnumeratorEntry, EnumeratorModel};
use crate::library::text::{IntoName, clone_option_string, option_into_name, option_name_view, option_string_view};

verus! {

/// A variable, or a part of one (a member, an element), as it is shown: its
/// name, address, size, bit field, type, and the parts it is made of.
#[derive(Debug, PartialEq)]
pub struct GlobalVariableView {
    pub name: String,
    pub address: Option<Address>,
    pub size: usize,
    pub bit_size: Option<usize>,
    pub bit_offset: Option<usize>,
    pub type_view: TypeView,
    pub children: Vec<GlobalVariableView>,
}

/// A type as it is shown.
#[derive(Debug, PartialEq)]
pub enum TypeView {
    TypeDef { name: String, type_view: Box<TypeView> },
    Volatile { type_view: Box<TypeView> },
    Const { type_view: Box<TypeView> },
    VoidPointer,
    Pointer { type_view: Box<TypeView> },
    Base { name: String },
    Structure { name: Option<String> },
    Union { name: Option<String> },
    Array { element_type: Box<TypeView>, upper_bound: Option<usize> },
    Enum { name: Option<String>, type_view: Box<TypeView>, enumerators: Vec<Enumerator> },
    Function,
}

/// A constant of an enumeration type, as it is shown.
#[derive(Debug, Clone, PartialEq)]
pub struct Enumerator {
    pub name: String,
    pub value: isize,
}

// ---------------------------------------------------------------------
// Values
// ---------------------------------------------------------------------

/// A type as it is shown, as a value.
pub enum TypeViewModel {
    TypeDef { name: Seq<char>, type_view: Box<TypeViewModel> },
    Volatile { type_view: Box<TypeViewModel> },
    Const { type_view: Box<TypeViewModel> },
    VoidPointer,
    Pointer { type_view: Box<TypeViewModel> },
    Base { name: Seq<char> },
    Structure { name: Option<Seq<char>> },
    Union { name: Option<Seq<char>> },
    Array { element_type: Box<TypeViewModel>, upper_bound: Option<usize> },
    Enum { name: Option<Seq<char>>, type_view: Box<TypeViewModel>, enumerators: Seq<EnumeratorModel> },
    Function,
}

/// A variable as it is shown, as a value.
pub struct VariableViewModel {
    pub name: Seq<char>,
    pub address: Option<usize>,
    pub size: usize,
    pub bit_size: Option<usize>,
    pub bit_offset: Option<usize>,
    pub type_view: TypeViewModel,
    pub children: Seq<VariableViewModel>,
}

impl View for Enumerator {
    type V = EnumeratorModel;

    open spec fn view(&self) -> EnumeratorModel {
        EnumeratorModel { name: self.name@, value: self.value }
    }
}

pub open spec fn enumerators_view(s: Seq<Enumerator>) -> Seq<EnumeratorModel> {
    s.map_values(|e: Enumerator| e@)
}

impl View for TypeView {
    type V = TypeViewModel;

    open spec fn view(&self) -> TypeViewModel
        decreases self,
    {
        match self {
            TypeView::TypeDef { name, type_view } => TypeViewModel::TypeDef {
                name: name@,
                type_view: Box::new((**type_view)@),
            },
            TypeView::Volatile { type_view } => TypeViewModel::Volatile { type_view: Box::new((**type_view)@) },
            TypeView::Const { type_view } => TypeViewModel::Const { type_view: Box::new((**type_view)@) },
            TypeView::VoidPointer => TypeViewModel::VoidPointer,
            TypeView::Pointer { type_view } => TypeViewModel::Pointer { type_view: Box::new((**type_view)@) },
            TypeView::Base { name } => TypeViewModel::Base { name: name@ },
            TypeView::Structure { name } => TypeViewModel::Structure { name: option_string_view(*name) },
            TypeView::Union { name } => TypeViewModel::Union { name: option_string_view(*name) },
            TypeView::Array { element_type, upper_bound } => TypeViewModel::Array {
                element_type: Box::new((**element_type)@),
                upper_bound: *upper_bound,
            },
            TypeView::Enum { name, type_view, enumerators } => TypeViewModel::Enum {
                name: option_string_view(*name),
                type_view: Box::new((**type_view)@),
                enumerators: enumerators_view(enumerators@),
            },
            TypeView::Function => TypeViewModel::Function,
        }
    }
}

impl View for GlobalVariableView {
    type V = VariableViewModel;

    open spec fn view(&self) -> VariableViewModel
        decreases self,
    {
        VariableViewModel {
            name: self.name@,
            address: option_address_value(self.address),
            size: self.size,
            bit_size: self.bit_size,
            bit_offset: self.bit_offset,
            type_view: self.type_view@,
            children: variable_views(self.children@),
        }
    }
}

/// The values of a sequence of variable views.
pub open spec fn variable_views(s: Seq<GlobalVariableView>) -> Seq<VariableViewModel>
    decreases s,
{
    if s.len() == 0 {
        Seq::empty()
    } else {
        variable_views(s.drop_last()).push(s.last()@)
    }
}

pub proof fn lemma_variable_views(s: Seq<GlobalVariableView>)
    ensures
        variable_views(s).len() == s.len(),
        forall|i: int| 0 <= i < s.len() ==> #[trigger] variable_views(s)[i] == s[i]@,
    decreases s.len(),
{
    if s.len() > 0 {
        lemma_variable_views(s.drop_last());
        assert(variable_views(s) == variable_views(s.drop_last()).push(s.last()@));
    } else {
        assert(variable_views(s) == Seq::<VariableViewModel>::empty());
    }
}

pub proof fn lemma_variable_views_push(s: Seq<GlobalVariableView>, v: GlobalVariableView)
    ensures
        variable_views(s.push(v)) == variable_views(s).push(v@),
{
    assert(s.push(v).drop_last() =~= s);
}

/// A copy of a type as it is shown.
pub fn copy_type_view(t: &TypeView) -> (res: TypeView)
    ensures
        res@ == t@,
    decreases t,
{
    match t {
        TypeView::TypeDef { name, type_view } => TypeView::TypeDef {
            name: name.clone(),
            type_view: Box::new(copy_type_view(type_view)),
        },
        TypeView::Volatile { type_view } => TypeView::Volatile { type_view: Box::new(copy_type_view(type_view)) },
        TypeView::Const { type_view } => TypeView::Const { type_view: Box::new(copy_type_view(type_view)) },
        TypeView::VoidPointer => TypeView::VoidPointer,
        TypeView::Pointer { type_view } => TypeView::Pointer { type_view: Box::new(copy_type_view(type_view)) },
        TypeView::Base { name } => TypeView::Base { name: name.clone() },
        TypeView::Structure { name } => TypeView::Structure { name: clone_option_string(name) },
        TypeView::Union { name } => TypeView::Union { name: clone_option_string(name) },
        TypeView::Array { element_type, upper_bound } => TypeView::Array {
            element_type: Box::new(copy_type_view(element_type)),
            upper_bound: *upper_bound,
        },
        TypeView::Enum { name, type_view, enumerators } => {
            let mut copied: Vec<Enumerator> = Vec::new();
            let mut i: usize = 0;
            while i < enumerators.len()
                invariant
                    i <= enumerators@.len(),
                    copied@.len() == i,
                    forall|k: int| 0 <= k < i ==> #[trigger] copied@[k]@ == enumerators@[k]@,
                decreases enumerators@.len() - i,
            {
                let e = &enumerators[i];
                let c = Enumerator { name: e.name.clone(), value: e.value };
                copied.push(c);

                i = i + 1;
            }
            proof {
                assert(enumerators_view(copied@) =~= enumerators_view(enumerators@));
            }
            TypeView::Enum {
                name: clone_option_string(name),
                type_view: Box::new(copy_type_view(type_view)),
                enumerators: copied,
            }
        },
        TypeView::Function => TypeView::Function,
    }
}

impl Clone for TypeView {
    fn clone(&self) -> (res: Self)
        ensures
            res@ == self@,
    {
        copy_type_view(self)
    }
}

/// A copy of a variable as it is shown, with all its parts.
pub fn copy_variable_view(v: &GlobalVariableView) -> (res: GlobalVariableView)
    ensures
        res@ == v@,
    decreases v,
{
    let mut children: Vec<GlobalVariableView> = Vec::new();
    let mut i: usize = 0;
    proof {
        lemma_variable_views(v.children@);
    }
    while i < v.children.len()
        invariant
            i <= v.children@.len(),
            variable_views(v.children@).len() == v.children@.len(),
            forall|j: int| 0 <= j < v.children@.len() ==> #[trigger] variable_views(v.children@)[j] == v.children@[j]@,
            variable_views(children@) == variable_views(v.children@).take(i as int),
        decreases v.children@.len() - i,
    {
        let ghost before = children@;
        let child = copy_variable_view(&v.children[i]);
        children.push(child);
        proof {
            lemma_variable_views_push(before, child);
            assert(variable_views(children@) =~= variable_views(v.children@).take(i + 1));
        }
        i = i + 1;
    }
    proof {
        assert(variable_views(v.children@).take(v.children@.len() as int) =~= variable_views(v.children@));
    }
    GlobalVariableView {
        name: v.name.clone(),
        address: v.address,
        size: v.size,
        bit_size: v.bit_size,
        bit_offset: v.bit_offset,
        type_view: copy_type_view(&v.type_view),
        children,
    }
}

impl Clone for GlobalVariableView {
    fn clone(&self) -> (res: Self)
        ensures
            res@ == self@,
    {
        copy_variable_view(self)
    }
}

// ---------------------------------------------------------------------
// Construction
// ---------------------------------------------------------------------

impl GlobalVariableView {
    /// Replaces the type with what `f` makes of it.
    pub fn map_type_view<F: FnOnce(TypeView) -> TypeView>(&mut self, f: F)
        requires
            f.requires((old(self).type_view,)),
        ensures
            f.ensures((old(self).type_view,), final(self).type_view),
            final(self).name == old(self).name,
            final(self).address == old(self).address,
            final(self).size == old(self).size,
            final(self).bit_size == old(self).bit_size,
            final(self).bit_offset == old(self).bit_offset,
            final(self).children == old(self).children,
    {
        let mut type_view = TypeView::Function;
        std::mem::swap(&mut type_view, &mut self.type_view);
        self.type_view = f(type_view);
    }
}

impl From<&EnumeratorEntry> for Enumerator {
    fn from(entry: &EnumeratorEntry) -> (res: Self) {
        Enumerator { name: entry.name.clone(), value: entry.value }
    }
}

impl vstd::std_specs::convert::FromSpecImpl<&EnumeratorEntry> for Enumerator {
    open spec fn obeys_from_spec() -> bool {
        true
    }

    open spec fn from_spec(entry: &EnumeratorEntry) -> Self {
        Enumerator { name: entry.name, value: entry.value }
    }
}

impl TypeView {
    pub fn new_typedef_type_view<S: IntoName>(name: S, type_view: Self) -> (res: Self)
        ensures
            res@ == (TypeViewModel::TypeDef { name: name.name_view(), type_view: Box::new(type_view@) }),
    {
        Self::TypeDef { name: name.into_name(), type_view: Box::new(type_view) }
    }

    pub fn new_volatile_type_view(type_view: Self) -> (res: Self)
        ensures
            res@ == (TypeViewModel::Volatile { type_view: Box::new(type_view@) }),
    {
        Self::Volatile { type_view: Box::new(type_view) }
    }

    pub fn new_const_type_view(type_view: Self) -> (res: Self)
        ensures
            res@ == (TypeViewModel::Const { type_view: Box::new(type_view@) }),
    {
        Self::Const { type_view: Box::new(type_view) }
    }

    pub fn new_void_pointer_type_view() -> (res: Self)
        ensures
            res@ == TypeViewModel::VoidPointer,
    {
        Self::VoidPointer
    }

    pub fn new_pointer_type_view(type_view: Self) -> (res: Self)
        ensures
            res@ == (TypeViewModel::Pointer { type_view: Box::new(type_view@) }),
    {
        Self::Pointer { type_view: Box::new(type_view) }
    }

    pub fn new_base_type_view<S: IntoName>(name: S) -> (res: Self)
        ensures
            res@ == (TypeViewModel::Base { name: name.name_view() }),
    {
        Self::Base { name: name.into_name() }
    }

    pub fn new_structure_type_view<S: IntoName>(name: Option<S>) -> (res: Self)
        ensures
            res@ == (TypeViewModel::Structure { name: option_name_view(name) }),
    {
        Self::Structure { name: option_into_name(name) }
    }

    pub fn new_union_type_view<S: IntoName>(name: Option<S>) -> (res: Self)
        ensures
            res@ == (TypeViewModel::Union { name: option_name_view(name) }),
    {
        Self::Union { name: option_into_name(name) }
    }

    pub fn new_array_type_view(element_type: Self, upper_bound: Option<usize>) -> (res: Self)
        ensures
            res@ == (TypeViewModel::Array { element_type: Box::new(element_type@), upper_bound }),
    {
        Self::Array { element_type: Box::new(element_type), upper_bound }
    }

    pub fn new_enum_type_view<S: IntoName>(name: Option<S>, type_view: Self, enumerators: Vec<Enumerator>) -> (res: Self)
        ensures
            res@ == (TypeViewModel::Enum {
                name: option_name_view(name),
                type_view: Box::new(type_view@),
                enumerators: enumerators_view(enumerators@),
            }),
    {
        Self::Enum { name: option_into_name(name), type_view: Box::new(type_view), enumerators }
    }

    pub fn new_function_type_view() -> (res: Self)
        ensures
            res@ == TypeViewModel::Function,
    {
        Self::Function
    }
}

/// Builds a `GlobalVariableView`: the name, the address, the size and the
/// type must be given; the bit size and the bit offset are absent and there
/// are no parts unless given.
pub struct GlobalVariableViewBuilder<NameP, AddressP, SizeP, TypeViewP> {
    pub name: NameP,
    pub address: AddressP,
    pub size: SizeP,
    pub bit_size: Option<usize>,
    pub bit_offset: Option<usize>,
    pub type_view: TypeViewP,
    pub children: Vec<GlobalVariableView>,
}

/// The builder with its address set.
pub open spec fn with_address<N, S, T>(b: GlobalVariableViewBuilder<N, (), S, T>, address: Option<Address>) -> GlobalVariableViewBuilder<
    N,
    Option<Address>,
    S,
    T,
> {
    GlobalVariableViewBuilder {
        name: b.name,
        address,
        size: b.size,
        bit_size: b.bit_size,
        bit_offset: b.bit_offset,
        type_view: b.type_view,
        children: b.children,
    }
}

/// The builder with its size set.
pub open spec fn with_size<N, A, T>(b: GlobalVariableViewBuilder<N, A, (), T>, size: usize) -> GlobalVariableViewBuilder<
    N,
    A,
    usize,
    T,
> {
    GlobalVariableViewBuilder {
        name: b.name,
        address: b.address,
        size,
        bit_size: b.bit_size,
        bit_offset: b.bit_offset,
        type_view: b.type_view,
        children: b.children,
    }
}

/// The builder with its type set.
pub open spec fn with_type_view<N, A, S>(b: GlobalVariableViewBuilder<N, A, S, ()>, type_view: TypeView) -> GlobalVariableViewBuilder<
    N,
    A,
    S,
    TypeView,
> {
    GlobalVariableViewBuilder {
        name: b.name,
        address: b.address,
        size: b.size,
        bit_size: b.bit_size,
        bit_offset: b.bit_offset,
        type_view,
        children: b.children,
    }
}

/// The builder with its name set.
pub open spec fn with_name<A, S, T>(b: GlobalVariableViewBuilder<(), A, S, T>, name: String) -> GlobalVariableViewBuilder<
    String,
    A,
    S,
    T,
> {
    GlobalVariableViewBuilder {
        name,
        address: b.address,
        size: b.size,
        bit_size: b.bit_size,
        bit_offset: b.bit_offset,
        type_view: b.type_view,
        children: b.children,
    }
}

/// The view that building gives: the values set on the builder.
pub open spec fn built_view(b: GlobalVariableViewBuilder<String, Option<Address>, usize, TypeView>) -> GlobalVariableView {
    GlobalVariableView {
        name: b.name,
        address: b.address,
        size: b.size,
        bit_size: b.bit_size,
        bit_offset: b.bit_offset,
        type_view: b.type_view,
        children: b.children,
    }
}

/// The builder with its bit size set.
pub open spec fn with_bit_size<N, A, S, T>(b: GlobalVariableViewBuilder<N, A, S, T>, bit_size: Option<usize>) -> GlobalVariableViewBuilder<N, A, S, T> {
    GlobalVariableViewBuilder { bit_size, ..b }
}

/// The builder with its bit offset set.
pub open spec fn with_bit_offset<N, A, S, T>(b: GlobalVariableViewBuilder<N, A, S, T>, bit_offset: Option<usize>) -> GlobalVariableViewBuilder<N, A, S, T> {
    GlobalVariableViewBuilder { bit_offset, ..b }
}

/// The builder with its parts set.
pub open spec fn with_children<N, A, S, T>(b: GlobalVariableViewBuilder<N, A, S, T>, children: Vec<GlobalVariableView>) -> GlobalVariableViewBuilder<N, A, S, T> {
    GlobalVariableViewBuilder { children, ..b }
}

/// The bit size, bit offset and parts setters commute with each other on
/// any builder. With the two laws below, every two of the seven setters
/// commute wherever both can be called, so any order of the calls builds
/// the same view.
pub proof fn law_optional_setters_commute<N, A, S, T>(
    b: GlobalVariableViewBuilder<N, A, S, T>,
    bit_size: Option<usize>,
    bit_offset: Option<usize>,
    children: Vec<GlobalVariableView>,
)
    ensures
        with_bit_offset(with_bit_size(b, bit_size), bit_offset) == with_bit_size(with_bit_offset(b, bit_offset), bit_size),
        with_children(with_bit_size(b, bit_size), children) == with_bit_size(with_children(b, children), bit_size),
        with_children(with_bit_offset(b, bit_offset), children) == with_bit_offset(with_children(b, children), bit_offset),
{
}

/// Each of the name, address, size and type setters commutes with each of
/// the bit size, bit offset and parts setters, whatever else is set.
pub proof fn law_required_and_optional_setters_commute<N, A, S, T>(
    without_name: GlobalVariableViewBuilder<(), A, S, T>,
    without_address: GlobalVariableViewBuilder<N, (), S, T>,
    without_size: GlobalVariableViewBuilder<N, A, (), T>,
    without_type: GlobalVariableViewBuilder<N, A, S, ()>,
    name: String,
    address: Option<Address>,
    size: usize,
    type_view: TypeView,
    bit_size: Option<usize>,
    bit_offset: Option<usize>,
    children: Vec<GlobalVariableView>,
)
    ensures
        with_name(with_bit_size(without_name, bit_size), name) == with_bit_size(with_name(without_name, name), bit_size),
        with_name(with_bit_offset(without_name, bit_offset), name) == with_bit_offset(
            with_name(without_name, name),
            bit_offset,
        ),
        with_name(with_children(without_name, children), name) == with_children(with_name(without_name, name), children),
        with_address(with_bit_size(without_address, bit_size), address) == with_bit_size(
            with_address(without_address, address),
            bit_size,
        ),
        with_address(with_bit_offset(without_address, bit_offset), address) == with_bit_offset(
            with_address(without_address, address),
            bit_offset,
        ),
        with_address(with_children(without_address, children), address) == with_children(
            with_address(without_address, address),
            children,
        ),
        with_size(with_bit_size(without_size, bit_size), size) == with_bit_size(with_size(without_size, size), bit_size),
        with_size(with_bit_offset(without_size, bit_offset), size) == with_bit_offset(
            with_size(without_size, size),
            bit_offset,
        ),
        with_size(with_children(without_size, children), size) == with_children(with_size(without_size, size), children),
        with_type_view(with_bit_size(without_type, bit_size), type_view) == with_bit_size(
            with_type_view(without_type, type_view),
            bit_size,
        ),
        with_type_view(with_bit_offset(without_type, bit_offset), type_view) == with_bit_offset(
            with_type_view(without_type, type_view),
            bit_offset,
        ),
        with_type_view(with_children(without_type, children), type_view) == with_children(
            with_type_view(without_type, type_view),
            children,
        ),
{
}

/// Any two of the name, address, size and type setters commute, whatever
/// else is set.
pub proof fn law_required_setters_commute<N, A, S, T>(
    without_name_address: GlobalVariableViewBuilder<(), (), S, T>,
    without_name_size: GlobalVariableViewBuilder<(), A, (), T>,
    without_name_type: GlobalVariableViewBuilder<(), A, S, ()>,
    without_address_size: GlobalVariableViewBuilder<N, (), (), T>,
    without_address_type: GlobalVariableViewBuilder<N, (), S, ()>,
    without_size_type: GlobalVariableViewBuilder<N, A, (), ()>,
    name: String,
    address: Option<Address>,
    size: usize,
    type_view: TypeView,
)
    ensures
        with_address(with_name(without_name_address, name), address) == with_name(
            with_address(without_name_address, address),
            name,
        ),
        with_size(with_name(without_name_size, name), size) == with_name(with_size(without_name_size, size), name),
        with_type_view(with_name(without_name_type, name), type_view) == with_name(
            with_type_view(without_name_type, type_view),
            name,
        ),
        with_size(with_address(without_address_size, address), size) == with_address(
            with_size(without_address_size, size),
            address,
        ),
        with_type_view(with_address(without_address_type, address), type_view) == with_address(
            with_type_view(without_address_type, type_view),
            address,
        ),
        with_type_view(with_size(without_size_type, size), type_view) == with_size(
            with_type_view(without_size_type, type_view),
            size,
        ),
{
}

impl GlobalVariableViewBuilder<(), (), (), ()> {
    pub fn new() -> (res: Self)
        ensures
            res.bit_size is None,
            res.bit_offset is None,
            res.children@.len() == 0,
    {
        GlobalVariableViewBuilder {
            name: (),
            address: (),
            size: (),
            bit_size: None,
            bit_offset: None,
            type_view: (),
            children: Vec::new(),
        }
    }
}

impl GlobalVariableViewBuilder<String, Option<Address>, usize, TypeView> {
    pub fn build(self) -> (res: GlobalVariableView)
        ensures
            res == built_view(self),
            res.name == self.name,
            res.address == self.address,
            res.size == self.size,
            res.bit_size == self.bit_size,
            res.bit_offset == self.bit_offset,
            res.type_view == self.type_view,
            res.children == self.children,
    {
        GlobalVariableView {
            name: self.name,
            address: self.address,
            size: self.size,
            bit_size: self.bit_size,
            bit_offset: self.bit_offset,
            type_view: self.type_view,
            children: self.children,
        }
    }
}

impl<AddressP, SizeP, TypeViewP> GlobalVariableViewBuilder<(), AddressP, SizeP, TypeViewP> {
    pub fn name<S: IntoName>(self, name: S) -> (res: GlobalVariableViewBuilder<String, AddressP, SizeP, TypeViewP>)
        ensures
            res == with_name(self, res.name),
            res.name@ == name.name_view(),
            res.address == self.address,
            res.size == self.size,
            res.bit_size == self.bit_size,
            res.bit_offset == self.bit_offset,
            res.type_view == self.type_view,
            res.children == self.children,
    {
        GlobalVariableViewBuilder {
            name: name.into_name(),
            address: self.address,
            size: self.size,
            bit_size: self.bit_size,
            bit_offset: self.bit_offset,
            type_view: self.type_view,
            children: self.children,
        }
    }
}

impl<NameP, SizeP, TypeViewP> GlobalVariableViewBuilder<NameP, (), SizeP, TypeViewP> {
    pub fn address(self, address: Option<Address>) -> (res: GlobalVariableViewBuilder<NameP, Option<Address>, SizeP, TypeViewP>)
        ensures
            res == with_address(self, address),
            res.name == self.name,
            res.address == address,
            res.size == self.size,
            res.bit_size == self.bit_size,
            res.bit_offset == self.bit_offset,
            res.type_view == self.type_view,
            res.children == self.children,
    {
        GlobalVariableViewBuilder {
            name: self.name,
            address: address,
            size: self.size,
            bit_size: self.bit_size,
            bit_offset: self.bit_offset,
            type_view: self.type_view,
            children: self.children,
        }
    }
}

impl<NameP, AddressP, TypeViewP> GlobalVariableViewBuilder<NameP, AddressP, (), TypeViewP> {
    pub fn size(self, size: usize) -> (res: GlobalVariableViewBuilder<NameP, AddressP, usize, TypeViewP>)
        ensures
            res == with_size(self, size),
            res.name == self.name,
            res.address == self.address,
            res.size == size,
            res.bit_size == self.bit_size,
            res.bit_offset == self.bit_offset,
            res.type_view == self.type_view,
            res.children == self.children,
    {
        GlobalVariableViewBuilder {
            name: self.name,
            address: self.address,
            size: size,
            bit_size: self.bit_size,
            bit_offset: self.bit_offset,
            type_view: self.type_view,
            children: self.children,
        }
    }
}

impl<NameP, AddressP, SizeP> GlobalVariableViewBuilder<NameP, AddressP, SizeP, ()> {
    pub fn type_view(self, type_view: TypeView) -> (res: GlobalVariableViewBuilder<NameP, AddressP, SizeP, TypeView>)
        ensures
            res == with_type_view(self, type_view),
            res.name == self.name,
            res.address == self.address,
            res.size == self.size,
            res.bit_size == self.bit_size,
            res.bit_offset == self.bit_offset,
            res.type_view == type_view,
            res.children == self.children,
    {
        GlobalVariableViewBuilder {
            name: self.name,
            address: self.address,
            size: self.size,
            bit_size: self.bit_size,
            bit_offset: self.bit_offset,
            type_view: type_view,
            children: self.children,
        }
    }
}

impl<NameP, AddressP, SizeP, TypeViewP> GlobalVariableViewBuilder<NameP, AddressP, SizeP, TypeViewP> {
    pub fn bit_size(self, size: Option<usize>) -> (res: Self)
        ensures
            res == with_bit_size(self, size),
    {
        let mut b = self;
        b.bit_size = size;
        b
    }

    pub fn bit_offset(self, offset: Option<usize>) -> (res: Self)
        ensures
            res == with_bit_offset(self, offset),
    {
        let mut b = self;
        b.bit_offset = offset;
        b
    }

    pub fn children(self, children: Vec<GlobalVariableView>) -> (res: Self)
        ensures
            res == with_children(self, children),
    {
        let mut b = self;
        b.children = children;
        b
    }
}

} // verus!
