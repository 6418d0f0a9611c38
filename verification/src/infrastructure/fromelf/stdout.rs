use vstd::prelude::*;

use crate::domain::global_variable::Address;
use crate::domain::global_variable_view::{
    Enumerator, GlobalVariableView, TypeView, TypeViewModel, VariableViewModel, enumerators_view,
    lemma_variable_views, variable_views,
};
use crate::domain::type_entry::EnumeratorModel;
use crate::library::text::{
    decimal, decimal_string, hex, hex_string, hex_value, law_hex_reads_back, option_string_view,
};

verus! {

/// How many characters the address column takes.
pub const ADDRESS_WIDTH: usize = 10;

/// How many characters the size column takes.
pub const SIZE_WIDTH: usize = 5;

/// How many characters the variable name column takes.
pub const VARIABLE_NAME_WIDTH: usize = 20;

// ---------------------------------------------------------------------
// Numbers and columns
// ---------------------------------------------------------------------

/// `n` spaces.
pub open spec fn spaces(n: nat) -> Seq<char> {
    Seq::new(n, |i: int| ' ')
}

/// `n` zeros.
pub open spec fn zeros(n: nat) -> Seq<char> {
    Seq::new(n, |i: int| '0')
}

/// A text filled with spaces on its right up to `width` characters; a
/// longer text stays as it is.
pub open spec fn pad_right(s: Seq<char>, width: nat) -> Seq<char> {
    if s.len() < width {
        s + spaces((width - s.len()) as nat)
    } else {
        s
    }
}

/// A number in hexadecimal after `0x`, with zeros between them so that the
/// whole takes at least `width` characters.
pub open spec fn prefixed_hex(n: nat, width: nat) -> Seq<char> {
    let digits = hex(n);
    let fill = if digits.len() + 2 < width {
        zeros((width - 2 - digits.len()) as nat)
    } else {
        Seq::empty()
    };
    "0x"@ + fill + digits
}

/// A signed number in decimal, with `-` before a negative one.
pub open spec fn signed_decimal(v: int) -> Seq<char> {
    if v < 0 {
        "-"@ + decimal((-v) as nat)
    } else {
        decimal(v as nat)
    }
}

/// Leading zeros do not change what hexadecimal digits stand for.
pub proof fn lemma_hex_value_leading_zeros(k: nat, s: Seq<char>)
    ensures
        hex_value(zeros(k) + s) == hex_value(s),
    decreases s.len(),
{
    if s.len() == 0 {
        lemma_hex_value_zeros(k);
        assert(zeros(k) + s =~= zeros(k));
    } else {
        lemma_hex_value_leading_zeros(k, s.drop_last());
        assert((zeros(k) + s).drop_last() =~= zeros(k) + s.drop_last());
    }
}

/// Zeros stand for zero.
pub proof fn lemma_hex_value_zeros(k: nat)
    ensures
        hex_value(zeros(k)) == 0,
    decreases k,
{
    if k > 0 {
        lemma_hex_value_zeros((k - 1) as nat);
        assert(zeros(k).drop_last() =~= zeros((k - 1) as nat));
    }
}

/// A number written after `0x` takes at least `width` characters, exactly
/// `width` when its digits fit, and its digits after `0x` read back as the
/// number.
pub proof fn law_prefixed_hex(n: nat, width: nat)
    ensures
        prefixed_hex(n, width).len() >= width,
        hex(n).len() + 2 <= width ==> prefixed_hex(n, width).len() == width,
        prefixed_hex(n, width).take(2) == "0x"@,
        hex_value(prefixed_hex(n, width).skip(2)) == n,
{
    reveal_strlit("0x");
    let digits = hex(n);
    let fill = if digits.len() + 2 < width {
        zeros((width - 2 - digits.len()) as nat)
    } else {
        Seq::empty()
    };
    let p = prefixed_hex(n, width);
    assert(p.take(2) =~= "0x"@);
    assert(p.skip(2) =~= fill + digits);
    law_hex_reads_back(n);
    if digits.len() + 2 < width {
        lemma_hex_value_leading_zeros((width - 2 - digits.len()) as nat, digits);
    } else {
        assert(fill + digits =~= digits);
    }
}

/// Appends `n` copies of the one character of `piece`.
fn append_repeated(s: &mut String, piece: &str, c: Ghost<char>, n: usize)
    requires
        piece@ == seq![c@],
    ensures
        final(s)@ == old(s)@ + Seq::new(n as nat, |i: int| c@),
{
    let ghost start = s@;
    let mut i: usize = 0;
    while i < n
        invariant
            i <= n,
            piece@ == seq![c@],
            s@ == start + Seq::new(i as nat, |k: int| c@),
        decreases n - i,
    {
        s.append(piece);
        i = i + 1;
        proof {
            assert(s@ =~= start + Seq::new(i as nat, |k: int| c@));
        }
    }
}

/// A text filled with spaces on its right up to `width` characters.
pub fn padded(s: &str, width: usize) -> (res: String)
    ensures
        res@ == pad_right(s@, width as nat),
{
    let len = s.unicode_len();
    let mut res = s.to_owned();
    if len < width {
        proof {
            reveal_strlit(" ");
            assert(" "@ =~= seq![' ']);
        }
        append_repeated(&mut res, " ", Ghost(' '), width - len);
        proof {
            assert(Seq::new((width - len) as nat, |i: int| ' ') =~= spaces((width - s@.len()) as nat));
        }
    }
    res
}

/// A number in hexadecimal after `0x`, filled with zeros to `width`
/// characters (the `{:#0w$x}` of `format!`).
pub fn prefixed_hex_string(n: usize, width: usize) -> (res: String)
    ensures
        res@ == prefixed_hex(n as nat, width as nat),
{
    let digits = hex_string(n);
    let len = digits.as_str().unicode_len();
    let mut res = "0x".to_owned();
    if len < width && width - len > 2 {
        proof {
            reveal_strlit("0");
            assert("0"@ =~= seq!['0']);
        }
        append_repeated(&mut res, "0", Ghost('0'), width - len - 2);
        proof {
            assert(Seq::new((width - len - 2) as nat, |i: int| '0') =~= zeros((width - 2 - hex(n as nat).len()) as nat));
        }
    }
    res.append(digits.as_str());
    res
}

/// A signed number written in decimal.
pub fn signed_decimal_string(v: isize) -> (res: String)
    ensures
        res@ == signed_decimal(v as int),
{
    if v < 0 {
        let magnitude: usize = (0i128 - (v as i128)) as usize;
        let mut res = "-".to_owned();
        res.append(decimal_string(magnitude).as_str());
        res
    } else {
        decimal_string(v as usize)
    }
}

// ---------------------------------------------------------------------
// Types
// ---------------------------------------------------------------------

/// An optional name, or nothing.
pub open spec fn name_or_empty(name: Option<Seq<char>>) -> Seq<char> {
    match name {
        Some(n) => n,
        None => Seq::empty(),
    }
}

/// A constant of an enumeration: `name: value`.
pub open spec fn enumerator_text(e: EnumeratorModel) -> Seq<char> {
    e.name + ": "@ + signed_decimal(e.value as int)
}

/// The constants of an enumeration, each followed by `, `.
pub open spec fn enumerators_text(es: Seq<EnumeratorModel>) -> Seq<char>
    decreases es.len(),
{
    if es.len() == 0 {
        Seq::empty()
    } else {
        enumerators_text(es.drop_last()) + enumerator_text(es.last()) + ", "@
    }
}

/// How a type is written: a typedef by its name (and, when it names an
/// enumeration, the enumeration after it), an array as its element type
/// followed by its upper bound in brackets.
pub open spec fn type_text(t: TypeViewModel) -> Seq<char>
    decreases t,
{
    match t {
        TypeViewModel::TypeDef { name, type_view } => match *type_view {
            TypeViewModel::Enum { name: enum_name, type_view: inner, enumerators } => name + " enum "@
                + name_or_empty(enum_name) + ": "@ + type_text(*inner) + "  values = "@ + enumerators_text(
                enumerators,
            ),
            _ => name,
        },
        TypeViewModel::Volatile { type_view } => "volatile "@ + type_text(*type_view),
        TypeViewModel::Const { type_view } => "const "@ + type_text(*type_view),
        TypeViewModel::VoidPointer => "void pointer"@,
        TypeViewModel::Pointer { type_view } => "pointer to "@ + type_text(*type_view),
        TypeViewModel::Base { name } => name,
        TypeViewModel::Structure { name } => "struct "@ + name_or_empty(name),
        TypeViewModel::Union { name } => "union "@ + name_or_empty(name),
        TypeViewModel::Enum { name, type_view, enumerators } => "enum "@ + name_or_empty(name) + ": "@
            + type_text(*type_view) + "  values = "@ + enumerators_text(enumerators),
        TypeViewModel::Array { element_type, upper_bound } => match upper_bound {
            None => type_text(*element_type) + "[]"@,
            Some(u) => type_text(*element_type) + "["@ + decimal(u as nat) + "]"@,
        },
        TypeViewModel::Function => "function"@,
    }
}

/// Appends an optional name, or nothing.
fn append_name_or_empty(s: &mut String, name: &Option<String>)
    ensures
        final(s)@ == old(s)@ + name_or_empty(
            match name {
                Some(n) => Some(n@),
                None => None::<Seq<char>>,
            },
        ),
{
    match name {
        Some(n) => s.append(n.as_str()),
        None => {
            proof {
                assert(s@ + Seq::<char>::empty() =~= s@);
            }
        },
    }
}

impl Enumerator {
    /// The constant as `name: value`.
    pub fn text(&self) -> (res: String)
        ensures
            res@ == enumerator_text(self@),
    {
        let mut res = self.name.clone();
        res.append(": ");
        res.append(signed_decimal_string(self.value).as_str());
        res
    }
}

/// The constants of an enumeration, each followed by `, `.
pub fn enumerators_string(enumerators: &Vec<Enumerator>) -> (res: String)
    ensures
        res@ == enumerators_text(enumerators_view(enumerators@)),
{
    let ghost es = enumerators_view(enumerators@);
    let mut res = String::new();
    let mut i: usize = 0;
    proof {
        assert(es.take(0) =~= Seq::<EnumeratorModel>::empty());
    }
    while i < enumerators.len()
        invariant
            i <= enumerators@.len(),
            es == enumerators_view(enumerators@),
            res@ == enumerators_text(es.take(i as int)),
        decreases enumerators@.len() - i,
    {
        let e = &enumerators[i];
        proof {
            assert(es.take(i + 1).drop_last() =~= es.take(i as int));
            assert(es.take(i + 1).last() == e@);
        }
        res.append(e.text().as_str());
        res.append(", ");
        i = i + 1;
    }
    proof {
        assert(es.take(enumerators@.len() as int) =~= es);
    }
    res
}

impl TypeView {
    /// How a type is written (see `type_text`).
    pub fn text(&self) -> (res: String)
        ensures
            res@ == type_text(self@),
        decreases self,
    {
        match self {
            TypeView::TypeDef { name, type_view } => match &**type_view {
                TypeView::Enum { name: enum_name, type_view: inner, enumerators } => {
                    proof {
                        assert((**type_view)@ == TypeViewModel::Enum {
                            name: option_string_view(*enum_name),
                            type_view: Box::new((**inner)@),
                            enumerators: enumerators_view(enumerators@),
                        });
                    }
                    let mut res = name.clone();
                    res.append(" enum ");
                    append_name_or_empty(&mut res, enum_name);
                    res.append(": ");
                    res.append(inner.text().as_str());
                    res.append("  values = ");
                    res.append(enumerators_string(enumerators).as_str());
                    res
                },
                _ => {
                    proof {
                        assert(!((**type_view)@ is Enum));
                    }
                    name.clone()
                },
            },
            TypeView::Volatile { type_view } => {
                let mut res = "volatile ".to_owned();
                res.append(type_view.text().as_str());
                res
            },
            TypeView::Const { type_view } => {
                let mut res = "const ".to_owned();
                res.append(type_view.text().as_str());
                res
            },
            TypeView::VoidPointer => "void pointer".to_owned(),
            TypeView::Pointer { type_view } => {
                let mut res = "pointer to ".to_owned();
                res.append(type_view.text().as_str());
                res
            },
            TypeView::Base { name } => name.clone(),
            TypeView::Structure { name } => {
                let mut res = "struct ".to_owned();
                append_name_or_empty(&mut res, name);
                res
            },
            TypeView::Union { name } => {
                let mut res = "union ".to_owned();
                append_name_or_empty(&mut res, name);
                res
            },
            TypeView::Enum { name, type_view, enumerators } => {
                let mut res = "enum ".to_owned();
                append_name_or_empty(&mut res, name);
                res.append(": ");
                res.append(type_view.text().as_str());
                res.append("  values = ");
                res.append(enumerators_string(enumerators).as_str());
                res
            },
            TypeView::Array { element_type, upper_bound } => {
                let mut res = element_type.text();
                match upper_bound {
                    None => res.append("[]"),
                    Some(u) => {
                        res.append("[");
                        res.append(decimal_string(*u).as_str());
                        res.append("]");
                    },
                }
                res
            },
            TypeView::Function => "function".to_owned(),
        }
    }
}

// ---------------------------------------------------------------------
// Names of parts
// ---------------------------------------------------------------------

/// What the names of the parts of a variable are written after: nothing
/// for a variable of its own, the name of the structure or union before
/// `.`, the name of the array before `[`.
pub enum ParentName {
    NoParent,
    Structure(String),
    Union(String),
    Array(String),
}

pub enum ParentNameModel {
    NoParent,
    Structure(Seq<char>),
    Union(Seq<char>),
    Array(Seq<char>),
}

impl View for ParentName {
    type V = ParentNameModel;

    open spec fn view(&self) -> ParentNameModel {
        match self {
            ParentName::NoParent => ParentNameModel::NoParent,
            ParentName::Structure(n) => ParentNameModel::Structure(n@),
            ParentName::Union(n) => ParentNameModel::Union(n@),
            ParentName::Array(n) => ParentNameModel::Array(n@),
        }
    }
}

/// The full name of a part: `parent.member` for a member, `array[index]`
/// for an element.
pub open spec fn with_parent(parent: ParentNameModel, child: Seq<char>) -> Seq<char> {
    match parent {
        ParentNameModel::NoParent => child,
        ParentNameModel::Structure(p) => p + "."@ + child,
        ParentNameModel::Union(p) => p + "."@ + child,
        ParentNameModel::Array(p) => p + "["@ + child + "]"@,
    }
}

/// What the parts of a variable named `name` (under `parent`) of type `t`
/// are written after: a structure, union or array gives its full name,
/// a typedef, volatile or const type what its own type gives, and any
/// other type nothing.
pub open spec fn parent_for(parent: ParentNameModel, name: Seq<char>, t: TypeViewModel) -> ParentNameModel
    decreases t,
{
    match t {
        TypeViewModel::Structure { .. } => ParentNameModel::Structure(with_parent(parent, name)),
        TypeViewModel::Union { .. } => ParentNameModel::Union(with_parent(parent, name)),
        TypeViewModel::Array { .. } => ParentNameModel::Array(with_parent(parent, name)),
        TypeViewModel::TypeDef { type_view, .. } => parent_for(parent, name, *type_view),
        TypeViewModel::Volatile { type_view } => parent_for(parent, name, *type_view),
        TypeViewModel::Const { type_view } => parent_for(parent, name, *type_view),
        _ => ParentNameModel::NoParent,
    }
}

impl ParentName {
    /// What the parts of a variable named `variable_view_name` of type
    /// `type_view` are written after (see `parent_for`).
    pub fn new_parent_from_variable_view(&self, variable_view_name: &String, type_view: &TypeView) -> (res: ParentName)
        ensures
            res@ == parent_for(self@, variable_view_name@, type_view@),
        decreases type_view,
    {
        match type_view {
            TypeView::Structure { .. } => ParentName::Structure(self.with_parent(variable_view_name)),
            TypeView::Union { .. } => ParentName::Union(self.with_parent(variable_view_name)),
            TypeView::Array { .. } => ParentName::Array(self.with_parent(variable_view_name)),
            TypeView::TypeDef { type_view, .. } => self.new_parent_from_variable_view(variable_view_name, type_view),
            TypeView::Volatile { type_view } => self.new_parent_from_variable_view(variable_view_name, type_view),
            TypeView::Const { type_view } => self.new_parent_from_variable_view(variable_view_name, type_view),
            _ => ParentName::NoParent,
        }
    }

    /// The full name of a part named `child_name` (see `with_parent`).
    pub fn with_parent(&self, child_name: &String) -> (res: String)
        ensures
            res@ == with_parent(self@, child_name@),
    {
        match self {
            ParentName::NoParent => child_name.clone(),
            ParentName::Structure(parent_name) => {
                let mut res = parent_name.clone();
                res.append(".");
                res.append(child_name.as_str());
                res
            },
            ParentName::Union(parent_name) => {
                let mut res = parent_name.clone();
                res.append(".");
                res.append(child_name.as_str());
                res
            },
            ParentName::Array(parent_name) => {
                let mut res = parent_name.clone();
                res.append("[");
                res.append(child_name.as_str());
                res.append("]");
                res
            },
        }
    }
}

// ---------------------------------------------------------------------
// Lines
// ---------------------------------------------------------------------

/// One line of the listing: a variable or one of its parts.
pub struct FromElfLine {
    pub address: Option<usize>,
    pub size: usize,
    pub variable_name: String,
    pub variable_type: String,
}

pub struct LineModel {
    pub address: Option<usize>,
    pub size: usize,
    pub variable_name: Seq<char>,
    pub variable_type: Seq<char>,
}

impl View for FromElfLine {
    type V = LineModel;

    open spec fn view(&self) -> LineModel {
        LineModel {
            address: self.address,
            size: self.size,
            variable_name: self.variable_name@,
            variable_type: self.variable_type@,
        }
    }
}

/// A line as it is printed: the address (`0` when there is none) in
/// hexadecimal over ten characters, the size in hexadecimal over five, the
/// full name over twenty, and the type, one space between each two.
pub open spec fn line_text(l: LineModel) -> Seq<char> {
    let address = match l.address {
        Some(a) => a,
        None => 0usize,
    };
    prefixed_hex(address as nat, ADDRESS_WIDTH as nat) + " "@ + prefixed_hex(l.size as nat, SIZE_WIDTH as nat)
        + " "@ + pad_right(l.variable_name, VARIABLE_NAME_WIDTH as nat) + " "@ + l.variable_type
}

/// The line that heads each block.
pub open spec fn header_text() -> Seq<char> {
    pad_right("address"@, ADDRESS_WIDTH as nat) + " "@ + pad_right("size"@, SIZE_WIDTH as nat) + " "@
        + pad_right("variable_name"@, VARIABLE_NAME_WIDTH as nat) + " "@ + "type"@
}

impl FromElfLine {
    /// The line as it is printed (see `line_text`).
    pub fn text(&self) -> (res: String)
        ensures
            res@ == line_text(self@),
    {
        let address = match self.address {
            Some(a) => a,
            None => 0,
        };
        let mut res = prefixed_hex_string(address, ADDRESS_WIDTH);
        res.append(" ");
        res.append(prefixed_hex_string(self.size, SIZE_WIDTH).as_str());
        res.append(" ");
        res.append(padded(self.variable_name.as_str(), VARIABLE_NAME_WIDTH).as_str());
        res.append(" ");
        res.append(self.variable_type.as_str());
        res
    }
}

/// A printed line starts with the address of its variable (`0` when it has
/// none) after `0x`, and those digits read back as the address.
pub proof fn law_line_shows_address(l: LineModel)
    ensures
        ({
            let address = match l.address {
                Some(a) => a,
                None => 0usize,
            };
            let column = prefixed_hex(address as nat, ADDRESS_WIDTH as nat);
            &&& line_text(l).subrange(0, column.len() as int) == column
            &&& hex_value(column.skip(2)) == address
        }),
{
    let address = match l.address {
        Some(a) => a,
        None => 0usize,
    };
    let column = prefixed_hex(address as nat, ADDRESS_WIDTH as nat);
    law_prefixed_hex(address as nat, ADDRESS_WIDTH as nat);
    let rest = " "@ + prefixed_hex(l.size as nat, SIZE_WIDTH as nat) + " "@ + pad_right(
        l.variable_name,
        VARIABLE_NAME_WIDTH as nat,
    ) + " "@ + l.variable_type;
    assert(line_text(l) =~= column + rest);
    assert((column + rest).subrange(0, column.len() as int) =~= column);
}

/// The line that heads each block (see `header_text`).
pub fn header_string() -> (res: String)
    ensures
        res@ == header_text(),
{
    let mut res = padded("address", ADDRESS_WIDTH);
    res.append(" ");
    res.append(padded("size", SIZE_WIDTH).as_str());
    res.append(" ");
    res.append(padded("variable_name", VARIABLE_NAME_WIDTH).as_str());
    res.append(" ");
    res.append("type");
    res
}


// ---------------------------------------------------------------------
// Blocks
// ---------------------------------------------------------------------

/// The line of a variable or part under `parent`: its full name, address,
/// size and type.
pub open spec fn view_line(v: VariableViewModel, parent: ParentNameModel) -> LineModel {
    LineModel {
        address: v.address,
        size: v.size,
        variable_name: with_parent(parent, v.name),
        variable_type: type_text(v.type_view),
    }
}

/// The lines of a variable under `parent`: its own line, then the lines of
/// each of its parts in order, each part under the variable (depth first).
pub open spec fn block_lines(v: VariableViewModel, parent: ParentNameModel) -> Seq<LineModel>
    decreases v, 0nat,
{
    seq![view_line(v, parent)] + children_lines(
        v.children,
        parent_for(parent, v.name, v.type_view),
        v.children.len(),
    )
}

/// The lines of the first `k` parts in `cs`, one part after the other.
pub open spec fn children_lines(cs: Seq<VariableViewModel>, parent: ParentNameModel, k: nat) -> Seq<
    LineModel,
>
    decreases cs, k,
{
    if k == 0 || k > cs.len() {
        Seq::empty()
    } else {
        children_lines(cs, parent, (k - 1) as nat) + block_lines(cs[k - 1], parent)
    }
}

/// Lines as they are printed, each ended by a new line.
pub open spec fn lines_text(ls: Seq<LineModel>) -> Seq<char>
    decreases ls.len(),
{
    if ls.len() == 0 {
        Seq::empty()
    } else {
        lines_text(ls.drop_last()) + line_text(ls.last()) + "\n"@
    }
}

/// A block as it is printed: the header, then its lines.
pub open spec fn block_text(ls: Seq<LineModel>) -> Seq<char> {
    header_text() + "\n"@ + lines_text(ls)
}

pub open spec fn lines_view(s: Seq<FromElfLine>) -> Seq<LineModel> {
    s.map_values(|l: FromElfLine| l@)
}

/// The lines of one global variable and of all its parts.
pub struct FromElfBlock {
    pub lines: Vec<FromElfLine>,
}

impl View for FromElfBlock {
    type V = Seq<LineModel>;

    open spec fn view(&self) -> Seq<LineModel> {
        lines_view(self.lines@)
    }
}

impl FromElfBlock {
    /// The lines of a global variable and its parts (see `block_lines`).
    pub fn from_variable_view(variable_view: GlobalVariableView) -> (res: FromElfBlock)
        ensures
            res@ == block_lines(variable_view@, ParentNameModel::NoParent),
    {
        Self::from_variable_view_with_parent(&variable_view, &ParentName::NoParent)
    }

    /// The lines of a variable or part under `parent_name` and of its parts
    /// (see `block_lines`).
    pub fn from_variable_view_with_parent(variable_view: &GlobalVariableView, parent_name: &ParentName) -> (res:
        FromElfBlock)
        ensures
            res@ == block_lines(variable_view@, parent_name@),
        decreases variable_view,
    {
        let ghost v = variable_view@;
        let variable_name = parent_name.with_parent(&variable_view.name);
        let parent = parent_name.new_parent_from_variable_view(&variable_view.name, &variable_view.type_view);
        let line = FromElfLine {
            address: match variable_view.address {
                Some(a) => Some(a.value()),
                None => None,
            },
            size: variable_view.size,
            variable_name: variable_name,
            variable_type: variable_view.type_view.text(),
        };
        let ghost first = line@;
        let mut lines: Vec<FromElfLine> = Vec::new();
        lines.push(line);
        proof {
            lemma_variable_views(variable_view.children@);
            assert(first == view_line(v, parent_name@));
            assert(lines_view(lines@) =~= seq![view_line(v, parent_name@)] + children_lines(
                v.children,
                parent@,
                0,
            ));
        }
        let mut i: usize = 0;
        while i < variable_view.children.len()
            invariant
                i <= variable_view.children@.len(),
                v == variable_view@,
                v.children.len() == variable_view.children@.len(),
                forall|j: int|
                    0 <= j < variable_view.children@.len() ==> #[trigger] v.children[j]
                        == variable_view.children@[j]@,
                parent@ == parent_for(parent_name@, v.name, v.type_view),
                lines_view(lines@) == seq![view_line(v, parent_name@)] + children_lines(
                    v.children,
                    parent@,
                    i as nat,
                ),
            decreases variable_view.children@.len() - i,
        {
            let mut block = Self::from_variable_view_with_parent(&variable_view.children[i], &parent);
            let ghost before = lines@;
            let ghost added = block.lines@;
            lines.append(&mut block.lines);
            proof {
                assert(v.children[i as int] == variable_view.children@[i as int]@);
                assert(lines_view(lines@) =~= lines_view(before) + lines_view(added));
                assert(children_lines(v.children, parent@, (i + 1) as nat) == children_lines(
                    v.children,
                    parent@,
                    i as nat,
                ) + block_lines(v.children[i as int], parent@));
            }
            i = i + 1;
        }
        FromElfBlock { lines }
    }

    /// The block as it is printed (see `block_text`).
    pub fn text(&self) -> (res: String)
        ensures
            res@ == block_text(self@),
    {
        let ghost ls = self@;
        let mut res = header_string();
        res.append("\n");
        let mut i: usize = 0;
        proof {
            assert(ls.take(0) =~= Seq::<LineModel>::empty());
        }
        while i < self.lines.len()
            invariant
                i <= self.lines@.len(),
                ls == self@,
                res@ == header_text() + "\n"@ + lines_text(ls.take(i as int)),
            decreases self.lines@.len() - i,
        {
            proof {
                assert(ls.take(i + 1).drop_last() =~= ls.take(i as int));
                assert(ls.take(i + 1).last() == self.lines@[i as int]@);
            }
            res.append(self.lines[i].text().as_str());
            res.append("\n");
            i = i + 1;
        }
        proof {
            assert(ls.take(self.lines@.len() as int) =~= ls);
        }
        res
    }
}

// ---------------------------------------------------------------------
// The listing
// ---------------------------------------------------------------------

/// The blocks of global variables, in order.
pub open spec fn blocks_of(vs: Seq<VariableViewModel>) -> Seq<Seq<LineModel>> {
    vs.map_values(|v: VariableViewModel| block_lines(v, ParentNameModel::NoParent))
}

/// Blocks as they are printed, each followed by an empty line.
pub open spec fn blocks_text(bs: Seq<Seq<LineModel>>) -> Seq<char>
    decreases bs.len(),
{
    if bs.len() == 0 {
        Seq::empty()
    } else {
        blocks_text(bs.drop_last()) + block_text(bs.last()) + "\n"@
    }
}

/// The listing of global variables in the manner of `fromelf`: a block for
/// each variable.
pub struct FromElfStdOut {
    pub blocks: Vec<FromElfBlock>,
}

impl View for FromElfStdOut {
    type V = Seq<Seq<LineModel>>;

    open spec fn view(&self) -> Seq<Seq<LineModel>> {
        self.blocks@.map_values(|b: FromElfBlock| b@)
    }
}

impl FromElfStdOut {
    pub fn new(variable_views: Vec<GlobalVariableView>) -> (res: FromElfStdOut)
        ensures
            res@ == blocks_of(crate::domain::global_variable_view::variable_views(variable_views@)),
    {
        let ghost vs = crate::domain::global_variable_view::variable_views(variable_views@);
        proof {
            lemma_variable_views(variable_views@);
        }
        let mut blocks: Vec<FromElfBlock> = Vec::new();
        let mut i: usize = 0;
        while i < variable_views.len()
            invariant
                i <= variable_views@.len(),
                vs == crate::domain::global_variable_view::variable_views(variable_views@),
                vs.len() == variable_views@.len(),
                forall|j: int| 0 <= j < variable_views@.len() ==> #[trigger] vs[j] == variable_views@[j]@,
                blocks@.len() == i,
                forall|j: int|
                    0 <= j < i ==> #[trigger] blocks@[j]@ == block_lines(vs[j], ParentNameModel::NoParent),
            decreases variable_views@.len() - i,
        {
            let block = FromElfBlock::from_variable_view_with_parent(&variable_views[i], &ParentName::NoParent);
            blocks.push(block);
            i = i + 1;
        }
        let res = FromElfStdOut { blocks };
        proof {
            assert(res@ =~= blocks_of(vs));
        }
        res
    }

    /// The listing as it is printed (see `blocks_text`).
    pub fn text(&self) -> (res: String)
        ensures
            res@ == blocks_text(self@),
    {
        let ghost bs = self@;
        let mut res = String::new();
        let mut i: usize = 0;
        proof {
            assert(bs.take(0) =~= Seq::<Seq<LineModel>>::empty());
        }
        while i < self.blocks.len()
            invariant
                i <= self.blocks@.len(),
                bs == self@,
                res@ == blocks_text(bs.take(i as int)),
            decreases self.blocks@.len() - i,
        {
            proof {
                assert(bs.take(i + 1).drop_last() =~= bs.take(i as int));
                assert(bs.take(i + 1).last() == self.blocks@[i as int]@);
            }
            res.append(self.blocks[i].text().as_str());
            res.append("\n");
            i = i + 1;
        }
        proof {
            assert(bs.take(self.blocks@.len() as int) =~= bs);
        }
        res
    }
}

} // verus!
