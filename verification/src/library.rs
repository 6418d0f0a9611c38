pub mod dwarf;
pub mod text;
