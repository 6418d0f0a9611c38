//! Analysis of the DWARF debugging information of ELF binaries: the
//! entries of `.debug_info` become type entries and global variables, and
//! each global variable becomes a tree of views that gives the address,
//! size and type of every part of it.

pub mod domain;
pub mod infrastructure;
pub mod library;
pub mod usecase;
