pub mod entity;
pub mod entity_repository;
pub mod global_variable;
pub mod type_entry;
pub mod type_entry_repository;
pub mod variable_declaration_entry;
pub mod variable_declaration_entry_repository;
pub mod variable_declaration_repository;
pub mod entry_factory;
pub mod global_variables_extractor;
pub mod global_variable_view;
pub mod global_variable_view_factory;
pub mod global_variable_view_warnings;
