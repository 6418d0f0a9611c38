pub mod dump_global_variables;
