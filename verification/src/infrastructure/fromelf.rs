pub mod stdout;
