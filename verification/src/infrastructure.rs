pub mod fromelf;
