pub mod project;
