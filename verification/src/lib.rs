pub mod ast;
pub mod complexity;
pub mod paths;
pub mod pathfilter;
pub mod traverse;
pub mod compdb;
