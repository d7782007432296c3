//! Rails-specific lint rules over a Ruby syntax tree, with verified contracts.

pub mod ast;
pub mod cops;
pub mod report;
pub mod text;
