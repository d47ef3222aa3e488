//! Generation of the command table's source text from its textual description.

pub mod codegen;
pub mod parser;
