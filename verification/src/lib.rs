//! Alya compiler front end and code emitters.
pub mod ast;
pub mod codegen;
pub mod diagnostics;
pub mod driver;
pub mod parser;
pub mod lexer;
pub mod text;
