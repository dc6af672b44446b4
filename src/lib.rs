//! The expression parser of a calculator language: it turns a lexer's tokens
//! into a syntax tree, resolving juxtaposition (function calls, implicit
//! multiplication, prefix units, mixed fractions, compound quantities) by the
//! shapes of the terms already parsed.
pub mod ast;
pub mod file_paths;
pub mod grammar;
pub mod message;
pub mod parser;
pub mod token;
