//! A lossless concrete syntax tree for PostgreSQL, and the LALR(1) table
//! generator behind its parser.

pub mod cst;
pub mod parser_generator;
pub mod syntax_kind;
pub mod transform;
pub mod tree_sitter;
