//! LALR(1) parse table construction from a yacc-style grammar.

pub mod automaton;
pub mod bison;
pub mod closure;
pub mod cores;
pub mod expand;
pub mod first_set;
pub mod grammar;
pub mod id_mapper;
pub mod item_sets;
pub mod lalr;
pub mod lexer;
pub mod symbols;
pub mod table;
pub mod terminal_set;
