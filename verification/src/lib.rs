//! Shallow-declaration extraction for a PHP-family language.
//!
//! The crate reduces the productions of a concrete syntax tree, bottom-up and
//! in one pass, to the declarations (classes, functions, typedefs, constants,
//! enums) that a source file makes. Every executable function is verified
//! against a mathematical model of the pass: each data type has a view, and
//! the contracts are stated over those views.

pub mod arena;
pub mod error;
pub mod pos;
pub mod token_kind;
pub mod ast_defs;
pub mod aast;
pub mod typing_defs;
pub mod shallow_decl_defs;
pub mod node;
pub mod namespace;
pub mod decls;
pub mod state;
pub mod names;
pub mod attributes;
pub mod type_hint;
pub mod generics;
pub mod functions;
pub mod lists;
pub mod token;
pub mod simple;
pub mod expressions;
pub mod type_specifiers;
pub mod generic_params;
pub mod declarations;
pub mod classes;
pub mod laws;
pub mod balance;
pub mod syntax_kind;
pub mod syntax;
pub mod reduce;
pub mod direct_decl_parser;
pub mod text;
pub mod utils;
pub mod ocaml_value;
