//! Validation of the module-level structure of WebAssembly binaries.
//!
//! A module arrives as a stream of section payloads, read from the bytes of a
//! binary or handed over by a parser. Each payload is checked against the
//! index spaces built so far and then added to them. When the code section
//! begins the index spaces are frozen into a shared snapshot, against which
//! function bodies can be checked independently of each other.

pub mod adds;
pub mod body;
pub mod checks;
pub mod cli;
pub mod congruence;
pub mod const_expr;
pub mod const_validator;
pub mod decode;
pub mod decode_entries;
pub mod decode_expr;
pub mod decode_types;
pub mod driver;
pub mod elements;
pub mod error;
pub mod features;
pub mod intern;
pub mod invariants;
pub mod laws;
pub mod limits;
pub mod maybe_owned;
pub mod module;
pub mod monotone;
pub mod operators;
pub mod parse;
pub mod reader;
pub mod payload;
pub mod rec_group;
pub mod resources;
pub mod schedule;
pub mod sections;
pub mod sequence;
pub mod state;
pub mod type_list;
pub mod types;
pub mod validator;
pub mod views;
