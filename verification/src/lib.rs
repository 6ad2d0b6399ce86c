//! Searching the syntax tree of VHDL design files: finding the item under a
//! cursor and finding every reference to a declaration.

pub mod source;
pub mod ast;
pub mod search;
pub mod walk_expr;
pub mod walk_decl;
pub mod walk_unit;
pub mod cursor;
pub mod references;
pub mod searchable;
pub mod laws;
