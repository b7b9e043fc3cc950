//! Static type inference for GML, a dynamically typed scripting language.
//!
//! The crate infers structural types for variables, struct values and
//! functions of a parsed program by unification over a substitution table.
//! Beside the inference stand the lints that read the syntax tree, and a scan
//! over the text of a file that collects what the file declares.

pub mod constrain;
pub mod error;
pub mod gml;
pub mod goals;
pub mod laws;
pub mod lint;
pub mod lints;
pub mod location;
pub mod paint;
pub mod parse;
pub mod parsing;
pub mod printer;
pub mod query;
pub mod record;
pub mod solver;
pub mod store;
pub mod table;
pub mod ty;
pub mod unify;
