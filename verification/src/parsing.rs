//! The scan over the text of a file that finds its enums, macros, constructors, keywords and
//! switch statements.

pub mod collect;
pub mod lexer;
pub mod pattern;
pub mod switches;
pub mod token;
pub mod tokens;
