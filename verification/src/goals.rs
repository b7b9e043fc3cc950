//! The walk over syntax that constrains the types of a program.

pub mod assign;
pub mod call;
pub mod function;
pub mod inherit;
pub mod model;
pub mod parameters;
pub mod process;
pub mod rules;
pub mod statements;
pub mod steps;
pub mod walk;
