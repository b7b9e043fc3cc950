//! The abstract syntax tree that inference walks over.

pub mod expression;
pub mod statement;
pub mod operators;
