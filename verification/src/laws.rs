//! What holds of the solver whatever it is given.

pub mod growth;
pub mod growth_rules;
pub mod growth_steps;
pub mod growth_walk;
pub mod literals;
pub mod records;
