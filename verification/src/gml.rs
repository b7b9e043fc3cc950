//! What is known of a project as a whole.

pub mod declarations;
pub mod environment;
