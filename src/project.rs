//! Project generation and the rules on project names.

pub mod generator;
pub mod validation;
