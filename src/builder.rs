//! Building JAM services: the command lines of the build tools.

pub mod cargo;
pub mod pipeline;
pub mod polkatool;
