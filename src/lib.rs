//! Generation of JAM service projects from parameterized templates, with the
//! build and toolchain bookkeeping around them.
//!
//! The template engine is the heart of the crate: the manifest model, the
//! glob matcher that selects files, the variable collector and the generator
//! that turns a template tree into the entries of a new project. Everything
//! that touches the disk, the network, a terminal or a child process is left
//! to the caller, which hands plain values in and takes plain values out.

pub mod error;
pub mod text;
pub mod template;
pub mod prompt;
pub mod project;
pub mod toolchain;
pub mod builder;

pub use error::CargoJamError;
