//! Templates: the manifest model, the path matcher and the rendering helpers.

pub mod config;
pub mod engine;
pub mod git;
pub mod pattern;
