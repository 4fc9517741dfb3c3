//! The JAM toolchain: platforms, the installation record and releases.

pub mod config;
pub mod download;
pub mod platform;
