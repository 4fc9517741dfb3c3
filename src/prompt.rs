//! Template variables: the bindings themselves and how they are collected.

pub mod collect;
pub mod values;
