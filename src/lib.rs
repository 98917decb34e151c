//! Prepares a standalone package manifest from a template: relative path
//! dependencies are made absolute and the library target is pointed at a
//! single source file.

pub mod cargo_api;
pub mod transform;
