//! Acceptance matching between statically declared data shapes and
//! runtime-introspected schema type descriptors.
//!
//! A declared shape (a record of named, typed fields; an enumeration of
//! named variants; or an alias wrapping one inner type) is held against a
//! descriptor of an external schema type. The matchers decide whether the
//! external type is compatible enough to carry values of the declared
//! shape. Matching is a pure predicate: it never errors and never mutates
//! its inputs.

pub mod descriptor;
pub mod laws;
pub mod matcher;
pub mod shape;
