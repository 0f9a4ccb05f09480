//! Structural checks for a name-sharded package tree ("by-name" tree):
//! naming and layout rules, cross-references against evaluated attribute
//! definitions, path containment, and the typed problems these report.

pub mod structure;
pub mod text;
pub mod nixpkgs_problem;
pub mod problem;
pub mod tree;
pub mod attributes;
pub mod containment;
pub mod engine;
pub mod order;
pub mod scan;
pub mod laws;
