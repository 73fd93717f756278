//! Flattened type patterns: validation against an interner, traversal,
//! instance matching, disjointness and canonical text.

pub mod element;
pub mod format;
pub mod interner;
pub mod model;
pub mod pattern;
pub mod primitives;
pub mod theorems;
