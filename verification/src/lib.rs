//! Type computation and type checking for a lowered hardware-description tree.
//!
//! The crate is layered: [`arena`] owns type values, [`score`] computes the
//! type of a node from its lowered form, and [`typeck`] walks a design unit,
//! checks every node in it and collects what went wrong.
//!
//! What the two contexts do is stated over the functions of [`rules`] and
//! [`checks`], which say as mathematics what type a node has and what a
//! check reports. [`laws`] holds what follows for every tree.

pub mod integer;
pub mod node;
pub mod ty;
pub mod arena;
pub mod konst;
pub mod diag;
pub mod hir;
pub mod rules;
pub mod score;
pub mod checks;
pub mod typeck;
pub mod facts;
pub mod laws;
