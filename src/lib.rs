//! Input-to-transform rules of an interactive viewer that shows one
//! primitive object at a time.
//!
//! The library decides what every input does: which shape and material a
//! selection spawns, when a pointer drag is active, and which exact
//! transform edits (`Effect`s) keyboard, pointer and panel input produce.
//! Quantities are fixed-point integers, so each edit has an exact meaning on
//! the abstract pose defined in the `pose` module.
use vstd::prelude::*;

pub mod input;
pub mod laws;
pub mod material;
pub mod panel;
pub mod pose;
pub mod shape;
pub mod viewer;

verus! {

} // verus!
