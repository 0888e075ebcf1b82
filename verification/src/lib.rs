//! Cached button and distance-sensor state of a touch button panel.
//!
//! The panel has eight mechanical buttons whose levels are cached in one
//! byte, and eight time-of-flight distance sensors whose readings are sorted
//! into three height sections and turned into seventeen virtual buttons.
//! Everything that touches hardware lives outside this crate; what is here is
//! the bookkeeping and the decisions, with their contracts.
pub mod buttons;
pub mod distance;
pub mod flags;
pub mod interrupts;
pub mod models;

use vstd::prelude::*;

verus! {

} // verus!
