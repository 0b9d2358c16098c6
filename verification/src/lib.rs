//! Control core of a soccer-playing robot driven by an evolved neural
//! controller.
//!
//! The crate holds the verified logic of the system: the behaviour-tree
//! interpreter, the holonomic motion controller, the per-genome training
//! driver and its scoring rules, the replay watcher, the perception message
//! assembly, the intercom wire framing, and the configuration model.
//!
//! All geometry and scoring is carried out in milli-units: an `i64` value of
//! `1000` stands for one unit. The surrounding process converts between these
//! fixed-point values and whatever its transport uses at the boundary.

use vstd::prelude::*;

pub mod behavior;
pub mod bt;
pub mod config;
pub mod driver;
pub mod ids;
pub mod intercom;
pub mod manager;
pub mod math;
pub mod motion;
pub mod node;
pub mod perception;
pub mod scoring;
pub mod vec2;
pub mod watcher;

verus! {

} // verus!
