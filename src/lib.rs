//! A top-down movement controller: entities stage a movement intent, and a
//! fixed simulation step applies it to their velocity.
//!
//! All quantities are integers in units the host chooses: a velocity in
//! velocity units, an acceleration rate in velocity units gained per time
//! unit, and an elapsed time as a count of time units.
use vstd::prelude::*;

pub mod movement;
pub mod player;
pub mod vector;
pub mod world;

verus! {

} // verus!
