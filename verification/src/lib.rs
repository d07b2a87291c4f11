//! Per-tick character physics for a side-scrolling combat simulation.
//!
//! A soldier is a verlet-integrated skeletal body driven by procedural
//! animation poses and resolved against a polygon map through three
//! complementary collision tests (area probe, vertex probe, radius sweep).
//! All world quantities are deterministic fixed-point numbers: an `i64`
//! counts ten-thousandths of a world unit, so every coefficient of the
//! simulation (friction, gravity, damping, restitution) is represented
//! exactly and every tick is reproducible bit for bit.

pub mod anim;
pub mod control;
pub mod fx;
pub mod laws;
pub mod map;
pub mod parts;
pub mod sheet;
pub mod soldier;

use vstd::prelude::*;

verus! {

} // verus!
