//! Tile collision and locomotion core of a 2D platformer engine.
use vstd::prelude::*;

pub mod fixed;
pub mod tiles;
pub mod layer;
pub mod trig;
pub mod sensor;
pub mod actor;
pub mod grip;
pub mod movement;
pub mod scene;
pub mod storage;
pub mod input;
pub mod drawing;
pub mod reader;

verus! {

} // verus!
