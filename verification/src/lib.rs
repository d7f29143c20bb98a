//! Game rules of a plankton-swimming sandbox: the species that live in the
//! water, the square lattice of world tiles that is loaded around the
//! player, the decisions that spawn and cull those tiles, the random plan
//! of what grows on a fresh tile, and the swim direction read from the keys.
//!
//! Rendering, physics and everything measured in floating point live in the
//! application around this library; it hands plain values in and out.

pub mod random;
pub mod fauna;
pub mod gameworld;
pub mod spawning;
pub mod input;
