//! A verified one-dimensional elastic-collision engine: two sliding blocks of
//! disparate mass and a rigid wall, advanced by discrete ticks.  Every contact
//! (block against wall, block against block) reflects or exchanges velocity by
//! the ideal elastic law and raises a running collision counter by one.  With
//! the heavy block's mass a power of one hundred times the light one's, the
//! final count spells out the leading digits of pi.
//!
//! All state is kept in exact rational arithmetic, so conservation of momentum
//! and of kinetic energy are theorems here, not approximations.

pub mod body;
pub mod collision;
pub mod counter;
pub mod engine;
pub mod laws;
pub mod rational;
