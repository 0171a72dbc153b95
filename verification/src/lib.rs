//! Entity-component store and per-frame systems of a small 2D tower-climbing
//! platformer.
//!
//! The store keeps a component mask per slot next to parallel component tables.
//! Each frame the clock ticks, the input system steers the controlled entities,
//! the movement system integrates velocities and positions, and render
//! submission lists what is to be drawn.
//!
//! The store is generic in the number type of its vectors and computes with no
//! number itself: the systems take the arithmetic they need from the caller.

pub mod ecs;
pub mod game;
pub mod input;
