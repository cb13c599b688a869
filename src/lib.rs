//! Deterministic simulation core of a two-player Pong game.
//!
//! Lengths are held as exact integers in sub-units: one playfield unit is
//! `SCALE` sub-units, and `SCALE` equals the number of fixed ticks per second.
//! A velocity given in playfield units per second therefore moves a body by
//! exactly that many sub-units in one tick, and every rule of the simulation
//! is integer arithmetic with no rounding.
pub mod geometry;
pub mod state;
pub mod physics;
pub mod game;
pub mod laws;
