//! The character controller: input collection, ground detection, movement
//! resolution and damping, run once per simulation tick in that order.

pub mod controller;
pub mod geometry;
pub mod input;
pub mod grounded;
pub mod movement;
pub mod tick;
pub mod laws;
