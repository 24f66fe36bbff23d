//! A small arcade dodger: players move along a strip, jump, and catch
//! falling baddies whose colour or face match what they already hold.
//!
//! The library holds the whole simulation: the action queue, input
//! bookkeeping, player physics and collisions, and the per-frame step.
//! Lengths are counted in hundredths of a pixel so that every computation
//! is exact integer arithmetic.
pub mod actions;
pub mod baddies;
pub mod constants;
pub mod game;
pub mod geometry;
pub mod input;
pub mod player;
