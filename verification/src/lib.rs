//! Interaction core of a room-scale scene: tracked controllers grab, carry
//! and throw simulated rigid objects, and every frame is updated in two
//! phases around a single batched physics step.
//!
//! All numbers are single-precision values held by their bit patterns, so
//! the library never rounds: arithmetic on them belongs to the caller, and
//! the decisions taken on them are proved here.

pub mod controller;
pub mod draw;
pub mod grab;
pub mod lets_get_physical;
pub mod object;
pub mod physics;
pub mod pose;
pub mod scalar;
pub mod snowflakes;
