//! A flocking simulation. Every agent perceives the agents near it, blends
//! several goals into one desired direction, is steered towards it by a
//! force along its nose and a turn rate, and is then moved under drag.
//!
//! The library holds the world, the order of the work and every rule of
//! it, verified for any arithmetic that [`arithmetic::Arithmetic`]
//! describes. What it proves is stated relative to that arithmetic: which
//! formula is evaluated on which values, in which order and on which
//! condition.

pub mod arithmetic;
pub mod behaviours;
pub mod config;
pub mod determinism;
pub mod frame;
pub mod generation;
pub mod geometry;
pub mod goals;
pub mod physics;
pub mod schedule;
pub mod strategies;
pub mod utilities;
pub mod world;
