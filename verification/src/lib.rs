//! Core simulation for a small 2D arcade shooter.
//!
//! The library owns the authoritative per-frame state: entity lifecycle
//! (spawn, move, bound-check, despawn), smallest-gap id allocation, the
//! wave-timer-driven spawn director, and the pairwise collision sweep.
//! Window creation, asset loading and rendering are external collaborators
//! that feed input into, and read renderable state out of, this core.
//!
//! All coordinates and speeds are integer arena units (the inner arena is
//! 1000 x 600 units); timers are integer milliseconds. Entities reference
//! shared model assets by numeric handle instead of owning geometry.

pub mod collision;
pub mod config;
pub mod entity;
pub mod game;
pub mod ids;
pub mod motion;
pub mod registry;
