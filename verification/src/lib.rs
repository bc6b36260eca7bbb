//! Runtime core of a tick-based 2D simulation.
//!
//! The crate provides a staged, deterministic update scheduler, a flat
//! game-state machine, a state-scoped entity lifecycle registry, and a
//! projectile subsystem (planar pose projection, polar velocity derivation,
//! timed self-destruction through a deferred command buffer).
//!
//! All geometry is held in fixed-point integers: lengths in thousandths of a
//! unit and angles in thousandths of a degree. The floating-point boundary
//! (quaternion decomposition, trigonometry, the physics backend itself) lives
//! outside this crate; callers hand the core plain values.

pub mod laws;
pub mod pose;
pub mod scheduler;
pub mod state;
pub mod world;
