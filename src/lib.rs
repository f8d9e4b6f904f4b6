//! Vault maneuver core for a 2D physics prototype.
//!
//! An actor that touches a vault-capable obstacle can, on an action edge,
//! start a timed vault: its position is then driven in the obstacle's frame
//! until the vault's completion ratio passes one. Everything is in integer
//! fixed point: time in microseconds, lengths in a host-chosen unit, and
//! rotations as a cosine / sine pair scaled by `ROTATION_SCALE`.
pub mod config;
pub mod direction;
pub mod geometry;
pub mod motion;
pub mod step;
pub mod trigger;
