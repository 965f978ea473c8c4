//! A 2D rigid-body physics engine over fixed-point arithmetic.
//!
//! The engine advances a world of bodies through time, detects collisions
//! between circles and axis-aligned rectangles, and resolves them with
//! impulses, friction, restitution and positional correction.  Every scalar
//! is an `i64` count of millionths of a unit (see [`fp`]), which keeps the
//! whole simulation inside verified integer arithmetic.

pub mod fp;
pub mod vec2;
pub mod collision;
pub mod gravity;
pub mod world_bounds;
pub mod rigid_body;
pub mod physics_world;
pub mod debug;
pub mod laws;
