//! Declarative policy data for how bodies interact with a rectangular
//! world boundary.  Enforcement is a concern of the surrounding game loop;
//! the stepping logic itself never consults these values.

use vstd::prelude::*;
use crate::rigid_body::BodyId;
use crate::vec2::Vec2;

verus! {

/// A rectangular world region.
#[derive(Clone, Copy, Debug, PartialEq, Eq, Structural)]
pub struct WorldBounds {
    pub min: Vec2,
    pub max: Vec2,
}

/// What should happen to a body that reaches the world boundary.
#[derive(Clone, Copy, Debug, PartialEq, Eq, Structural)]
pub enum BoundsBehavior {
    /// Ignore bounds completely (infinite world).
    Ignore,
    /// Generate events when bounds are violated, but do not constrain.
    Events,
    /// Clamp objects to bounds, hard walls.
    Clamp { restitution: i64 },
    /// Wrap objects to the opposite side.
    Wrap,
    /// Mark objects for deletion when out of bounds.
    Delete { safety_margin: i64 },
    /// Custom per-body behavior.
    PerBody,
}

/// A recorded boundary violation.
#[derive(Clone, Copy, Debug, PartialEq, Eq, Structural)]
pub struct BoundsEvent {
    pub body_id: BodyId,
    pub position: Vec2,
    pub violation: BoundsViolation,
}

/// Which edge was crossed, and by how far.
#[derive(Clone, Copy, Debug, PartialEq, Eq, Structural)]
pub enum BoundsViolation {
    Left(i64),
    Right(i64),
    Top(i64),
    Bottom(i64),
}

} // verus!
