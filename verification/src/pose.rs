//! The server's authoritative view of an entity's position and orientation.

use crate::units::COORD_LIMIT_MILLIS;
use vstd::prelude::*;

verus! {

/// A point in the world, in milli-blocks on each axis.
#[derive(Clone, Copy, PartialEq, Eq, Structural, Debug)]
pub struct Position {
    pub x: i64,
    pub y: i64,
    pub z: i64,
}

impl Position {
    /// Every axis lies within the coordinate limit.
    pub open spec fn bounded(self) -> bool {
        &&& -COORD_LIMIT_MILLIS <= self.x <= COORD_LIMIT_MILLIS
        &&& -COORD_LIMIT_MILLIS <= self.y <= COORD_LIMIT_MILLIS
        &&& -COORD_LIMIT_MILLIS <= self.z <= COORD_LIMIT_MILLIS
    }

    pub fn new(x: i64, y: i64, z: i64) -> (p: Position)
        ensures
            p.x == x,
            p.y == y,
            p.z == z,
    {
        Position { x, y, z }
    }
}

/// An orientation: yaw and pitch, in milli-degrees.
#[derive(Clone, Copy, PartialEq, Eq, Structural, Debug)]
pub struct Look {
    pub yaw: i32,
    pub pitch: i32,
}

impl Look {
    pub fn new(yaw: i32, pitch: i32) -> (l: Look)
        ensures
            l.yaw == yaw,
            l.pitch == pitch,
    {
        Look { yaw, pitch }
    }
}

/// The server's trusted pose for one entity, distinct from whatever the
/// client last reported. Mutated only by the committer, after validation.
#[derive(Clone, Copy, PartialEq, Eq, Structural, Debug)]
pub struct AuthoritativePose {
    pub position: Position,
    pub look: Look,
    pub head_yaw: i32,
    pub on_ground: bool,
}

impl AuthoritativePose {
    /// A freshly spawned entity's pose: the given placement, head yaw
    /// aligned with the look.
    pub fn new(position: Position, look: Look, on_ground: bool) -> (p: AuthoritativePose)
        ensures
            p.position == position,
            p.look == look,
            p.head_yaw == look.yaw,
            p.on_ground == on_ground,
    {
        AuthoritativePose { position, look, head_yaw: look.yaw, on_ground }
    }
}

} // verus!
