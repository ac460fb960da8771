//! Movement packets and their normalization into one canonical record.

use crate::pose::{AuthoritativePose, Look, Position};
use crate::units::{isqrt, sq, spec_isqrt, COORD_LIMIT_MILLIS, MAG_LIMIT_MILLIS};
use vstd::prelude::*;

verus! {

/// One decoded client movement packet. Every variant the wire protocol
/// accepts for movement collapses into one of these.
#[derive(Clone, Copy, PartialEq, Eq, Structural, Debug)]
pub enum MovementPacket {
    /// Position, look and ground flag all reported.
    Full { position: Position, look: Look, on_ground: bool },
    /// Position and ground flag only; the look is unchanged.
    PositionAndOnGround { position: Position, on_ground: bool },
    /// Look and ground flag only; the position is unchanged.
    LookAndOnGround { look: Look, on_ground: bool },
    /// Ground flag only.
    OnGroundOnly { on_ground: bool },
    /// A vehicle move: position and look, but no self-reported ground flag.
    VehicleMove { position: Position, look: Look },
}

impl MovementPacket {
    /// Any position the packet carries lies within the coordinate limit.
    pub open spec fn bounded(self) -> bool {
        match self {
            MovementPacket::Full { position, .. } => position.bounded(),
            MovementPacket::PositionAndOnGround { position, .. } => position.bounded(),
            MovementPacket::LookAndOnGround { .. } => true,
            MovementPacket::OnGroundOnly { .. } => true,
            MovementPacket::VehicleMove { position, .. } => position.bounded(),
        }
    }

    /// The canonical record this packet produces against the given pose:
    /// fields the packet does not report are carried over from the pose,
    /// and a vehicle move copies the entity's current ground flag since
    /// vehicles do not report ground contact.
    pub open spec fn normalized(self, pose: AuthoritativePose, entity: u64) -> CanonicalMovementRecord {
        match self {
            MovementPacket::Full { position, look, on_ground } => CanonicalMovementRecord {
                entity,
                new_position: position,
                old_position: pose.position,
                new_look: look,
                old_look: pose.look,
                new_on_ground: on_ground,
                old_on_ground: pose.on_ground,
            },
            MovementPacket::PositionAndOnGround { position, on_ground } => CanonicalMovementRecord {
                entity,
                new_position: position,
                old_position: pose.position,
                new_look: pose.look,
                old_look: pose.look,
                new_on_ground: on_ground,
                old_on_ground: pose.on_ground,
            },
            MovementPacket::LookAndOnGround { look, on_ground } => CanonicalMovementRecord {
                entity,
                new_position: pose.position,
                old_position: pose.position,
                new_look: look,
                old_look: pose.look,
                new_on_ground: on_ground,
                old_on_ground: pose.on_ground,
            },
            MovementPacket::OnGroundOnly { on_ground } => CanonicalMovementRecord {
                entity,
                new_position: pose.position,
                old_position: pose.position,
                new_look: pose.look,
                old_look: pose.look,
                new_on_ground: on_ground,
                old_on_ground: pose.on_ground,
            },
            MovementPacket::VehicleMove { position, look } => CanonicalMovementRecord {
                entity,
                new_position: position,
                old_position: pose.position,
                new_look: look,
                old_look: pose.look,
                new_on_ground: pose.on_ground,
                old_on_ground: pose.on_ground,
            },
        }
    }
}

/// One packet's proposed move, relative to the entity's last authoritative
/// state. Exists only for the duration of that packet's processing.
#[derive(Clone, Copy, PartialEq, Eq, Structural, Debug)]
pub struct CanonicalMovementRecord {
    pub entity: u64,
    pub new_position: Position,
    pub old_position: Position,
    pub new_look: Look,
    pub old_look: Look,
    pub new_on_ground: bool,
    pub old_on_ground: bool,
}

impl CanonicalMovementRecord {
    pub open spec fn bounded(self) -> bool {
        self.new_position.bounded() && self.old_position.bounded()
    }

    /// The proposed vertical displacement, in milli-blocks.
    pub open spec fn vertical_delta(self) -> int {
        self.new_position.y - self.old_position.y
    }

    /// The squared horizontal displacement, in squared milli-blocks.
    pub open spec fn horizontal_sq(self) -> int {
        sq(self.new_position.x - self.old_position.x) + sq(
            self.new_position.z - self.old_position.z,
        )
    }

    /// The pose that committing this record produces: the proposed
    /// position, look and ground flag, with the head yaw following the
    /// look.
    pub open spec fn committed_pose(self) -> AuthoritativePose {
        AuthoritativePose {
            position: self.new_position,
            look: self.new_look,
            head_yaw: self.new_look.yaw,
            on_ground: self.new_on_ground,
        }
    }

    /// The event published to downstream listeners when this record is
    /// committed.
    pub open spec fn to_event(self) -> MovementEvent {
        MovementEvent {
            client: self.entity,
            position: self.new_position,
            old_position: self.old_position,
            look: self.new_look,
            old_look: self.old_look,
            on_ground: self.new_on_ground,
            old_on_ground: self.old_on_ground,
        }
    }

    /// The squared horizontal displacement for this move, in squared
    /// milli-blocks.
    pub fn horizontal_sq_millis(&self) -> (h: i128)
        requires
            self.bounded(),
        ensures
            h == self.horizontal_sq(),
    {
        let dx: i64 = self.new_position.x - self.old_position.x;
        let dz: i64 = self.new_position.z - self.old_position.z;
        proof {
            assert(0 <= dx as int * dx as int <= 4 * (COORD_LIMIT_MILLIS as int) * (
            COORD_LIMIT_MILLIS as int) && 0 <= dz as int * dz as int <= 4 * (
            COORD_LIMIT_MILLIS as int) * (COORD_LIMIT_MILLIS as int)) by (nonlinear_arith)
                requires
                    -2 * (COORD_LIMIT_MILLIS as int) <= dx as int <= 2 * (COORD_LIMIT_MILLIS as int),
                    -2 * (COORD_LIMIT_MILLIS as int) <= dz as int <= 2 * (COORD_LIMIT_MILLIS as int),
            ;
        }
        (dx as i128) * (dx as i128) + (dz as i128) * (dz as i128)
    }

    /// The horizontal displacement magnitude for this move, rounded down
    /// to a whole milli-block.
    pub fn horizontal_magnitude_millis(&self) -> (m: i64)
        requires
            self.bounded(),
        ensures
            m == spec_isqrt(self.horizontal_sq()),
            0 <= m <= MAG_LIMIT_MILLIS,
    {
        let dx: i64 = self.new_position.x - self.old_position.x;
        let dz: i64 = self.new_position.z - self.old_position.z;
        proof {
            assert(0 <= dx as int * dx as int <= 4 * (COORD_LIMIT_MILLIS as int) * (
            COORD_LIMIT_MILLIS as int) && 0 <= dz as int * dz as int <= 4 * (
            COORD_LIMIT_MILLIS as int) * (COORD_LIMIT_MILLIS as int)) by (nonlinear_arith)
                requires
                    -2 * (COORD_LIMIT_MILLIS as int) <= dx as int <= 2 * (COORD_LIMIT_MILLIS as int),
                    -2 * (COORD_LIMIT_MILLIS as int) <= dz as int <= 2 * (COORD_LIMIT_MILLIS as int),
            ;
        }
        let hsq: i128 = (dx as i128) * (dx as i128) + (dz as i128) * (dz as i128);
        let mag64: u64 = isqrt(hsq as u128);
        proof {
            if mag64 as int > MAG_LIMIT_MILLIS as int {
                assert(mag64 as int * mag64 as int > (MAG_LIMIT_MILLIS as int) * (
                MAG_LIMIT_MILLIS as int)) by (nonlinear_arith)
                    requires
                        mag64 as int > MAG_LIMIT_MILLIS as int >= 0,
                ;
                assert(false);
            }
        }
        mag64 as i64
    }
}

/// What downstream consumers see when a client successfully moves: a copy
/// of the committed record. Events are delivered in packet order within a
/// tick and are not persisted across ticks.
#[derive(Clone, Copy, PartialEq, Eq, Structural, Debug)]
pub struct MovementEvent {
    pub client: u64,
    pub position: Position,
    pub old_position: Position,
    pub look: Look,
    pub old_look: Look,
    pub on_ground: bool,
    pub old_on_ground: bool,
}

/// Builds the canonical record for one packet against the entity's current
/// authoritative pose.
pub fn normalize(packet: &MovementPacket, pose: &AuthoritativePose, entity: u64) -> (record:
    CanonicalMovementRecord)
    ensures
        record == packet.normalized(*pose, entity),
{
    match *packet {
        MovementPacket::Full { position, look, on_ground } => CanonicalMovementRecord {
            entity,
            new_position: position,
            old_position: pose.position,
            new_look: look,
            old_look: pose.look,
            new_on_ground: on_ground,
            old_on_ground: pose.on_ground,
        },
        MovementPacket::PositionAndOnGround { position, on_ground } => CanonicalMovementRecord {
            entity,
            new_position: position,
            old_position: pose.position,
            new_look: pose.look,
            old_look: pose.look,
            new_on_ground: on_ground,
            old_on_ground: pose.on_ground,
        },
        MovementPacket::LookAndOnGround { look, on_ground } => CanonicalMovementRecord {
            entity,
            new_position: pose.position,
            old_position: pose.position,
            new_look: look,
            old_look: pose.look,
            new_on_ground: on_ground,
            old_on_ground: pose.on_ground,
        },
        MovementPacket::OnGroundOnly { on_ground } => CanonicalMovementRecord {
            entity,
            new_position: pose.position,
            old_position: pose.position,
            new_look: pose.look,
            old_look: pose.look,
            new_on_ground: on_ground,
            old_on_ground: pose.on_ground,
        },
        MovementPacket::VehicleMove { position, look } => CanonicalMovementRecord {
            entity,
            new_position: position,
            old_position: pose.position,
            new_look: look,
            old_look: pose.look,
            new_on_ground: pose.on_ground,
            old_on_ground: pose.on_ground,
        },
    }
}

} // verus!
