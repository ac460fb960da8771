//! The teleport gate: per-entity state that suppresses client movement
//! while a server-issued repositioning awaits acknowledgment.

use crate::pose::{Look, Position};
use vstd::prelude::*;

verus! {

/// While `pending_count` is nonzero the client is still operating on
/// coordinates the server has superseded, so reported movement is ignored.
/// The teleport protocol itself raises and lowers `pending_count`; this
/// core only reads it, and records in the `synced_*` fields what the client
/// is most recently known to have applied.
#[derive(Clone, Copy, PartialEq, Eq, Structural, Debug)]
pub struct TeleportGate {
    pub pending_count: u32,
    pub synced_position: Position,
    pub synced_look: Look,
}

impl TeleportGate {
    /// A gate with no outstanding correction, synced to the given pose.
    pub fn new(position: Position, look: Look) -> (g: TeleportGate)
        ensures
            g.pending_count == 0,
            g.synced_position == position,
            g.synced_look == look,
    {
        TeleportGate { pending_count: 0, synced_position: position, synced_look: look }
    }
}

} // verus!
