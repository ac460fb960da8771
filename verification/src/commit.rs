//! The committer: applies a validated record to the entity's
//! authoritative state and produces the movement event.

use crate::gate::TeleportGate;
use crate::history::{sum_seq, MovementHistory};
use crate::packet::{CanonicalMovementRecord, MovementEvent};
use crate::pose::AuthoritativePose;
use crate::units::spec_isqrt;
use vstd::prelude::*;

verus! {

/// Writes the record's new position, look, head yaw (following the look)
/// and ground flag into the authoritative pose; records the committed
/// pose in the teleport gate's synced fields, so the teleport protocol
/// knows what the client has most recently applied; advances the movement
/// history with this move's vertical delta and horizontal magnitude; and
/// returns the event to publish. Writing a value equal to the old one
/// leaves the state bit-identical.
///
/// Per the current soft-fail policy this runs regardless of what the
/// validator flagged.
pub fn commit(
    record: &CanonicalMovementRecord,
    pose: &mut AuthoritativePose,
    gate: &mut TeleportGate,
    history: &mut MovementHistory,
) -> (event: MovementEvent)
    requires
        record.bounded(),
        old(history).wf(),
        old(history).tick_count < u32::MAX,
    ensures
        *final(pose) == record.committed_pose(),
        final(gate).pending_count == old(gate).pending_count,
        final(gate).synced_position == record.new_position,
        final(gate).synced_look == record.new_look,
        final(history).wf(),
        final(history).last_vertical_delta == record.vertical_delta(),
        final(history).tick_count == old(history).tick_count + 1,
        final(history).horizontal_magnitudes@ == MovementHistory::window_after(
            old(history).horizontal_magnitudes@,
            spec_isqrt(record.horizontal_sq()) as i64,
        ),
        final(history).running_sum_of_magnitudes == sum_seq(final(history).horizontal_magnitudes@),
        event == record.to_event(),
{
    let vertical_delta: i64 = record.new_position.y - record.old_position.y;
    let magnitude: i64 = record.horizontal_magnitude_millis();
    pose.position = record.new_position;
    pose.look = record.new_look;
    pose.head_yaw = record.new_look.yaw;
    pose.on_ground = record.new_on_ground;
    gate.synced_position = record.new_position;
    gate.synced_look = record.new_look;
    history.advance(vertical_delta, magnitude);
    MovementEvent {
        client: record.entity,
        position: record.new_position,
        old_position: record.old_position,
        look: record.new_look,
        old_look: record.old_look,
        on_ground: record.new_on_ground,
        old_on_ground: record.old_on_ground,
    }
}

} // verus!
