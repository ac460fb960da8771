//! The per-packet pipeline: normalize, gate, validate, commit.
//!
//! Once per server tick the caller drains every queued movement packet
//! for every connected entity and runs each through [`process_packet`],
//! in arrival order. The computation is straight-line and never blocks:
//! the ground-truth oracle's answers for the entity's footprint are
//! passed in as plain values, read by the caller from already-loaded
//! world data at the columns named by
//! [`footprint_base`](crate::validate::footprint_base).

use crate::commit::commit;
use crate::gate::TeleportGate;
use crate::history::{sum_seq, MovementHistory};
use crate::packet::{normalize, MovementEvent, MovementPacket};
use crate::pose::AuthoritativePose;
use crate::units::spec_isqrt;
use crate::validate::{spec_validate, validate, FootprintContact, GameMode, Violations};
use vstd::prelude::*;

verus! {

/// Processes one queued movement packet for one entity.
///
/// While the teleport gate's `pending_count` is nonzero the packet's
/// effect is discarded entirely: no state is mutated and no event is
/// produced, and the packet is not replayed later. Otherwise the packet
/// is normalized against the current pose, the validator's verdict is
/// computed, and the move is committed unconditionally (soft-fail
/// policy: flags are reported, not enforced), yielding the verdict and
/// the movement event to publish.
pub fn process_packet(
    entity: u64,
    packet: &MovementPacket,
    mode: GameMode,
    contact: &FootprintContact,
    pose: &mut AuthoritativePose,
    gate: &mut TeleportGate,
    history: &mut MovementHistory,
) -> (outcome: Option<(Violations, MovementEvent)>)
    requires
        old(pose).position.bounded(),
        packet.bounded(),
        old(history).wf(),
        old(history).tick_count < u32::MAX,
    ensures
        final(history).wf(),
        old(gate).pending_count != 0 ==> {
            &&& outcome is None
            &&& *final(pose) == *old(pose)
            &&& *final(gate) == *old(gate)
            &&& *final(history) == *old(history)
        },
        old(gate).pending_count == 0 ==> {
            let record = packet.normalized(*old(pose), entity);
            &&& outcome == Some(
                (spec_validate(record, *old(history), mode, *contact), record.to_event()),
            )
            &&& *final(pose) == record.committed_pose()
            &&& final(gate).pending_count == 0
            &&& final(gate).synced_position == record.new_position
            &&& final(gate).synced_look == record.new_look
            &&& final(history).last_vertical_delta == record.vertical_delta()
            &&& final(history).tick_count == old(history).tick_count + 1
            &&& final(history).horizontal_magnitudes@ == MovementHistory::window_after(
                old(history).horizontal_magnitudes@,
                spec_isqrt(record.horizontal_sq()) as i64,
            )
            &&& final(history).running_sum_of_magnitudes == sum_seq(
                final(history).horizontal_magnitudes@,
            )
        },
{
    if gate.pending_count != 0 {
        return None;
    }
    let record = normalize(packet, pose, entity);
    let violations = validate(&record, history, mode, contact);
    let event = commit(&record, pose, gate, history);
    Some((violations, event))
}

} // verus!
