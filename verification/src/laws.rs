//! Laws of the pipeline that relate several of its functions.
//!
//! The teleport-gate law (a pending teleport suppresses every effect of a packet)
//! is stated directly on [`process_packet`](crate::pipeline::process_packet),
//! and the window law (the magnitude window holds at most its capacity
//! and the running sum equals the exact sum of its samples) is stated by
//! [`MovementHistory::wf`](crate::history::MovementHistory::wf) and the
//! contract of [`MovementHistory::advance`](crate::history::MovementHistory::advance).

use crate::history::MovementHistory;
use crate::packet::CanonicalMovementRecord;
use crate::pose::AuthoritativePose;
use crate::units::{lemma_isqrt_is, spec_isqrt};
use crate::validate::{
    spec_checked, spec_validate, FootprintContact, GameMode, GRACE_TICKS, GRAVITY_STEP_MILLIS,
};
use vstd::prelude::*;

verus! {

/// Idempotence: committing a record whose new fields equal its old
/// fields leaves the authoritative pose bit-identical, and advances the
/// history only in the normal per-tick way — the recorded vertical delta
/// and the pushed magnitude are both zero.
pub proof fn lemma_commit_idempotent(pose: AuthoritativePose, record: CanonicalMovementRecord)
    requires
        record.new_position == record.old_position,
        record.new_look == record.old_look,
        record.new_on_ground == record.old_on_ground,
        record.old_position == pose.position,
        record.old_look == pose.look,
        record.old_on_ground == pose.on_ground,
        pose.head_yaw == record.old_look.yaw,
    ensures
        record.committed_pose() == pose,
        record.vertical_delta() == 0,
        record.horizontal_sq() == 0,
        spec_isqrt(record.horizontal_sq()) == 0,
{
    lemma_isqrt_is(0, 0);
}

/// Grace period: an Adventure-mode entity whose tick count is at most
/// the grace bound triggers no validator flag, whatever the move, the
/// history and the footprint.
pub proof fn lemma_adventure_grace(
    record: CanonicalMovementRecord,
    history: MovementHistory,
    mode: GameMode,
    contact: FootprintContact,
)
    requires
        mode == GameMode::Adventure,
        history.tick_count <= GRACE_TICKS,
    ensures
        !spec_validate(record, history, mode, contact).fake_ground,
        !spec_validate(record, history, mode, contact).flight,
        !spec_validate(record, history, mode, contact).sustained_overspeed,
        !spec_validate(record, history, mode, contact).instant_overspeed,
{
}

/// Unchecked modes: a Creative- or Spectator-mode entity triggers no
/// validator flag, whatever the move, the history and the footprint.
pub proof fn lemma_unchecked_modes(
    record: CanonicalMovementRecord,
    history: MovementHistory,
    mode: GameMode,
    contact: FootprintContact,
)
    requires
        mode == GameMode::Creative || mode == GameMode::Spectator,
    ensures
        !spec_validate(record, history, mode, contact).spec_any(),
{
}

/// Ground spoofing is flagged exactly when it occurs: for a checked
/// entity, the faking-grounded flag of a record's verdict holds if and
/// only if no footprint column obstructs motion while the record reports
/// ground contact — so a spoofing packet fires the flag exactly once,
/// on its own verdict.
pub proof fn lemma_ground_spoof(
    record: CanonicalMovementRecord,
    history: MovementHistory,
    mode: GameMode,
    contact: FootprintContact,
)
    requires
        spec_checked(mode, history.tick_count),
    ensures
        spec_validate(record, history, mode, contact).fake_ground == (
        !contact.any_blocks_motion() && record.new_on_ground),
{
}

/// Correct gravity never looks like flight: whenever the vertical delta
/// shrank by at least the gravity step since the previous tick, the
/// flight flag of the verdict is off, whatever else the move reports.
pub proof fn lemma_gravity_never_flags_flight(
    record: CanonicalMovementRecord,
    history: MovementHistory,
    mode: GameMode,
    contact: FootprintContact,
)
    requires
        record.vertical_delta() - history.last_vertical_delta
            <= -(GRAVITY_STEP_MILLIS as int),
    ensures
        !spec_validate(record, history, mode, contact).flight,
{
}

} // verus!
