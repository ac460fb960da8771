//! The movement validator: plausibility heuristics over one canonical
//! movement record, the entity's history, and the ground-truth oracle's
//! answers for the entity's footprint.
//!
//! All checks are computed from the *old* authoritative position and the
//! reported new ground flag. Detection is pure: a [`Violations`] value is
//! returned and the caller decides policy; under the current soft-fail
//! posture every move is still committed.

use crate::history::{MovementHistory, WINDOW_CAP};
use crate::packet::CanonicalMovementRecord;
use crate::pose::Position;
use crate::units::{block_floor, spec_isqrt, MAG_LIMIT_MILLIS, MILLIS_PER_BLOCK};
use vstd::prelude::*;

verus! {

/// Grace period: an Adventure-mode entity is only checked once its tick
/// count exceeds this many ticks.
pub const GRACE_TICKS: u32 = 10;

/// Flight check: under gravity a falling entity's vertical delta must
/// shrink by at least this much (0.07 blocks) each tick.
pub const GRAVITY_STEP_MILLIS: i64 = 70;

/// Flight check: vertical deltas at or below this fall rate (0.51 blocks
/// per tick) are near terminal or ground-contact bounds and are not
/// flagged.
pub const FALL_EXEMPT_MILLIS: i64 = 510;

/// Sustained overspeed: the moving average of recent horizontal
/// magnitudes may not exceed 7.5 blocks per tick.
pub const SUSTAINED_LIMIT_MILLIS: i64 = 7500;

/// Sustained overspeed severity is reported relative to 7.16 blocks per
/// tick.
pub const SUSTAINED_BASE_MILLIS: i64 = 7160;

/// Instantaneous overspeed: one tick's horizontal magnitude may not
/// exceed 1.78 x 7.127 / 20 blocks, written exactly in micro-blocks.
pub const INSTANT_LIMIT_MICROS: i64 = 634_303;

/// The square of [`INSTANT_LIMIT_MICROS`], so the instant check can
/// compare squared magnitudes exactly, without rounding a square root.
pub const INSTANT_LIMIT_SQ_MICROS: i64 = 402_340_295_809;

/// Instantaneous overspeed severity is reported relative to 7.127 / 20
/// blocks, written exactly in micro-blocks.
pub const INSTANT_BASE_MICROS: i64 = 356_350;

/// An entity's game mode, as the permission system reports it.
#[derive(Clone, Copy, PartialEq, Eq, Structural, Debug)]
pub enum GameMode {
    Survival,
    Creative,
    Adventure,
    Spectator,
}

/// The ground-truth oracle's answer for each of the four voxel columns
/// under the entity's 1x1 footprint: whether the block there obstructs
/// motion. The columns are the footprint base and its neighbours offset
/// by +1 in x and/or z; see [`footprint_base`]. A missing column is
/// reported as not obstructing.
#[derive(Clone, Copy, PartialEq, Eq, Structural, Debug)]
pub struct FootprintContact {
    pub at_base: bool,
    pub east: bool,
    pub south: bool,
    pub south_east: bool,
}

impl FootprintContact {
    /// Some block under the footprint obstructs motion, i.e. the entity
    /// really has ground to stand on.
    pub open spec fn any_blocks_motion(self) -> bool {
        self.at_base || self.east || self.south || self.south_east
    }

    pub fn any(&self) -> (b: bool)
        ensures
            b == self.any_blocks_motion(),
    {
        self.at_base || self.east || self.south || self.south_east
    }
}

/// The base voxel column under an entity's footprint: the whole-block
/// floor of (x - 0.5, y - 1, z - 0.5). The other three footprint columns
/// are this one offset by +1 in x and/or z.
pub fn footprint_base(position: &Position) -> (b: (i64, i64, i64))
    requires
        position.bounded(),
    ensures
        b.0 == (position.x - 500) as int / 1000,
        b.1 == (position.y - 1000) as int / 1000,
        b.2 == (position.z - 500) as int / 1000,
{
    (
        block_floor(position.x - MILLIS_PER_BLOCK / 2),
        block_floor(position.y - MILLIS_PER_BLOCK),
        block_floor(position.z - MILLIS_PER_BLOCK / 2),
    )
}

/// Whether this entity is checked at all: Survival always, Adventure only
/// after its grace period, Creative and Spectator never.
pub open spec fn spec_checked(mode: GameMode, tick_count: u32) -> bool {
    mode == GameMode::Survival || (mode == GameMode::Adventure && tick_count > GRACE_TICKS)
}

/// Ground spoofing: the client reports ground contact although no block
/// under the footprint obstructs motion.
pub open spec fn spec_fake_ground(any_contact: bool, new_on_ground: bool) -> bool {
    !any_contact && new_on_ground
}

/// Flight: airborne before and after, yet the vertical delta neither
/// accelerated downward by the gravity step nor lies at the exempt fall
/// rate.
pub open spec fn spec_flight(
    old_on_ground: bool,
    new_on_ground: bool,
    vertical_delta: int,
    last_vertical_delta: int,
) -> bool {
    &&& !old_on_ground
    &&& !new_on_ground
    &&& vertical_delta - last_vertical_delta > -(GRAVITY_STEP_MILLIS as int)
    &&& vertical_delta >= -(FALL_EXEMPT_MILLIS as int)
}

/// Sustained overspeed: the average of the window's samples exceeds the
/// sustained limit (stated multiplicatively so an empty window never
/// flags).
pub open spec fn spec_sustained(window_sum: int, window_len: int) -> bool {
    window_sum > (SUSTAINED_LIMIT_MILLIS as int) * window_len
}

/// Instantaneous overspeed: this tick's horizontal magnitude exceeds the
/// instant limit. Stated over the squared magnitude (in squared
/// milli-blocks, scaled to squared micro-blocks), which compares the
/// exact Euclidean distance against the limit.
pub open spec fn spec_instant(horizontal_sq_millis: int) -> bool {
    horizontal_sq_millis * 1_000_000 > INSTANT_LIMIT_SQ_MICROS as int
}

/// The validator's verdict on one record, together with the measurements
/// the flags were computed from, so listeners can report severities
/// without re-deriving them.
#[derive(Clone, Copy, PartialEq, Eq, Structural, Debug)]
pub struct Violations {
    /// The client is faking grounded state.
    pub fake_ground: bool,
    /// The client is attempting to fly.
    pub flight: bool,
    /// The client's moving average speed is too high.
    pub sustained_overspeed: bool,
    /// The client moved too fast in this single tick.
    pub instant_overspeed: bool,
    /// This move's vertical delta, in milli-blocks.
    pub vertical_delta_millis: i64,
    /// This move's horizontal magnitude, in milli-blocks.
    pub magnitude_millis: i64,
    /// The window's running sum when the move was checked, in
    /// milli-blocks.
    pub window_sum_millis: i64,
    /// The window's length when the move was checked.
    pub window_len: usize,
}

impl Violations {
    /// At least one check fired.
    pub open spec fn spec_any(self) -> bool {
        self.fake_ground || self.flight || self.sustained_overspeed || self.instant_overspeed
    }

    pub fn any(&self) -> (b: bool)
        ensures
            b == self.spec_any(),
    {
        self.fake_ground || self.flight || self.sustained_overspeed || self.instant_overspeed
    }

    /// Severity of an instantaneous overspeed: the measured magnitude
    /// over the instant base, as an exact rational (numerator,
    /// denominator), both in micro-blocks.
    pub fn instant_severity(&self) -> (r: (i128, i128))
        ensures
            r.0 == self.magnitude_millis as int * 1000,
            r.1 == INSTANT_BASE_MICROS as int,
    {
        ((self.magnitude_millis as i128) * 1000, INSTANT_BASE_MICROS as i128)
    }

    /// Severity of a sustained overspeed: the window's average over the
    /// sustained base, as an exact rational (numerator, denominator),
    /// both in milli-blocks.
    pub fn sustained_severity(&self) -> (r: (i128, i128))
        ensures
            r.0 == self.window_sum_millis as int,
            r.1 == SUSTAINED_BASE_MILLIS as int * self.window_len as int,
    {
        (self.window_sum_millis as i128, (SUSTAINED_BASE_MILLIS as i128) * (
        self.window_len as i128))
    }
}

/// The verdict the validator owes for a record: each flag holds exactly
/// when the entity is checked at all and the corresponding heuristic
/// condition holds of the move.
pub open spec fn spec_validate(
    record: CanonicalMovementRecord,
    history: MovementHistory,
    mode: GameMode,
    contact: FootprintContact,
) -> Violations {
    let checked = spec_checked(mode, history.tick_count);
    Violations {
        fake_ground: checked && spec_fake_ground(
            contact.any_blocks_motion(),
            record.new_on_ground,
        ),
        flight: checked && spec_flight(
            record.old_on_ground,
            record.new_on_ground,
            record.vertical_delta(),
            history.last_vertical_delta as int,
        ),
        sustained_overspeed: checked && spec_sustained(
            history.running_sum_of_magnitudes as int,
            history.horizontal_magnitudes@.len() as int,
        ),
        instant_overspeed: checked && spec_instant(record.horizontal_sq()),
        vertical_delta_millis: (record.vertical_delta()) as i64,
        magnitude_millis: spec_isqrt(record.horizontal_sq()) as i64,
        window_sum_millis: history.running_sum_of_magnitudes,
        window_len: history.horizontal_magnitudes@.len() as usize,
    }
}

/// Decides whether the proposed move is suspicious. Detection only: the
/// caller remains free to commit the move regardless.
pub fn validate(
    record: &CanonicalMovementRecord,
    history: &MovementHistory,
    mode: GameMode,
    contact: &FootprintContact,
) -> (v: Violations)
    requires
        record.bounded(),
        history.wf(),
    ensures
        v == spec_validate(*record, *history, mode, *contact),
{
    let checked: bool = mode == GameMode::Survival || (mode == GameMode::Adventure
        && history.tick_count > GRACE_TICKS);
    let vertical_delta: i64 = record.new_position.y - record.old_position.y;
    let magnitude: i64 = record.horizontal_magnitude_millis();
    let window_len: usize = history.horizontal_magnitudes.len();
    let fake_ground: bool = checked && !contact.any() && record.new_on_ground;
    let flight: bool = checked && !record.old_on_ground && !record.new_on_ground && vertical_delta
        - history.last_vertical_delta > -GRAVITY_STEP_MILLIS && vertical_delta
        >= -FALL_EXEMPT_MILLIS;
    let sustained_overspeed: bool = checked && history.running_sum_of_magnitudes
        > SUSTAINED_LIMIT_MILLIS * (window_len as i64);
    let instant_overspeed: bool = checked && record.horizontal_sq_millis() > (
    INSTANT_LIMIT_SQ_MICROS / 1_000_000) as i128;
    Violations {
        fake_ground,
        flight,
        sustained_overspeed,
        instant_overspeed,
        vertical_delta_millis: vertical_delta,
        magnitude_millis: magnitude,
        window_sum_millis: history.running_sum_of_magnitudes,
        window_len,
    }
}

} // verus!
