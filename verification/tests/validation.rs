use movement_core::history::MovementHistory;
use movement_core::packet::CanonicalMovementRecord;
use movement_core::pose::{Look, Position};
use movement_core::validate::{footprint_base, validate, FootprintContact, GameMode};

fn record_between(old_position: Position, new_position: Position, old_on_ground: bool, new_on_ground: bool) -> CanonicalMovementRecord {
    CanonicalMovementRecord {
        entity: 1,
        new_position,
        old_position,
        new_look: Look { yaw: 0, pitch: 0 },
        old_look: Look { yaw: 0, pitch: 0 },
        new_on_ground,
        old_on_ground,
    }
}

fn history_with(last_vertical_delta: i64, magnitudes: Vec<i64>, tick_count: u32) -> MovementHistory {
    let running_sum_of_magnitudes: i64 = magnitudes.iter().sum();
    MovementHistory {
        last_vertical_delta,
        horizontal_magnitudes: magnitudes,
        running_sum_of_magnitudes,
        tick_count,
    }
}

fn no_contact() -> FootprintContact {
    FootprintContact { at_base: false, east: false, south: false, south_east: false }
}

fn contact_at_base() -> FootprintContact {
    FootprintContact { at_base: true, east: false, south: false, south_east: false }
}

#[test]
fn ground_spoof_fires_once_per_packet() {
    // No footprint column obstructs motion, yet the client reports
    // ground contact: exactly the faking-grounded flag fires.
    let record = record_between(
        Position { x: 0, y: 80000, z: 0 },
        Position { x: 0, y: 80000, z: 0 },
        false,
        true,
    );
    let history = history_with(-100, vec![], 20);
    let v = validate(&record, &history, GameMode::Survival, &no_contact());
    assert!(v.fake_ground);
    assert!(!v.flight);
    assert!(!v.sustained_overspeed);
    assert!(!v.instant_overspeed);
}

#[test]
fn honest_airborne_report_is_not_spoofing() {
    let record = record_between(
        Position { x: 0, y: 80000, z: 0 },
        Position { x: 0, y: 80000, z: 0 },
        true,
        false,
    );
    let history = history_with(0, vec![], 20);
    let v = validate(&record, &history, GameMode::Survival, &no_contact());
    assert!(!v.fake_ground);
}

#[test]
fn real_ground_contact_is_not_spoofing() {
    let record = record_between(
        Position { x: 0, y: 64000, z: 0 },
        Position { x: 0, y: 64000, z: 0 },
        true,
        true,
    );
    let history = history_with(0, vec![], 20);
    let v = validate(&record, &history, GameMode::Survival, &contact_at_base());
    assert!(!v.fake_ground);
}

#[test]
fn adventure_grace_period_suppresses_all_flags() {
    // Implausible in every way: spoofed ground, no gravity, huge speed.
    let record = record_between(
        Position { x: 0, y: 80000, z: 0 },
        Position { x: 50000, y: 80000, z: 50000 },
        false,
        true,
    );
    let history = history_with(0, vec![20000, 20000, 20000], 10);
    let v = validate(&record, &history, GameMode::Adventure, &no_contact());
    assert!(!v.any());
    // One tick past the grace period the same move is flagged.
    let history = history_with(0, vec![20000, 20000, 20000], 11);
    let v = validate(&record, &history, GameMode::Adventure, &no_contact());
    assert!(v.fake_ground);
    assert!(v.sustained_overspeed);
    assert!(v.instant_overspeed);
}

#[test]
fn creative_and_spectator_are_never_checked() {
    let record = record_between(
        Position { x: 0, y: 80000, z: 0 },
        Position { x: 50000, y: 80000, z: 50000 },
        false,
        true,
    );
    let history = history_with(0, vec![20000, 20000, 20000], 1000);
    assert!(!validate(&record, &history, GameMode::Creative, &no_contact()).any());
    assert!(!validate(&record, &history, GameMode::Spectator, &no_contact()).any());
}

#[test]
fn hovering_airborne_entity_is_flagged_as_flying() {
    // Airborne before and after, vertical delta did not accelerate
    // downward by the gravity step, and is above the exempt fall rate.
    let record = record_between(
        Position { x: 0, y: 80000, z: 0 },
        Position { x: 0, y: 79900, z: 0 },
        false,
        false,
    );
    let history = history_with(-200, vec![], 50);
    let v = validate(&record, &history, GameMode::Survival, &no_contact());
    assert!(v.flight);
    assert_eq!(v.vertical_delta_millis, -100);
}

#[test]
fn fast_fall_is_exempt_from_flight_check() {
    // The delta fails to accelerate downward, but at -0.52 blocks per
    // tick it is below the exempt fall rate.
    let record = record_between(
        Position { x: 0, y: 80000, z: 0 },
        Position { x: 0, y: 79480, z: 0 },
        false,
        false,
    );
    let history = history_with(-500, vec![], 50);
    let v = validate(&record, &history, GameMode::Survival, &no_contact());
    assert!(!v.flight);
}

#[test]
fn grounded_entity_is_not_flight_checked() {
    let record = record_between(
        Position { x: 0, y: 64000, z: 0 },
        Position { x: 0, y: 64000, z: 0 },
        true,
        false,
    );
    let history = history_with(0, vec![], 50);
    let v = validate(&record, &history, GameMode::Survival, &contact_at_base());
    assert!(!v.flight);
}

#[test]
fn falling_under_gravity_never_flags_flight() {
    // Vertical deltas shrinking by more than 0.07 blocks each tick.
    let deltas: [i64; 5] = [-100, -180, -260, -340, -420];
    let mut y: i64 = 80000;
    let mut last: i64 = 0;
    for delta in deltas {
        let record = record_between(
            Position { x: 0, y, z: 0 },
            Position { x: 0, y: y + delta, z: 0 },
            false,
            false,
        );
        let history = history_with(last, vec![], 50);
        let v = validate(&record, &history, GameMode::Survival, &no_contact());
        assert!(!v.flight);
        y += delta;
        last = delta;
    }
}

#[test]
fn sustained_overspeed_threshold_is_exact() {
    let record = record_between(
        Position { x: 0, y: 64000, z: 0 },
        Position { x: 0, y: 64000, z: 0 },
        true,
        true,
    );
    // Average exactly 7.5 blocks per tick: not flagged.
    let history = history_with(0, vec![7500, 7500], 50);
    let v = validate(&record, &history, GameMode::Survival, &contact_at_base());
    assert!(!v.sustained_overspeed);
    // One milli-block over the limit: flagged.
    let history = history_with(0, vec![7500, 7501], 50);
    let v = validate(&record, &history, GameMode::Survival, &contact_at_base());
    assert!(v.sustained_overspeed);
    assert_eq!(v.window_sum_millis, 15001);
    assert_eq!(v.window_len, 2);
    let (num, den) = v.sustained_severity();
    assert_eq!((num, den), (15001, 14320));
}

#[test]
fn instant_overspeed_threshold_is_exact() {
    let history = history_with(0, vec![], 50);
    // 0.634 blocks in one tick: under 1.78 x 7.127 / 20, not flagged.
    let slow = record_between(
        Position { x: 0, y: 64000, z: 0 },
        Position { x: 0, y: 64000, z: 634 },
        true,
        true,
    );
    let v = validate(&slow, &history, GameMode::Survival, &contact_at_base());
    assert!(!v.instant_overspeed);
    assert_eq!(v.magnitude_millis, 634);
    // 0.635 blocks in one tick: over the limit, flagged.
    let fast = record_between(
        Position { x: 0, y: 64000, z: 0 },
        Position { x: 0, y: 64000, z: 635 },
        true,
        true,
    );
    let v = validate(&fast, &history, GameMode::Survival, &contact_at_base());
    assert!(v.instant_overspeed);
}

#[test]
fn instant_overspeed_is_exact_on_diagonals() {
    // A move of (0.449, 0, 0.449): the magnitude rounds down to 634
    // milli-blocks, but the true distance 0.6349... exceeds the limit,
    // and the squared comparison still catches it.
    let history = history_with(0, vec![], 50);
    let diagonal = record_between(
        Position { x: 0, y: 64000, z: 0 },
        Position { x: 449, y: 64000, z: 449 },
        true,
        true,
    );
    let v = validate(&diagonal, &history, GameMode::Survival, &contact_at_base());
    assert_eq!(v.magnitude_millis, 634);
    assert!(v.instant_overspeed);
}

#[test]
fn empty_window_never_flags_sustained_overspeed() {
    let record = record_between(
        Position { x: 0, y: 64000, z: 0 },
        Position { x: 0, y: 64000, z: 0 },
        true,
        true,
    );
    let history = history_with(0, vec![], 50);
    let v = validate(&record, &history, GameMode::Survival, &contact_at_base());
    assert!(!v.sustained_overspeed);
}

#[test]
fn footprint_base_floors_toward_negative_infinity() {
    // Entity at (0.3, 64.0, -2.7): the base column is the whole-block
    // floor of (x - 0.5, y - 1, z - 0.5).
    let b = footprint_base(&Position { x: 300, y: 64000, z: -2700 });
    assert_eq!(b, (-1, 63, -4));
    let b = footprint_base(&Position { x: 10500, y: 5000, z: 10499 });
    assert_eq!(b, (10, 4, 9));
    let b = footprint_base(&Position { x: 0, y: 0, z: 0 });
    assert_eq!(b, (-1, -1, -1));
}
