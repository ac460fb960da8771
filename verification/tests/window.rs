use movement_core::gate::TeleportGate;
use movement_core::history::{MovementHistory, WINDOW_CAP};
use movement_core::packet::MovementPacket;
use movement_core::pipeline::process_packet;
use movement_core::pose::{AuthoritativePose, Look, Position};
use movement_core::validate::{FootprintContact, GameMode};

#[test]
fn twenty_one_steady_ticks_keep_the_last_twenty() {
    // 21 consecutive ticks each moving 0.4 blocks horizontally: the
    // window keeps the last 20 samples, the running sum is exactly 8
    // blocks, and the average of 0.4 stays under the sustained limit.
    let mut pose = AuthoritativePose::new(Position::new(0, 64000, 0), Look::new(0, 0), true);
    let mut gate = TeleportGate::new(pose.position, pose.look);
    let mut history = MovementHistory::new();
    let contact = FootprintContact { at_base: true, east: false, south: false, south_east: false };
    let mut last_sustained = true;
    for i in 1..=21i64 {
        let packet = MovementPacket::Full {
            position: Position::new(0, 64000, i * 400),
            look: Look::new(0, 0),
            on_ground: true,
        };
        let (violations, _) = process_packet(
            1,
            &packet,
            GameMode::Survival,
            &contact,
            &mut pose,
            &mut gate,
            &mut history,
        )
        .unwrap();
        last_sustained = violations.sustained_overspeed;
    }
    assert_eq!(history.horizontal_magnitudes.len(), 20);
    assert_eq!(history.horizontal_magnitudes, vec![400i64; 20]);
    assert_eq!(history.running_sum_of_magnitudes, 8000);
    assert_eq!(history.tick_count, 21);
    assert!(!last_sustained);
}

#[test]
fn oldest_samples_are_evicted_first() {
    let mut history = MovementHistory::new();
    for i in 1..=25i64 {
        history.advance(0, i);
    }
    let expected: Vec<i64> = (6..=25).collect();
    assert_eq!(history.horizontal_magnitudes, expected);
    assert_eq!(history.running_sum_of_magnitudes, expected.iter().sum::<i64>());
    assert_eq!(history.tick_count, 25);
}

#[test]
fn window_never_exceeds_capacity() {
    let mut history = MovementHistory::new();
    for i in 0..100i64 {
        history.advance(-i, 500);
        assert!(history.horizontal_magnitudes.len() <= WINDOW_CAP);
        assert_eq!(
            history.running_sum_of_magnitudes,
            history.horizontal_magnitudes.iter().sum::<i64>()
        );
    }
    assert_eq!(history.last_vertical_delta, -99);
    assert_eq!(history.tick_count, 100);
}

#[test]
fn fresh_history_is_empty() {
    let history = MovementHistory::new();
    assert_eq!(history.horizontal_magnitudes, Vec::<i64>::new());
    assert_eq!(history.running_sum_of_magnitudes, 0);
    assert_eq!(history.last_vertical_delta, 0);
    assert_eq!(history.tick_count, 0);
}
