use moon_lander::lander::game_over;
use moon_lander::lander::lander_input;
use moon_lander::lander::lander_movement;
use moon_lander::lander::spawn_lander;
use moon_lander::lander::Lander;
use moon_lander::lander::BOUNDARY_Y_MILLI;
use moon_lander::lander::MAX_ENGINE_LEVEL;
use moon_lander::lander::SPAWN_Y_MILLI;

#[test]
fn spawn_is_fresh() {
    let (lander, y) = spawn_lander();
    assert_eq!(lander.engine, 0);
    assert_eq!(lander.velocity_milli, 0);
    assert_eq!(y, SPAWN_Y_MILLI);
    assert_eq!(y, 200_000);
}

#[test]
fn input_up_increments() {
    for start in 0u8..=9 {
        let mut lander = Lander {
            engine: start,
            velocity_milli: 42,
        };
        lander_input(&mut lander, true, false);
        let expected = if start < 9 { start + 1 } else { 9 };
        assert_eq!(lander.engine, expected);
        assert_eq!(lander.velocity_milli, 42);
    }
}

#[test]
fn input_down_decrements() {
    for start in 0u8..=9 {
        let mut lander = Lander {
            engine: start,
            velocity_milli: -7,
        };
        lander_input(&mut lander, false, true);
        let expected = if start > 0 { start - 1 } else { 0 };
        assert_eq!(lander.engine, expected);
        assert_eq!(lander.velocity_milli, -7);
    }
}

#[test]
fn input_both_keys_up_then_down() {
    let mut lander = Lander {
        engine: 0,
        velocity_milli: 0,
    };
    lander_input(&mut lander, true, true);
    assert_eq!(lander.engine, 0);

    let mut lander = Lander {
        engine: 9,
        velocity_milli: 0,
    };
    lander_input(&mut lander, true, true);
    assert_eq!(lander.engine, 8);
}

#[test]
fn input_no_keys_is_noop() {
    let mut lander = Lander {
        engine: 5,
        velocity_milli: 1234,
    };
    lander_input(&mut lander, false, false);
    assert_eq!(lander.engine, 5);
    assert_eq!(lander.velocity_milli, 1234);
}

#[test]
fn engine_clamps_at_maximum() {
    let mut lander = Lander {
        engine: MAX_ENGINE_LEVEL,
        velocity_milli: 0,
    };
    for _ in 0..100 {
        lander_input(&mut lander, true, false);
        assert_eq!(lander.engine, 9);
    }
}

#[test]
fn movement_updates_velocity_and_position() {
    // velocity' = 1.000 + 0.1 - 2 * 0.02 = 1.060; y' = 0 - 1.060 * 2 = -2.120
    let mut lander = Lander {
        engine: 2,
        velocity_milli: 1_000,
    };
    let mut y: i64 = 0;
    let event = lander_movement(&mut lander, &mut y);
    assert_eq!(lander.engine, 2);
    assert_eq!(lander.velocity_milli, 1_060);
    assert_eq!(y, -2_120);
    assert!(!event);
}

#[test]
fn movement_full_thrust_slows_the_fall() {
    // velocity' = 0.500 + 0.1 - 9 * 0.02 = 0.420: thrust beats gravity.
    let mut lander = Lander {
        engine: 9,
        velocity_milli: 500,
    };
    let mut y: i64 = 10_000;
    let event = lander_movement(&mut lander, &mut y);
    assert_eq!(lander.velocity_milli, 420);
    assert_eq!(y, 10_000 - 840);
    assert!(!event);
}

#[test]
fn movement_matches_float_model() {
    // The fixed-point step agrees with the floating-point equations
    // velocity += 0.1 - engine * 0.02; y -= velocity * 2.0.
    let mut lander = Lander {
        engine: 3,
        velocity_milli: 0,
    };
    let mut y: i64 = SPAWN_Y_MILLI;
    let mut velocity_f: f64 = 0.0;
    let mut y_f: f64 = 200.0;
    for _ in 0..50 {
        lander_movement(&mut lander, &mut y);
        velocity_f += 0.1 - 3.0 * 0.02;
        y_f -= velocity_f * 2.0;
        assert!((lander.velocity_milli as f64 / 1000.0 - velocity_f).abs() < 1e-9);
        assert!((y as f64 / 1000.0 - y_f).abs() < 1e-9);
    }
}

#[test]
fn boundary_event_fires_exactly_once_at_crossing() {
    // From spawn with the engine off: velocity after tick t is 0.1 * t, so
    // y(t) = 200 - 0.2 * (1 + 2 + ... + t) = 200 - 0.1 * t * (t + 1).
    // y first drops below -250 at tick 67 (y = -255.6).
    let (mut lander, mut y) = spawn_lander();
    let mut resets = 0u32;
    let mut crossing_tick = 0u32;
    for tick in 1..=200u32 {
        let event = lander_movement(&mut lander, &mut y);
        let expected_y: i64 = 200_000 - 100 * (tick as i64) * (tick as i64 + 1);
        if event {
            assert_eq!(tick, 67);
            assert_eq!(lander.velocity_milli, 6_700);
            assert_eq!(y, expected_y);
            assert_eq!(y, -255_600);
            crossing_tick = tick;
            game_over(&mut lander, &mut y, true);
            resets += 1;
            break;
        }
        assert!(y >= BOUNDARY_Y_MILLI);
        assert_eq!(y, expected_y);
        assert_eq!(lander.velocity_milli, 100 * tick as i64);
    }
    assert_eq!(crossing_tick, 67);
    assert_eq!(resets, 1);
    assert_eq!(lander.engine, 0);
    assert_eq!(lander.velocity_milli, 0);
    assert_eq!(y, SPAWN_Y_MILLI);
}

#[test]
fn velocity_accumulates_over_200_ticks_engine_off() {
    // 200 physics steps at engine 0 add 0.1 each: 20.000 in all.
    let (mut lander, mut y) = spawn_lander();
    for _ in 0..200 {
        lander_movement(&mut lander, &mut y);
    }
    assert_eq!(lander.velocity_milli, 20_000);
}

#[test]
fn reset_restores_exact_spawn_state() {
    let mut lander = Lander {
        engine: 7,
        velocity_milli: 31_415,
    };
    let mut y: i64 = BOUNDARY_Y_MILLI - 1;
    game_over(&mut lander, &mut y, true);
    assert_eq!(lander.engine, 0);
    assert_eq!(lander.velocity_milli, 0);
    assert_eq!(y, 200_000);
}

#[test]
fn no_event_means_no_reset() {
    let mut lander = Lander {
        engine: 4,
        velocity_milli: -250,
    };
    let mut y: i64 = 123_456;
    game_over(&mut lander, &mut y, false);
    assert_eq!(lander.engine, 4);
    assert_eq!(lander.velocity_milli, -250);
    assert_eq!(y, 123_456);
}
