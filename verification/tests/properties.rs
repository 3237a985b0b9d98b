//! Concrete checks of the stated behaviour: exact walk branches, parameter
//! resolution, trigger edges, sub-unity hold, determinism under a replayed
//! draw script, the quantum-size invariant, and the refusal of inadmissible
//! parameter lengths.

use noise_walk::Draw;
use noise_walk::NoiseError;
use noise_walk::NoiseGenerator;
use noise_walk::TriggerEvent;
use noise_walk::clamp;
use noise_walk::generate_next_value;
use noise_walk::get_parameter;

const UNIT: i64 = 1_000_000;

/// With bounds [0.1, 1.0] a raw residue of 100_000 draws a step of exactly
/// 0.2: each walk branch lands on an exact expected value.
#[test]
fn walk_branches_exactly() {
    let step = Draw { raw: 100_000, up: true };
    // 0.8 + 0.2 = 1.0: not above the bound, no reflection
    assert_eq!(generate_next_value(800_000, 100_000, UNIT, step), UNIT);
    // 0.9 + 0.2 = 1.1: above, reflected to 0.9 - 0.2 = 0.7
    assert_eq!(generate_next_value(900_000, 100_000, UNIT, step), 700_000);
    let down = Draw { raw: 100_000, up: false };
    // 0.0 - 0.2 = -0.2: not below the bound
    assert_eq!(generate_next_value(0, 100_000, UNIT, down), -200_000);
    // -0.9 - 0.2 = -1.1: below, reflected to -0.9 + 0.2 = -0.7
    assert_eq!(generate_next_value(-900_000, 100_000, UNIT, down), -700_000);
}

/// The step bounds are order-independent, and equal bounds pin the step.
#[test]
fn walk_bounds_order_independent() {
    let d = Draw { raw: 417_523, up: true };
    assert_eq!(
        generate_next_value(300_000, 100_000, UNIT, d),
        generate_next_value(300_000, UNIT, 100_000, d)
    );
    // equal bounds: the span has one value, any raw draws step 0.15
    let d2 = Draw { raw: 987_654_321, up: true };
    assert_eq!(generate_next_value(0, 150_000, 150_000, d2), 150_000);
}

#[test]
fn parameter_resolution() {
    // empty: the default 0
    assert_eq!(get_parameter(&vec![], 0, UNIT, 5), 0);
    // one element: broadcast to every index, clamped into range
    assert_eq!(get_parameter(&vec![2 * UNIT], 0, UNIT, 3), UNIT);
    assert_eq!(get_parameter(&vec![300_000], 0, UNIT, 6), 300_000);
    // per-sample: plain indexing
    let per_sample = vec![0i64, 10, 20, 30, 40, 50, 60];
    assert_eq!(get_parameter(&per_sample, 0, UNIT, 3), 30);
    // clamping from below
    assert_eq!(clamp(0, UNIT, -5), 0);
    assert_eq!(clamp(0, UNIT, UNIT + 5), UNIT);
    assert_eq!(clamp(0, UNIT, 123), 123);
}

/// A rising edge redraws and notifies with `true`; a falling edge notifies
/// with `false` and keeps the value.
#[test]
fn trigger_edges() {
    let mut ng = NoiseGenerator::new(5);
    let step_minimum = vec![100_000i64];
    let step_maximum = vec![100_000i64];
    let sample_hold: Vec<i64> = vec![];  // default 0: never expires on its own
    let next_value_trigger = vec![0i64, 0, 1, 1, 0];
    let draws = vec![Draw { raw: 0, up: true }; 10];
    let events = ng
        .process_with_draws(&step_minimum, &step_maximum, &sample_hold, &next_value_trigger, &draws)
        .unwrap();
    assert_eq!(events.len(), 2);
    assert_eq!(events[0], TriggerEvent { index: 2, is_high: true });
    assert_eq!(events[1], TriggerEvent { index: 4, is_high: false });
    let output = ng.get_output();
    // held at the seed until the rising edge at index 2 draws 0.1 + 0.1
    assert_eq!(output[0], 100_000);
    assert_eq!(output[1], 100_000);
    assert_eq!(output[2], 200_000);
    // still high at index 3: no edge, no redraw
    assert_eq!(output[3], 200_000);
    // falling edge at index 4 notifies but does not redraw
    assert_eq!(output[4], 200_000);
}

/// A hold length below one sample never expires on its own: with a low
/// trigger the whole block repeats the held value.
#[test]
fn sub_unity_hold_keeps_block_constant() {
    let mut ng = NoiseGenerator::new(6);
    let step_minimum = vec![100_000i64];
    let step_maximum = vec![200_000i64];
    let sample_hold = vec![500_000i64];
    let next_value_trigger = vec![0i64];
    ng.process(&step_minimum, &step_maximum, &sample_hold, &next_value_trigger)
        .unwrap();
    let output = ng.get_output();
    for j in 0..6 {
        assert_eq!(output[j], 100_000, "held value repeats across the block");
    }
}

/// Two instances with the same quantum, the same parameters and the same
/// draw script produce bit-identical blocks and notifications.
#[test]
fn replay_is_deterministic() {
    let step_minimum = vec![100_000i64];
    let step_maximum = vec![900_000i64];
    let sample_hold = vec![2 * UNIT];
    let next_value_trigger = vec![0i64, 0, 0, 5, 5, 0, 0, 0];
    let draws: Vec<Draw> = (0..16u64)
        .map(|i| Draw { raw: i * 7_919 + 13, up: i % 3 == 0 })
        .collect();
    let mut a = NoiseGenerator::new(8);
    let mut b = NoiseGenerator::new(8);
    let ea = a
        .process_with_draws(&step_minimum, &step_maximum, &sample_hold, &next_value_trigger, &draws)
        .unwrap();
    let eb = b
        .process_with_draws(&step_minimum, &step_maximum, &sample_hold, &next_value_trigger, &draws)
        .unwrap();
    assert_eq!(ea, eb);
    assert_eq!(a.get_output(), b.get_output());
}

/// The output block always has exactly the configured quantum size, and a
/// fresh instance starts zeroed.
#[test]
fn quantum_size_invariant() {
    let mut ng = NoiseGenerator::new(5);
    assert_eq!(ng.get_output().len(), 5);
    assert_eq!(ng.get_output(), &vec![0i64; 5]);
    let step_minimum = vec![100_000i64];
    let step_maximum = vec![200_000i64];
    let sample_hold = vec![UNIT];
    let next_value_trigger: Vec<i64> = vec![];
    for _ in 0..4 {
        ng.process(&step_minimum, &step_maximum, &sample_hold, &next_value_trigger)
            .unwrap();
        assert_eq!(ng.get_output().len(), 5);
    }
}

/// A parameter sequence whose length is neither 0, nor 1, nor the quantum
/// size is refused, and the refused call changes nothing.
#[test]
fn invalid_length_is_refused() {
    let mut ng = NoiseGenerator::new(7);
    let bad = vec![0i64, 0, 0];
    let good = vec![0i64];
    let r = ng.process(&bad, &good, &good, &good);
    assert_eq!(r, Err(NoiseError::InvalidParameterLength));
    let r2 = ng.process(&good, &good, &vec![0i64; 8], &good);
    assert_eq!(r2, Err(NoiseError::InvalidParameterLength));
    assert_eq!(ng.get_output(), &vec![0i64; 7], "a refused call writes nothing");
}
