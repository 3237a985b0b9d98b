//! The render suite: the walk's range over many varied draws, and the
//! sample-and-hold schedule for whole and fractional hold lengths.

use noise_walk::Draw;
use noise_walk::NoiseGenerator;
use noise_walk::generate_next_value;

/// One unit (1.0) in the library's fixed-point scale.
const UNIT: i64 = 1_000_000;

/// A spread of step draws for bounds [0.1, 1.0]: residues over the span
/// 900_001, skipping the two residues that land exactly on a strict bound
/// of the assertions (a step of exactly 0.1, and a step of exactly 0.2
/// from 0.8, which lands exactly on 1.0).
fn spread_raw(i: u64) -> u64 {
    let r = (i * 2_654_435_761) % 900_001;
    if r == 0 || r == 100_000 { r + 1 } else { r }
}

#[test]
fn generates_sample_in_correct_range() {
    for i in 0..48000u64 {
        let draw = Draw {
            raw: spread_raw(i),
            up: i % 2 == 0,
        };
        let next_sample = generate_next_value(800_000, 100_000, UNIT, draw);
        assert_eq!(
            next_sample > 900_000 || next_sample < 700_000,
            true,
            "lower bound enforced"
        );
        assert_eq!(
            next_sample < UNIT && next_sample > -1_800_000,
            true,
            "upper bound enforced"
        );
    }
}

#[test]
fn updates_output_regularly_for_fixed_sample_hold() {
    let mut ng = NoiseGenerator::new(7);
    let step_minimum = vec![100_000i64];
    let step_maximum = vec![200_000i64];
    let sample_hold = vec![3 * UNIT];
    let next_value_trigger = vec![0i64];
    let events = ng
        .process(&step_minimum, &step_maximum, &sample_hold, &next_value_trigger)
        .unwrap();
    for e in &events {
        assert_ne!(e.is_high, true);
    }
    let output = ng.get_output();
    assert_eq!(output[0], output[1], "second sample equals first");
    assert_eq!(output[0], output[2], "third sample equals first");
    assert_ne!(output[0], output[3], "forth sample different");
    assert_eq!(output[3], output[4], "fifth sample equals forth");
    assert_eq!(output[3], output[5], "sixth sample equals forth");
    assert_ne!(output[3], output[6], "seventh sample different");
}

#[test]
fn sample_hold_deals_with_fractional_values() {
    let mut ng = NoiseGenerator::new(7);
    let step_minimum = vec![100_000i64];
    let step_maximum = vec![200_000i64];
    let sample_hold = vec![1_500_000i64];
    let next_value_trigger = vec![0i64];
    let events = ng
        .process(&step_minimum, &step_maximum, &sample_hold, &next_value_trigger)
        .unwrap();
    for e in &events {
        assert_ne!(e.is_high, true);
    }
    let output = ng.get_output();
    assert_eq!(output[0], output[1], "second sample equals first");
    assert_ne!(output[1], output[2], "third sample different, remainder 0.5");
    assert_ne!(output[2], output[3], "forth sample different, remainder 0");
    assert_eq!(output[3], output[4], "fifth sample equals forth");
    assert_ne!(output[4], output[5], "sixth sample different, remainder 0.5");
    assert_ne!(output[5], output[6], "seventh sample different, remainder 0");
}
