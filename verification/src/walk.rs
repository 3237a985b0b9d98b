//! The bounded random-walk step.
//!
//! One step moves the current value by a drawn magnitude in a drawn
//! direction. A step that would leave `[-1, +1]` bounces: the value moves by
//! the same magnitude in the opposite direction instead. The bounce is a
//! single reflection, not a hard clamp; with step bounds clamped into
//! `[0, 1]` it still never leaves `[-1, +1]`, which is proved here.

use vstd::prelude::*;

verus! {

use crate::UNIT;

/// One pair of random decisions feeding a single walk step: raw entropy for
/// the step magnitude, and the preferred direction.
#[derive(Clone, Copy, Debug, PartialEq, Eq, Structural)]
pub struct Draw {
    /// Raw entropy; reduced onto the admissible step range by modulus.
    pub raw: u64,
    /// The preferred direction: `true` moves up, `false` moves down.
    pub up: bool,
}

/// The step magnitude `raw` reduces to: the two bounds are
/// order-independent, and the raw entropy is reduced onto the closed
/// interval they span.
pub open spec fn step_size_spec(step_minimum: int, step_maximum: int, raw: u64) -> int {
    let lo = if step_minimum < step_maximum {
        step_minimum
    } else {
        step_maximum
    };
    let hi = if step_minimum < step_maximum {
        step_maximum
    } else {
        step_minimum
    };
    lo + (raw as int) % (hi - lo + 1)
}

/// The next walk value: the previous value moved by the drawn step in the
/// preferred direction, reflected to the opposite direction when the move
/// would cross the boundary.
pub open spec fn next_value_spec(previous: int, step_minimum: int, step_maximum: int, d: Draw) -> int {
    let step = step_size_spec(step_minimum, step_maximum, d.raw);
    if d.up {
        if previous + step > UNIT as int {
            previous - step
        } else {
            previous + step
        }
    } else {
        if previous - step < -(UNIT as int) {
            previous + step
        } else {
            previous - step
        }
    }
}

/// With both step bounds inside `[0, 1]`, the drawn step magnitude lies
/// between the smaller and the larger bound.
pub proof fn lemma_step_size_in_bounds(step_minimum: int, step_maximum: int, raw: u64)
    requires
        0 <= step_minimum <= UNIT as int,
        0 <= step_maximum <= UNIT as int,
    ensures
        0 <= step_size_spec(step_minimum, step_maximum, raw) <= UNIT as int,
{
}

/// The range law of the walk: from a value inside `[-1, +1]`, with step
/// bounds inside `[0, 1]`, every draw leads to a value inside `[-1, +1]` —
/// the single reflection is enough, whatever the entropy.
pub proof fn lemma_next_value_in_range(previous: int, step_minimum: int, step_maximum: int, d: Draw)
    requires
        0 <= step_minimum <= UNIT as int,
        0 <= step_maximum <= UNIT as int,
        -(UNIT as int) <= previous <= UNIT as int,
    ensures
        -(UNIT as int) <= next_value_spec(previous, step_minimum, step_maximum, d) <= UNIT as int,
{
    lemma_step_size_in_bounds(step_minimum, step_maximum, d.raw);
}

/// Advances the walk by one step under an explicit random draw. The step
/// bounds arrive clamped into `[0, 1]` and may come in either order; the
/// result is exactly the value [`next_value_spec`] names, and stays inside
/// `[-1, +1]`.
pub fn generate_next_value(previous_value: i64, step_minimum: i64, step_maximum: i64, draw: Draw) -> (r: i64)
    requires
        0 <= step_minimum <= UNIT,
        0 <= step_maximum <= UNIT,
        -UNIT <= previous_value <= UNIT,
    ensures
        r as int == next_value_spec(
            previous_value as int,
            step_minimum as int,
            step_maximum as int,
            draw,
        ),
        -UNIT <= r <= UNIT,
{
    proof {
        lemma_next_value_in_range(
            previous_value as int,
            step_minimum as int,
            step_maximum as int,
            draw,
        );
    }
    let lo: i64 = if step_minimum < step_maximum {
        step_minimum
    } else {
        step_maximum
    };
    let hi: i64 = if step_minimum < step_maximum {
        step_maximum
    } else {
        step_minimum
    };
    let span: u64 = (hi - lo + 1) as u64;
    let step_size: i64 = lo + (draw.raw % span) as i64;
    if draw.up {
        if previous_value + step_size > UNIT {
            previous_value - step_size
        } else {
            previous_value + step_size
        }
    } else {
        if previous_value - step_size < -UNIT {
            previous_value + step_size
        } else {
            previous_value - step_size
        }
    }
}

} // verus!
