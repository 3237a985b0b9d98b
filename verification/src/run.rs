//! The render pass as a mathematical state machine.
//!
//! One render call walks the block's sample indices in order; later samples
//! depend on state the earlier ones left behind. [`run_spec`] is that walk
//! written as a recursive function over the parameter sequences and the
//! random draws, so that a render with explicit draws is a pure function of
//! its inputs. The executable render is proved to produce exactly what
//! [`run_spec`] names.

use vstd::prelude::*;

verus! {

use crate::HOLD_MAX;
use crate::UNIT;
use crate::params::resolve_spec;
use crate::walk::Draw;
use crate::walk::lemma_next_value_in_range;
use crate::walk::next_value_spec;

/// The generator's mutable state mid-pass, together with the output samples
/// and the trigger-edge notifications committed so far.
#[verifier::ext_equal]
pub ghost struct RunState {
    /// Samples since the last accepted draw, in fixed-point units.
    pub samples_held: int,
    /// The last committed walk value, in fixed-point units.
    pub previous_sample: int,
    /// The latched logical trigger state of the previous sample.
    pub trigger_high: bool,
    /// The output samples committed so far, one per processed index.
    pub output: Seq<int>,
    /// The edge notifications raised so far: sample index and new state.
    pub events: Seq<(int, bool)>,
}

/// The hold length resolved at sample `i`, clamped into `[0, HOLD_MAX]`.
pub open spec fn hold_at(holds: Seq<i64>, i: int) -> int {
    resolve_spec(holds, 0, HOLD_MAX as int, i)
}

/// The lower step bound resolved at sample `i`, clamped into `[0, 1]`.
pub open spec fn step_min_at(mins: Seq<i64>, i: int) -> int {
    resolve_spec(mins, 0, UNIT as int, i)
}

/// The upper step bound resolved at sample `i`, clamped into `[0, 1]`.
pub open spec fn step_max_at(maxs: Seq<i64>, i: int) -> int {
    resolve_spec(maxs, 0, UNIT as int, i)
}

/// The trigger signal resolved at sample `i`, clamped into `[0, 1]`;
/// values above 0 are logical "high".
pub open spec fn trigger_at(trigs: Seq<i64>, i: int) -> int {
    resolve_spec(trigs, 0, UNIT as int, i)
}

/// The held-samples counter after the defensive floor at zero.
pub open spec fn floored_held(st: RunState) -> int {
    if st.samples_held < 0 {
        0
    } else {
        st.samples_held
    }
}

/// Whether the hold expires at this sample: the hold length admits expiry
/// at all (it is at least one sample), and the floored counter has reached
/// it. A hold length below one sample never expires on its own.
pub open spec fn hold_expired(st: RunState, hold: int) -> bool {
    hold >= UNIT as int && floored_held(st) >= hold
}

/// The walk value after the hold stage of one sample: advanced on `d0`
/// when the hold expired, unchanged otherwise.
pub open spec fn prev_after_hold(st: RunState, hold: int, lo: int, hi: int, d0: Draw) -> int {
    if hold_expired(st, hold) {
        next_value_spec(st.previous_sample, lo, hi, d0)
    } else {
        st.previous_sample
    }
}

/// One sample of the render pass, at index `i`, under resolved parameters
/// `hold`, `lo`, `hi`, `t` and the two draws set aside for this index.
///
/// In order: the held-samples counter is defensively floored at zero; if
/// the hold length admits expiry (at least one sample) and the counter has
/// reached it, the counter goes down by the hold length — keeping the
/// fractional remainder, so fractional hold lengths stay exact — and the
/// walk advances on `d0`; a change of the trigger's logical state raises a
/// notification, and a rising edge also advances the walk on `d1`; the
/// walk value is committed as the output sample; the trigger state is
/// latched; the counter grows by one sample, saturating at `HOLD_MAX` —
/// beyond every admissible hold length — so it cannot overflow.
pub open spec fn sample_step_spec(
    st: RunState,
    i: int,
    hold: int,
    lo: int,
    hi: int,
    t: int,
    d0: Draw,
    d1: Draw,
) -> RunState {
    let held0 = floored_held(st);
    let expired = hold_expired(st, hold);
    let held1 = if expired {
        held0 - hold
    } else {
        held0
    };
    let prev1 = prev_after_hold(st, hold, lo, hi, d0);
    let high = t > 0;
    let edge = high != st.trigger_high;
    let prev2 = if edge && high {
        next_value_spec(prev1, lo, hi, d1)
    } else {
        prev1
    };
    let events = if edge {
        st.events.push((i, high))
    } else {
        st.events
    };
    let held2 = if held1 + UNIT as int > HOLD_MAX as int {
        HOLD_MAX as int
    } else {
        held1 + UNIT as int
    };
    (RunState {
        samples_held: held2,
        previous_sample: prev2,
        trigger_high: high,
        output: st.output.push(prev2),
        events,
    })
}

/// The state after the first `n` samples of a render pass that started in
/// `init`: sample `i` resolves every parameter at index `i` and consumes
/// the draws set aside for it, `draws[2 * i]` and `draws[2 * i + 1]`.
pub open spec fn run_spec(
    mins: Seq<i64>,
    maxs: Seq<i64>,
    holds: Seq<i64>,
    trigs: Seq<i64>,
    draws: Seq<Draw>,
    init: RunState,
    n: nat,
) -> RunState
    decreases n,
{
    if n == 0 {
        init
    } else {
        let i = n - 1;
        let st = run_spec(mins, maxs, holds, trigs, draws, init, (n - 1) as nat);
        sample_step_spec(
            st,
            i,
            hold_at(holds, i),
            step_min_at(mins, i),
            step_max_at(maxs, i),
            trigger_at(trigs, i),
            draws[2 * i],
            draws[2 * i + 1],
        )
    }
}

/// Each processed sample commits exactly one output value.
pub proof fn lemma_run_output_len(
    mins: Seq<i64>,
    maxs: Seq<i64>,
    holds: Seq<i64>,
    trigs: Seq<i64>,
    draws: Seq<Draw>,
    init: RunState,
    n: nat,
)
    ensures
        run_spec(mins, maxs, holds, trigs, draws, init, n).output.len() == init.output.len() + n,
    decreases n,
{
    if n > 0 {
        lemma_run_output_len(mins, maxs, holds, trigs, draws, init, (n - 1) as nat);
    }
}

/// The pass preserves the state bounds: the held-samples counter stays in
/// `[0, HOLD_MAX]`, the walk value stays in `[-1, +1]`, and — the range
/// law — so does every committed output sample, whatever the parameter
/// sequences hold and whatever entropy the draws carry.
pub proof fn lemma_run_wf(
    mins: Seq<i64>,
    maxs: Seq<i64>,
    holds: Seq<i64>,
    trigs: Seq<i64>,
    draws: Seq<Draw>,
    init: RunState,
    n: nat,
)
    requires
        0 <= init.samples_held <= HOLD_MAX as int,
        -(UNIT as int) <= init.previous_sample <= UNIT as int,
        forall|j: int|
            0 <= j < init.output.len() ==> -(UNIT as int) <= #[trigger] init.output[j] <= UNIT
                as int,
    ensures
        ({
            let r = run_spec(mins, maxs, holds, trigs, draws, init, n);
            &&& 0 <= r.samples_held <= HOLD_MAX as int
            &&& -(UNIT as int) <= r.previous_sample <= UNIT as int
            &&& forall|j: int|
                0 <= j < r.output.len() ==> -(UNIT as int) <= #[trigger] r.output[j] <= UNIT as int
        }),
    decreases n,
{
    if n > 0 {
        let i = n - 1;
        lemma_run_wf(mins, maxs, holds, trigs, draws, init, (n - 1) as nat);
        let st = run_spec(mins, maxs, holds, trigs, draws, init, (n - 1) as nat);
        let lo = step_min_at(mins, i);
        let hi = step_max_at(maxs, i);
        lemma_next_value_in_range(st.previous_sample, lo, hi, draws[2 * i]);
        let prev1 = prev_after_hold(st, hold_at(holds, i), lo, hi, draws[2 * i]);
        lemma_next_value_in_range(prev1, lo, hi, draws[2 * i + 1]);
    }
}

} // verus!
