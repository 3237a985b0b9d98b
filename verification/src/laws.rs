//! The generator's laws, proved once and for all over the render state
//! machine of [`crate::run`]. Together with the exact contract of
//! [`crate::NoiseGenerator::process_with_draws`], each law carries over to
//! the executable render.

use vstd::prelude::*;

verus! {

use crate::UNIT;
use crate::generator::NoiseGenerator;
use crate::generator::init_run_state;
use crate::run::RunState;
use crate::run::hold_at;
use crate::run::lemma_run_output_len;
use crate::run::prev_after_hold;
use crate::run::run_spec;
use crate::run::step_max_at;
use crate::run::step_min_at;
use crate::run::trigger_at;
use crate::walk::Draw;
use crate::walk::next_value_spec;

/// Sub-unity hold never expires: when every sample of a pass resolves a
/// hold length below one sample and a trigger that is low, the walk never
/// advances — the pass commits the walk value it started with at every
/// index, whatever entropy the draws carry.
pub proof fn lemma_sub_unity_hold_holds_value(
    mins: Seq<i64>,
    maxs: Seq<i64>,
    holds: Seq<i64>,
    trigs: Seq<i64>,
    draws: Seq<Draw>,
    init: RunState,
    n: nat,
)
    requires
        init.output.len() == 0,
        forall|i: int| 0 <= i < n ==> hold_at(holds, i) < UNIT as int,
        forall|i: int| 0 <= i < n ==> trigger_at(trigs, i) <= 0,
    ensures
        run_spec(mins, maxs, holds, trigs, draws, init, n).previous_sample
            == init.previous_sample,
        forall|i: int|
            0 <= i < n ==> run_spec(mins, maxs, holds, trigs, draws, init, n).output[i]
                == init.previous_sample,
    decreases n,
{
    if n > 0 {
        lemma_sub_unity_hold_holds_value(mins, maxs, holds, trigs, draws, init, (n - 1) as nat);
        lemma_run_output_len(mins, maxs, holds, trigs, draws, init, (n - 1) as nat);
    }
}

/// A rising trigger edge forces a redraw: when sample `k` resolves a high
/// trigger while the latch left by sample `k - 1` is low, that sample
/// raises the notification `(k, true)` and commits a walk value freshly
/// drawn from the draw set aside for the edge — independent of the hold
/// timing, which may have advanced the walk once already in the same
/// sample.
pub proof fn lemma_rising_edge_forces_redraw(
    mins: Seq<i64>,
    maxs: Seq<i64>,
    holds: Seq<i64>,
    trigs: Seq<i64>,
    draws: Seq<Draw>,
    init: RunState,
    k: nat,
)
    requires
        trigger_at(trigs, k as int) > 0,
        !run_spec(mins, maxs, holds, trigs, draws, init, k).trigger_high,
    ensures
        ({
            let before = run_spec(mins, maxs, holds, trigs, draws, init, k);
            let after = run_spec(mins, maxs, holds, trigs, draws, init, (k + 1) as nat);
            let lo = step_min_at(mins, k as int);
            let hi = step_max_at(maxs, k as int);
            let fresh = next_value_spec(
                prev_after_hold(before, hold_at(holds, k as int), lo, hi, draws[2 * k as int]),
                lo,
                hi,
                draws[2 * k as int + 1],
            );
            &&& after.events == before.events.push((k as int, true))
            &&& after.previous_sample == fresh
            &&& after.output == before.output.push(fresh)
        }),
{
}

/// A falling trigger edge notifies but does not redraw: when sample `k`
/// resolves a low trigger while the latch left by sample `k - 1` is high,
/// that sample raises the notification `(k, false)`, and the committed
/// value is exactly what the hold timing alone produced.
pub proof fn lemma_falling_edge_no_redraw(
    mins: Seq<i64>,
    maxs: Seq<i64>,
    holds: Seq<i64>,
    trigs: Seq<i64>,
    draws: Seq<Draw>,
    init: RunState,
    k: nat,
)
    requires
        trigger_at(trigs, k as int) <= 0,
        run_spec(mins, maxs, holds, trigs, draws, init, k).trigger_high,
    ensures
        ({
            let before = run_spec(mins, maxs, holds, trigs, draws, init, k);
            let after = run_spec(mins, maxs, holds, trigs, draws, init, (k + 1) as nat);
            let lo = step_min_at(mins, k as int);
            let hi = step_max_at(maxs, k as int);
            let held = prev_after_hold(before, hold_at(holds, k as int), lo, hi, draws[2 * k as int]);
            &&& after.events == before.events.push((k as int, false))
            &&& after.previous_sample == held
            &&& after.output == before.output.push(held)
        }),
{
}

/// Idempotent construction: two generators with the same quantum size and
/// equal persistent state, rendered under the same parameter sequences and
/// the same draw script, run the state machine to the same result. With
/// the exact contract of `process_with_draws`, their output blocks are
/// bit-identical.
pub proof fn lemma_replay_deterministic(
    g1: NoiseGenerator,
    g2: NoiseGenerator,
    mins: Seq<i64>,
    maxs: Seq<i64>,
    holds: Seq<i64>,
    trigs: Seq<i64>,
    draws: Seq<Draw>,
)
    requires
        g1.quantum() == g2.quantum(),
        g1.held() == g2.held(),
        g1.prev_sample() == g2.prev_sample(),
        g1.trigger_latched() == g2.trigger_latched(),
    ensures
        run_spec(mins, maxs, holds, trigs, draws, init_run_state(g1), g1.quantum()) == run_spec(
            mins,
            maxs,
            holds,
            trigs,
            draws,
            init_run_state(g2),
            g2.quantum(),
        ),
{
    assert(init_run_state(g1) =~= init_run_state(g2));
}

/// Notifications come in strictly increasing sample order, each at an
/// index of the processed range.
pub proof fn lemma_events_ordered(
    mins: Seq<i64>,
    maxs: Seq<i64>,
    holds: Seq<i64>,
    trigs: Seq<i64>,
    draws: Seq<Draw>,
    init: RunState,
    n: nat,
)
    requires
        init.events.len() == 0,
    ensures
        ({
            let evs = run_spec(mins, maxs, holds, trigs, draws, init, n).events;
            &&& forall|a: int| 0 <= a < evs.len() ==> 0 <= (#[trigger] evs[a]).0 < n
            &&& forall|a: int, b: int|
                0 <= a < b < evs.len() ==> (#[trigger] evs[a]).0 < (#[trigger] evs[b]).0
        }),
    decreases n,
{
    if n > 0 {
        lemma_events_ordered(mins, maxs, holds, trigs, draws, init, (n - 1) as nat);
        let st = run_spec(mins, maxs, holds, trigs, draws, init, (n - 1) as nat);
        let r = run_spec(mins, maxs, holds, trigs, draws, init, n);
        assert(r.events == st.events || r.events == st.events.push(
            ((n - 1) as int, trigger_at(trigs, (n - 1) as int) > 0),
        ));
        assert forall|a: int| 0 <= a < r.events.len() implies 0 <= (#[trigger] r.events[a]).0
            < n by {
            if a < st.events.len() {
                assert(r.events[a] == st.events[a]);
            }
        }
        assert forall|a: int, b: int| 0 <= a < b < r.events.len() implies (
        #[trigger] r.events[a]).0 < (#[trigger] r.events[b]).0 by {
            if b < st.events.len() {
                assert(r.events[a] == st.events[a]);
                assert(r.events[b] == st.events[b]);
            } else {
                assert(r.events[a] == st.events[a]);
            }
        }
    }
}

} // verus!
