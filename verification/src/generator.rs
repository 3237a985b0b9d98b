//! The generator: persistent state, and the render call over one quantum.

use vstd::prelude::*;

verus! {

use crate::HOLD_MAX;
use crate::INITIAL_SAMPLE;
use crate::UNIT;
use crate::params::get_parameter;
use crate::params::valid_len;
use crate::rng::random_bool;
use crate::rng::random_u64;
use crate::run::RunState;
use crate::run::hold_at;
use crate::run::lemma_run_output_len;
use crate::run::lemma_run_wf;
use crate::run::run_spec;
use crate::run::sample_step_spec;
use crate::run::step_max_at;
use crate::run::step_min_at;
use crate::run::trigger_at;
use crate::walk::Draw;
use crate::walk::generate_next_value;

/// Why a render call was refused.
#[derive(Clone, Copy, Debug, PartialEq, Eq, Structural)]
pub enum NoiseError {
    /// A parameter sequence's length was neither 0, nor 1, nor the
    /// instance's quantum size.
    InvalidParameterLength,
}

/// One trigger-edge notification: at sample `index`, the trigger's logical
/// state changed to `is_high`. A render call reports its notifications in
/// strictly increasing sample order.
#[derive(Clone, Copy, Debug, PartialEq, Eq, Structural)]
pub struct TriggerEvent {
    /// The sample index within the block at which the edge occurred.
    pub index: usize,
    /// The trigger's new logical state: `true` on a rising edge.
    pub is_high: bool,
}

/// A single-voice noise generator: a bounded random walk, advanced under
/// sample-and-hold timing and trigger edges, one block per render call.
pub struct NoiseGenerator {
    quantum_size: usize,
    output: Vec<i64>,
    samples_held: i64,
    previous_sample: i64,
    is_trigger_high: bool,
}

impl NoiseGenerator {
    /// Samples per render call; fixed at construction.
    pub closed spec fn quantum(&self) -> nat {
        self.quantum_size as nat
    }

    /// Samples since the last accepted draw, in fixed-point units.
    pub closed spec fn held(&self) -> int {
        self.samples_held as int
    }

    /// The last committed walk value, in fixed-point units.
    pub closed spec fn prev_sample(&self) -> int {
        self.previous_sample as int
    }

    /// The latched logical trigger state from the previous sample.
    pub closed spec fn trigger_latched(&self) -> bool {
        self.is_trigger_high
    }

    /// The owned output block, overwritten in place by each render call.
    pub closed spec fn output_seq(&self) -> Seq<i64> {
        self.output@
    }

    /// The instance invariant: the output block always has exactly the
    /// configured quantum size, the held-samples counter stays within
    /// `[0, HOLD_MAX]`, and the walk value stays within `[-1, +1]`.
    pub open spec fn wf(&self) -> bool {
        &&& 1 <= self.quantum()
        &&& self.quantum() <= usize::MAX as nat / 2
        &&& self.output_seq().len() == self.quantum()
        &&& 0 <= self.held() <= HOLD_MAX as int
        &&& -(UNIT as int) <= self.prev_sample() <= UNIT as int
    }
}

/// The pass state at the start of a render call of `g`: the persistent
/// state carried over, with no sample committed and no notification raised.
pub open spec fn init_run_state(g: NoiseGenerator) -> RunState {
    (RunState {
        samples_held: g.held(),
        previous_sample: g.prev_sample(),
        trigger_high: g.trigger_latched(),
        output: Seq::empty(),
        events: Seq::empty(),
    })
}

/// All four parameter sequences have an admissible length for quantum `q`.
pub open spec fn valid_param_lens(
    mins: Seq<i64>,
    maxs: Seq<i64>,
    holds: Seq<i64>,
    trigs: Seq<i64>,
    q: nat,
) -> bool {
    &&& valid_len(mins.len(), q)
    &&& valid_len(maxs.len(), q)
    &&& valid_len(holds.len(), q)
    &&& valid_len(trigs.len(), q)
}

/// How a finished render call relates to the state machine: `post` carries
/// the machine's final persistent state and its output block, sample for
/// sample, and `evs` its notifications, edge for edge.
pub open spec fn run_matches(
    pre: NoiseGenerator,
    post: NoiseGenerator,
    evs: Seq<TriggerEvent>,
    mins: Seq<i64>,
    maxs: Seq<i64>,
    holds: Seq<i64>,
    trigs: Seq<i64>,
    draws: Seq<Draw>,
) -> bool {
    let r = run_spec(mins, maxs, holds, trigs, draws, init_run_state(pre), pre.quantum());
    &&& post.quantum() == pre.quantum()
    &&& post.held() == r.samples_held
    &&& post.prev_sample() == r.previous_sample
    &&& post.trigger_latched() == r.trigger_high
    &&& post.output_seq().len() == pre.quantum()
    &&& forall|j: int|
        0 <= j < pre.quantum() ==> (#[trigger] post.output_seq()[j]) as int == r.output[j]
    &&& evs.len() == r.events.len()
    &&& forall|j: int|
        0 <= j < evs.len() ==> ((#[trigger] evs[j]).index as int, evs[j].is_high) == r.events[j]
}

impl NoiseGenerator {
    /// Allocates a generator that will produce `render_quantum_samples`
    /// samples per render call, with a zeroed output block, a fresh hold
    /// counter, a low trigger latch, and the walk seeded at 0.1.
    pub fn new(render_quantum_samples: usize) -> (r: NoiseGenerator)
        requires
            1 <= render_quantum_samples,
            render_quantum_samples <= usize::MAX / 2,
        ensures
            r.wf(),
            r.quantum() == render_quantum_samples,
            r.held() == 0,
            r.prev_sample() == INITIAL_SAMPLE as int,
            r.trigger_latched() == false,
            r.output_seq().len() == render_quantum_samples,
            forall|j: int| 0 <= j < render_quantum_samples ==> r.output_seq()[j] == 0i64,
    {
        let mut output: Vec<i64> = Vec::new();
        let mut k: usize = 0;
        while k < render_quantum_samples
            invariant
                k <= render_quantum_samples,
                output@.len() == k as nat,
                forall|j: int| 0 <= j < k ==> output@[j] == 0i64,
            decreases render_quantum_samples - k,
        {
            output.push(0);
            k = k + 1;
        }
        NoiseGenerator {
            quantum_size: render_quantum_samples,
            output,
            samples_held: 0,
            previous_sample: INITIAL_SAMPLE,
            is_trigger_high: false,
        }
    }

    /// Read access to the output block the last render call produced,
    /// valid until the next render call.
    pub fn get_output(&self) -> (r: &Vec<i64>)
        ensures
            r@ == self.output_seq(),
    {
        &self.output
    }

    /// One render pass over the quantum, with every random decision handed
    /// in explicitly: sample `i` may consume `draws[2 * i]` (hold expiry)
    /// and `draws[2 * i + 1]` (rising trigger edge). The result is exactly
    /// the run of the state machine on these inputs, so a replayed draw
    /// script reproduces a block bit for bit.
    ///
    /// A parameter sequence of inadmissible length is refused: the call
    /// returns `InvalidParameterLength` and changes nothing.
    pub fn process_with_draws(
        &mut self,
        step_minimum: &Vec<i64>,
        step_maximum: &Vec<i64>,
        sample_hold: &Vec<i64>,
        next_value_trigger: &Vec<i64>,
        draws: &Vec<Draw>,
    ) -> (r: Result<Vec<TriggerEvent>, NoiseError>)
        requires
            old(self).wf(),
            draws@.len() >= 2 * old(self).quantum(),
        ensures
            final(self).wf(),
            final(self).quantum() == old(self).quantum(),
            r is Ok <==> valid_param_lens(
                step_minimum@,
                step_maximum@,
                sample_hold@,
                next_value_trigger@,
                old(self).quantum(),
            ),
            r is Err ==> *final(self) == *old(self) && r->Err_0
                == NoiseError::InvalidParameterLength,
            r is Ok ==> run_matches(
                *old(self),
                *final(self),
                r->Ok_0@,
                step_minimum@,
                step_maximum@,
                sample_hold@,
                next_value_trigger@,
                draws@,
            ),
    {
        let q = self.quantum_size;
        let lens_ok = (step_minimum.len() == 0 || step_minimum.len() == 1 || step_minimum.len()
            == q) && (step_maximum.len() == 0 || step_maximum.len() == 1 || step_maximum.len()
            == q) && (sample_hold.len() == 0 || sample_hold.len() == 1 || sample_hold.len() == q)
            && (next_value_trigger.len() == 0 || next_value_trigger.len() == 1
            || next_value_trigger.len() == q);
        if !lens_ok {
            return Err(NoiseError::InvalidParameterLength);
        }
        let ghost pre = *self;
        let mut events: Vec<TriggerEvent> = Vec::new();
        let mut i: usize = 0;
        while i < q
            invariant
                i <= q,
                q == self.quantum_size,
                pre.wf(),
                q as nat == pre.quantum(),
                valid_param_lens(
                    step_minimum@,
                    step_maximum@,
                    sample_hold@,
                    next_value_trigger@,
                    pre.quantum(),
                ),
                draws@.len() >= 2 * pre.quantum(),
                self.output@.len() == q as nat,
                0 <= self.samples_held <= HOLD_MAX,
                -UNIT <= self.previous_sample <= UNIT,
                ({
                    let st = run_spec(
                        step_minimum@,
                        step_maximum@,
                        sample_hold@,
                        next_value_trigger@,
                        draws@,
                        init_run_state(pre),
                        i as nat,
                    );
                    &&& self.samples_held as int == st.samples_held
                    &&& self.previous_sample as int == st.previous_sample
                    &&& self.is_trigger_high == st.trigger_high
                    &&& st.output.len() == i as nat
                    &&& forall|j: int|
                        0 <= j < i ==> (#[trigger] self.output@[j]) as int == st.output[j]
                    &&& events@.len() == st.events.len()
                    &&& forall|j: int|
                        0 <= j < events@.len() ==> ((#[trigger] events@[j]).index as int,
                        events@[j].is_high) == st.events[j]
                }),
            decreases q - i,
        {
            if self.samples_held < 0 {
                self.samples_held = 0;
            }
            let sample_hold_value = get_parameter(sample_hold, 0, HOLD_MAX, i);
            if sample_hold_value >= UNIT && self.samples_held >= sample_hold_value {
                // keep the fractional remainder instead of resetting to
                // zero, so non-integer hold lengths stay exact
                self.samples_held = self.samples_held - sample_hold_value;
                let d0 = draws[2 * i];
                self.previous_sample = generate_next_value(
                    self.previous_sample,
                    get_parameter(step_minimum, 0, UNIT, i),
                    get_parameter(step_maximum, 0, UNIT, i),
                    d0,
                );
            }
            let trigger_value = get_parameter(next_value_trigger, 0, UNIT, i);
            let high = trigger_value > 0;
            if self.is_trigger_high != high {
                events.push(TriggerEvent { index: i, is_high: high });
                if high {
                    // a rising edge forces a fresh value, whatever the
                    // hold timing says
                    let d1 = draws[2 * i + 1];
                    self.previous_sample = generate_next_value(
                        self.previous_sample,
                        get_parameter(step_minimum, 0, UNIT, i),
                        get_parameter(step_maximum, 0, UNIT, i),
                        d1,
                    );
                }
            }
            self.output.set(i, self.previous_sample);
            self.is_trigger_high = high;
            self.samples_held = if self.samples_held + UNIT > HOLD_MAX {
                HOLD_MAX
            } else {
                self.samples_held + UNIT
            };
            proof {
                let st = run_spec(
                    step_minimum@,
                    step_maximum@,
                    sample_hold@,
                    next_value_trigger@,
                    draws@,
                    init_run_state(pre),
                    i as nat,
                );
                assert(run_spec(
                    step_minimum@,
                    step_maximum@,
                    sample_hold@,
                    next_value_trigger@,
                    draws@,
                    init_run_state(pre),
                    (i + 1) as nat,
                ) == sample_step_spec(
                    st,
                    i as int,
                    hold_at(sample_hold@, i as int),
                    step_min_at(step_minimum@, i as int),
                    step_max_at(step_maximum@, i as int),
                    trigger_at(next_value_trigger@, i as int),
                    draws@[2 * i],
                    draws@[2 * i + 1],
                ));
            }
            i = i + 1;
        }
        Ok(events)
    }

    /// One render pass over the quantum, drawing its randomness from the
    /// system entropy source. What comes back is some run of the state
    /// machine — the caller knows everything about the pass except which
    /// entropy the draws carried; in particular the output block has
    /// exactly the quantum size and every sample lies within `[-1, +1]`.
    ///
    /// A parameter sequence of inadmissible length is refused: the call
    /// returns `InvalidParameterLength`, draws nothing, and changes
    /// nothing.
    pub fn process(
        &mut self,
        step_minimum: &Vec<i64>,
        step_maximum: &Vec<i64>,
        sample_hold: &Vec<i64>,
        next_value_trigger: &Vec<i64>,
    ) -> (r: Result<Vec<TriggerEvent>, NoiseError>)
        requires
            old(self).wf(),
        ensures
            final(self).wf(),
            final(self).quantum() == old(self).quantum(),
            r is Ok <==> valid_param_lens(
                step_minimum@,
                step_maximum@,
                sample_hold@,
                next_value_trigger@,
                old(self).quantum(),
            ),
            r is Err ==> *final(self) == *old(self) && r->Err_0
                == NoiseError::InvalidParameterLength,
            r is Ok ==> exists|draws: Seq<Draw>|
                draws.len() >= 2 * old(self).quantum() && run_matches(
                    *old(self),
                    *final(self),
                    r->Ok_0@,
                    step_minimum@,
                    step_maximum@,
                    sample_hold@,
                    next_value_trigger@,
                    draws,
                ),
            r is Ok ==> forall|j: int|
                0 <= j < old(self).quantum() ==> -(UNIT as int) <= (
                #[trigger] final(self).output_seq()[j]) as int <= UNIT as int,
    {
        let q = self.quantum_size;
        let lens_ok = (step_minimum.len() == 0 || step_minimum.len() == 1 || step_minimum.len()
            == q) && (step_maximum.len() == 0 || step_maximum.len() == 1 || step_maximum.len()
            == q) && (sample_hold.len() == 0 || sample_hold.len() == 1 || sample_hold.len() == q)
            && (next_value_trigger.len() == 0 || next_value_trigger.len() == 1
            || next_value_trigger.len() == q);
        if !lens_ok {
            return Err(NoiseError::InvalidParameterLength);
        }
        let ghost pre = *self;
        let mut draws_vec: Vec<Draw> = Vec::new();
        let n = 2 * q;
        let mut k: usize = 0;
        while k < n
            invariant
                k <= n,
                draws_vec@.len() == k as nat,
            decreases n - k,
        {
            let raw = random_u64();
            let up = random_bool();
            draws_vec.push(Draw { raw, up });
            k = k + 1;
        }
        let result = self.process_with_draws(
            step_minimum,
            step_maximum,
            sample_hold,
            next_value_trigger,
            &draws_vec,
        );
        proof {
            if result is Ok {
                lemma_run_output_len(
                    step_minimum@,
                    step_maximum@,
                    sample_hold@,
                    next_value_trigger@,
                    draws_vec@,
                    init_run_state(pre),
                    pre.quantum(),
                );
                lemma_run_wf(
                    step_minimum@,
                    step_maximum@,
                    sample_hold@,
                    next_value_trigger@,
                    draws_vec@,
                    init_run_state(pre),
                    pre.quantum(),
                );
            }
        }
        result
    }
}

} // verus!
