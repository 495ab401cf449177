//! Stream effects: delay, reverb and flanger, each a stateful
//! one-sample-in, one-sample-out transformer over fixed-point samples.
//!
//! Every effect clamps its input into `[-EFFECT_INPUT_MAX,
//! EFFECT_INPUT_MAX]` and clamps its parameters into their documented
//! ranges, with feedback kept strictly below 1.0.  Under those clamps each
//! internal delay line provably stays within `[-EFFECT_BOUND,
//! EFFECT_BOUND]`: the energy in the effect is bounded and no runaway gain
//! is possible.

use vstd::prelude::*;
use vstd::arithmetic::div_mod::{
    lemma_div_by_multiple, lemma_div_is_ordered,
};

verus! {

/// Largest magnitude an effect accepts at its input; louder samples are
/// clamped.
pub const EFFECT_INPUT_MAX: i64 = 2_000_000;

/// Bound on every value stored in an effect's delay lines: with feedback
/// at most 0.95, a geometric series of clamped inputs never exceeds
/// `EFFECT_INPUT_MAX / (1 - 0.95)`, which is 20 times the input bound.
pub const EFFECT_BOUND: i64 = 40_000_000;

/// Largest feedback gain, in micro-units: 0.95, strictly below 1.0.
pub const FEEDBACK_MAX: i64 = 950_000;

/// Fixed-point scaling: divide by one million, rounding toward zero.
pub open spec fn div_micro_spec(v: int) -> int {
    if v >= 0 {
        v / 1_000_000
    } else {
        -((-v) / 1_000_000)
    }
}

/// A scaled-down value keeps any bound its argument had, a million-fold.
pub proof fn lemma_div_micro_bound(v: int, b: int)
    requires
        0 <= b,
        -b * 1_000_000 <= v <= b * 1_000_000,
    ensures
        -b <= div_micro_spec(v) <= b,
{
    if v >= 0 {
        lemma_div_is_ordered(0, v, 1_000_000);
        lemma_div_is_ordered(v, b * 1_000_000, 1_000_000);
        lemma_div_by_multiple(b, 1_000_000);
    } else {
        lemma_div_is_ordered(0, -v, 1_000_000);
        lemma_div_is_ordered(-v, b * 1_000_000, 1_000_000);
        lemma_div_by_multiple(b, 1_000_000);
    }
}

/// Scaling an exact micro-unit multiple recovers the original value.
pub proof fn lemma_div_micro_exact(c: int)
    ensures
        div_micro_spec(c * 1_000_000) == c,
{
    if c >= 0 {
        lemma_div_by_multiple(c, 1_000_000);
    } else {
        lemma_div_by_multiple(-c, 1_000_000);
        assert(-(c * 1_000_000) == (-c) * 1_000_000);
    }
}

/// Divides a fixed-point value by one million, rounding toward zero.
pub fn div_micro(v: i64) -> (r: i64)
    requires
        -100_000_000_000_000 <= v <= 100_000_000_000_000,
    ensures
        r == div_micro_spec(v as int),
{
    if v >= 0 {
        v / 1_000_000
    } else {
        -((-v) / 1_000_000)
    }
}

/// Input clamp applied by every effect.
pub open spec fn clamp_input_spec(x: i64) -> int {
    if x > 2_000_000 {
        2_000_000
    } else if x < -2_000_000 {
        -2_000_000
    } else {
        x as int
    }
}

/// Clamps a sample into the effect input range.
pub fn clamp_input(x: i64) -> (r: i64)
    ensures
        r == clamp_input_spec(x),
        -EFFECT_INPUT_MAX <= r <= EFFECT_INPUT_MAX,
{
    if x > 2_000_000 {
        2_000_000
    } else if x < -2_000_000 {
        -2_000_000
    } else {
        x
    }
}

/// Clamps a micro-unit fraction into `[0, 1]`.
pub open spec fn clamp_fraction_spec(x: i64) -> int {
    if x < 0 {
        0
    } else if x > 1_000_000 {
        1_000_000
    } else {
        x as int
    }
}

/// Clamps a micro-unit fraction into `[0, 1]`.
pub fn clamp_fraction(x: i64) -> (r: i64)
    ensures
        r == clamp_fraction_spec(x),
        0 <= r <= 1_000_000,
{
    if x < 0 {
        0
    } else if x > 1_000_000 {
        1_000_000
    } else {
        x
    }
}

/// Clamps a feedback gain into `[0, FEEDBACK_MAX]`: strictly below unity,
/// so delay-line energy stays bounded.
pub open spec fn clamp_feedback_spec(x: i64) -> int {
    if x < 0 {
        0
    } else if x > 950_000 {
        950_000
    } else {
        x as int
    }
}

/// Clamps a feedback gain into `[0, FEEDBACK_MAX]`.
pub fn clamp_feedback(x: i64) -> (r: i64)
    ensures
        r == clamp_feedback_spec(x),
        0 <= r <= FEEDBACK_MAX,
{
    if x < 0 {
        0
    } else if x > 950_000 {
        950_000
    } else {
        x
    }
}

/// The entries of a circular buffer in age order: the entry at `pos` is
/// about to be read (the oldest), the entry just before `pos` was written
/// last.
pub open spec fn circular(s: Seq<i64>, pos: int) -> Seq<i64> {
    s.subrange(pos, s.len() as int) + s.subrange(0, pos)
}

/// Number of samples a delay of `delay_ms` milliseconds spans at a sample
/// rate, clamped to at least one sample and at most 2 seconds at 192 kHz.
pub open spec fn delay_samples_spec(delay_ms: u32, sample_rate: u32) -> int {
    let ms = if delay_ms < 1 { 1 } else if delay_ms > 2000 { 2000 } else { delay_ms as int };
    let rate = if sample_rate < 1 { 1 } else if sample_rate > 192_000 { 192_000 } else { sample_rate as int };
    let n = ms * rate / 1000;
    if n < 1 { 1 } else { n }
}

/// Computes the delay-line length in samples.
fn delay_samples(delay_ms: u32, sample_rate: u32) -> (n: usize)
    ensures
        n == delay_samples_spec(delay_ms, sample_rate),
        1 <= n <= 384_000,
{
    let ms: u64 = if delay_ms < 1 { 1 } else if delay_ms > 2000 { 2000 } else { delay_ms as u64 };
    let rate: u64 = if sample_rate < 1 { 1 } else if sample_rate > 192_000 { 192_000 } else { sample_rate as u64 };
    proof {
        assert(ms * rate <= 384_000_000) by (nonlinear_arith)
            requires 1 <= ms <= 2000 && 1 <= rate <= 192_000;
        lemma_div_is_ordered(0, ms * rate, 1000);
        lemma_div_is_ordered(ms * rate, 384_000_000, 1000);
    }
    let n: u64 = ms * rate / 1000;
    if n < 1 {
        1
    } else {
        n as usize
    }
}

/// Allocates a zeroed delay line.
fn zeroed_line(n: usize) -> (v: Vec<i64>)
    ensures
        v@.len() == n,
        forall|i: int| 0 <= i < n ==> v@[i] == 0,
{
    let mut v: Vec<i64> = Vec::new();
    let mut k: usize = 0;
    while k < n
        invariant
            k <= n,
            v@.len() == k,
            forall|i: int| 0 <= i < k ==> v@[i] == 0,
        decreases n - k,
    {
        v.push(0);
        k = k + 1;
    }
    v
}

/// The state a delay effect exposes to its contracts: the delay line in
/// age order together with its gains.
pub ghost struct DelayView {
    /// Delay-line entries, oldest first.
    pub contents: Seq<i64>,
    /// Feedback gain in micro-units.
    pub feedback: int,
    /// Wet mix in micro-units.
    pub mix: int,
}

/// A delay-line view is well formed when the line is non-empty, every
/// entry respects the energy bound, and the gains sit in their clamped
/// ranges.
pub open spec fn delay_view_wf(v: DelayView) -> bool {
    &&& 1 <= v.contents.len()
    &&& 0 <= v.feedback <= 950_000
    &&& 0 <= v.mix <= 1_000_000
    &&& forall|i: int| 0 <= i < v.contents.len() ==> -40_000_000 <= #[trigger] v.contents[i] <= 40_000_000
}

/// Output of one delay step: the dry sample blended with the oldest
/// delay-line entry at the wet mix.
pub open spec fn delay_output(v: DelayView, x: i64) -> int {
    div_micro_spec(clamp_input_spec(x) * (1_000_000 - v.mix) + v.contents[0] * v.mix)
}

/// Value written back into the delay line by one step: the clamped input
/// plus the fed-back oldest entry.
pub open spec fn delay_stored(v: DelayView, x: i64) -> int {
    clamp_input_spec(x) + div_micro_spec(v.feedback * v.contents[0])
}

/// State after one delay step: the oldest entry leaves, the fed-back
/// value is appended as the newest.
pub open spec fn delay_step(v: DelayView, x: i64) -> DelayView {
    DelayView {
        contents: v.contents.drop_first().push(delay_stored(v, x) as i64),
        feedback: v.feedback,
        mix: v.mix,
    }
}

/// One delay step keeps the delay line within the energy bound and its
/// output within the same bound: the effect is stable.
pub proof fn lemma_delay_step_bounds(v: DelayView, x: i64)
    requires
        delay_view_wf(v),
    ensures
        delay_view_wf(delay_step(v, x)),
        -40_000_000 <= delay_stored(v, x) <= 40_000_000,
        -40_000_000 <= delay_output(v, x) <= 40_000_000,
{
    let c0 = v.contents[0] as int;
    assert(-38_000_000_000_000 <= v.feedback * c0 <= 38_000_000_000_000) by (nonlinear_arith)
        requires 0 <= v.feedback <= 950_000 && -40_000_000 <= c0 <= 40_000_000;
    lemma_div_micro_bound(v.feedback * c0, 38_000_000);
    let xc = clamp_input_spec(x) as int;
    assert(-40_000_000_000_000 <= xc * (1_000_000 - v.mix) + c0 * v.mix <= 40_000_000_000_000)
        by (nonlinear_arith)
        requires
            -2_000_000 <= xc <= 2_000_000
                && -40_000_000 <= c0 <= 40_000_000
                && 0 <= v.mix <= 1_000_000;
    lemma_div_micro_bound(xc * (1_000_000 - v.mix) + c0 * v.mix, 40_000_000);
    let stepped = delay_step(v, x);
    assert forall|i: int| 0 <= i < stepped.contents.len() implies
        -40_000_000 <= #[trigger] stepped.contents[i] <= 40_000_000 by {
        if i < v.contents.len() - 1 {
            assert(stepped.contents[i] == v.contents[i + 1]);
        }
    }
}

/// Outputs of a delay effect stepped over a whole sequence of inputs.
pub open spec fn delay_run_outputs(v: DelayView, inputs: Seq<i64>) -> Seq<int>
    decreases inputs.len(),
{
    if inputs.len() == 0 {
        Seq::empty()
    } else {
        seq![delay_output(v, inputs[0])] + delay_run_outputs(
            delay_step(v, inputs[0]),
            inputs.drop_first(),
        )
    }
}

/// With zero feedback and a wet mix of one, the delay reduces to a pure
/// fixed delay: every output is the clamped input from `len` samples
/// earlier — or, for the first `len` outputs, whatever the delay line
/// initially held.
pub proof fn lemma_delay_pure_passthrough(v: DelayView, inputs: Seq<i64>)
    requires
        delay_view_wf(v),
        v.feedback == 0,
        v.mix == 1_000_000,
    ensures
        delay_run_outputs(v, inputs).len() == inputs.len(),
        forall|i: int| 0 <= i < inputs.len() ==> delay_run_outputs(v, inputs)[i] == (
        if i < v.contents.len() {
            v.contents[i] as int
        } else {
            clamp_input_spec(inputs[i - v.contents.len()])
        }),
    decreases inputs.len(),
{
    if inputs.len() == 0 {
    } else {
        let x = inputs[0];
        let len = v.contents.len() as int;
        let c0 = v.contents[0] as int;
        lemma_div_micro_exact(c0);
        assert(clamp_input_spec(x) * (1_000_000 - v.mix) == 0) by (nonlinear_arith)
            requires v.mix == 1_000_000;
        assert(v.contents[0] * v.mix == c0 * 1_000_000) by (nonlinear_arith)
            requires v.mix == 1_000_000 && c0 == v.contents[0];
        assert(delay_output(v, x) == c0);
        assert(v.feedback * v.contents[0] == 0) by (nonlinear_arith)
            requires v.feedback == 0;
        assert(delay_stored(v, x) == clamp_input_spec(x));
        let v1 = delay_step(v, x);
        lemma_delay_step_bounds(v, x);
        lemma_delay_pure_passthrough(v1, inputs.drop_first());
        let outs = delay_run_outputs(v, inputs);
        let outs1 = delay_run_outputs(v1, inputs.drop_first());
        assert forall|i: int| 0 <= i < inputs.len() implies outs[i] == (
        if i < len {
            v.contents[i] as int
        } else {
            clamp_input_spec(inputs[i - len])
        }) by {
            if i == 0 {
            } else {
                assert(outs[i] == outs1[i - 1]);
                if i < len {
                    assert(v1.contents[i - 1] == v.contents[i]);
                } else if i == len {
                    assert(v1.contents[i - 1] == delay_stored(v, x) as i64);
                } else {
                    assert(outs1[i - 1] == clamp_input_spec(inputs.drop_first()[i - 1 - len]));
                    assert(inputs.drop_first()[i - 1 - len] == inputs[i - len]);
                }
            }
        }
    }
}

/// A delay effect: a circular delay line with feedback, blended with the
/// dry signal at a wet mix.
pub struct DelayEffect {
    /// The delay line.
    pub buffer: Vec<i64>,
    /// Read/write position within the line.
    pub position: usize,
    /// Feedback gain in micro-units, at most `FEEDBACK_MAX`.
    pub feedback: i64,
    /// Wet mix in micro-units.
    pub mix: i64,
}

impl View for DelayEffect {
    type V = DelayView;

    open spec fn view(&self) -> DelayView {
        DelayView {
            contents: circular(self.buffer@, self.position as int),
            feedback: self.feedback as int,
            mix: self.mix as int,
        }
    }
}

impl DelayEffect {
    /// The delay line is non-empty and bounded, the position is inside
    /// it, and the gains sit in their clamped ranges.
    pub open spec fn wf(self) -> bool {
        &&& 1 <= self.buffer@.len() <= 384_000
        &&& self.position < self.buffer@.len()
        &&& 0 <= self.feedback <= 950_000
        &&& 0 <= self.mix <= 1_000_000
        &&& forall|i: int| 0 <= i < self.buffer@.len() ==> -40_000_000 <= #[trigger] self.buffer@[i] <= 40_000_000
    }

    /// A well-formed effect has a well-formed view.
    pub proof fn lemma_wf_view(self)
        requires
            self.wf(),
        ensures
            delay_view_wf(self@),
            self@.contents.len() == self.buffer@.len(),
    {
        assert forall|i: int| 0 <= i < self@.contents.len() implies
            -40_000_000 <= #[trigger] self@.contents[i] <= 40_000_000 by {
            let p = self.position as int;
            let n = self.buffer@.len() as int;
            if i < n - p {
                assert(self@.contents[i] == self.buffer@[p + i]);
            } else {
                assert(self@.contents[i] == self.buffer@[i - (n - p)]);
            }
        }
    }

    /// Builds a delay effect with an empty (silent) delay line of
    /// `delay_ms` milliseconds at the given sample rate.  Feedback and wet
    /// mix are clamped into their documented ranges.
    pub fn new(delay_ms: u32, feedback_micro: i64, mix_micro: i64, sample_rate: u32) -> (r: DelayEffect)
        ensures
            r.wf(),
            r@.contents.len() == delay_samples_spec(delay_ms, sample_rate),
            forall|i: int| 0 <= i < r@.contents.len() ==> #[trigger] r@.contents[i] == 0,
            r@.feedback == clamp_feedback_spec(feedback_micro),
            r@.mix == clamp_fraction_spec(mix_micro),
    {
        let n = delay_samples(delay_ms, sample_rate);
        let buffer = zeroed_line(n);
        let r = DelayEffect {
            buffer,
            position: 0,
            feedback: clamp_feedback(feedback_micro),
            mix: clamp_fraction(mix_micro),
        };
        proof {
            assert(r@.contents =~= r.buffer@);
        }
        r
    }

    /// Processes one sample: reads the oldest delay-line entry, emits the
    /// dry/wet blend, and stores the fed-back value in its place.
    pub fn process_sample(&mut self, input: i64) -> (out: i64)
        requires
            old(self).wf(),
        ensures
            final(self).wf(),
            final(self)@ == delay_step(old(self)@, input),
            out == delay_output(old(self)@, input),
            -EFFECT_BOUND <= out <= EFFECT_BOUND,
    {
        proof {
            old(self).lemma_wf_view();
            lemma_delay_step_bounds(old(self)@, input);
        }
        let ghost pre = *old(self);
        let x = clamp_input(input);
        let n = self.buffer.len();
        let delayed = self.buffer[self.position];
        proof {
            assert(pre@.contents[0] == delayed);
        }
        proof {
            assert(-38_000_000_000_000 <= self.feedback * delayed <= 38_000_000_000_000)
                by (nonlinear_arith)
                requires 0 <= self.feedback <= 950_000 && -40_000_000 <= delayed <= 40_000_000;
            assert(-2_000_000_000_000 <= x * (1_000_000 - self.mix) <= 2_000_000_000_000)
                by (nonlinear_arith)
                requires -2_000_000 <= x <= 2_000_000 && 0 <= self.mix <= 1_000_000;
            assert(-40_000_000_000_000 <= delayed * self.mix <= 40_000_000_000_000)
                by (nonlinear_arith)
                requires -40_000_000 <= delayed <= 40_000_000 && 0 <= self.mix <= 1_000_000;
        }
        let stored = x + div_micro(self.feedback * delayed);
        let out = div_micro(x * (1_000_000 - self.mix) + delayed * self.mix);
        self.buffer[self.position] = stored;
        self.position = if self.position + 1 == n {
            0
        } else {
            self.position + 1
        };
        proof {
            assert(final(self)@.contents =~= delay_step(pre@, input).contents);
        }
        out
    }
}

/// The state a reverb comb stage exposes to its contracts.
pub ghost struct CombView {
    /// Delay-line entries, oldest first.
    pub contents: Seq<i64>,
    /// Feedback gain in micro-units.
    pub feedback: int,
    /// Damping fraction in micro-units.
    pub damping: int,
    /// One-pole lowpass state on the feedback path.
    pub filter_state: int,
}

/// A comb-stage view is well formed when the line is non-empty and
/// bounded, the gains sit in their clamped ranges, and the lowpass state
/// respects the same energy bound.
pub open spec fn comb_view_wf(v: CombView) -> bool {
    &&& 1 <= v.contents.len()
    &&& 0 <= v.feedback <= 950_000
    &&& 0 <= v.damping <= 1_000_000
    &&& -40_000_000 <= v.filter_state <= 40_000_000
    &&& forall|i: int| 0 <= i < v.contents.len() ==> -40_000_000 <= #[trigger] v.contents[i] <= 40_000_000
}

/// New lowpass state after one comb step: the oldest entry blended with
/// the previous state at the damping fraction.  Damping attenuates the
/// high-frequency energy that recirculates through the comb.
pub open spec fn comb_damped(v: CombView) -> int {
    div_micro_spec(v.contents[0] * (1_000_000 - v.damping) + v.filter_state * v.damping)
}

/// Value written back into the comb's delay line: the input plus the
/// damped feedback.
pub open spec fn comb_stored(v: CombView, x: i64) -> int {
    x + div_micro_spec(v.feedback * comb_damped(v))
}

/// State after one comb step.
pub open spec fn comb_step(v: CombView, x: i64) -> CombView {
    CombView {
        contents: v.contents.drop_first().push(comb_stored(v, x) as i64),
        feedback: v.feedback,
        damping: v.damping,
        filter_state: comb_damped(v),
    }
}

/// One comb step keeps the whole stage within the energy bound: the comb
/// is stable for every parameter value in its clamped range.
pub proof fn lemma_comb_step_bounds(v: CombView, x: i64)
    requires
        comb_view_wf(v),
        -2_000_000 <= x <= 2_000_000,
    ensures
        comb_view_wf(comb_step(v, x)),
        -40_000_000 <= comb_stored(v, x) <= 40_000_000,
        -40_000_000 <= comb_damped(v) <= 40_000_000,
{
    let c0 = v.contents[0] as int;
    assert(-40_000_000_000_000 <= c0 * (1_000_000 - v.damping) + v.filter_state * v.damping
        <= 40_000_000_000_000) by (nonlinear_arith)
        requires
            -40_000_000 <= c0 <= 40_000_000
                && -40_000_000 <= v.filter_state <= 40_000_000
                && 0 <= v.damping <= 1_000_000;
    lemma_div_micro_bound(c0 * (1_000_000 - v.damping) + v.filter_state * v.damping, 40_000_000);
    let fs = comb_damped(v);
    assert(-38_000_000_000_000 <= v.feedback * fs <= 38_000_000_000_000) by (nonlinear_arith)
        requires 0 <= v.feedback <= 950_000 && -40_000_000 <= fs <= 40_000_000;
    lemma_div_micro_bound(v.feedback * fs, 38_000_000);
    let stepped = comb_step(v, x);
    assert forall|i: int| 0 <= i < stepped.contents.len() implies
        -40_000_000 <= #[trigger] stepped.contents[i] <= 40_000_000 by {
        if i < v.contents.len() - 1 {
            assert(stepped.contents[i] == v.contents[i + 1]);
        }
    }
}

/// One comb stage of the reverb: a delay line with damped feedback.
pub struct CombFilter {
    /// The delay line.
    pub buffer: Vec<i64>,
    /// Read/write position within the line.
    pub position: usize,
    /// Feedback gain in micro-units, at most `FEEDBACK_MAX`.
    pub feedback: i64,
    /// Damping fraction in micro-units.
    pub damping: i64,
    /// One-pole lowpass state on the feedback path.
    pub filter_state: i64,
}

impl View for CombFilter {
    type V = CombView;

    open spec fn view(&self) -> CombView {
        CombView {
            contents: circular(self.buffer@, self.position as int),
            feedback: self.feedback as int,
            damping: self.damping as int,
            filter_state: self.filter_state as int,
        }
    }
}

impl CombFilter {
    /// The delay line is non-empty and bounded, the position is inside
    /// it, and all gains and the lowpass state sit in their ranges.
    pub open spec fn wf(self) -> bool {
        &&& 1 <= self.buffer@.len() <= 384_000
        &&& self.position < self.buffer@.len()
        &&& 0 <= self.feedback <= 950_000
        &&& 0 <= self.damping <= 1_000_000
        &&& -40_000_000 <= self.filter_state <= 40_000_000
        &&& forall|i: int| 0 <= i < self.buffer@.len() ==> -40_000_000 <= #[trigger] self.buffer@[i] <= 40_000_000
    }

    /// A well-formed comb has a well-formed view.
    pub proof fn lemma_wf_view(self)
        requires
            self.wf(),
        ensures
            comb_view_wf(self@),
            self@.contents.len() == self.buffer@.len(),
    {
        assert forall|i: int| 0 <= i < self@.contents.len() implies
            -40_000_000 <= #[trigger] self@.contents[i] <= 40_000_000 by {
            let p = self.position as int;
            let n = self.buffer@.len() as int;
            if i < n - p {
                assert(self@.contents[i] == self.buffer@[p + i]);
            } else {
                assert(self@.contents[i] == self.buffer@[i - (n - p)]);
            }
        }
    }

    /// Builds a silent comb stage spanning `delay_ms` milliseconds.
    pub fn new(delay_ms: u32, feedback_micro: i64, damping_micro: i64, sample_rate: u32) -> (r: CombFilter)
        ensures
            r.wf(),
            r@.contents.len() == delay_samples_spec(delay_ms, sample_rate),
            forall|i: int| 0 <= i < r@.contents.len() ==> #[trigger] r@.contents[i] == 0,
            r@.feedback == clamp_feedback_spec(feedback_micro),
            r@.damping == clamp_fraction_spec(damping_micro),
            r@.filter_state == 0,
    {
        let n = delay_samples(delay_ms, sample_rate);
        let buffer = zeroed_line(n);
        let r = CombFilter {
            buffer,
            position: 0,
            feedback: clamp_feedback(feedback_micro),
            damping: clamp_fraction(damping_micro),
            filter_state: 0,
        };
        proof {
            assert(r@.contents =~= r.buffer@);
        }
        r
    }

    /// Processes one already-clamped sample through the comb: emits the
    /// oldest entry and stores the input plus damped feedback.
    pub fn process_sample(&mut self, x: i64) -> (out: i64)
        requires
            old(self).wf(),
            -2_000_000 <= x <= 2_000_000,
        ensures
            final(self).wf(),
            final(self)@ == comb_step(old(self)@, x),
            out == old(self)@.contents[0],
            -EFFECT_BOUND <= out <= EFFECT_BOUND,
    {
        proof {
            old(self).lemma_wf_view();
            lemma_comb_step_bounds(old(self)@, x);
        }
        let ghost pre = *old(self);
        let n = self.buffer.len();
        let delayed = self.buffer[self.position];
        proof {
            assert(pre@.contents[0] == delayed);
            assert(-40_000_000_000_000 <= delayed * (1_000_000 - self.damping)
                <= 40_000_000_000_000) by (nonlinear_arith)
                requires -40_000_000 <= delayed <= 40_000_000 && 0 <= self.damping <= 1_000_000;
            assert(-40_000_000_000_000 <= self.filter_state * self.damping <= 40_000_000_000_000)
                by (nonlinear_arith)
                requires
                    -40_000_000 <= self.filter_state <= 40_000_000 && 0 <= self.damping
                        <= 1_000_000;
            assert(-40_000_000_000_000 <= delayed * (1_000_000 - self.damping)
                + self.filter_state * self.damping <= 40_000_000_000_000) by (nonlinear_arith)
                requires
                    -40_000_000 <= delayed <= 40_000_000
                        && -40_000_000 <= self.filter_state <= 40_000_000
                        && 0 <= self.damping <= 1_000_000;
        }
        let damped = div_micro(delayed * (1_000_000 - self.damping) + self.filter_state * self.damping);
        proof {
            lemma_div_micro_bound(
                delayed * (1_000_000 - self.damping) + self.filter_state * self.damping,
                40_000_000,
            );
            assert(-38_000_000_000_000 <= self.feedback * damped <= 38_000_000_000_000)
                by (nonlinear_arith)
                requires 0 <= self.feedback <= 950_000 && -40_000_000 <= damped <= 40_000_000;
        }
        let stored = x + div_micro(self.feedback * damped);
        self.filter_state = damped;
        self.buffer[self.position] = stored;
        self.position = if self.position + 1 == n {
            0
        } else {
            self.position + 1
        };
        proof {
            assert(final(self)@.contents =~= comb_step(pre@, x).contents);
        }
        delayed
    }
}

/// The state a reverb effect exposes to its contracts: two parallel comb
/// stages and a wet mix.
pub ghost struct ReverbView {
    /// First comb stage.
    pub comb1: CombView,
    /// Second comb stage.
    pub comb2: CombView,
    /// Wet mix in micro-units.
    pub mix: int,
}

/// A reverb view is well formed when both combs are and the mix is a
/// fraction.
pub open spec fn reverb_view_wf(v: ReverbView) -> bool {
    &&& comb_view_wf(v.comb1)
    &&& comb_view_wf(v.comb2)
    &&& 0 <= v.mix <= 1_000_000
}

/// Output of one reverb step: the dry sample blended at the wet mix with
/// the average of the two comb outputs.
pub open spec fn reverb_output(v: ReverbView, input: i64) -> int {
    div_micro_spec(
        clamp_input_spec(input) * (1_000_000 - v.mix) + (v.comb1.contents[0]
            + v.comb2.contents[0]) * (v.mix / 2),
    )
}

/// State after one reverb step: both combs advance on the clamped input.
pub open spec fn reverb_step(v: ReverbView, input: i64) -> ReverbView {
    ReverbView {
        comb1: comb_step(v.comb1, clamp_input_spec(input) as i64),
        comb2: comb_step(v.comb2, clamp_input_spec(input) as i64),
        mix: v.mix,
    }
}

/// A reverb effect: a parallel bank of damped comb filters blended with
/// the dry signal at a wet mix.  The room size scales the combs'
/// feedback, lengthening their decay.
pub struct ReverbEffect {
    /// First comb stage.
    pub comb1: CombFilter,
    /// Second comb stage.
    pub comb2: CombFilter,
    /// Wet mix in micro-units.
    pub mix: i64,
}

impl View for ReverbEffect {
    type V = ReverbView;

    open spec fn view(&self) -> ReverbView {
        ReverbView { comb1: self.comb1@, comb2: self.comb2@, mix: self.mix as int }
    }
}

/// Comb feedback gain a room-size fraction scales to, capped strictly
/// below unity.
pub open spec fn room_feedback_spec(room_size_micro: i64) -> int {
    clamp_fraction_spec(room_size_micro) * 950_000 / 1_000_000
}

impl ReverbEffect {
    /// Both combs are well formed and the mix is a fraction.
    pub open spec fn wf(self) -> bool {
        &&& self.comb1.wf()
        &&& self.comb2.wf()
        &&& 0 <= self.mix <= 1_000_000
    }

    /// Builds a silent reverb.  The room-size fraction scales the combs'
    /// feedback; damping and wet mix are clamped fractions.
    pub fn new(room_size_micro: i64, damping_micro: i64, mix_micro: i64, sample_rate: u32) -> (r: ReverbEffect)
        ensures
            r.wf(),
            r@.comb1.feedback == room_feedback_spec(room_size_micro),
            r@.comb2.feedback == room_feedback_spec(room_size_micro),
            r@.comb1.damping == clamp_fraction_spec(damping_micro),
            r@.comb2.damping == clamp_fraction_spec(damping_micro),
            r@.mix == clamp_fraction_spec(mix_micro),
            r@.comb1.contents.len() == delay_samples_spec(25, sample_rate),
            r@.comb2.contents.len() == delay_samples_spec(29, sample_rate),
            forall|i: int| 0 <= i < r@.comb1.contents.len() ==> #[trigger] r@.comb1.contents[i] == 0,
            forall|i: int| 0 <= i < r@.comb2.contents.len() ==> #[trigger] r@.comb2.contents[i] == 0,
            r@.comb1.filter_state == 0,
            r@.comb2.filter_state == 0,
    {
        let room = clamp_fraction(room_size_micro);
        proof {
            lemma_div_is_ordered(0, room * 950_000, 1_000_000);
            lemma_div_is_ordered(room * 950_000, 950_000_000_000, 1_000_000);
        }
        let fb: i64 = room * 950_000 / 1_000_000;
        ReverbEffect {
            comb1: CombFilter::new(25, fb, damping_micro, sample_rate),
            comb2: CombFilter::new(29, fb, damping_micro, sample_rate),
            mix: clamp_fraction(mix_micro),
        }
    }

    /// Processes one sample: clamps it, runs both combs in parallel, and
    /// blends the averaged wet signal with the dry sample.
    pub fn process_sample(&mut self, input: i64) -> (out: i64)
        requires
            old(self).wf(),
        ensures
            final(self).wf(),
            final(self)@ == reverb_step(old(self)@, input),
            out == reverb_output(old(self)@, input),
            -42_000_000 <= out <= 42_000_000,
    {
        proof {
            old(self).comb1.lemma_wf_view();
            old(self).comb2.lemma_wf_view();
        }
        let x = clamp_input(input);
        let w1 = self.comb1.process_sample(x);
        let w2 = self.comb2.process_sample(x);
        proof {
            assert(-2_000_000_000_000 <= x * (1_000_000 - self.mix) <= 2_000_000_000_000)
                by (nonlinear_arith)
                requires -2_000_000 <= x <= 2_000_000 && 0 <= self.mix <= 1_000_000;
            assert(-40_000_000_000_000 <= (w1 + w2) * (self.mix / 2) <= 40_000_000_000_000)
                by (nonlinear_arith)
                requires
                    -80_000_000 <= w1 + w2 <= 80_000_000
                        && 0 <= self.mix / 2 <= 500_000;
            lemma_div_micro_bound(
                x * (1_000_000 - self.mix) + (w1 + w2) * (self.mix / 2),
                42_000_000,
            );
        }
        let out = div_micro(x * (1_000_000 - self.mix) + (w1 + w2) * (self.mix / 2));
        out
    }
}

/// The state a flanger effect exposes to its contracts.
pub ghost struct FlangerView {
    /// Delay-line entries, oldest first; only clamped inputs are stored.
    pub contents: Seq<i64>,
    /// Wet mix in micro-units.
    pub mix: int,
    /// Phase of the low-frequency oscillator, in nano-cycles.
    pub lfo_phase: u64,
    /// Phase advance of the low-frequency oscillator per sample.
    pub lfo_step: u64,
    /// Centre of the modulated read offset, in samples.
    pub base_samples: int,
    /// Amplitude of the modulation around the centre, in samples.
    pub depth_samples: int,
}

/// A flanger view is well formed when the line is twice the base offset,
/// the modulation depth stays strictly inside the base offset, entries
/// are clamped inputs, and the oscillator is in range.
pub open spec fn flanger_view_wf(v: FlangerView) -> bool {
    &&& 1 <= v.base_samples <= 384_000
    &&& 0 <= v.depth_samples <= v.base_samples - 1
    &&& v.contents.len() == 2 * v.base_samples
    &&& 0 <= v.mix <= 1_000_000
    &&& v.lfo_phase < crate::waveforms::PHASE_ONE
    &&& v.lfo_step < crate::waveforms::PHASE_ONE
    &&& forall|i: int| 0 <= i < v.contents.len() ==> -2_000_000 <= #[trigger] v.contents[i] <= 2_000_000
}

/// Read offset of one flanger step: the base offset swept by a triangle
/// low-frequency oscillator scaled to the modulation depth.
pub open spec fn flanger_offset(v: FlangerView) -> int {
    v.base_samples + div_micro_spec(
        crate::waveforms::wave_value(crate::waveforms::Waveform::TRIANGLE, v.lfo_phase)
            * v.depth_samples,
    )
}

/// The swept offset always stays within the delay line, at least one
/// sample and less than the line length.
pub proof fn lemma_flanger_offset_bounds(v: FlangerView)
    requires
        flanger_view_wf(v),
    ensures
        1 <= flanger_offset(v) < v.contents.len(),
{
    let tri = crate::waveforms::wave_value(crate::waveforms::Waveform::TRIANGLE, v.lfo_phase);
    crate::waveforms::lemma_wave_value_bounded(
        crate::waveforms::Waveform::TRIANGLE,
        v.lfo_phase,
    );
    assert(-1_000_000 * v.depth_samples <= tri * v.depth_samples <= 1_000_000 * v.depth_samples)
        by (nonlinear_arith)
        requires -1_000_000 <= tri <= 1_000_000 && 0 <= v.depth_samples;
    assert(v.depth_samples * 1_000_000 == 1_000_000 * v.depth_samples);
    lemma_div_micro_bound(tri * v.depth_samples, v.depth_samples);
}

/// Delayed sample one flanger step reads: the entry `offset` samples
/// before the newest.
pub open spec fn flanger_read(v: FlangerView) -> i64 {
    v.contents[v.contents.len() - flanger_offset(v)]
}

/// Output of one flanger step: the dry sample summed with the swept
/// delayed sample at the wet mix.
pub open spec fn flanger_output(v: FlangerView, input: i64) -> int {
    div_micro_spec(
        clamp_input_spec(input) * (1_000_000 - v.mix) + flanger_read(v) * v.mix,
    )
}

/// State after one flanger step: the clamped input becomes the newest
/// entry and the oscillator advances one sample.
pub open spec fn flanger_step(v: FlangerView, input: i64) -> FlangerView {
    FlangerView {
        contents: v.contents.drop_first().push(clamp_input_spec(input) as i64),
        mix: v.mix,
        lfo_phase: ((v.lfo_phase + v.lfo_step) % 1_000_000_000) as u64,
        lfo_step: v.lfo_step,
        base_samples: v.base_samples,
        depth_samples: v.depth_samples,
    }
}

/// A flanger effect: a delay line whose read offset is swept by a
/// low-frequency oscillator, summed with the dry signal at a wet mix.
pub struct FlangerEffect {
    /// The delay line.
    pub buffer: Vec<i64>,
    /// Write position within the line.
    pub position: usize,
    /// The low-frequency oscillator sweeping the read offset.
    pub lfo: crate::waveforms::Oscillator,
    /// Centre of the modulated read offset, in samples.
    pub base_samples: usize,
    /// Amplitude of the modulation around the centre, in samples.
    pub depth_samples: usize,
    /// Wet mix in micro-units.
    pub mix: i64,
}

impl View for FlangerEffect {
    type V = FlangerView;

    open spec fn view(&self) -> FlangerView {
        FlangerView {
            contents: circular(self.buffer@, self.position as int),
            mix: self.mix as int,
            lfo_phase: self.lfo.phase,
            lfo_step: self.lfo.step,
            base_samples: self.base_samples as int,
            depth_samples: self.depth_samples as int,
        }
    }
}

impl FlangerEffect {
    /// The buffer is twice the base offset, the position is inside it,
    /// the modulation depth stays strictly inside the base offset, the
    /// entries are clamped inputs and the oscillator sweeps a triangle.
    pub open spec fn wf(self) -> bool {
        &&& 1 <= self.base_samples <= 384_000
        &&& self.depth_samples <= self.base_samples - 1
        &&& self.buffer@.len() == 2 * self.base_samples
        &&& self.position < self.buffer@.len()
        &&& 0 <= self.mix <= 1_000_000
        &&& self.lfo.wf()
        &&& self.lfo.waveform == crate::waveforms::Waveform::TRIANGLE
        &&& forall|i: int| 0 <= i < self.buffer@.len() ==> -2_000_000 <= #[trigger] self.buffer@[i] <= 2_000_000
    }

    /// A well-formed flanger has a well-formed view.
    pub proof fn lemma_wf_view(self)
        requires
            self.wf(),
        ensures
            flanger_view_wf(self@),
    {
        assert forall|i: int| 0 <= i < self@.contents.len() implies
            -2_000_000 <= #[trigger] self@.contents[i] <= 2_000_000 by {
            let p = self.position as int;
            let n = self.buffer@.len() as int;
            if i < n - p {
                assert(self@.contents[i] == self.buffer@[p + i]);
            } else {
                assert(self@.contents[i] == self.buffer@[i - (n - p)]);
            }
        }
    }

    /// Builds a silent flanger: sweep rate in milli-hertz, depth as a
    /// fraction of the base delay, base delay in milliseconds, wet mix as
    /// a fraction.
    pub fn new(
        rate_millihz: u64,
        depth_micro: i64,
        base_delay_ms: u32,
        mix_micro: i64,
        sample_rate: u32,
    ) -> (r: FlangerEffect)
        ensures
            r.wf(),
            r@.base_samples == delay_samples_spec(base_delay_ms, sample_rate),
            r@.depth_samples == (delay_samples_spec(base_delay_ms, sample_rate) - 1)
                * clamp_fraction_spec(depth_micro) / 1_000_000,
            r@.mix == clamp_fraction_spec(mix_micro),
            r@.lfo_phase == 0,
            forall|i: int| 0 <= i < r@.contents.len() ==> #[trigger] r@.contents[i] == 0,
    {
        let base = delay_samples(base_delay_ms, sample_rate);
        let depth_fraction = clamp_fraction(depth_micro);
        proof {
            assert((base - 1) * depth_fraction <= (base - 1) * 1_000_000) by (nonlinear_arith)
                requires 0 <= base - 1 && 0 <= depth_fraction <= 1_000_000;
            lemma_div_is_ordered(0, (base - 1) as i64 * depth_fraction, 1_000_000);
            lemma_div_is_ordered(
                (base - 1) as i64 * depth_fraction,
                (base - 1) * 1_000_000,
                1_000_000,
            );
            lemma_div_by_multiple((base - 1) as int, 1_000_000);
        }
        let depth: usize = ((base - 1) as i64 * depth_fraction / 1_000_000) as usize;
        let rate: u64 = if rate_millihz < 1 {
            1
        } else if rate_millihz > 20_000 {
            20_000
        } else {
            rate_millihz
        };
        let rate_clamped: u32 = if sample_rate < 1000 {
            1000
        } else if sample_rate > 192_000 {
            192_000
        } else {
            sample_rate
        };
        let lfo = crate::waveforms::Oscillator::new(
            crate::waveforms::Waveform::TRIANGLE,
            rate,
            rate_clamped,
        );
        let buffer = zeroed_line(2 * base);
        let r = FlangerEffect {
            buffer,
            position: 0,
            lfo,
            base_samples: base,
            depth_samples: depth,
            mix: clamp_fraction(mix_micro),
        };
        proof {
            assert(r@.contents =~= r.buffer@);
        }
        r
    }

    /// Processes one sample: reads the entry at the swept offset, emits
    /// the dry/wet blend, stores the clamped input and advances the
    /// oscillator.
    pub fn process_sample(&mut self, input: i64) -> (out: i64)
        requires
            old(self).wf(),
        ensures
            final(self).wf(),
            final(self)@ == flanger_step(old(self)@, input),
            out == flanger_output(old(self)@, input),
            -2_000_000 <= out <= 2_000_000,
    {
        proof {
            old(self).lemma_wf_view();
            lemma_flanger_offset_bounds(old(self)@);
        }
        let ghost pre = *old(self);
        let tri = self.lfo.next_sample();
        proof {
            assert(-1_000_000 * (self.depth_samples as int) <= tri * (self.depth_samples as int)
                <= 1_000_000 * (self.depth_samples as int)) by (nonlinear_arith)
                requires -1_000_000 <= tri <= 1_000_000 && 0 <= self.depth_samples;
            lemma_div_micro_bound(
                tri * (self.depth_samples as int),
                self.depth_samples as int,
            );
        }
        let swing = div_micro(tri * self.depth_samples as i64);
        let offset: usize = (self.base_samples as i64 + swing) as usize;
        let n = self.buffer.len();
        let idx: usize = if self.position >= offset {
            self.position - offset
        } else {
            self.position + (n - offset)
        };
        let delayed = self.buffer[idx];
        proof {
            let p = pre.position as int;
            let len = pre.buffer@.len() as int;
            let k = len - flanger_offset(pre@);
            if k < len - p {
                assert(pre@.contents[k] == pre.buffer@[p + k]);
            } else {
                assert(pre@.contents[k] == pre.buffer@[k - (len - p)]);
            }
            assert(delayed == flanger_read(pre@));
        }
        let x = clamp_input(input);
        proof {
            assert(-2_000_000_000_000 <= x * (1_000_000 - self.mix) <= 2_000_000_000_000)
                by (nonlinear_arith)
                requires -2_000_000 <= x <= 2_000_000 && 0 <= self.mix <= 1_000_000;
            assert(-2_000_000_000_000 <= delayed * self.mix <= 2_000_000_000_000)
                by (nonlinear_arith)
                requires -2_000_000 <= delayed <= 2_000_000 && 0 <= self.mix <= 1_000_000;
            assert(-2_000_000_000_000 <= x * (1_000_000 - self.mix) + delayed * self.mix
                <= 2_000_000_000_000) by (nonlinear_arith)
                requires
                    -2_000_000 <= x <= 2_000_000
                        && -2_000_000 <= delayed <= 2_000_000
                        && 0 <= self.mix <= 1_000_000;
            lemma_div_micro_bound(x * (1_000_000 - self.mix) + delayed * self.mix, 2_000_000);
        }
        let out = div_micro(x * (1_000_000 - self.mix) + delayed * self.mix);
        self.buffer[self.position] = x;
        self.position = if self.position + 1 == n {
            0
        } else {
            self.position + 1
        };
        proof {
            assert(final(self)@.contents =~= flanger_step(pre@, input).contents);
        }
        out
    }
}

/// One sample through the chain after the delay stage.
pub open spec fn chain_stage1(c: EffectsChain, input: i64) -> int {
    if c.delay_enabled {
        delay_output(c.delay@, input)
    } else {
        input as int
    }
}

/// One sample through the chain after the delay and reverb stages.
pub open spec fn chain_stage2(c: EffectsChain, input: i64) -> int {
    if c.reverb_enabled {
        reverb_output(c.reverb@, chain_stage1(c, input) as i64)
    } else {
        chain_stage1(c, input)
    }
}

/// One sample through the whole chain: delay, then reverb, then flanger,
/// each applied only when enabled.
pub open spec fn chain_output(c: EffectsChain, input: i64) -> int {
    if c.flanger_enabled {
        flanger_output(c.flanger@, chain_stage2(c, input) as i64)
    } else {
        chain_stage2(c, input)
    }
}

/// A chain exactly as `EffectsChain::new` builds it: every delay line
/// silent and every parameter at the standard settings for the sample
/// rate.
pub open spec fn chain_fresh(c: EffectsChain, sample_rate: u32) -> bool {
    &&& c.delay@.contents.len() == delay_samples_spec(300, sample_rate)
    &&& (forall|i: int| 0 <= i < c.delay@.contents.len() ==> #[trigger] c.delay@.contents[i] == 0)
    &&& c.delay@.feedback == 550_000
    &&& c.delay@.mix == 500_000
    &&& c.reverb@.comb1.feedback == room_feedback_spec(700_000)
    &&& c.reverb@.comb2.feedback == room_feedback_spec(700_000)
    &&& c.reverb@.comb1.damping == 400_000
    &&& c.reverb@.comb2.damping == 400_000
    &&& c.reverb@.mix == 600_000
    &&& c.reverb@.comb1.contents.len() == delay_samples_spec(25, sample_rate)
    &&& c.reverb@.comb2.contents.len() == delay_samples_spec(29, sample_rate)
    &&& (forall|i: int| 0 <= i < c.reverb@.comb1.contents.len() ==> #[trigger] c.reverb@.comb1.contents[i] == 0)
    &&& (forall|i: int| 0 <= i < c.reverb@.comb2.contents.len() ==> #[trigger] c.reverb@.comb2.contents[i] == 0)
    &&& c.reverb@.comb1.filter_state == 0
    &&& c.reverb@.comb2.filter_state == 0
    &&& c.flanger@.base_samples == delay_samples_spec(100, sample_rate)
    &&& c.flanger@.mix == 500_000
    &&& c.flanger@.lfo_phase == 0
    &&& (forall|i: int| 0 <= i < c.flanger@.contents.len() ==> #[trigger] c.flanger@.contents[i] == 0)
}

/// Relation between a chain's state before and after it processed one
/// sample: the flags are untouched, every enabled stage advanced on its
/// stage input, and every disabled stage kept its state.
pub open spec fn chain_stepped(pre: EffectsChain, post: EffectsChain, input: i64) -> bool {
    &&& post.delay_enabled == pre.delay_enabled
    &&& post.reverb_enabled == pre.reverb_enabled
    &&& post.flanger_enabled == pre.flanger_enabled
    &&& post.delay@ == if pre.delay_enabled {
        delay_step(pre.delay@, input)
    } else {
        pre.delay@
    }
    &&& post.reverb@ == if pre.reverb_enabled {
        reverb_step(pre.reverb@, chain_stage1(pre, input) as i64)
    } else {
        pre.reverb@
    }
    &&& post.flanger@ == if pre.flanger_enabled {
        flanger_step(pre.flanger@, chain_stage2(pre, input) as i64)
    } else {
        pre.flanger@
    }
}

/// The serial effects chain: delay, reverb and flanger in fixed order,
/// each with its own enabled flag snapshotted at voice-assembly time.
/// A disabled effect is a pure pass-through and its state does not move.
pub struct EffectsChain {
    /// The delay stage.
    pub delay: DelayEffect,
    /// The reverb stage.
    pub reverb: ReverbEffect,
    /// The flanger stage.
    pub flanger: FlangerEffect,
    /// Whether the delay stage runs.
    pub delay_enabled: bool,
    /// Whether the reverb stage runs.
    pub reverb_enabled: bool,
    /// Whether the flanger stage runs.
    pub flanger_enabled: bool,
}

impl EffectsChain {
    /// All three stages are well formed.
    pub open spec fn wf(self) -> bool {
        self.delay.wf() && self.reverb.wf() && self.flanger.wf()
    }

    /// Builds a chain with silent effect state and the given enabled
    /// flags, at the standard effect parameters.
    pub fn new(delay_enabled: bool, reverb_enabled: bool, flanger_enabled: bool, sample_rate: u32) -> (r: EffectsChain)
        ensures
            r.wf(),
            r.delay_enabled == delay_enabled,
            r.reverb_enabled == reverb_enabled,
            r.flanger_enabled == flanger_enabled,
            chain_fresh(r, sample_rate),
    {
        EffectsChain {
            delay: DelayEffect::new(300, 550_000, 500_000, sample_rate),
            reverb: ReverbEffect::new(700_000, 400_000, 600_000, sample_rate),
            flanger: FlangerEffect::new(500, 700_000, 100, 500_000, sample_rate),
            delay_enabled,
            reverb_enabled,
            flanger_enabled,
        }
    }

    /// Processes one sample through the enabled stages in series:
    /// delay, then reverb, then flanger.  Disabled stages pass the sample
    /// through unchanged and keep their state.
    pub fn process_sample(&mut self, input: i64) -> (out: i64)
        requires
            old(self).wf(),
        ensures
            final(self).wf(),
            out == chain_output(*old(self), input),
            chain_stepped(*old(self), *final(self), input),
            old(self).delay_enabled || old(self).reverb_enabled || old(self).flanger_enabled
                ==> -42_000_000 <= out <= 42_000_000,
    {
        let mut s = input;
        if self.delay_enabled {
            s = self.delay.process_sample(s);
        }
        if self.reverb_enabled {
            s = self.reverb.process_sample(s);
        }
        if self.flanger_enabled {
            s = self.flanger.process_sample(s);
        }
        s
    }
}

} // verus!
