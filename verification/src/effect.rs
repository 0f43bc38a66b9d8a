//! Effects of the mixing engine: gain-staged, optionally filtered inputs
//! mixed into a scratch buffer with a click-free distance-gain ramp.

use vstd::prelude::*;

use crate::filter::InputFilter;
use crate::fixed::{
    apply_gain, clamp_sample_spec, lemma_ramp_bounds, lemma_scale_sample_bounds, lerp_gain,
    ramp_gain, scale_sample, FP_ONE, MAX_FRAME, MAX_INPUTS, SAMPLE_LIMIT,
};
use crate::pool::{Handle, Pool};
use crate::source::{
    lemma_attenuation_bounds, DistanceModel, Listener, SoundSource, Status,
};

verus! {

/// A weak reference from an effect to a sound source, together with an
/// optional per-channel filter and the distance gain the source had on the
/// previous frame (the seed of the click-free ramp).
#[derive(Clone, Copy, Debug)]
pub struct EffectInput {
    /// Handle of the source the effect takes samples from each frame.
    pub source: Handle,
    /// Optional filter the samples run through before gain staging.
    pub filter: Option<InputFilter>,
    /// Distance gain of the previous frame; the ramp of the current frame
    /// starts here. Empty until the input has been rendered once.
    pub last_distance_gain: Option<i64>,
}

impl EffectInput {
    /// The filter, if any, is well-formed, and the cached gain, if any, is a
    /// fixed-point gain of at most one.
    pub open spec fn wf(self) -> bool {
        &&& match self.filter {
            Some(f) => f.wf(),
            None => true,
        }
        &&& match self.last_distance_gain {
            Some(g) => 0 <= g <= FP_ONE,
            None => true,
        }
    }

    /// An input that feeds the source's samples to the effect unchanged.
    pub fn direct(source: Handle) -> (inp: EffectInput)
        ensures
            inp == (EffectInput { source, filter: None, last_distance_gain: None }),
            inp.wf(),
    {
        EffectInput { source, filter: None, last_distance_gain: None }
    }

    /// An input whose samples run through the given filter first.
    pub fn filtered(source: Handle, filter: InputFilter) -> (inp: EffectInput)
        ensures
            inp == (EffectInput { source, filter: Some(filter), last_distance_gain: None }),
            filter.wf() ==> inp.wf(),
    {
        EffectInput { source, filter: Some(filter), last_distance_gain: None }
    }

    /// The handle of the source this input takes samples from.
    pub fn source(&self) -> (h: Handle)
        ensures
            h == self.source,
    {
        self.source
    }

    /// The input filter, if one is attached.
    pub fn filter_ref(&self) -> (f: Option<&InputFilter>)
        ensures
            match f {
                Some(fr) => self.filter == Some(*fr),
                None => self.filter is None,
            },
    {
        self.filter.as_ref()
    }

    /// Mutable access to the input filter, if one is attached.
    pub fn filter_mut(&mut self) -> (f: Option<&mut InputFilter>)
        ensures
            match *old(self) {
                EffectInput { filter: None, .. } => *final(self) == *old(self) && f is None,
                EffectInput { filter: Some(f0), .. } => f matches Some(fm) && *fm == f0
                    && *final(self) == (EffectInput {
                    filter: Some(*final(fm)),
                    ..*old(self)
                }),
            },
    {
        self.filter.as_mut()
    }
}

/// The running filter state after the first `k` stereo samples of a frame
/// have been fed through a filter that started the frame in state `f0`.
pub open spec fn filter_state_at(f0: InputFilter, samples: Seq<(i64, i64)>, k: int) -> InputFilter
    decreases k,
{
    if k <= 0 {
        f0
    } else {
        filter_state_at(f0, samples, k - 1).stepped(samples[k - 1].0, samples[k - 1].1)
    }
}

/// An optional filter advanced over the first `k` samples of a frame.
pub open spec fn stepped_filter(
    f: Option<InputFilter>,
    samples: Seq<(i64, i64)>,
    k: int,
) -> Option<InputFilter> {
    match f {
        None => None,
        Some(f0) => Some(filter_state_at(f0, samples, k)),
    }
}

/// The stereo contribution one input makes to sample `i` of a frame of
/// `amount` samples: the source's raw sample, filtered if a filter is
/// attached, scaled by the gain ramp from the previous frame's distance gain
/// to the current one. A source that is not playing, and any sample index the
/// source produced no sample for, contributes silence.
pub open spec fn input_sample(
    inp: EffectInput,
    src: SoundSource,
    listener: Listener,
    model: DistanceModel,
    amount: int,
    i: int,
) -> (int, int) {
    if src.status != Status::Playing || i >= src.frame_samples@.len() || i >= amount || i < 0 {
        (0, 0)
    } else {
        let dg = src.distance_gain(listener, model);
        let prev = match inp.last_distance_gain {
            Some(p) => p as int,
            None => dg,
        };
        let g = ramp_gain(prev, dg, i, amount);
        let raw = src.frame_samples@[i];
        let fed = match inp.filter {
            None => (raw.0 as int, raw.1 as int),
            Some(f0) => filter_state_at(f0, src.frame_samples@, i).response(
                raw.0 as int,
                raw.1 as int,
            ),
        };
        (scale_sample(fed.0, g), scale_sample(fed.1, g))
    }
}

/// How rendering one frame changes an input: a playing source stores its
/// current distance gain as the seed of the next frame's ramp and advances
/// the filter state over the samples it fed through; any other source leaves
/// the input untouched.
pub open spec fn advance_input(
    inp: EffectInput,
    src: SoundSource,
    listener: Listener,
    model: DistanceModel,
    amount: int,
) -> EffectInput {
    if src.status != Status::Playing {
        inp
    } else {
        let m = if amount <= src.frame_samples@.len() {
            amount
        } else {
            src.frame_samples@.len() as int
        };
        EffectInput {
            last_distance_gain: Some(src.distance_gain(listener, model) as i64),
            filter: stepped_filter(inp.filter, src.frame_samples@, m),
            ..inp
        }
    }
}

/// The inputs that survive pruning: those whose source handle still resolves.
pub open spec fn pruned_inputs(
    inputs: Seq<EffectInput>,
    sources: Pool<SoundSource>,
) -> Seq<EffectInput> {
    inputs.filter(|inp: EffectInput| sources.valid(inp.source))
}

/// Every input of a sequence advanced over one frame.
pub open spec fn advanced_inputs(
    inputs: Seq<EffectInput>,
    sources: Pool<SoundSource>,
    listener: Listener,
    model: DistanceModel,
    amount: int,
) -> Seq<EffectInput> {
    inputs.map_values(
        |inp: EffectInput| advance_input(inp, sources.at(inp.source), listener, model, amount),
    )
}

/// The mixed stereo value the first `k` inputs of a sequence contribute to
/// sample `i`: the sum of their individual contributions.
pub open spec fn mix_prefix(
    inputs: Seq<EffectInput>,
    sources: Pool<SoundSource>,
    listener: Listener,
    model: DistanceModel,
    amount: int,
    k: int,
    i: int,
) -> (int, int)
    decreases k,
{
    if k <= 0 {
        (0, 0)
    } else {
        let rest = mix_prefix(inputs, sources, listener, model, amount, k - 1, i);
        let one = input_sample(
            inputs[k - 1],
            sources.at(inputs[k - 1].source),
            listener,
            model,
            amount,
            i,
        );
        (rest.0 + one.0, rest.1 + one.1)
    }
}

/// The mixed stereo value all inputs of a sequence contribute to sample `i`.
pub open spec fn mix_all(
    inputs: Seq<EffectInput>,
    sources: Pool<SoundSource>,
    listener: Listener,
    model: DistanceModel,
    amount: int,
    i: int,
) -> (int, int) {
    mix_prefix(inputs, sources, listener, model, amount, inputs.len() as int, i)
}

/// A stereo sample as a pair of mathematical integers.
pub open spec fn sample_at(s: Seq<(i64, i64)>, i: int) -> (int, int) {
    (s[i].0 as int, s[i].1 as int)
}

/// One input's contribution to any sample stays within the sample range.
pub proof fn lemma_input_sample_bounds(
    inp: EffectInput,
    src: SoundSource,
    listener: Listener,
    model: DistanceModel,
    amount: int,
    i: int,
)
    requires
        inp.wf(),
        src.wf(),
    ensures
        -SAMPLE_LIMIT <= input_sample(inp, src, listener, model, amount, i).0 <= SAMPLE_LIMIT,
        -SAMPLE_LIMIT <= input_sample(inp, src, listener, model, amount, i).1 <= SAMPLE_LIMIT,
{
    if !(src.status != Status::Playing || i >= src.frame_samples@.len() || i >= amount || i < 0) {
        let dg = src.distance_gain(listener, model);
        lemma_attenuation_bounds(
            model,
            crate::fixed::floor_sqrt(crate::source::sq_dist(src.position, listener.position)),
            src.radius as int,
            src.rolloff_factor as int,
            src.max_distance as int,
        );
        let prev = match inp.last_distance_gain {
            Some(p) => p as int,
            None => dg,
        };
        let g = ramp_gain(prev, dg, i, amount);
        lemma_ramp_bounds(prev, dg, i, amount);
        assert(0 <= g <= FP_ONE);
        let raw = src.frame_samples@[i];
        let fed = match inp.filter {
            None => (raw.0 as int, raw.1 as int),
            Some(f0) => filter_state_at(f0, src.frame_samples@, i).response(
                raw.0 as int,
                raw.1 as int,
            ),
        };
        assert(-SAMPLE_LIMIT <= fed.0 <= SAMPLE_LIMIT && -SAMPLE_LIMIT <= fed.1 <= SAMPLE_LIMIT);
        lemma_scale_sample_bounds(fed.0, g);
        lemma_scale_sample_bounds(fed.1, g);
    }
}

/// Pruning keeps a list whose sources all resolve exactly as it is.
pub proof fn lemma_prune_keeps_all(inputs: Seq<EffectInput>, sources: Pool<SoundSource>)
    requires
        forall|k: int| 0 <= k < inputs.len() ==> sources.valid((#[trigger] inputs[k]).source),
    ensures
        pruned_inputs(inputs, sources) == inputs,
    decreases inputs.len(),
{
    reveal(Seq::filter);
    if inputs.len() > 0 {
        assert(forall|k: int|
            0 <= k < inputs.drop_last().len() ==> sources.valid(
                (#[trigger] inputs.drop_last()[k]).source,
            ));
        lemma_prune_keeps_all(inputs.drop_last(), sources);
        assert(pruned_inputs(inputs, sources) =~= inputs);
    }
}

/// Dangling-input pruning: when exactly one input's source has been freed,
/// one render pass drops exactly that input, and the input list shrinks by
/// exactly one.
pub proof fn lemma_dangling_input_pruned(
    inputs: Seq<EffectInput>,
    sources: Pool<SoundSource>,
    t: int,
)
    requires
        0 <= t < inputs.len(),
        !sources.valid(inputs[t].source),
        forall|k: int|
            0 <= k < inputs.len() && k != t ==> sources.valid((#[trigger] inputs[k]).source),
    ensures
        pruned_inputs(inputs, sources).len() == inputs.len() - 1,
    decreases inputs.len(),
{
    reveal(Seq::filter);
    if t == inputs.len() - 1 {
        assert(forall|k: int|
            0 <= k < inputs.drop_last().len() ==> sources.valid(
                (#[trigger] inputs.drop_last()[k]).source,
            ));
        lemma_prune_keeps_all(inputs.drop_last(), sources);
    } else {
        assert(inputs.drop_last()[t] == inputs[t]);
        assert(forall|k: int|
            0 <= k < inputs.drop_last().len() && k != t ==> sources.valid(
                (#[trigger] inputs.drop_last()[k]).source,
            ));
        lemma_dangling_input_pruned(inputs.drop_last(), sources, t);
    }
}

/// What one frame of rendering makes of a base effect: dangling inputs are
/// pruned, the surviving inputs advance their ramp seed and filter state, and
/// the scratch buffer holds their mixed, gain-staged, filtered contributions.
/// The effect-level gain is a control value for the mix-down stage and is
/// deliberately not applied here.
pub open spec fn base_rendered(
    b0: BaseEffect,
    b1: BaseEffect,
    sources: Pool<SoundSource>,
    listener: Listener,
    model: DistanceModel,
    amount: int,
) -> bool {
    let live = pruned_inputs(b0.inputs@, sources);
    &&& b1.gain == b0.gain
    &&& b1.inputs@ == advanced_inputs(live, sources, listener, model, amount)
    &&& b1.frame_samples@.len() == amount
    &&& forall|i: int|
        0 <= i < amount ==> sample_at(b1.frame_samples@, i) == mix_all(
            live,
            sources,
            listener,
            model,
            amount,
            i,
        )
}

/// Filtering an input list keeps only well-formed inputs that satisfy the
/// predicate, and never grows the list.
pub proof fn lemma_filter_inputs_wf(inputs: Seq<EffectInput>, pred: spec_fn(EffectInput) -> bool)
    requires
        forall|t: int| 0 <= t < inputs.len() ==> (#[trigger] inputs[t]).wf(),
    ensures
        inputs.filter(pred).len() <= inputs.len(),
        forall|t: int|
            0 <= t < inputs.filter(pred).len() ==> (#[trigger] inputs.filter(pred)[t]).wf() && pred(
                inputs.filter(pred)[t],
            ),
    decreases inputs.len(),
{
    reveal(Seq::filter);
    if inputs.len() > 0 {
        assert(forall|t: int|
            0 <= t < inputs.drop_last().len() ==> (#[trigger] inputs.drop_last()[t]).wf());
        lemma_filter_inputs_wf(inputs.drop_last(), pred);
    }
}

/// Pruning keeps only well-formed inputs whose source handle resolves, and
/// never grows the list.
pub proof fn lemma_pruned_inputs_wf(inputs: Seq<EffectInput>, sources: Pool<SoundSource>)
    requires
        forall|t: int| 0 <= t < inputs.len() ==> (#[trigger] inputs[t]).wf(),
    ensures
        pruned_inputs(inputs, sources).len() <= inputs.len(),
        forall|t: int|
            0 <= t < pruned_inputs(inputs, sources).len() ==> (#[trigger] pruned_inputs(
                inputs,
                sources,
            )[t]).wf() && sources.valid(pruned_inputs(inputs, sources)[t].source),
    decreases inputs.len(),
{
    reveal(Seq::filter);
    if inputs.len() > 0 {
        assert(forall|t: int|
            0 <= t < inputs.drop_last().len() ==> (#[trigger] inputs.drop_last()[t]).wf());
        lemma_pruned_inputs_wf(inputs.drop_last(), sources);
    }
}

/// Click-free ramp at connection time: an input rendered for the first time
/// seeds its ramp with the current distance gain, so the gain is steady over
/// the whole frame - connecting a source causes no discontinuity.
pub proof fn lemma_new_input_gain_steady(
    inp: EffectInput,
    src: SoundSource,
    listener: Listener,
    model: DistanceModel,
    amount: int,
    i: int,
)
    requires
        inp.last_distance_gain is None,
        src.status == Status::Playing,
        0 <= i < amount,
        i < src.frame_samples@.len(),
    ensures
        ({
            let dg = src.distance_gain(listener, model);
            let raw = src.frame_samples@[i];
            let fed = match inp.filter {
                None => (raw.0 as int, raw.1 as int),
                Some(f0) => filter_state_at(f0, src.frame_samples@, i).response(
                    raw.0 as int,
                    raw.1 as int,
                ),
            };
            input_sample(inp, src, listener, model, amount, i) == (
                scale_sample(fed.0, dg),
                scale_sample(fed.1, dg),
            )
        }),
{
    let dg = src.distance_gain(listener, model);
    lemma_attenuation_bounds(
        model,
        crate::fixed::floor_sqrt(crate::source::sq_dist(src.position, listener.position)),
        src.radius as int,
        src.rolloff_factor as int,
        src.max_distance as int,
    );
    crate::fixed::lemma_ramp_steady(dg, i, amount);
}

/// The mix of `k` inputs stays within `k` times the sample range.
pub proof fn lemma_mix_prefix_bounds(
    inputs: Seq<EffectInput>,
    sources: Pool<SoundSource>,
    listener: Listener,
    model: DistanceModel,
    amount: int,
    k: int,
    i: int,
)
    requires
        0 <= k <= inputs.len(),
        forall|t: int| 0 <= t < k ==> (#[trigger] inputs[t]).wf(),
        forall|t: int| 0 <= t < k ==> sources.at((#[trigger] inputs[t]).source).wf(),
    ensures
        -k * SAMPLE_LIMIT <= mix_prefix(inputs, sources, listener, model, amount, k, i).0 <= k
            * SAMPLE_LIMIT,
        -k * SAMPLE_LIMIT <= mix_prefix(inputs, sources, listener, model, amount, k, i).1 <= k
            * SAMPLE_LIMIT,
    decreases k,
{
    if k > 0 {
        lemma_mix_prefix_bounds(inputs, sources, listener, model, amount, k - 1, i);
        lemma_input_sample_bounds(
            inputs[k - 1],
            sources.at(inputs[k - 1].source),
            listener,
            model,
            amount,
            i,
        );
    }
}

/// Mixes one playing input into the scratch buffer: every scratch sample
/// gains the input's contribution, and the input advances its ramp seed and
/// filter state.
fn mix_input(
    scratch: &mut Vec<(i64, i64)>,
    input: &mut EffectInput,
    src: &SoundSource,
    listener: &Listener,
    model: DistanceModel,
    amount: usize,
)
    requires
        old(input).wf(),
        src.wf(),
        src.status == Status::Playing,
        listener.position.wf(),
        amount <= MAX_FRAME,
        old(scratch)@.len() == amount,
        forall|j: int|
            0 <= j < amount ==> -(MAX_INPUTS - 1) * SAMPLE_LIMIT <= (#[trigger] old(
                scratch,
            )@[j]).0 <= (MAX_INPUTS - 1) * SAMPLE_LIMIT && -(MAX_INPUTS - 1) * SAMPLE_LIMIT <= old(
                scratch,
            )@[j].1 <= (MAX_INPUTS - 1) * SAMPLE_LIMIT,
    ensures
        final(scratch)@.len() == amount,
        forall|j: int|
            0 <= j < amount ==> #[trigger] sample_at(final(scratch)@, j) == {
                let one = input_sample(*old(input), *src, *listener, model, amount as int, j);
                (sample_at(old(scratch)@, j).0 + one.0, sample_at(old(scratch)@, j).1 + one.1)
            },
        *final(input) == advance_input(*old(input), *src, *listener, model, amount as int),
        final(input).wf(),
        final(input).source == old(input).source,
{
    let dg = src.calculate_distance_gain(listener, model);
    let prev = match input.last_distance_gain {
        Some(p) => p,
        None => dg,
    };
    input.last_distance_gain = Some(dg);
    let m = if amount <= src.frame_samples.len() {
        amount
    } else {
        src.frame_samples.len()
    };
    let ghost inp0 = *old(input);
    let ghost samples = src.frame_samples@;
    let mut i: usize = 0;
    while i < m
        invariant
            i <= m <= amount,
            amount <= MAX_FRAME,
            m <= samples.len(),
            m == amount || m == samples.len(),
            samples == src.frame_samples@,
            src.wf(),
            src.status == Status::Playing,
            listener.position.wf(),
            inp0.wf(),
            0 <= prev <= FP_ONE,
            0 <= dg <= FP_ONE,
            dg == src.distance_gain(*listener, model),
            prev as int == (match inp0.last_distance_gain {
                Some(p) => p as int,
                None => dg as int,
            }),
            input.source == inp0.source,
            input.last_distance_gain == Some(dg),
            input.filter == stepped_filter(inp0.filter, samples, i as int),
            input.wf(),
            scratch@.len() == amount,
            forall|j: int|
                0 <= j < i ==> #[trigger] sample_at(scratch@, j) == {
                    let one = input_sample(inp0, *src, *listener, model, amount as int, j);
                    (
                        sample_at(old(scratch)@, j).0 + one.0,
                        sample_at(old(scratch)@, j).1 + one.1,
                    )
                },
            forall|j: int| i <= j < amount ==> scratch@[j] == old(scratch)@[j],
            forall|j: int|
                0 <= j < amount ==> -(MAX_INPUTS - 1) * SAMPLE_LIMIT <= (#[trigger] old(
                    scratch,
                )@[j]).0 <= (MAX_INPUTS - 1) * SAMPLE_LIMIT && -(MAX_INPUTS - 1) * SAMPLE_LIMIT
                    <= old(scratch)@[j].1 <= (MAX_INPUTS - 1) * SAMPLE_LIMIT,
        decreases m - i,
    {
        let ghost pre_iter = scratch@;
        let raw = src.frame_samples[i];
        let fed: (i64, i64) = match &mut input.filter {
            Some(f) => f.feed(raw.0, raw.1),
            None => raw,
        };
        let g = lerp_gain(prev, dg, i, amount);
        let cl = apply_gain(fed.0, g);
        let cr = apply_gain(fed.1, g);
        let cur = scratch[i];
        proof {
            assert(input_sample(inp0, *src, *listener, model, amount as int, i as int) == (
                scale_sample(fed.0 as int, g as int),
                scale_sample(fed.1 as int, g as int),
            ));
        }
        scratch[i] = (cur.0 + cl, cur.1 + cr);
        proof {
            assert(input.filter == stepped_filter(inp0.filter, samples, i + 1));
            assert(sample_at(scratch@, i as int) == {
                let one = input_sample(inp0, *src, *listener, model, amount as int, i as int);
                (
                    sample_at(old(scratch)@, i as int).0 + one.0,
                    sample_at(old(scratch)@, i as int).1 + one.1,
                )
            });
            assert forall|j: int| 0 <= j < i implies #[trigger] sample_at(scratch@, j)
                == sample_at(pre_iter, j) by {
                assert(scratch@[j] == pre_iter[j]);
            }
        }
        i = i + 1;
    }
}

/// The shared base of every effect kind: an ordered list of inputs, an
/// effect-wide gain, and the scratch buffer the inputs mix into.
#[derive(Clone, Debug)]
pub struct BaseEffect {
    /// Effect-wide gain; never negative. It is a volume knob for the
    /// mix-down stage and is not applied by `render` itself.
    pub gain: i64,
    /// The inputs, in render order.
    pub inputs: Vec<EffectInput>,
    /// Scratch mix buffer, sized to the current frame.
    pub frame_samples: Vec<(i64, i64)>,
}

impl BaseEffect {
    /// Gain never negative, input count bounded, every input well-formed.
    pub open spec fn wf(self) -> bool {
        &&& self.gain >= 0
        &&& self.inputs@.len() <= MAX_INPUTS
        &&& forall|t: int| 0 <= t < self.inputs@.len() ==> (#[trigger] self.inputs@[t]).wf()
    }

    /// An effect base with unit gain and no inputs.
    pub fn empty() -> (b: BaseEffect)
        ensures
            b.gain == FP_ONE,
            b.inputs@.len() == 0,
            b.frame_samples@.len() == 0,
            b.wf(),
    {
        BaseEffect { gain: FP_ONE, inputs: Vec::new(), frame_samples: Vec::new() }
    }

    /// Current gain of the effect.
    pub fn gain(&self) -> (g: i64)
        ensures
            g == self.gain,
    {
        self.gain
    }

    /// Sets the effect gain; a negative gain is clamped to zero, anything
    /// else is stored as given (values above one overdrive).
    pub fn set_gain(&mut self, gain: i64)
        ensures
            *final(self) == (BaseEffect {
                gain: if gain < 0 { 0i64 } else { gain },
                ..*old(self)
            }),
    {
        self.gain = if gain < 0 {
            0
        } else {
            gain
        };
    }

    /// Adds an input at the end of the render order.
    pub fn add_input(&mut self, input: EffectInput)
        requires
            old(self).inputs@.len() < MAX_INPUTS,
            input.wf(),
        ensures
            final(self).inputs@ == old(self).inputs@.push(input),
            final(self).gain == old(self).gain,
            final(self).frame_samples@ == old(self).frame_samples@,
    {
        self.inputs.push(input);
    }

    /// All inputs, in render order.
    pub fn inputs_ref(&self) -> (r: &[EffectInput])
        ensures
            r@ == self.inputs@,
    {
        self.inputs.as_slice()
    }

    /// Mutable access to all inputs.
    pub fn inputs_mut(&mut self) -> (r: &mut [EffectInput])
        ensures
            r@ == old(self).inputs@,
            final(self).inputs@ == final(r)@,
            final(self).gain == old(self).gain,
            final(self).frame_samples@ == old(self).frame_samples@,
    {
        self.inputs.as_mut_slice()
    }

    /// Removes and returns the input at the given index.
    pub fn remove_input(&mut self, index: usize) -> (inp: EffectInput)
        requires
            index < old(self).inputs@.len(),
        ensures
            inp == old(self).inputs@[index as int],
            final(self).inputs@ == old(self).inputs@.remove(index as int),
            final(self).gain == old(self).gain,
            final(self).frame_samples@ == old(self).frame_samples@,
    {
        self.inputs.remove(index)
    }

    /// Removes every input that references the given source, keeping the
    /// render order of the rest.
    pub fn remove_inputs_of(&mut self, source: Handle)
        ensures
            final(self).inputs@ == old(self).inputs@.filter(
                |inp: EffectInput| inp.source != source,
            ),
            final(self).gain == old(self).gain,
            final(self).frame_samples@ == old(self).frame_samples@,
    {
        let ghost pred = |inp: EffectInput| inp.source != source;
        let mut kept: Vec<EffectInput> = Vec::new();
        let mut idx: usize = 0;
        while idx < self.inputs.len()
            invariant
                idx <= self.inputs@.len(),
                self.inputs@ == old(self).inputs@,
                self.gain == old(self).gain,
                self.frame_samples@ == old(self).frame_samples@,
                kept@ == old(self).inputs@.take(idx as int).filter(pred),
                pred == (|inp: EffectInput| inp.source != source),
            decreases self.inputs@.len() - idx,
        {
            let inp = self.inputs[idx];
            proof {
                reveal(Seq::filter);
                assert(old(self).inputs@.take(idx + 1).drop_last() =~= old(self).inputs@.take(
                    idx as int,
                ));
                assert(old(self).inputs@.take(idx + 1).last() == inp);
            }
            if inp.source != source {
                kept.push(inp);
            }
            idx = idx + 1;
        }
        proof {
            assert(old(self).inputs@.take(old(self).inputs@.len() as int) =~= old(self).inputs@);
        }
        self.inputs = kept;
    }

    /// Removes all inputs.
    pub fn clear_inputs(&mut self)
        ensures
            final(self).inputs@.len() == 0,
            final(self).gain == old(self).gain,
            final(self).frame_samples@ == old(self).frame_samples@,
    {
        self.inputs.clear();
    }

    /// Renders one frame: prunes dangling inputs, sizes and zeroes the
    /// scratch buffer, and mixes every playing input into it under the
    /// click-free gain ramp; see [`base_rendered`] for the full statement.
    pub fn render(
        &mut self,
        sources: &Pool<SoundSource>,
        listener: &Listener,
        distance_model: DistanceModel,
        amount: usize,
    )
        requires
            old(self).wf(),
            listener.position.wf(),
            forall|h: Handle| #[trigger] sources.valid(h) ==> sources.at(h).wf(),
            amount <= MAX_FRAME,
        ensures
            base_rendered(
                *old(self),
                *final(self),
                *sources,
                *listener,
                distance_model,
                amount as int,
            ),
            final(self).wf(),
    {
        let ghost pred = |inp: EffectInput| sources.valid(inp.source);
        // Drop inputs whose source is gone: effects never keep a source
        // alive, so such "dangling" inputs are expected and pruned silently.
        let mut kept: Vec<EffectInput> = Vec::new();
        let mut idx: usize = 0;
        while idx < self.inputs.len()
            invariant
                idx <= self.inputs@.len(),
                self.inputs@ == old(self).inputs@,
                self.gain == old(self).gain,
                old(self).wf(),
                kept@ == old(self).inputs@.take(idx as int).filter(pred),
                pred == (|inp: EffectInput| sources.valid(inp.source)),
                kept@.len() <= idx,
                forall|t: int|
                    0 <= t < kept@.len() ==> (#[trigger] kept@[t]).wf() && sources.valid(
                        kept@[t].source,
                    ),
            decreases self.inputs@.len() - idx,
        {
            let inp = self.inputs[idx];
            proof {
                reveal(Seq::filter);
                assert(old(self).inputs@.take(idx + 1).drop_last() =~= old(self).inputs@.take(
                    idx as int,
                ));
                assert(old(self).inputs@.take(idx + 1).last() == inp);
            }
            if sources.is_valid_handle(inp.source) {
                kept.push(inp);
            }
            idx = idx + 1;
        }
        proof {
            assert(old(self).inputs@.take(old(self).inputs@.len() as int) =~= old(self).inputs@);
        }
        self.inputs = kept;
        let ghost live = pruned_inputs(old(self).inputs@, *sources);

        // Size and zero the scratch buffer for this frame.
        let mut scratch: Vec<(i64, i64)> = Vec::new();
        let mut z: usize = 0;
        while z < amount
            invariant
                z <= amount,
                scratch@.len() == z,
                forall|j: int| 0 <= j < z ==> scratch@[j] == (0i64, 0i64),
            decreases amount - z,
        {
            scratch.push((0, 0));
            z = z + 1;
        }
        self.frame_samples = scratch;
        proof {
            assert forall|j: int| 0 <= j < amount implies #[trigger] sample_at(
                self.frame_samples@,
                j,
            ) == mix_prefix(live, *sources, *listener, distance_model, amount as int, 0, j) by {
                assert(self.frame_samples@[j] == (0i64, 0i64));
            }
        }

        // Accumulate every playing input; paused and stopped sources keep
        // their connection but contribute silence.
        let n = self.inputs.len();
        let mut k: usize = 0;
        while k < n
            invariant
                k <= n,
                n == self.inputs@.len(),
                n == live.len(),
                n <= MAX_INPUTS,
                live == pruned_inputs(old(self).inputs@, *sources),
                self.gain == old(self).gain,
                amount <= MAX_FRAME,
                listener.position.wf(),
                forall|h: Handle| #[trigger] sources.valid(h) ==> sources.at(h).wf(),
                forall|t: int|
                    0 <= t < n ==> (#[trigger] live[t]).wf() && sources.valid(live[t].source),
                forall|t: int| k <= t < n ==> self.inputs@[t] == live[t],
                forall|t: int|
                    0 <= t < k ==> #[trigger] self.inputs@[t] == advance_input(
                        live[t],
                        sources.at(live[t].source),
                        *listener,
                        distance_model,
                        amount as int,
                    ),
                forall|t: int| 0 <= t < k ==> (#[trigger] self.inputs@[t]).wf(),
                self.frame_samples@.len() == amount,
                forall|j: int|
                    0 <= j < amount ==> #[trigger] sample_at(self.frame_samples@, j) == mix_prefix(
                        live,
                        *sources,
                        *listener,
                        distance_model,
                        amount as int,
                        k as int,
                        j,
                    ),
            decreases n - k,
        {
            let inp = self.inputs[k];
            let src = sources.borrow(inp.source);
            let ghost pre_mix = self.frame_samples@;
            if src.status == Status::Playing {
                proof {
                    assert forall|j: int| 0 <= j < amount implies -(MAX_INPUTS - 1) * SAMPLE_LIMIT
                        <= (#[trigger] self.frame_samples@[j]).0 <= (MAX_INPUTS - 1) * SAMPLE_LIMIT
                        && -(MAX_INPUTS - 1) * SAMPLE_LIMIT <= self.frame_samples@[j].1 <= (
                    MAX_INPUTS - 1) * SAMPLE_LIMIT by {
                        assert(sample_at(self.frame_samples@, j) == mix_prefix(
                            live,
                            *sources,
                            *listener,
                            distance_model,
                            amount as int,
                            k as int,
                            j,
                        ));
                        lemma_mix_prefix_bounds(
                            live,
                            *sources,
                            *listener,
                            distance_model,
                            amount as int,
                            k as int,
                            j,
                        );
                        assert(k * SAMPLE_LIMIT <= (MAX_INPUTS - 1) * SAMPLE_LIMIT)
                            by (nonlinear_arith)
                            requires 0 <= k <= MAX_INPUTS - 1;
                    }
                }
                mix_input(
                    &mut self.frame_samples,
                    &mut self.inputs[k],
                    src,
                    listener,
                    distance_model,
                    amount,
                );
                proof {
                    assert forall|j: int| 0 <= j < amount implies #[trigger] sample_at(
                        self.frame_samples@,
                        j,
                    ) == mix_prefix(
                        live,
                        *sources,
                        *listener,
                        distance_model,
                        amount as int,
                        k + 1,
                        j,
                    ) by {
                        assert(sample_at(pre_mix, j) == mix_prefix(
                            live,
                            *sources,
                            *listener,
                            distance_model,
                            amount as int,
                            k as int,
                            j,
                        ));
                    }
                }
            } else {
                proof {
                    assert forall|j: int| 0 <= j < amount implies #[trigger] sample_at(
                        self.frame_samples@,
                        j,
                    ) == mix_prefix(
                        live,
                        *sources,
                        *listener,
                        distance_model,
                        amount as int,
                        k + 1,
                        j,
                    ) by {
                        assert(input_sample(
                            live[k as int],
                            sources.at(live[k as int].source),
                            *listener,
                            distance_model,
                            amount as int,
                            j,
                        ) == (0int, 0int));
                    }
                    assert(advance_input(
                        live[k as int],
                        sources.at(live[k as int].source),
                        *listener,
                        distance_model,
                        amount as int,
                    ) == live[k as int]);
                }
            }
            k = k + 1;
        }
        proof {
            assert(self.inputs@ =~= advanced_inputs(
                live,
                *sources,
                *listener,
                distance_model,
                amount as int,
            ));
        }
    }
}

impl Default for BaseEffect {
    /// An effect base with unit gain and no inputs.
    fn default() -> (b: BaseEffect)
        ensures
            b.gain == FP_ONE,
            b.inputs@.len() == 0,
            b.frame_samples@.len() == 0,
            b.wf(),
    {
        BaseEffect::empty()
    }
}

/// Stub effect that does nothing: a disabled or placeholder slot.
#[derive(Clone, Debug)]
pub struct StubEffect {
    /// The embedded effect base; kept so the slot's inputs and gain survive
    /// while the effect is disabled.
    pub base: BaseEffect,
}

impl StubEffect {
    /// A stub over an empty base.
    pub fn new() -> (e: StubEffect)
        ensures
            e.base.gain == FP_ONE,
            e.base.inputs@.len() == 0,
            e.base.wf(),
    {
        StubEffect { base: BaseEffect::empty() }
    }

    /// Renders nothing: the stub leaves itself and the output bus untouched.
    pub fn render(
        &mut self,
        sources: &Pool<SoundSource>,
        listener: &Listener,
        distance_model: DistanceModel,
        mix_buf: &mut Vec<(i64, i64)>,
    )
        ensures
            *final(self) == *old(self),
            final(mix_buf)@ == old(mix_buf)@,
    {
    }
}

/// The closed set of effect kinds the engine renders. New kinds extend this
/// sum type and the dispatch below, not a class hierarchy.
#[derive(Clone, Debug)]
pub enum Effect {
    /// Stub effect that does nothing.
    Stub(StubEffect),
    /// Reverberation effect; see the corresponding module.
    Reverb(crate::reverb::Reverb),
}

impl Effect {
    /// The embedded base of whichever variant is active.
    pub open spec fn base_of(self) -> BaseEffect {
        match self {
            Effect::Stub(v) => v.base,
            Effect::Reverb(v) => v.base,
        }
    }

    /// The same effect with its embedded base replaced.
    pub open spec fn with_base(self, base: BaseEffect) -> Effect {
        match self {
            Effect::Stub(v) => Effect::Stub(StubEffect { base }),
            Effect::Reverb(v) => Effect::Reverb(crate::reverb::Reverb { base, ..v }),
        }
    }

    /// Whichever variant is active is well-formed.
    pub open spec fn wf(self) -> bool {
        match self {
            Effect::Stub(v) => v.base.wf(),
            Effect::Reverb(v) => v.wf(),
        }
    }

    /// A disabled effect slot.
    pub fn stub() -> (e: Effect)
        ensures
            e == Effect::Stub(StubEffect { base: e.base_of() }),
            e.base_of().gain == FP_ONE,
            e.base_of().inputs@.len() == 0,
            e.wf(),
    {
        Effect::Stub(StubEffect::new())
    }

    /// Field access to the embedded base, uniform over the active variant.
    pub fn base(&self) -> (b: &BaseEffect)
        ensures
            *b == self.base_of(),
    {
        match self {
            Effect::Stub(v) => &v.base,
            Effect::Reverb(v) => &v.base,
        }
    }

    /// Mutable access to the embedded base, uniform over the active variant.
    pub fn base_mut(&mut self) -> (b: &mut BaseEffect)
        ensures
            *b == old(self).base_of(),
            *final(self) == old(self).with_base(*final(b)),
    {
        match self {
            Effect::Stub(v) => &mut v.base,
            Effect::Reverb(v) => &mut v.base,
        }
    }

    /// Renders one frame by dispatching to the active variant: the stub does
    /// nothing, the reverb mixes its inputs and folds them into the bus.
    pub fn render(
        &mut self,
        sources: &Pool<SoundSource>,
        listener: &Listener,
        distance_model: DistanceModel,
        mix_buf: &mut Vec<(i64, i64)>,
    )
        requires
            old(self).wf(),
            listener.position.wf(),
            forall|h: Handle| #[trigger] sources.valid(h) ==> sources.at(h).wf(),
            old(mix_buf)@.len() <= MAX_FRAME,
            forall|j: int|
                0 <= j < old(mix_buf)@.len() ==> -SAMPLE_LIMIT <= (#[trigger] old(
                    mix_buf,
                )@[j]).0 <= SAMPLE_LIMIT && -SAMPLE_LIMIT <= old(mix_buf)@[j].1 <= SAMPLE_LIMIT,
        ensures
            final(self).wf(),
            final(mix_buf)@.len() == old(mix_buf)@.len(),
            (*old(self)) is Stub ==> *final(self) == *old(self) && final(mix_buf)@ == old(mix_buf)@,
            (*old(self)) is Reverb ==> (*final(self)) is Reverb && base_rendered(
                old(self).base_of(),
                final(self).base_of(),
                *sources,
                *listener,
                distance_model,
                old(mix_buf)@.len() as int,
            ),
            (*old(self)) is Reverb ==> (forall|j: int|
                0 <= j < old(mix_buf)@.len() ==> #[trigger] sample_at(final(mix_buf)@, j) == {
                    let mixed = mix_all(
                        pruned_inputs(old(self).base_of().inputs@, *sources),
                        *sources,
                        *listener,
                        distance_model,
                        old(mix_buf)@.len() as int,
                        j,
                    );
                    (
                        clamp_sample_spec(sample_at(old(mix_buf)@, j).0 + mixed.0),
                        clamp_sample_spec(sample_at(old(mix_buf)@, j).1 + mixed.1),
                    )
                }),
    {
        match self {
            Effect::Stub(v) => v.render(sources, listener, distance_model, mix_buf),
            Effect::Reverb(v) => v.render(sources, listener, distance_model, mix_buf),
        }
    }
}

impl Default for Effect {
    /// A disabled effect slot.
    fn default() -> (e: Effect)
        ensures
            e is Stub,
            e.base_of().gain == FP_ONE,
            e.base_of().inputs@.len() == 0,
            e.wf(),
    {
        Effect::stub()
    }
}

} // verus!
