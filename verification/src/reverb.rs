//! The reverberation effect of the mixing engine.
//!
//! Its input mixing is the shared [`BaseEffect`] algorithm; the reverberation
//! tail itself is a per-variant processing hook that this core treats as
//! opaque, so the effect folds its mixed inputs into the output bus as they
//! are, saturating at the sample range. The effect-wide gain stays a control
//! value for the mix-down stage.

use vstd::prelude::*;

use crate::effect::{
    base_rendered, lemma_mix_prefix_bounds, lemma_pruned_inputs_wf, mix_all, pruned_inputs,
    sample_at, BaseEffect,
};
use crate::fixed::{clamp_sample, clamp_sample_spec, FP_ONE, MAX_FRAME, MAX_INPUTS, SAMPLE_LIMIT};
use crate::pool::{Handle, Pool};
use crate::source::{DistanceModel, Listener, SoundSource};

verus! {

/// Reverberation effect: the shared effect base plus the parameters of the
/// reverberation tail (wet/dry mix, decay time, cutoff frequency).
#[derive(Clone, Debug)]
pub struct Reverb {
    /// The embedded effect base with the input list.
    pub base: BaseEffect,
    /// Dry (unprocessed) share of the output, in `[0, FP_ONE]`.
    pub dry: i64,
    /// Wet (processed) share of the output, in `[0, FP_ONE]`.
    pub wet: i64,
    /// Cutoff frequency of the tail's lowpass, as a normalized fixed-point
    /// frequency.
    pub fc: i64,
    /// Decay time of the tail, in milliseconds.
    pub decay_time: u64,
}

impl Reverb {
    /// Base well-formed, mix shares within range, cutoff not negative.
    pub open spec fn wf(self) -> bool {
        &&& self.base.wf()
        &&& 0 <= self.dry <= FP_ONE
        &&& 0 <= self.wet <= FP_ONE
        &&& self.fc >= 0
    }

    /// A reverb over the given base, fully wet and fully dry, with a quarter
    /// cutoff and a three-second decay.
    pub fn new(base: BaseEffect) -> (r: Reverb)
        ensures
            r.base == base,
            r.dry == FP_ONE,
            r.wet == FP_ONE,
            r.fc == 256,
            r.decay_time == 3000,
            base.wf() ==> r.wf(),
    {
        Reverb { base, dry: FP_ONE, wet: FP_ONE, fc: 256, decay_time: 3000 }
    }

    /// Sets the effect gain on the embedded base; negative gains clamp to
    /// zero.
    pub fn set_gain(&mut self, gain: i64)
        ensures
            *final(self) == (Reverb {
                base: BaseEffect {
                    gain: if gain < 0 { 0i64 } else { gain },
                    ..old(self).base
                },
                ..*old(self)
            }),
    {
        self.base.set_gain(gain);
    }

    /// Current effect gain.
    pub fn gain(&self) -> (g: i64)
        ensures
            g == self.base.gain,
    {
        self.base.gain()
    }

    /// Sets the dry share, clamped into `[0, FP_ONE]`.
    pub fn set_dry(&mut self, dry: i64)
        ensures
            *final(self) == (Reverb {
                dry: crate::source::clamp_spec(dry as int, 0, FP_ONE as int) as i64,
                ..*old(self)
            }),
    {
        self.dry = if dry < 0 {
            0
        } else if dry > FP_ONE {
            FP_ONE
        } else {
            dry
        };
    }

    /// Current dry share.
    pub fn dry(&self) -> (v: i64)
        ensures
            v == self.dry,
    {
        self.dry
    }

    /// Sets the wet share, clamped into `[0, FP_ONE]`.
    pub fn set_wet(&mut self, wet: i64)
        ensures
            *final(self) == (Reverb {
                wet: crate::source::clamp_spec(wet as int, 0, FP_ONE as int) as i64,
                ..*old(self)
            }),
    {
        self.wet = if wet < 0 {
            0
        } else if wet > FP_ONE {
            FP_ONE
        } else {
            wet
        };
    }

    /// Current wet share.
    pub fn wet(&self) -> (v: i64)
        ensures
            v == self.wet,
    {
        self.wet
    }

    /// Sets the cutoff frequency; negative values clamp to zero.
    pub fn set_fc(&mut self, fc: i64)
        ensures
            *final(self) == (Reverb { fc: if fc < 0 { 0i64 } else { fc }, ..*old(self) }),
    {
        self.fc = if fc < 0 {
            0
        } else {
            fc
        };
    }

    /// Current cutoff frequency.
    pub fn fc(&self) -> (v: i64)
        ensures
            v == self.fc,
    {
        self.fc
    }

    /// Sets the decay time in milliseconds.
    pub fn set_decay_time(&mut self, decay_time: u64)
        ensures
            *final(self) == (Reverb { decay_time, ..*old(self) }),
    {
        self.decay_time = decay_time;
    }

    /// Current decay time in milliseconds.
    pub fn decay_time(&self) -> (v: u64)
        ensures
            v == self.decay_time,
    {
        self.decay_time
    }

    /// Renders one frame: mixes the inputs through the base algorithm, then
    /// folds the mixed frame into the output bus, saturating at the sample
    /// range.
    pub fn render(
        &mut self,
        sources: &Pool<SoundSource>,
        listener: &Listener,
        distance_model: DistanceModel,
        mix_buf: &mut Vec<(i64, i64)>,
    )
        requires
            old(self).wf(),
            listener.position.wf(),
            forall|h: Handle| #[trigger] sources.valid(h) ==> sources.at(h).wf(),
            old(mix_buf)@.len() <= MAX_FRAME,
            forall|j: int|
                0 <= j < old(mix_buf)@.len() ==> -SAMPLE_LIMIT <= (#[trigger] old(
                    mix_buf,
                )@[j]).0 <= SAMPLE_LIMIT && -SAMPLE_LIMIT <= old(mix_buf)@[j].1 <= SAMPLE_LIMIT,
        ensures
            base_rendered(
                old(self).base,
                final(self).base,
                *sources,
                *listener,
                distance_model,
                old(mix_buf)@.len() as int,
            ),
            final(self).wf(),
            final(self).dry == old(self).dry,
            final(self).wet == old(self).wet,
            final(self).fc == old(self).fc,
            final(self).decay_time == old(self).decay_time,
            final(mix_buf)@.len() == old(mix_buf)@.len(),
            forall|j: int|
                0 <= j < old(mix_buf)@.len() ==> #[trigger] sample_at(final(mix_buf)@, j) == {
                    let mixed = mix_all(
                        pruned_inputs(old(self).base.inputs@, *sources),
                        *sources,
                        *listener,
                        distance_model,
                        old(mix_buf)@.len() as int,
                        j,
                    );
                    (
                        clamp_sample_spec(sample_at(old(mix_buf)@, j).0 + mixed.0),
                        clamp_sample_spec(sample_at(old(mix_buf)@, j).1 + mixed.1),
                    )
                },
    {
        let amount = mix_buf.len();
        self.base.render(sources, listener, distance_model, amount);
        let ghost live = pruned_inputs(old(self).base.inputs@, *sources);
        proof {
            lemma_pruned_inputs_wf(old(self).base.inputs@, *sources);
        }
        let mut j: usize = 0;
        while j < amount
            invariant
                j <= amount,
                amount <= MAX_FRAME,
                live == pruned_inputs(old(self).base.inputs@, *sources),
                live.len() <= MAX_INPUTS,
                forall|t: int|
                    0 <= t < live.len() ==> (#[trigger] live[t]).wf() && sources.valid(
                        live[t].source,
                    ),
                forall|h: Handle| #[trigger] sources.valid(h) ==> sources.at(h).wf(),
                self.base.frame_samples@.len() == amount,
                forall|i: int|
                    0 <= i < amount ==> #[trigger] sample_at(self.base.frame_samples@, i)
                        == mix_all(live, *sources, *listener, distance_model, amount as int, i),
                mix_buf@.len() == amount,
                forall|i: int| j <= i < amount ==> mix_buf@[i] == old(mix_buf)@[i],
                forall|i: int|
                    0 <= i < amount ==> -SAMPLE_LIMIT <= (#[trigger] old(mix_buf)@[i]).0
                        <= SAMPLE_LIMIT && -SAMPLE_LIMIT <= old(mix_buf)@[i].1 <= SAMPLE_LIMIT,
                forall|i: int|
                    0 <= i < j ==> #[trigger] sample_at(mix_buf@, i) == {
                        let mixed = mix_all(
                            live,
                            *sources,
                            *listener,
                            distance_model,
                            amount as int,
                            i,
                        );
                        (
                            clamp_sample_spec(sample_at(old(mix_buf)@, i).0 + mixed.0),
                            clamp_sample_spec(sample_at(old(mix_buf)@, i).1 + mixed.1),
                        )
                    },
            decreases amount - j,
        {
            let ghost pre_iter = mix_buf@;
            proof {
                lemma_mix_prefix_bounds(
                    live,
                    *sources,
                    *listener,
                    distance_model,
                    amount as int,
                    live.len() as int,
                    j as int,
                );
                assert(live.len() * SAMPLE_LIMIT <= MAX_INPUTS * SAMPLE_LIMIT) by (nonlinear_arith)
                    requires 0 <= live.len() <= MAX_INPUTS;
                assert(sample_at(self.base.frame_samples@, j as int) == mix_all(
                    live,
                    *sources,
                    *listener,
                    distance_model,
                    amount as int,
                    j as int,
                ));
            }
            let wetv = self.base.frame_samples[j];
            let cur = mix_buf[j];
            let outl = clamp_sample(cur.0 + wetv.0);
            let outr = clamp_sample(cur.1 + wetv.1);
            mix_buf[j] = (outl, outr);
            proof {
                assert forall|i: int| 0 <= i < j implies #[trigger] sample_at(mix_buf@, i)
                    == sample_at(pre_iter, i) by {
                    assert(mix_buf@[i] == pre_iter[i]);
                }
                assert(sample_at(mix_buf@, j as int) == {
                    let mixed = mix_all(
                        live,
                        *sources,
                        *listener,
                        distance_model,
                        amount as int,
                        j as int,
                    );
                    (
                        clamp_sample_spec(sample_at(old(mix_buf)@, j as int).0 + mixed.0),
                        clamp_sample_spec(sample_at(old(mix_buf)@, j as int).1 + mixed.1),
                    )
                });
            }
            j = j + 1;
        }
    }
}

} // verus!
