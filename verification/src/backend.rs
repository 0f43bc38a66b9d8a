//! The live mixing engine's shared state: the source and effect tables the
//! real-time render pass and the control-thread synchronizer both work on.
//! The synchronizer reaches it through [`crate::context::SoundContext`].

use vstd::prelude::*;

use crate::effect::Effect;
use crate::fixed::FP_ONE;
use crate::pool::{Handle, Pool};
use crate::source::{DistanceModel, Listener, SoundSource};

verus! {

/// How the final mix is rendered to the output device.
#[derive(Clone, Copy, Debug, PartialEq, Eq, Structural)]
pub enum Renderer {
    /// Plain stereo panning.
    Standard,
    /// Head-related transfer function rendering.
    Hrtf,
}

/// The engine state: source and effect tables, the listener, and the global
/// playback settings. One exclusive guard protects all of it at run time;
/// here the guard is the single `&mut` borrow.
pub struct BackendState {
    /// The live sound sources.
    pub sources: Pool<SoundSource>,
    /// The live effects.
    pub effects: Pool<Effect>,
    /// Master output gain; never negative.
    pub master_gain: i64,
    /// The configured distance-attenuation model.
    pub distance_model: DistanceModel,
    /// Whether the whole engine is paused.
    pub paused: bool,
    /// The active output renderer.
    pub renderer: Renderer,
    /// The single listener.
    pub listener: Listener,
    /// Output sample rate in Hz; never zero.
    pub sample_rate: u32,
    /// Time the engine spent rendering the last full pass, in microseconds.
    pub render_duration_us: u64,
}

impl BackendState {
    /// Both tables are internally consistent and every live entry is
    /// well-formed; the global settings lie in their ranges.
    pub open spec fn wf(self) -> bool {
        &&& self.sources.wf()
        &&& self.effects.wf()
        &&& forall|h: Handle| #[trigger] self.sources.valid(h) ==> self.sources.at(h).wf()
        &&& forall|h: Handle| #[trigger] self.effects.valid(h) ==> self.effects.at(h).wf()
        &&& self.master_gain >= 0
        &&& self.listener.position.wf()
        &&& self.sample_rate >= 1
    }

    /// A fresh engine: empty tables, unit master gain, not paused, standard
    /// rendering at 44100 Hz, listener at the origin.
    pub fn new() -> (b: BackendState)
        ensures
            b.wf(),
            b.sources.slot_count() == 0,
            b.effects.slot_count() == 0,
            forall|h: Handle| !b.sources.valid(h),
            forall|h: Handle| !b.effects.valid(h),
            b.master_gain == FP_ONE,
            b.distance_model == DistanceModel::Inverse,
            !b.paused,
            b.renderer == Renderer::Standard,
            b.sample_rate == 44100,
            b.render_duration_us == 0,
    {
        BackendState {
            sources: Pool::new(),
            effects: Pool::new(),
            master_gain: FP_ONE,
            distance_model: DistanceModel::Inverse,
            paused: false,
            renderer: Renderer::Standard,
            listener: Listener::new(),
            sample_rate: 44100,
            render_duration_us: 0,
        }
    }

    /// Adds a source to the table and returns its fresh handle.
    pub fn add_source(&mut self, source: SoundSource) -> (h: Handle)
        requires
            old(self).wf(),
            source.wf(),
        ensures
            final(self).wf(),
            final(self).sources.valid(h),
            final(self).sources.at(h) == source,
            !old(self).sources.valid(h),
            final(self).sources.alive() == old(self).sources.alive() + 1,
            forall|h2: Handle|
                #[trigger] old(self).sources.valid(h2) ==> final(self).sources.valid(h2) && final(self).sources.at(h2) == old(self).sources.at(h2),
            forall|h2: Handle|
                #[trigger] final(self).sources.valid(h2) && h2 != h ==> old(self).sources.valid(
                    h2,
                ),
            final(self).effects == old(self).effects,
            *final(self) == (BackendState { sources: final(self).sources, ..*old(self) }),
    {
        self.sources.spawn(source)
    }

    /// Removes the source a valid handle resolves to; only handles to that
    /// source stop resolving.
    pub fn remove_source(&mut self, h: Handle) -> (source: SoundSource)
        requires
            old(self).wf(),
            old(self).sources.valid(h),
        ensures
            final(self).wf(),
            source == old(self).sources.at(h),
            !final(self).sources.valid(h),
            final(self).sources.alive() == old(self).sources.alive() - 1,
            forall|h2: Handle|
                h2 != h ==> final(self).sources.valid(h2) == old(self).sources.valid(h2),
            forall|h2: Handle|
                h2 != h && old(self).sources.valid(h2) ==> final(self).sources.at(h2) == old(self).sources.at(h2),
            final(self).effects == old(self).effects,
            *final(self) == (BackendState { sources: final(self).sources, ..*old(self) }),
    {
        self.sources.free(h)
    }

    /// Whether a source handle still resolves.
    pub fn is_valid_handle(&self, h: Handle) -> (r: bool)
        ensures
            r == self.sources.valid(h),
    {
        self.sources.is_valid_handle(h)
    }

    /// Mutable access to the source of a valid handle.
    pub fn source_mut(&mut self, h: Handle) -> (s: &mut SoundSource)
        requires
            old(self).wf(),
            old(self).sources.valid(h),
        ensures
            *s == old(self).sources.at(h),
            final(self).sources.valid(h),
            final(self).sources.at(h) == *final(s),
            final(self).sources.wf(),
            forall|h2: Handle| final(self).sources.valid(h2) == old(self).sources.valid(h2),
            forall|h2: Handle|
                h2 != h && old(self).sources.valid(h2) ==> final(self).sources.at(h2) == old(self).sources.at(h2),
            final(self).effects == old(self).effects,
            *final(self) == (BackendState { sources: final(self).sources, ..*old(self) }),
    {
        self.sources.borrow_mut(h)
    }

    /// Read access to the source of a handle, if it still resolves.
    pub fn try_get_source(&self, h: Handle) -> (s: Option<&SoundSource>)
        ensures
            match s {
                Some(v) => self.sources.valid(h) && *v == self.sources.at(h),
                None => !self.sources.valid(h),
            },
    {
        self.sources.try_borrow(h)
    }

    /// Mutable access to the source of a handle, if it still resolves.
    pub fn try_get_source_mut(&mut self, h: Handle) -> (s: Option<&mut SoundSource>)
        requires
            old(self).wf(),
        ensures
            final(self).sources.wf(),
            forall|h2: Handle| final(self).sources.valid(h2) == old(self).sources.valid(h2),
            final(self).effects == old(self).effects,
            *final(self) == (BackendState { sources: final(self).sources, ..*old(self) }),
            match s {
                Some(v) => old(self).sources.valid(h) && *v == old(self).sources.at(h) && final(self).sources.at(h) == *final(v) && (forall|h2: Handle|
                    h2 != h && old(self).sources.valid(h2) ==> final(self).sources.at(h2) == old(
                        self,
                    ).sources.at(h2)),
                None => !old(self).sources.valid(h) && final(self).sources == old(self).sources,
            },
    {
        self.sources.try_borrow_mut(h)
    }

    /// Adds an effect to the table and returns its fresh handle.
    pub fn add_effect(&mut self, effect: Effect) -> (h: Handle)
        requires
            old(self).wf(),
            effect.wf(),
        ensures
            final(self).wf(),
            final(self).effects.valid(h),
            final(self).effects.at(h) == effect,
            !old(self).effects.valid(h),
            final(self).effects.alive() == old(self).effects.alive() + 1,
            forall|h2: Handle|
                #[trigger] old(self).effects.valid(h2) ==> final(self).effects.valid(h2) && final(self).effects.at(h2) == old(self).effects.at(h2),
            forall|h2: Handle|
                #[trigger] final(self).effects.valid(h2) && h2 != h ==> old(self).effects.valid(
                    h2,
                ),
            final(self).sources == old(self).sources,
            *final(self) == (BackendState { effects: final(self).effects, ..*old(self) }),
    {
        self.effects.spawn(effect)
    }

    /// Mutable access to the effect of a valid handle.
    pub fn effect_mut(&mut self, h: Handle) -> (e: &mut Effect)
        requires
            old(self).wf(),
            old(self).effects.valid(h),
        ensures
            *e == old(self).effects.at(h),
            final(self).effects.valid(h),
            final(self).effects.at(h) == *final(e),
            final(self).effects.wf(),
            forall|h2: Handle| final(self).effects.valid(h2) == old(self).effects.valid(h2),
            forall|h2: Handle|
                h2 != h && old(self).effects.valid(h2) ==> final(self).effects.at(h2) == old(self).effects.at(h2),
            final(self).sources == old(self).sources,
            *final(self) == (BackendState { effects: final(self).effects, ..*old(self) }),
    {
        self.effects.borrow_mut(h)
    }

    /// Sets the master output gain; a negative gain clamps to zero.
    pub fn set_master_gain(&mut self, gain: i64)
        ensures
            *final(self) == (BackendState {
                master_gain: if gain < 0 { 0i64 } else { gain },
                ..*old(self)
            }),
    {
        self.master_gain = if gain < 0 {
            0
        } else {
            gain
        };
    }

    /// Sets the distance-attenuation model.
    pub fn set_distance_model(&mut self, distance_model: DistanceModel)
        ensures
            *final(self) == (BackendState { distance_model, ..*old(self) }),
    {
        self.distance_model = distance_model;
    }

    /// Pauses or resumes the whole engine.
    pub fn pause(&mut self, paused: bool)
        ensures
            *final(self) == (BackendState { paused, ..*old(self) }),
    {
        self.paused = paused;
    }

    /// Swaps in a renderer and returns the previous one.
    pub fn set_renderer(&mut self, renderer: Renderer) -> (prev: Renderer)
        ensures
            prev == old(self).renderer,
            *final(self) == (BackendState { renderer, ..*old(self) }),
    {
        let prev = self.renderer;
        self.renderer = renderer;
        prev
    }

    /// Normalizes a frequency in Hz against the engine sample rate, as a
    /// fixed-point fraction of it.
    pub fn normalize_frequency(&self, f: u32) -> (r: i64)
        requires
            self.sample_rate >= 1,
        ensures
            r == (f as int) * (FP_ONE as int) / (self.sample_rate as int),
    {
        proof {
            let num = (f as int) * (FP_ONE as int);
            assert(0 <= num <= 0xffffffff * 1024) by (nonlinear_arith)
                requires 0 <= f <= 0xffffffff && num == (f as int) * 1024;
            assert(0 <= num / (self.sample_rate as int) <= num) by (nonlinear_arith)
                requires self.sample_rate >= 1 && num >= 0;
        }
        (((f as u64) * (FP_ONE as u64)) / (self.sample_rate as u64)) as i64
    }

    /// Time the engine spent rendering the last full pass, in microseconds.
    pub fn full_render_duration(&self) -> (d: u64)
        ensures
            d == self.render_duration_us,
    {
        self.render_duration_us
    }

    /// Removes every source from the table.
    pub fn clear_sources(&mut self)
        requires
            old(self).wf(),
        ensures
            final(self).wf(),
            forall|h2: Handle| !final(self).sources.valid(h2),
            final(self).sources.alive() == 0,
            final(self).effects == old(self).effects,
            *final(self) == (BackendState { sources: final(self).sources, ..*old(self) }),
    {
        let mut i: usize = 0;
        let n = self.sources.num_slots();
        while i < n
            invariant
                i <= n,
                self.sources.wf(),
                n == self.sources.slot_count(),
                forall|h: Handle| #[trigger] self.sources.valid(h) ==> self.sources.at(h).wf(),
                forall|h: Handle| #[trigger] self.sources.valid(h) ==> h.index >= i,
                self.effects == old(self).effects,
                *self == (BackendState { sources: self.sources, ..*old(self) }),
            decreases n - i,
        {
            let found = self.sources.handle_at(i);
            match found {
                Some(h) => {
                    let ghost pre = self.sources;
                    self.sources.free(h);
                    proof {
                        assert forall|h2: Handle| #[trigger] self.sources.valid(h2) implies
                            h2.index >= i + 1 by {
                            assert(h2 != h);
                            assert(pre.valid(h2));
                            if h2.index == i {
                                pre.lemma_valid_same_index(h, h2);
                            }
                        }
                    }
                },
                None => {
                    proof {
                        assert forall|h2: Handle| #[trigger] self.sources.valid(h2) implies
                            h2.index >= i + 1 by {
                            if h2.index == i {
                                assert(false);
                            }
                        }
                    }
                },
            }
            i = i + 1;
        }
        proof {
            assert forall|h2: Handle| !(#[trigger] self.sources.valid(h2)) by {
                if self.sources.valid(h2) {
                    self.sources.lemma_valid_bounds(h2);
                }
            }
            if self.sources.alive() != 0 {
                self.sources.lemma_alive_has_handle();
            }
        }
    }
}

} // verus!
