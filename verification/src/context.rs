//! The sound context: the model-side pool of effects and the global audio
//! settings, and the synchronizer that reconciles the declarative model into
//! the live backend on every control tick - creating backend counterparts
//! lazily, pushing only changed fields, removing stale sources and rewiring
//! effect inputs.

use vstd::prelude::*;

use fxhash::FxHashSet;

use crate::backend::{BackendState, Renderer};
use crate::effect::{BaseEffect, EffectInput};
use crate::fixed::{DIST_LIMIT, FP_ONE, MAX_INPUTS, ROLLOFF_LIMIT};
use crate::model::{Effect, ReverbEffect};
use crate::node_set::{node_set_contains, node_set_contents, node_set_insert, node_set_new};
use crate::pool::{Handle, Pool, Ticket};
use crate::sound::Sound;
use crate::source::{clamp_spec, DistanceModel, SoundSource, SoundSourceBuilder, Status};
use crate::variable::SyncVar;

verus! {

/// The model-side sound context.
pub struct SoundContext {
    /// Master gain as the model last set it (the backend clamps).
    pub master_gain: i64,
    /// The renderer as the model describes it.
    pub renderer: Renderer,
    /// The distance model as the model last set it.
    pub distance_model: DistanceModel,
    /// Whether the model asked the engine to pause.
    pub paused: bool,
    /// The model-side pool of effects.
    pub effects: Pool<Effect>,
    /// The resource this context was instantiated from, if any.
    pub resource: Option<u64>,
    /// The live backend session.
    pub native: BackendState,
}

impl SoundContext {
    /// The backend and the model pool are consistent: every bound model
    /// effect resolves in the backend, and no two model effects share a
    /// backend counterpart.
    pub open spec fn wf(self) -> bool {
        &&& self.native.wf()
        &&& self.effects.wf()
        &&& forall|he: Handle|
            #[trigger] self.effects.valid(he) ==> (self.effects.at(he).native_spec().is_some_spec()
                ==> self.native.effects.valid(self.effects.at(he).native_spec()))
        &&& forall|h1: Handle, h2: Handle|
            self.effects.valid(h1) && self.effects.valid(h2) && h1 != h2 && self.effects.at(
                h1,
            ).native_spec().is_some_spec() && self.effects.at(h2).native_spec().is_some_spec()
                ==> self.effects.at(h1).native_spec() != self.effects.at(h2).native_spec()
    }

    /// A fresh context over a fresh backend session.
    pub fn new() -> (c: SoundContext)
        ensures
            c.wf(),
            c.master_gain == FP_ONE,
            c.renderer == Renderer::Standard,
            c.distance_model == DistanceModel::Inverse,
            !c.paused,
            c.effects.slot_count() == 0,
            forall|he: Handle| !c.effects.valid(he),
            c.resource is None,
            forall|h: Handle| !c.native.sources.valid(h),
            forall|h: Handle| !c.native.effects.valid(h),
    {
        SoundContext {
            master_gain: FP_ONE,
            renderer: Renderer::Standard,
            distance_model: DistanceModel::Inverse,
            paused: false,
            effects: Pool::new(),
            resource: None,
            native: BackendState::new(),
        }
    }

    /// Adds a new effect to the model and returns its handle. The effect
    /// must not claim a backend counterpart that is stale or already owned.
    pub fn add_effect(&mut self, effect: Effect) -> (h: Handle)
        requires
            old(self).wf(),
            !effect.native_spec().is_some_spec(),
        ensures
            final(self).wf(),
            final(self).effects.valid(h),
            final(self).effects.at(h) == effect,
            !old(self).effects.valid(h),
            final(self).effects.alive() == old(self).effects.alive() + 1,
            forall|h2: Handle|
                #[trigger] old(self).effects.valid(h2) ==> final(self).effects.valid(h2) && final(self).effects.at(h2) == old(self).effects.at(h2),
            forall|h2: Handle|
                #[trigger] final(self).effects.valid(h2) && h2 != h ==> old(self).effects.valid(
                    h2,
                ),
            final(self).native == old(self).native,
            *final(self) == (SoundContext { effects: final(self).effects, ..*old(self) }),
    {
        self.effects.spawn(effect)
    }

    /// Removes an effect from the model and returns it; its backend
    /// counterpart, if any, stays in the backend.
    pub fn remove_effect(&mut self, effect: Handle) -> (e: Effect)
        requires
            old(self).wf(),
            old(self).effects.valid(effect),
        ensures
            final(self).wf(),
            e == old(self).effects.at(effect),
            !final(self).effects.valid(effect),
            final(self).effects.alive() == old(self).effects.alive() - 1,
            forall|h2: Handle|
                h2 != effect ==> final(self).effects.valid(h2) == old(self).effects.valid(h2),
            forall|h2: Handle|
                h2 != effect && old(self).effects.valid(h2) ==> final(self).effects.at(h2) == old(self).effects.at(h2),
            final(self).native == old(self).native,
            *final(self) == (SoundContext { effects: final(self).effects, ..*old(self) }),
    {
        self.effects.free(effect)
    }

    /// Borrows an effect.
    pub fn effect(&self, handle: Handle) -> (e: &Effect)
        requires
            self.effects.valid(handle),
        ensures
            *e == self.effects.at(handle),
    {
        self.effects.borrow(handle)
    }

    /// Borrows an effect mutably. The caller must leave the backend linkage
    /// intact: contracts downstream rely on [`SoundContext::wf`].
    pub fn effect_mut(&mut self, handle: Handle) -> (e: &mut Effect)
        requires
            old(self).wf(),
            old(self).effects.valid(handle),
        ensures
            *e == old(self).effects.at(handle),
            final(self).effects.valid(handle),
            final(self).effects.at(handle) == *final(e),
            final(self).effects.wf(),
            forall|h2: Handle| final(self).effects.valid(h2) == old(self).effects.valid(h2),
            forall|h2: Handle|
                h2 != handle && old(self).effects.valid(h2) ==> final(self).effects.at(h2) == old(self).effects.at(h2),
            final(self).native == old(self).native,
            *final(self) == (SoundContext { effects: final(self).effects, ..*old(self) }),
    {
        self.effects.borrow_mut(handle)
    }

    /// Borrows an effect, if its handle still resolves.
    pub fn try_get_effect(&self, handle: Handle) -> (e: Option<&Effect>)
        ensures
            match e {
                Some(v) => self.effects.valid(handle) && *v == self.effects.at(handle),
                None => !self.effects.valid(handle),
            },
    {
        self.effects.try_borrow(handle)
    }

    /// Borrows an effect mutably, if its handle still resolves.
    pub fn try_get_effect_mut(&mut self, handle: Handle) -> (e: Option<&mut Effect>)
        requires
            old(self).wf(),
        ensures
            final(self).effects.wf(),
            forall|h2: Handle| final(self).effects.valid(h2) == old(self).effects.valid(h2),
            final(self).native == old(self).native,
            *final(self) == (SoundContext { effects: final(self).effects, ..*old(self) }),
            match e {
                Some(v) => old(self).effects.valid(handle) && *v == old(self).effects.at(handle)
                    && final(self).effects.at(handle) == *final(v) && (forall|h2: Handle|
                    h2 != handle && old(self).effects.valid(h2) ==> final(self).effects.at(h2)
                        == old(self).effects.at(h2)),
                None => !old(self).effects.valid(handle) && final(self).effects == old(self).effects,
            },
    {
        self.effects.try_borrow_mut(handle)
    }

    /// Takes an effect out of the model with a promise to put it back.
    pub fn take_reserve_effect(&mut self, handle: Handle) -> (r: (Ticket, Effect))
        requires
            old(self).wf(),
            old(self).effects.valid(handle),
        ensures
            r.1 == old(self).effects.at(handle),
            r.0.handle() == handle,
            final(self).effects.ticket_ok(r.0),
            !final(self).effects.valid(handle),
            forall|h2: Handle|
                h2 != handle ==> final(self).effects.valid(h2) == old(self).effects.valid(h2),
            forall|h2: Handle|
                h2 != handle && old(self).effects.valid(h2) ==> final(self).effects.at(h2) == old(self).effects.at(h2),
            final(self).effects.wf(),
            final(self).native == old(self).native,
            *final(self) == (SoundContext { effects: final(self).effects, ..*old(self) }),
    {
        self.effects.take_reserve(handle)
    }

    /// Puts a reserved effect back under its original handle. As with
    /// [`SoundContext::add_effect`], it must not claim a backend counterpart
    /// another model effect owns.
    pub fn put_effect_back(&mut self, ticket: Ticket, effect: Effect) -> (h: Handle)
        requires
            old(self).wf(),
            old(self).effects.ticket_ok(ticket),
            !effect.native_spec().is_some_spec(),
        ensures
            final(self).wf(),
            h == ticket.handle(),
            final(self).effects.valid(h),
            final(self).effects.at(h) == effect,
            forall|h2: Handle|
                h2 != h ==> final(self).effects.valid(h2) == old(self).effects.valid(h2),
            forall|h2: Handle|
                h2 != h && old(self).effects.valid(h2) ==> final(self).effects.at(h2) == old(self).effects.at(h2),
            final(self).native == old(self).native,
            *final(self) == (SoundContext { effects: final(self).effects, ..*old(self) }),
    {
        self.effects.put_back(ticket, effect)
    }

    /// Gives up a reserved effect slot for good.
    pub fn forget_effect_ticket(&mut self, ticket: Ticket)
        requires
            old(self).wf(),
            old(self).effects.ticket_ok(ticket),
        ensures
            final(self).wf(),
            forall|h2: Handle| final(self).effects.valid(h2) == old(self).effects.valid(h2),
            forall|h2: Handle|
                old(self).effects.valid(h2) ==> final(self).effects.at(h2) == old(self).effects.at(
                    h2,
                ),
            final(self).native == old(self).native,
            *final(self) == (SoundContext { effects: final(self).effects, ..*old(self) }),
    {
        self.effects.forget_ticket(ticket)
    }

    /// The handles of all model effects, in slot order.
    pub fn effects(&self) -> (r: Vec<Handle>)
        requires
            self.effects.wf(),
        ensures
            forall|k: int| 0 <= k < r@.len() ==> self.effects.valid(#[trigger] r@[k]),
            forall|h: Handle| #[trigger] self.effects.valid(h) ==> r@.contains(h),
            forall|k1: int, k2: int| 0 <= k1 < k2 < r@.len() ==> r@[k1].index < r@[k2].index,
    {
        let mut r: Vec<Handle> = Vec::new();
        let n = self.effects.num_slots();
        let mut i: usize = 0;
        while i < n
            invariant
                i <= n,
                n == self.effects.slot_count(),
                self.effects.wf(),
                forall|k: int| 0 <= k < r@.len() ==> self.effects.valid(#[trigger] r@[k]),
                forall|k: int| 0 <= k < r@.len() ==> (#[trigger] r@[k]).index < i,
                forall|h: Handle|
                    #[trigger] self.effects.valid(h) && h.index < i ==> r@.contains(h),
                forall|k1: int, k2: int| 0 <= k1 < k2 < r@.len() ==> r@[k1].index < r@[k2].index,
            decreases n - i,
        {
            let ghost pre = r@;
            let found = self.effects.handle_at(i);
            match found {
                Some(h) => {
                    r.push(h);
                    proof {
                        assert forall|h2: Handle|
                            #[trigger] self.effects.valid(h2) && h2.index < i + 1 implies
                            r@.contains(h2) by {
                            if h2.index < i {
                                let k = choose|k: int| 0 <= k < pre.len() && pre[k] == h2;
                                assert(r@[k] == h2);
                            } else {
                                self.effects.lemma_valid_same_index(h, h2);
                                assert(r@[r@.len() - 1] == h2);
                            }
                        }
                    }
                },
                None => {
                    proof {
                        assert forall|h2: Handle|
                            #[trigger] self.effects.valid(h2) && h2.index < i + 1 implies
                            r@.contains(h2) by {
                            if h2.index < i {
                            } else {
                                assert(h2.index != i);
                            }
                        }
                    }
                },
            }
            i = i + 1;
        }
        proof {
            assert forall|h: Handle| #[trigger] self.effects.valid(h) implies r@.contains(h) by {
                self.effects.lemma_valid_bounds(h);
            }
        }
        r
    }

    /// Total number of model effects.
    pub fn effects_count(&self) -> (n: usize)
        ensures
            n == self.effects.alive(),
    {
        self.effects.alive_count()
    }

    /// Pauses or resumes the engine; a paused engine plays nothing.
    pub fn pause(&mut self, pause: bool)
        ensures
            *final(self) == (SoundContext {
                paused: pause,
                native: final(self).native,
                ..*old(self)
            }),
            final(self).native == (BackendState { paused: pause, ..old(self).native }),
    {
        self.paused = pause;
        self.native.pause(pause);
    }

    /// Whether the model asked the engine to pause.
    pub fn is_paused(&self) -> (r: bool)
        ensures
            r == self.paused,
    {
        self.paused
    }

    /// Sets the distance model on the model and pushes it to the backend.
    pub fn set_distance_model(&mut self, distance_model: DistanceModel)
        ensures
            *final(self) == (SoundContext {
                distance_model,
                native: final(self).native,
                ..*old(self)
            }),
            final(self).native == (BackendState { distance_model, ..old(self).native }),
    {
        self.distance_model = distance_model;
        self.native.set_distance_model(distance_model);
    }

    /// The configured distance model.
    pub fn distance_model(&self) -> (m: DistanceModel)
        ensures
            m == self.distance_model,
    {
        self.distance_model
    }

    /// Normalizes a frequency in Hz against the backend sample rate.
    pub fn normalize_frequency(&self, f: u32) -> (r: i64)
        requires
            self.native.sample_rate >= 1,
        ensures
            r == (f as int) * (FP_ONE as int) / (self.native.sample_rate as int),
    {
        self.native.normalize_frequency(f)
    }

    /// Time the backend spent rendering the last full pass, in microseconds.
    pub fn full_render_duration(&self) -> (d: u64)
        ensures
            d == self.native.render_duration_us,
    {
        self.native.full_render_duration()
    }

    /// The renderer as the model describes it.
    pub fn renderer(&self) -> (r: Renderer)
        ensures
            r == self.renderer,
    {
        self.renderer
    }

    /// Pushes a renderer to the backend and returns the one it replaces.
    pub fn set_renderer(&mut self, renderer: Renderer) -> (prev: Renderer)
        ensures
            prev == old(self).native.renderer,
            *final(self) == (SoundContext { native: final(self).native, ..*old(self) }),
            final(self).native == (BackendState { renderer, ..old(self).native }),
    {
        self.native.set_renderer(renderer)
    }

    /// Sets the master gain on the model and pushes it to the backend, which
    /// clamps a negative value to zero.
    pub fn set_master_gain(&mut self, gain: i64)
        ensures
            *final(self) == (SoundContext {
                master_gain: gain,
                native: final(self).native,
                ..*old(self)
            }),
            final(self).native == (BackendState {
                master_gain: if gain < 0 { 0i64 } else { gain },
                ..old(self).native
            }),
    {
        self.master_gain = gain;
        self.native.set_master_gain(gain);
    }

    /// The master gain as the model last set it.
    pub fn master_gain(&self) -> (g: i64)
        ensures
            g == self.master_gain,
    {
        self.master_gain
    }

    /// Destroys every backend sound source; the model keeps its sounds, and
    /// their stale handles simply stop resolving.
    pub fn destroy_sound_sources(&mut self)
        requires
            old(self).wf(),
        ensures
            final(self).wf(),
            forall|h: Handle| !final(self).native.sources.valid(h),
            final(self).native.sources.alive() == 0,
            final(self).native.effects == old(self).native.effects,
            final(self).native == (BackendState {
                sources: final(self).native.sources,
                ..old(self).native
            }),
            *final(self) == (SoundContext { native: final(self).native, ..*old(self) }),
    {
        self.native.clear_sources();
    }

    /// Removes the backend source a sound was bound to; doing it again, or
    /// doing it for a sound that never had one, changes nothing.
    pub fn remove_sound(&mut self, sound: Handle)
        requires
            old(self).wf(),
        ensures
            final(self).wf(),
            !final(self).native.sources.valid(sound),
            forall|h2: Handle|
                h2 != sound ==> final(self).native.sources.valid(h2) == old(self).native.sources.valid(h2),
            forall|h2: Handle|
                h2 != sound && old(self).native.sources.valid(h2) ==> final(self).native.sources.at(h2) == old(self).native.sources.at(h2),
            !old(self).native.sources.valid(sound) ==> final(self).native.sources == old(self).native.sources,
            final(self).native.effects == old(self).native.effects,
            final(self).native == (BackendState {
                sources: final(self).native.sources,
                ..old(self).native
            }),
            *final(self) == (SoundContext { native: final(self).native, ..*old(self) }),
    {
        if self.native.is_valid_handle(sound) {
            let removed = self.native.remove_source(sound);
        }
    }

    /// Pushes a sound's current world position to its backend source, if one
    /// is bound; the backend saturates it at the world bounds.
    pub fn set_sound_position(&mut self, sound: &Sound)
        requires
            old(self).wf(),
        ensures
            final(self).wf(),
            final(self).native.effects == old(self).native.effects,
            *final(self) == (SoundContext { native: final(self).native, ..*old(self) }),
            final(self).native == (BackendState {
                sources: final(self).native.sources,
                ..old(self).native
            }),
            forall|h2: Handle|
                final(self).native.sources.valid(h2) == old(self).native.sources.valid(h2),
            !old(self).native.sources.valid(sound.native) ==> final(self).native.sources == old(self).native.sources,
            old(self).native.sources.valid(sound.native) ==> (final(self).native.sources.at(
                sound.native,
            ) == (SoundSource {
                position: crate::source::Vec3 {
                    x: clamp_spec(
                        sound.position.x as int,
                        -crate::fixed::POS_LIMIT as int,
                        crate::fixed::POS_LIMIT as int,
                    ) as i64,
                    y: clamp_spec(
                        sound.position.y as int,
                        -crate::fixed::POS_LIMIT as int,
                        crate::fixed::POS_LIMIT as int,
                    ) as i64,
                    z: clamp_spec(
                        sound.position.z as int,
                        -crate::fixed::POS_LIMIT as int,
                        crate::fixed::POS_LIMIT as int,
                    ) as i64,
                },
                ..old(self).native.sources.at(sound.native)
            }) && (forall|h2: Handle|
                h2 != sound.native && old(self).native.sources.valid(h2) ==> final(self).native.sources.at(h2) == old(self).native.sources.at(h2))),
    {
        if self.native.is_valid_handle(sound.native) {
            let src = self.native.source_mut(sound.native);
            src.set_position(sound.global_position());
        }
    }

    /// Pulls transient backend state (playback status and position) back
    /// into the model silently, so the pull cannot itself trigger a push on
    /// the next tick.
    pub fn sync_with_sound(&self, sound: &mut Sound)
        ensures
            self.native.sources.valid(old(sound).native) ==> *final(sound) == (Sound {
                status: SyncVar {
                    value: self.native.sources.at(old(sound).native).status,
                    dirty: old(sound).status.dirty,
                },
                playback_time: SyncVar {
                    value: self.native.sources.at(old(sound).native).playback_time,
                    dirty: old(sound).playback_time.dirty,
                },
                ..*old(sound)
            }),
            !self.native.sources.valid(old(sound).native) ==> *final(sound) == *old(sound),
    {
        let found = self.native.try_get_source(sound.native);
        match found {
            Some(source) => {
                let status = source.status();
                let playback_time = source.playback_time();
                sound.status.set_silent(status);
                sound.playback_time.set_silent(playback_time);
            },
            None => {},
        }
    }

    /// Finds the live model effect with the given name in the lowest slot.
    pub fn find_effect(&self, name: &String) -> (r: Option<Handle>)
        requires
            self.effects.wf(),
        ensures
            match r {
                Some(he) => is_first_match(*self, name@, he),
                None => forall|h2: Handle|
                    #[trigger] self.effects.valid(h2) ==> self.effects.at(h2).name_spec()
                        != name@,
            },
    {
        let n = self.effects.num_slots();
        let mut i: usize = 0;
        while i < n
            invariant
                i <= n,
                n == self.effects.slot_count(),
                self.effects.wf(),
                forall|h2: Handle|
                    #[trigger] self.effects.valid(h2) && h2.index < i ==> self.effects.at(
                        h2,
                    ).name_spec() != name@,
            decreases n - i,
        {
            let found = self.effects.handle_at(i);
            match found {
                Some(he) => {
                    let e = self.effects.borrow(he);
                    if *e.name() == *name {
                        proof {
                            assert forall|h2: Handle|
                                #[trigger] self.effects.valid(h2) && self.effects.at(
                                    h2,
                                ).name_spec() == name@ implies he.index <= h2.index by {
                                if h2.index < i {
                                    assert(self.effects.at(h2).name_spec() != name@);
                                }
                            }
                        }
                        return Some(he);
                    }
                    proof {
                        assert forall|h2: Handle|
                            #[trigger] self.effects.valid(h2) && h2.index < i + 1 implies
                            self.effects.at(h2).name_spec() != name@ by {
                            if h2.index == i {
                                self.effects.lemma_valid_same_index(h2, he);
                            }
                        }
                    }
                },
                None => {
                    proof {
                        assert forall|h2: Handle|
                            #[trigger] self.effects.valid(h2) && h2.index < i + 1 implies
                            self.effects.at(h2).name_spec() != name@ by {
                            if h2.index == i {
                                assert(false);
                            }
                        }
                    }
                },
            }
            i = i + 1;
        }
        proof {
            assert forall|h2: Handle| #[trigger] self.effects.valid(h2) implies self.effects.at(
                h2,
            ).name_spec() != name@ by {
                self.effects.lemma_valid_bounds(h2);
            }
        }
        None
    }



    /// One tick of effect reconciliation: every model effect without a
    /// backend counterpart gets one built from its current parameters, and
    /// every bound one has exactly its changed parameters pushed; see
    /// [`effect_reconciled`] for the per-effect statement.
    #[verifier::rlimit(100)]
    #[verifier::spinoff_prover]
    pub fn update(&mut self)
        requires
            old(self).wf(),
        ensures
            final(self).wf(),
            *final(self) == (SoundContext {
                effects: final(self).effects,
                native: final(self).native,
                ..*old(self)
            }),
            final(self).native == (BackendState {
                effects: final(self).native.effects,
                ..old(self).native
            }),
            final(self).effects.slot_count() == old(self).effects.slot_count(),
            forall|he: Handle| final(self).effects.valid(he) == old(self).effects.valid(he),
            forall|he: Handle|
                #[trigger] old(self).effects.valid(he) ==> effect_reconciled(
                    *old(self),
                    *final(self),
                    he,
                ),
            forall|ne: Handle|
                #[trigger] old(self).native.effects.valid(ne) ==> final(self).native.effects.valid(ne),
            forall|ne: Handle|
                #[trigger] old(self).native.effects.valid(ne) && (forall|he: Handle|
                    old(self).effects.valid(he) ==> old(self).effects.at(he).native_spec() != ne)
                    ==> final(self).native.effects.at(ne) == old(self).native.effects.at(ne),
            forall|ne: Handle|
                #[trigger] final(self).native.effects.valid(ne) && !old(self).native.effects.valid(
                    ne,
                ) ==> exists|he: Handle|
                    #![auto]
                    old(self).effects.valid(he) && !old(self).effects.at(
                        he,
                    ).native_spec().is_some_spec() && final(self).effects.at(he).native_spec()
                        == ne,
    {
        let n = self.effects.num_slots();
        let mut i: usize = 0;
        while i < n
            invariant
                i <= n,
                n == self.effects.slot_count(),
                self.wf(),
                *self == (SoundContext {
                    effects: self.effects,
                    native: self.native,
                    ..*old(self)
                }),
                self.native == (BackendState { effects: self.native.effects, ..old(self).native }),
                self.effects.slot_count() == old(self).effects.slot_count(),
                forall|he: Handle| self.effects.valid(he) == old(self).effects.valid(he),
                forall|he: Handle|
                    #[trigger] old(self).effects.valid(he) && he.index >= i ==> self.effects.at(
                        he,
                    ) == old(self).effects.at(he),
                forall|he: Handle|
                    #[trigger] old(self).effects.valid(he) && he.index < i ==> effect_reconciled(
                        *old(self),
                        *self,
                        he,
                    ),
                forall|ne: Handle|
                    #[trigger] old(self).native.effects.valid(ne) ==> self.native.effects.valid(
                        ne,
                    ),
                forall|ne: Handle|
                    #[trigger] old(self).native.effects.valid(ne) && (forall|he: Handle|
                        old(self).effects.valid(he) && he.index < i ==> old(self).effects.at(
                            he,
                        ).native_spec() != ne) ==> self.native.effects.at(ne) == old(
                        self,
                    ).native.effects.at(ne),
                forall|ne: Handle|
                    #[trigger] self.native.effects.valid(ne) && !old(self).native.effects.valid(
                        ne,
                    ) ==> exists|he: Handle|
                        #![auto]
                        old(self).effects.valid(he) && he.index < i && !old(self).effects.at(
                            he,
                        ).native_spec().is_some_spec() && self.effects.at(he).native_spec() == ne,
            decreases n - i,
        {
            let ghost pre = *self;
            let found = self.effects.handle_at(i);
            match found {
                Some(he) => {
                    let ghost ctx0 = *old(self);
                    let ghost me_g = (match ctx0.effects.at(he) {
                        Effect::Reverb(r) => r,
                    });
                    let e0 = self.effects.borrow(he);
                    let (ne, g, dr, wv, fcv, dt) = match e0 {
                        Effect::Reverb(r) => (r.native, r.gain, r.dry, r.wet, r.fc, r.decay_time),
                    };
                    let ghost touched: Handle;
                    if ne.is_some() {
                        proof {
                            assert forall|he2: Handle|
                                ctx0.effects.valid(he2) && he2.index < i implies ctx0.effects.at(
                                he2,
                            ).native_spec() != ne by {
                                if ctx0.effects.at(he2).native_spec().is_some_spec() {
                                    assert(he2 != he);
                                } else {
                                    assert(ctx0.effects.at(he2).native_spec().generation == 0);
                                }
                            }
                            assert(pre.native.effects.at(ne) == ctx0.native.effects.at(ne));
                            assert(pre.native.effects.valid(ne));
                        }
                        let nat_e = self.native.effects.borrow_mut(ne);
                        match nat_e {
                            crate::effect::Effect::Reverb(nr) => {
                                let ghost nr0 = *nr;
                                if dt.dirty {
                                    nr.set_decay_time(dt.value);
                                }
                                proof {
                                    assert(*nr == push_rv_decay(nr0, me_g));
                                }
                                let ghost r1 = push_rv_decay(nr0, me_g);
                                if g.dirty {
                                    nr.set_gain(g.value);
                                }
                                proof {
                                    assert(*nr == push_rv_gain(r1, me_g));
                                }
                                let ghost r2 = push_rv_gain(r1, me_g);
                                if wv.dirty {
                                    nr.set_wet(wv.value);
                                }
                                proof {
                                    assert(*nr == push_rv_wet(r2, me_g));
                                }
                                let ghost r3 = push_rv_wet(r2, me_g);
                                if dr.dirty {
                                    nr.set_dry(dr.value);
                                }
                                proof {
                                    assert(*nr == push_rv_dry(r3, me_g));
                                }
                                let ghost r4 = push_rv_dry(r3, me_g);
                                if fcv.dirty {
                                    nr.set_fc(fcv.value);
                                }
                                proof {
                                    assert(*nr == push_rv_fc(r4, me_g));
                                    assert(*nr == pushed_reverb(nr0, me_g));
                                    assert(nr.wf());
                                }
                                let me_mut = self.effects.borrow_mut(he);
                                match me_mut {
                                    Effect::Reverb(r) => {
                                        r.decay_time.mark_synced();
                                        r.gain.mark_synced();
                                        r.wet.mark_synced();
                                        r.dry.mark_synced();
                                        r.fc.mark_synced();
                                    },
                                }
                                proof {
                                    assert(self.effects.at(he) == Effect::Reverb(me_g.synced()));
                                }
                            },
                            crate::effect::Effect::Stub(_) => {},
                        }
                        proof {
                            touched = ne;
                            match ctx0.native.effects.at(me_g.native) {
                                crate::effect::Effect::Reverb(nr0b) => {
                                    assert(self.effects.at(he) == Effect::Reverb(me_g.synced()));
                                    assert(self.native.effects.at(me_g.native)
                                        == crate::effect::Effect::Reverb(
                                        pushed_reverb(nr0b, me_g),
                                    ));
                                },
                                crate::effect::Effect::Stub(s0b) => {
                                    assert(self.effects.at(he) == ctx0.effects.at(he));
                                    assert(self.native.effects.at(me_g.native)
                                        == ctx0.native.effects.at(me_g.native));
                                },
                            }
                            assert(effect_reconciled(ctx0, *self, he));
                        }
                    } else {
                        let base = BaseEffect::empty();
                        let mut nr = crate::reverb::Reverb::new(base);
                        nr.set_gain(g.value);
                        nr.set_fc(fcv.value);
                        nr.set_decay_time(dt.value);
                        nr.set_dry(dr.value);
                        nr.set_wet(wv.value);
                        proof {
                            assert(created_reverb(me_g, nr));
                            assert(nr.wf());
                        }
                        let nh = self.native.add_effect(crate::effect::Effect::Reverb(nr));
                        let me_mut = self.effects.borrow_mut(he);
                        match me_mut {
                            Effect::Reverb(r) => {
                                r.native = nh;
                            },
                        }
                        proof {
                            touched = nh;
                            assert(self.effects.at(he) == Effect::Reverb(
                                ReverbEffect { native: nh, ..me_g },
                            ));
                            self.native.effects.lemma_valid_bounds(nh);
                            assert(nh.is_some_spec());
                            if ctx0.native.effects.valid(nh) {
                                assert(pre.native.effects.valid(nh));
                            }
                            assert(!ctx0.native.effects.valid(nh));
                            assert(effect_reconciled(ctx0, *self, he));
                        }
                    }
                    proof {
                        // every backend entry but the touched one is as it was
                        assert forall|ne2: Handle|
                            pre.native.effects.valid(ne2) && ne2 != touched implies
                            self.native.effects.at(ne2) == pre.native.effects.at(ne2)
                            && self.native.effects.valid(ne2) by {}
                        // slots processed earlier stay reconciled
                        assert forall|he2: Handle|
                            #[trigger] ctx0.effects.valid(he2) && he2.index < i + 1 implies
                            effect_reconciled(ctx0, *self, he2) by {
                            if he2.index < i {
                                assert(effect_reconciled(ctx0, pre, he2));
                                let nat2 = pre.effects.at(he2).native_spec();
                                assert(nat2.is_some_spec());
                                assert(pre.native.effects.valid(nat2));
                                if ne.is_some_spec() {
                                    assert(pre.effects.at(he).native_spec() == ne);
                                    assert(nat2 != ne) by {
                                        assert(pre.effects.valid(he2) && pre.effects.valid(he));
                                        assert(pre.effects.at(he2).native_spec().is_some_spec());
                                        assert(pre.effects.at(he).native_spec().is_some_spec());
                                    }
                                } else {
                                    assert(nat2 != touched);
                                }
                                assert(self.effects.at(he2) == pre.effects.at(he2));
                                lemma_reconciled_frame(ctx0, pre, *self, he2);
                            } else {
                                self.effects.lemma_valid_same_index(he2, he);
                            }
                        }
                        // untouched backend effects are exactly as old
                        assert forall|ne2: Handle|
                            #[trigger] ctx0.native.effects.valid(ne2) && (forall|he2: Handle|
                                ctx0.effects.valid(he2) && he2.index < i + 1 ==> ctx0.effects.at(
                                    he2,
                                ).native_spec() != ne2) implies self.native.effects.at(ne2)
                            == ctx0.native.effects.at(ne2) by {
                            assert(ctx0.effects.at(he).native_spec() != ne2);
                            assert(forall|he2: Handle|
                                ctx0.effects.valid(he2) && he2.index < i ==> ctx0.effects.at(
                                    he2,
                                ).native_spec() != ne2);
                            assert(pre.native.effects.at(ne2) == ctx0.native.effects.at(ne2));
                            if ne.is_some_spec() {
                                assert(ne2 != touched);
                            } else {
                                assert(ne2 != touched);
                            }
                        }
                        // fresh backend effects all belong to slots processed so far
                        assert forall|ne2: Handle|
                            #[trigger] self.native.effects.valid(ne2)
                                && !ctx0.native.effects.valid(ne2) implies exists|he2: Handle|
                            #![auto]
                            ctx0.effects.valid(he2) && he2.index < i + 1 && !ctx0.effects.at(
                                he2,
                            ).native_spec().is_some_spec() && self.effects.at(he2).native_spec()
                                == ne2 by {
                            if pre.native.effects.valid(ne2) {
                                let he2 = choose|he2: Handle|
                                    #![auto]
                                    ctx0.effects.valid(he2) && he2.index < i && !ctx0.effects.at(
                                        he2,
                                    ).native_spec().is_some_spec() && pre.effects.at(
                                        he2,
                                    ).native_spec() == ne2;
                                assert(self.effects.at(he2) == pre.effects.at(he2));
                                assert(ctx0.effects.valid(he2) && he2.index < i + 1
                                    && !ctx0.effects.at(he2).native_spec().is_some_spec()
                                    && self.effects.at(he2).native_spec() == ne2);
                            } else {
                                assert(ne2 == touched);
                                assert(ctx0.effects.valid(he) && he.index < i + 1
                                    && !ctx0.effects.at(he).native_spec().is_some_spec()
                                    && self.effects.at(he).native_spec() == ne2);
                            }
                        }
                        // the context stays well-formed
                        assert forall|he2: Handle| #[trigger] self.effects.valid(he2) implies (
                        self.effects.at(he2).native_spec().is_some_spec()
                            ==> self.native.effects.valid(self.effects.at(he2).native_spec()))
                            by {
                            if he2 != he {
                                assert(self.effects.at(he2) == pre.effects.at(he2));
                            }
                        }
                        assert forall|h1: Handle, h2: Handle|
                            self.effects.valid(h1) && self.effects.valid(h2) && h1 != h2
                                && self.effects.at(h1).native_spec().is_some_spec()
                                && self.effects.at(h2).native_spec().is_some_spec() implies
                            self.effects.at(h1).native_spec() != self.effects.at(h2).native_spec()
                            by {
                            if h1 != he && h2 != he {
                                assert(self.effects.at(h1) == pre.effects.at(h1));
                                assert(self.effects.at(h2) == pre.effects.at(h2));
                            } else {
                                let other = if h1 == he {
                                    h2
                                } else {
                                    h1
                                };
                                assert(self.effects.at(other) == pre.effects.at(other));
                                assert(pre.native.effects.valid(
                                    pre.effects.at(other).native_spec(),
                                ));
                                if !ne.is_some_spec() {
                                    assert(self.effects.at(he).native_spec() == touched);
                                }
                            }
                        }
                        assert forall|eh: Handle| #[trigger] self.native.effects.valid(eh)
                            implies self.native.effects.at(eh).wf() by {
                            if eh != touched {
                                if pre.native.effects.valid(eh) {
                                    assert(self.native.effects.at(eh) == pre.native.effects.at(
                                        eh,
                                    ));
                                }
                            }
                        }
                        assert(self.wf());
                    }
                },
                None => {
                    proof {
                        assert forall|he: Handle|
                            #[trigger] old(self).effects.valid(he) && he.index < i + 1 implies
                            effect_reconciled(*old(self), *self, he) by {
                            if he.index == i {
                                assert(self.effects.valid(he));
                            }
                        }
                        assert forall|ne: Handle|
                            #[trigger] old(self).native.effects.valid(ne) && (forall|he: Handle|
                                old(self).effects.valid(he) && he.index < i + 1 ==> old(
                                    self,
                                ).effects.at(he).native_spec() != ne) implies
                            self.native.effects.at(ne) == old(self).native.effects.at(ne) by {
                            assert(forall|he: Handle|
                                old(self).effects.valid(he) && he.index < i ==> old(
                                    self,
                                ).effects.at(he).native_spec() != ne);
                        }
                    }
                },
            }
            i = i + 1;
        }
        proof {
            assert forall|he: Handle| #[trigger] old(self).effects.valid(he) implies
                effect_reconciled(*old(self), *final(self), he) by {
                self.effects.lemma_valid_bounds(he);
            }
            assert forall|ne: Handle|
                #[trigger] old(self).native.effects.valid(ne) && (forall|he: Handle|
                    old(self).effects.valid(he) ==> old(self).effects.at(he).native_spec() != ne)
                implies final(self).native.effects.at(ne) == old(self).native.effects.at(ne) by {
                assert(forall|he: Handle|
                    old(self).effects.valid(he) && he.index < n ==> old(self).effects.at(
                        he,
                    ).native_spec() != ne);
            }
        }
    }

    /// The rewiring step for one sound whose effect name changed: drops the
    /// sound's input from whichever effect held it, looks the new name up
    /// among the model effects and, where its backend counterpart is
    /// materialized, feeds the sound into it. An empty name means dry and
    /// completes at once; a name that does not resolve leaves the sound dry
    /// and pending, to be retried on a later tick.
    fn sync_rewire(&mut self, sound: &mut Sound)
        requires
            old(self).wf(),
            old(sound).effect_name.dirty,
        ensures
            final(self).wf(),
            final(self).effects == old(self).effects,
            *final(self) == (SoundContext { native: final(self).native, ..*old(self) }),
            final(self).native == (BackendState {
                effects: final(self).native.effects,
                ..old(self).native
            }),
            *final(sound) == (Sound {
                effect_name: SyncVar {
                    value: old(sound).effect_name.value,
                    dirty: !(old(sound).effect_name.value@.len() == 0 || rewire_done(
                        *old(self),
                        old(sound).effect_name.value@,
                    )),
                },
                ..*old(sound)
            }),
            forall|eh: Handle|
                final(self).native.effects.valid(eh) == old(self).native.effects.valid(eh),
            rewire_done(*old(self), old(sound).effect_name.value@) ==> exists|he: Handle|
                #![auto]
                is_first_match(*old(self), old(sound).effect_name.value@, he) && (forall|
                    eh: Handle,
                |
                    #[trigger] old(self).native.effects.valid(eh) ==> rewired_effect(
                        old(self).native.effects.at(eh),
                        final(self).native.effects.at(eh),
                        old(sound).native,
                        eh == old(self).effects.at(he).native_spec(),
                    )),
            !rewire_done(*old(self), old(sound).effect_name.value@) ==> forall|eh: Handle|
                #[trigger] old(self).native.effects.valid(eh) ==> rewired_effect(
                    old(self).native.effects.at(eh),
                    final(self).native.effects.at(eh),
                    old(sound).native,
                    false,
                ),
    {
        let mut target = Handle::none();
        let found = self.find_effect(sound.effect_name.get());
        match found {
            Some(he) => {
                let ne = self.effects.borrow(he).native();
                if self.native.effects.is_valid_handle(ne) {
                    target = ne;
                    proof {
                        self.native.effects.lemma_valid_bounds(ne);
                        assert(rewire_done(*old(self), old(sound).effect_name.value@));
                    }
                } else {
                    proof {
                        if rewire_done(*old(self), old(sound).effect_name.value@) {
                            let he2 = choose|he2: Handle|
                                #![auto]
                                is_first_match(*old(self), old(sound).effect_name.value@, he2)
                                    && old(self).native.effects.valid(
                                    old(self).effects.at(he2).native_spec(),
                                );
                            old(self).effects.lemma_valid_same_index(he, he2);
                        }
                    }
                }
            },
            None => {
                proof {
                    if rewire_done(*old(self), old(sound).effect_name.value@) {
                        let he2 = choose|he2: Handle|
                            #![auto]
                            is_first_match(*old(self), old(sound).effect_name.value@, he2) && old(
                                self,
                            ).native.effects.valid(old(self).effects.at(he2).native_spec());
                        assert(old(self).effects.valid(he2));
                    }
                }
            },
        }
        let ghost done = rewire_done(*old(self), old(sound).effect_name.value@);
        proof {
            assert(done == target.is_some_spec());
        }
        rewire_inputs(&mut self.native.effects, sound.native, target);
        proof {
            if !done {
                assert forall|eh: Handle| #[trigger] old(self).native.effects.valid(eh) implies
                    rewired_effect(
                    old(self).native.effects.at(eh),
                    self.native.effects.at(eh),
                    old(sound).native,
                    false,
                ) by {
                    old(self).native.effects.lemma_valid_bounds(eh);
                    assert(eh != target);
                }
            }
        }
        if target.is_some() || sound.effect_name.get().as_str().is_empty() {
            sound.effect_name.mark_synced();
        }
    }

    /// The lazy-creation step for one sound without a backend counterpart:
    /// builds a source from every current field, binds the returned handle
    /// on success, and feeds it into the effect its name designates, where
    /// that effect is materialized. On rejection the handle stays unbound
    /// and the tick moves on.
    fn sync_create(&mut self, sound: &mut Sound)
        requires
            old(self).wf(),
        ensures
            final(self).wf(),
            final(self).effects == old(self).effects,
            *final(self) == (SoundContext { native: final(self).native, ..*old(self) }),
            final(self).native == (BackendState {
                sources: final(self).native.sources,
                effects: final(self).native.effects,
                ..old(self).native
            }),
            !creation_builder(*old(sound)).params_ok() ==> (*final(sound) == *old(sound) && final(self).native == old(self).native),
            creation_builder(*old(sound)).params_ok() ==> ({
                &&& final(self).native.sources.valid(final(sound).native)
                &&& !old(self).native.sources.valid(final(sound).native)
                &&& creation_builder(*old(sound)).builds(
                    final(self).native.sources.at(final(sound).native),
                )
                &&& forall|h2: Handle|
                    #[trigger] old(self).native.sources.valid(h2) ==> final(self).native.sources.valid(h2) && final(self).native.sources.at(h2) == old(
                        self,
                    ).native.sources.at(h2)
                &&& forall|h2: Handle|
                    #[trigger] final(self).native.sources.valid(h2) && h2 != final(sound).native
                        ==> old(self).native.sources.valid(h2)
                &&& *final(sound) == (Sound {
                    native: final(sound).native,
                    effect_name: SyncVar {
                        value: old(sound).effect_name.value,
                        dirty: !(old(sound).effect_name.value@.len() == 0 || rewire_done(
                            *old(self),
                            old(sound).effect_name.value@,
                        )),
                    },
                    ..old(sound).synced()
                })
                &&& rewire_done(*old(self), old(sound).effect_name.value@) ==> ({
                    &&& forall|eh: Handle|
                        final(self).native.effects.valid(eh) == old(self).native.effects.valid(
                            eh,
                        )
                    &&& exists|he: Handle|
                        #![auto]
                        is_first_match(*old(self), old(sound).effect_name.value@, he) && ({
                            let ne = old(self).effects.at(he).native_spec();
                            &&& final(self).native.effects.at(ne).base_of().inputs@ == (if old(
                                self,
                            ).native.effects.at(ne).base_of().inputs@.len() < MAX_INPUTS {
                                old(self).native.effects.at(ne).base_of().inputs@.push(
                                    EffectInput {
                                        source: final(sound).native,
                                        filter: None,
                                        last_distance_gain: None,
                                    },
                                )
                            } else {
                                old(self).native.effects.at(ne).base_of().inputs@
                            })
                            &&& final(self).native.effects.at(ne) == old(
                                self,
                            ).native.effects.at(ne).with_base(
                                final(self).native.effects.at(ne).base_of(),
                            )
                            &&& final(self).native.effects.at(ne).base_of().gain == old(
                                self,
                            ).native.effects.at(ne).base_of().gain
                            &&& final(self).native.effects.at(ne).base_of().frame_samples@ == old(
                                self,
                            ).native.effects.at(ne).base_of().frame_samples@
                            &&& forall|eh: Handle|
                                old(self).native.effects.valid(eh) && eh != ne ==> final(self).native.effects.at(eh) == old(self).native.effects.at(eh)
                        })
                })
                &&& !rewire_done(*old(self), old(sound).effect_name.value@) ==> final(self).native.effects == old(self).native.effects
            }),
    {
        let builder = SoundSourceBuilder::new().with_gain(*sound.gain.get()).with_opt_buffer(
            *sound.buffer.get(),
        ).with_looping(*sound.looping.get()).with_panning(*sound.panning.get()).with_pitch(
            *sound.pitch.get(),
        ).with_status(*sound.status.get()).with_playback_time(
            *sound.playback_time.get(),
        ).with_position(sound.global_position()).with_radius(
            *sound.radius.get(),
        ).with_max_distance(*sound.max_distance.get()).with_rolloff_factor(
            *sound.rolloff_factor.get(),
        ).with_spatial_blend(*sound.spatial_blend.get());
        let built = builder.build();
        match built {
            Ok(source) => {
                let h = self.native.add_source(source);
                sound.native = h;
                sound.gain.mark_synced();
                sound.buffer.mark_synced();
                sound.looping.mark_synced();
                sound.panning.mark_synced();
                sound.pitch.mark_synced();
                sound.status.mark_synced();
                sound.playback_time.mark_synced();
                sound.radius.mark_synced();
                sound.max_distance.mark_synced();
                sound.rolloff_factor.mark_synced();
                sound.spatial_blend.mark_synced();
                let found = self.find_effect(sound.effect_name.get());
                match found {
                    Some(he) => {
                        let ne = self.effects.borrow(he).native();
                        if self.native.effects.is_valid_handle(ne) {
                            proof {
                                lemma_lookup_congruence(
                                    *self,
                                    *old(self),
                                    old(sound).effect_name.value@,
                                );
                                assert(rewire_done(*old(self), old(sound).effect_name.value@));
                            }
                            let e = self.native.effects.borrow_mut(ne);
                            let b = e.base_mut();
                            if b.inputs_ref().len() < MAX_INPUTS {
                                b.add_input(EffectInput::direct(h));
                            }
                            sound.effect_name.mark_synced();
                        } else {
                            proof {
                                lemma_lookup_congruence(
                                    *self,
                                    *old(self),
                                    old(sound).effect_name.value@,
                                );
                                if rewire_done(*old(self), old(sound).effect_name.value@) {
                                    let he2 = choose|he2: Handle|
                                        #![auto]
                                        is_first_match(
                                            *old(self),
                                            old(sound).effect_name.value@,
                                            he2,
                                        ) && old(self).native.effects.valid(
                                            old(self).effects.at(he2).native_spec(),
                                        );
                                    assert(is_first_match(
                                        *self,
                                        old(sound).effect_name.value@,
                                        he2,
                                    ));
                                    self.effects.lemma_valid_same_index(he, he2);
                                }
                            }
                            if sound.effect_name.get().as_str().is_empty() {
                                sound.effect_name.mark_synced();
                            } else {
                                sound.effect_name.dirty = true;
                            }
                        }
                    },
                    None => {
                        proof {
                            lemma_lookup_congruence(
                                *self,
                                *old(self),
                                old(sound).effect_name.value@,
                            );
                            if rewire_done(*old(self), old(sound).effect_name.value@) {
                                let he2 = choose|he2: Handle|
                                    #![auto]
                                    is_first_match(*old(self), old(sound).effect_name.value@, he2)
                                        && old(self).native.effects.valid(
                                        old(self).effects.at(he2).native_spec(),
                                    );
                                assert(is_first_match(*self, old(sound).effect_name.value@, he2));
                            }
                        }
                        if sound.effect_name.get().as_str().is_empty() {
                            sound.effect_name.mark_synced();
                        } else {
                            sound.effect_name.dirty = true;
                        }
                    },
                }
            },
            Err(_) => {
                // Creation failed on an illegal parameter combination: the
                // handle stays unbound and the sound stays silent until a
                // later tick's field changes make it satisfiable.
            },
        }
    }

    /// One tick of per-sound reconciliation: makes the backend hold an
    /// accurate live counterpart of the sound, or none at all.
    ///
    /// A sound that is disabled, or shut out by the override set, loses its
    /// backend source. A sound without a counterpart gets one built from
    /// every current field - or stays silent this tick if the fields are
    /// rejected. A sound with a counterpart has exactly its changed fields
    /// pushed, and a changed effect name moves its input from whichever
    /// effect held it to the newly named effect, as soon as that effect is
    /// materialized.
    #[verifier::rlimit(100)]
    pub fn sync_to_sound(
        &mut self,
        sound_handle: Handle,
        sound: &mut Sound,
        node_overrides: Option<&FxHashSet<(usize, u64)>>,
    )
        requires
            old(self).wf(),
            sync_admits(sound_handle, *old(sound), node_overrides)
                && old(sound).native.is_some_spec() ==> old(self).native.sources.valid(
                old(sound).native,
            ),
        ensures
            final(self).wf(),
            final(self).effects == old(self).effects,
            *final(self) == (SoundContext { native: final(self).native, ..*old(self) }),
            final(self).native == (BackendState {
                sources: final(self).native.sources,
                effects: final(self).native.effects,
                ..old(self).native
            }),
            // a sound that is shut out loses its backend counterpart
            !sync_admits(sound_handle, *old(sound), node_overrides) ==> ({
                &&& *final(sound) == (Sound {
                    native: Handle { index: 0, generation: 0 },
                    ..*old(sound)
                })
                &&& !final(self).native.sources.valid(old(sound).native)
                &&& forall|h2: Handle|
                    h2 != old(sound).native ==> final(self).native.sources.valid(h2) == old(self).native.sources.valid(h2)
                &&& forall|h2: Handle|
                    h2 != old(sound).native && old(self).native.sources.valid(h2) ==> final(self).native.sources.at(h2) == old(self).native.sources.at(h2)
                &&& (!old(self).native.sources.valid(old(sound).native) ==> final(self).native.sources == old(self).native.sources)
                &&& final(self).native.effects == old(self).native.effects
            }),
            // a bound sound has exactly its changed fields pushed
            sync_admits(sound_handle, *old(sound), node_overrides)
                && old(sound).native.is_some_spec() ==> ({
                &&& final(self).native.sources.at(old(sound).native) == pushed_source(
                    old(self).native.sources.at(old(sound).native),
                    *old(sound),
                )
                &&& forall|h2: Handle|
                    final(self).native.sources.valid(h2) == old(self).native.sources.valid(h2)
                &&& forall|h2: Handle|
                    h2 != old(sound).native && old(self).native.sources.valid(h2) ==> final(self).native.sources.at(h2) == old(self).native.sources.at(h2)
                &&& *final(sound) == (Sound {
                    effect_name: SyncVar {
                        value: old(sound).effect_name.value,
                        dirty: old(sound).effect_name.dirty && !(old(
                            sound,
                        ).effect_name.value@.len() == 0 || rewire_done(
                            *old(self),
                            old(sound).effect_name.value@,
                        )),
                    },
                    ..old(sound).synced()
                })
                &&& (old(sound).effect_name.dirty ==> forall|eh: Handle|
                    final(self).native.effects.valid(eh) == old(self).native.effects.valid(eh))
                &&& (old(sound).effect_name.dirty && rewire_done(
                    *old(self),
                    old(sound).effect_name.value@,
                ) ==> exists|he: Handle|
                    #![auto]
                    is_first_match(*old(self), old(sound).effect_name.value@, he) && (forall|
                        eh: Handle,
                    |
                        #[trigger] old(self).native.effects.valid(eh) ==> rewired_effect(
                            old(self).native.effects.at(eh),
                            final(self).native.effects.at(eh),
                            old(sound).native,
                            eh == old(self).effects.at(he).native_spec(),
                        )))
                &&& (old(sound).effect_name.dirty && !rewire_done(
                    *old(self),
                    old(sound).effect_name.value@,
                ) ==> forall|eh: Handle|
                    #[trigger] old(self).native.effects.valid(eh) ==> rewired_effect(
                        old(self).native.effects.at(eh),
                        final(self).native.effects.at(eh),
                        old(sound).native,
                        false,
                    ))
                &&& (!old(sound).effect_name.dirty ==> final(self).native.effects == old(
                    self,
                ).native.effects)
            }),
            // an unbound sound gets a counterpart built from every field, or
            // stays silent this tick if the combination is rejected
            sync_admits(sound_handle, *old(sound), node_overrides) && !old(sound).native.is_some_spec() ==> ({
                let b = creation_builder(*old(sound));
                &&& (!b.params_ok() ==> (*final(sound) == *old(sound) && final(self).native
                    == old(self).native))
                &&& (b.params_ok() ==> ({
                    &&& final(self).native.sources.valid(final(sound).native)
                    &&& !old(self).native.sources.valid(final(sound).native)
                    &&& b.builds(final(self).native.sources.at(final(sound).native))
                    &&& forall|h2: Handle|
                        #[trigger] old(self).native.sources.valid(h2) ==> final(self).native.sources.valid(h2) && final(self).native.sources.at(h2) == old(self).native.sources.at(h2)
                    &&& forall|h2: Handle|
                        #[trigger] final(self).native.sources.valid(h2) && h2 != final(sound).native ==> old(self).native.sources.valid(h2)
                    &&& *final(sound) == (Sound {
                        native: final(sound).native,
                        effect_name: SyncVar {
                            value: old(sound).effect_name.value,
                            dirty: !(old(sound).effect_name.value@.len() == 0 || rewire_done(
                                *old(self),
                                old(sound).effect_name.value@,
                            )),
                        },
                        ..old(sound).synced()
                    })
                    &&& (rewire_done(*old(self), old(sound).effect_name.value@) ==> ({
                        &&& forall|eh: Handle|
                            final(self).native.effects.valid(eh) == old(self).native.effects.valid(eh)
                        &&& exists|he: Handle|
                            #![auto]
                            is_first_match(*old(self), old(sound).effect_name.value@, he) && ({
                                let ne = old(self).effects.at(he).native_spec();
                                &&& final(self).native.effects.at(ne).base_of().inputs@ == (
                                if old(self).native.effects.at(ne).base_of().inputs@.len()
                                    < MAX_INPUTS {
                                    old(self).native.effects.at(ne).base_of().inputs@.push(
                                        EffectInput {
                                            source: final(sound).native,
                                            filter: None,
                                            last_distance_gain: None,
                                        },
                                    )
                                } else {
                                    old(self).native.effects.at(ne).base_of().inputs@
                                })
                                &&& final(self).native.effects.at(ne) == old(self).native.effects.at(ne).with_base(
                                    final(self).native.effects.at(ne).base_of(),
                                )
                                &&& final(self).native.effects.at(ne).base_of().gain == old(self).native.effects.at(ne).base_of().gain
                                &&& final(self).native.effects.at(ne).base_of().frame_samples@
                                    == old(self).native.effects.at(ne).base_of().frame_samples@
                                &&& forall|eh: Handle|
                                    old(self).native.effects.valid(eh) && eh != ne ==> final(self).native.effects.at(eh) == old(self).native.effects.at(eh)
                            })
                    }))
                    &&& (!rewire_done(*old(self), old(sound).effect_name.value@) ==> final(self).native.effects == old(self).native.effects)
                }))
            }),
    {
        let admitted = sound.is_globally_enabled() && (match node_overrides {
            None => true,
            Some(o) => node_set_contains(o, (sound_handle.index, sound_handle.generation)),
        });
        if !admitted {
            self.remove_sound(sound.native);
            sound.native = Handle::none();
            return;
        }
        if sound.native.is_some() {
            let ghost pre = *self;
            let src = self.native.source_mut(sound.native);
            push_sound_fields(src, sound);
            proof {
                assert(self.wf());
                lemma_lookup_congruence(*self, pre, old(sound).effect_name.value@);
            }
            // The backend guard is released here, before the lookup by
            // name, so the lookup and the rewiring take it as two separate
            // critical sections.
            if sound.effect_name.need_sync() {
                self.sync_rewire(sound);
            }
        } else {
            self.sync_create(sound);
        }
    }
}

/// Whether a sound takes part in synchronization this tick: it must be
/// globally enabled, and when an override set is given, it must contain the
/// owning node.
pub open spec fn sync_admits(
    sound_handle: Handle,
    snd: Sound,
    node_overrides: Option<&FxHashSet<(usize, u64)>>,
) -> bool {
    &&& snd.enabled
    &&& match node_overrides {
        None => true,
        Some(o) => node_set_contents(*o).contains((sound_handle.index, sound_handle.generation)),
    }
}

/// One push step: the buffer, if it changed.
pub open spec fn push_buffer(s: SoundSource, snd: Sound) -> SoundSource {
    if snd.buffer.dirty {
        SoundSource { buffer: snd.buffer.value, ..s }
    } else {
        s
    }
}

/// One push step: the maximum distance, if it changed; the backend saturates
/// it between the current radius and the world limit.
pub open spec fn push_max_distance(s: SoundSource, snd: Sound) -> SoundSource {
    if snd.max_distance.dirty {
        SoundSource {
            max_distance: clamp_spec(
                snd.max_distance.value as int,
                s.radius as int,
                DIST_LIMIT as int,
            ) as i64,
            ..s
        }
    } else {
        s
    }
}

/// One push step: the rolloff factor, if it changed.
pub open spec fn push_rolloff(s: SoundSource, snd: Sound) -> SoundSource {
    if snd.rolloff_factor.dirty {
        SoundSource {
            rolloff_factor: clamp_spec(
                snd.rolloff_factor.value as int,
                0,
                ROLLOFF_LIMIT as int,
            ) as i64,
            ..s
        }
    } else {
        s
    }
}

/// One push step: the radius, if it changed; saturated between one and the
/// maximum distance the source has at this point of the push order.
pub open spec fn push_radius(s: SoundSource, snd: Sound) -> SoundSource {
    if snd.radius.dirty {
        SoundSource {
            radius: clamp_spec(snd.radius.value as int, 1, s.max_distance as int) as i64,
            ..s
        }
    } else {
        s
    }
}

/// One push step: the playback position, if it changed.
pub open spec fn push_playback_time(s: SoundSource, snd: Sound) -> SoundSource {
    if snd.playback_time.dirty {
        SoundSource { playback_time: snd.playback_time.value, ..s }
    } else {
        s
    }
}

/// One push step: the pitch, if it changed.
pub open spec fn push_pitch(s: SoundSource, snd: Sound) -> SoundSource {
    if snd.pitch.dirty {
        SoundSource { pitch: if snd.pitch.value < 0 { 0i64 } else { snd.pitch.value }, ..s }
    } else {
        s
    }
}

/// One push step: looping, if it changed.
pub open spec fn push_looping(s: SoundSource, snd: Sound) -> SoundSource {
    if snd.looping.dirty {
        SoundSource { looping: snd.looping.value, ..s }
    } else {
        s
    }
}

/// One push step: the panning, if it changed.
pub open spec fn push_panning(s: SoundSource, snd: Sound) -> SoundSource {
    if snd.panning.dirty {
        SoundSource {
            panning: clamp_spec(snd.panning.value as int, -FP_ONE as int, FP_ONE as int) as i64,
            ..s
        }
    } else {
        s
    }
}

/// One push step: the gain, if it changed.
pub open spec fn push_gain(s: SoundSource, snd: Sound) -> SoundSource {
    if snd.gain.dirty {
        SoundSource { gain: if snd.gain.value < 0 { 0i64 } else { snd.gain.value }, ..s }
    } else {
        s
    }
}

/// One push step: the 2D/3D blend, if it changed.
pub open spec fn push_spatial_blend(s: SoundSource, snd: Sound) -> SoundSource {
    if snd.spatial_blend.dirty {
        SoundSource {
            spatial_blend: clamp_spec(snd.spatial_blend.value as int, 0, FP_ONE as int) as i64,
            ..s
        }
    } else {
        s
    }
}

/// One push step: the playback status, if it changed; a push to `Stopped`
/// also rewinds the source.
pub open spec fn push_status(s: SoundSource, snd: Sound) -> SoundSource {
    if snd.status.dirty {
        match snd.status.value {
            Status::Stopped => SoundSource { status: Status::Stopped, playback_time: 0, ..s },
            Status::Playing => SoundSource { status: Status::Playing, ..s },
            Status::Paused => SoundSource { status: Status::Paused, ..s },
        }
    } else {
        s
    }
}

/// The first half of the push order: buffer, distances, rolloff, radius and
/// playback position.
pub open spec fn pushed_source_head(s0: SoundSource, snd: Sound) -> SoundSource {
    push_playback_time(
        push_radius(push_rolloff(push_max_distance(push_buffer(s0, snd), snd), snd), snd),
        snd,
    )
}

/// The second half of the push order: pitch, looping, panning, gain, blend
/// and status.
pub open spec fn pushed_source_tail(s0: SoundSource, snd: Sound) -> SoundSource {
    push_status(
        push_spatial_blend(
            push_gain(push_panning(push_looping(push_pitch(s0, snd), snd), snd), snd),
            snd,
        ),
        snd,
    )
}

/// The backend source after every changed field of a sound was pushed, in
/// push order; unchanged fields are not touched.
pub open spec fn pushed_source(s0: SoundSource, snd: Sound) -> SoundSource {
    pushed_source_tail(pushed_source_head(s0, snd), snd)
}

/// The builder a lazy creation assembles from every current field of the
/// model.
pub open spec fn creation_builder(snd: Sound) -> SoundSourceBuilder {
    SoundSourceBuilder {
        gain: snd.gain.value,
        pitch: snd.pitch.value,
        looping: snd.looping.value,
        panning: snd.panning.value,
        spatial_blend: snd.spatial_blend.value,
        position: snd.position,
        radius: snd.radius.value,
        rolloff_factor: snd.rolloff_factor.value,
        max_distance: snd.max_distance.value,
        status: snd.status.value,
        playback_time: snd.playback_time.value,
        buffer: snd.buffer.value,
    }
}

/// Whether `he` is the model effect a name lookup finds: the live effect
/// with that name in the lowest slot.
pub open spec fn is_first_match(ctx: SoundContext, name: Seq<char>, he: Handle) -> bool {
    &&& ctx.effects.valid(he)
    &&& ctx.effects.at(he).name_spec() == name
    &&& forall|h2: Handle|
        #[trigger] ctx.effects.valid(h2) && ctx.effects.at(h2).name_spec() == name ==> he.index
            <= h2.index
}

/// Whether the rewiring step can complete this tick: the name resolves to a
/// model effect whose backend counterpart is already materialized. If not,
/// the sound stays dry and the step is retried on a later tick.
pub open spec fn rewire_done(ctx: SoundContext, name: Seq<char>) -> bool {
    exists|he: Handle|
        #![auto]
        is_first_match(ctx, name, he) && ctx.native.effects.valid(ctx.effects.at(he).native_spec())
}

/// Lookup and rewiring read only the effect tables, so any two contexts that
/// agree on them agree on what a lookup finds.
proof fn lemma_lookup_congruence(a: SoundContext, b: SoundContext, name: Seq<char>)
    requires
        a.effects == b.effects,
        b.native.effects == a.native.effects,
    ensures
        rewire_done(a, name) == rewire_done(b, name),
        forall|he: Handle| is_first_match(a, name, he) == is_first_match(b, name, he),
{
    assert forall|he: Handle| is_first_match(a, name, he) == is_first_match(b, name, he) by {
        if is_first_match(a, name, he) {
            assert forall|h2: Handle|
                #[trigger] b.effects.valid(h2) && b.effects.at(h2).name_spec() == name implies
                he.index <= h2.index by {
                assert(a.effects.valid(h2));
            }
            assert(is_first_match(b, name, he));
        }
        if is_first_match(b, name, he) {
            assert forall|h2: Handle|
                #[trigger] a.effects.valid(h2) && a.effects.at(h2).name_spec() == name implies
                he.index <= h2.index by {
                assert(b.effects.valid(h2));
            }
            assert(is_first_match(a, name, he));
        }
    }
    if rewire_done(a, name) {
        let he = choose|he: Handle|
            #![auto]
            is_first_match(a, name, he) && a.native.effects.valid(a.effects.at(he).native_spec());
        assert(is_first_match(b, name, he) && b.native.effects.valid(
            b.effects.at(he).native_spec(),
        ));
    }
    if rewire_done(b, name) {
        let he = choose|he: Handle|
            #![auto]
            is_first_match(b, name, he) && b.native.effects.valid(b.effects.at(he).native_spec());
        assert(is_first_match(a, name, he) && a.native.effects.valid(
            a.effects.at(he).native_spec(),
        ));
    }
}

/// One effect-push step: the decay time, if it changed.
pub open spec fn push_rv_decay(r: crate::reverb::Reverb, me: ReverbEffect) -> crate::reverb::Reverb {
    if me.decay_time.dirty {
        crate::reverb::Reverb { decay_time: me.decay_time.value, ..r }
    } else {
        r
    }
}

/// One effect-push step: the gain, if it changed; the backend clamps it at
/// zero.
pub open spec fn push_rv_gain(r: crate::reverb::Reverb, me: ReverbEffect) -> crate::reverb::Reverb {
    if me.gain.dirty {
        crate::reverb::Reverb {
            base: BaseEffect {
                gain: if me.gain.value < 0 { 0i64 } else { me.gain.value },
                ..r.base
            },
            ..r
        }
    } else {
        r
    }
}

/// One effect-push step: the wet share, if it changed.
pub open spec fn push_rv_wet(r: crate::reverb::Reverb, me: ReverbEffect) -> crate::reverb::Reverb {
    if me.wet.dirty {
        crate::reverb::Reverb {
            wet: clamp_spec(me.wet.value as int, 0, FP_ONE as int) as i64,
            ..r
        }
    } else {
        r
    }
}

/// One effect-push step: the dry share, if it changed.
pub open spec fn push_rv_dry(r: crate::reverb::Reverb, me: ReverbEffect) -> crate::reverb::Reverb {
    if me.dry.dirty {
        crate::reverb::Reverb {
            dry: clamp_spec(me.dry.value as int, 0, FP_ONE as int) as i64,
            ..r
        }
    } else {
        r
    }
}

/// One effect-push step: the cutoff, if it changed.
pub open spec fn push_rv_fc(r: crate::reverb::Reverb, me: ReverbEffect) -> crate::reverb::Reverb {
    if me.fc.dirty {
        crate::reverb::Reverb { fc: if me.fc.value < 0 { 0i64 } else { me.fc.value }, ..r }
    } else {
        r
    }
}

/// The backend reverb after every changed parameter of its model was pushed.
pub open spec fn pushed_reverb(
    r0: crate::reverb::Reverb,
    me: ReverbEffect,
) -> crate::reverb::Reverb {
    push_rv_fc(push_rv_dry(push_rv_wet(push_rv_gain(push_rv_decay(r0, me), me), me), me), me)
}

/// What a lazily created backend reverb holds: every current model
/// parameter, saturated at its legal range, over a fresh, empty base.
pub open spec fn created_reverb(me: ReverbEffect, nr: crate::reverb::Reverb) -> bool {
    &&& nr.base.gain == (if me.gain.value < 0 { 0int } else { me.gain.value as int })
    &&& nr.base.inputs@.len() == 0
    &&& nr.base.frame_samples@.len() == 0
    &&& nr.wet == clamp_spec(me.wet.value as int, 0, FP_ONE as int)
    &&& nr.dry == clamp_spec(me.dry.value as int, 0, FP_ONE as int)
    &&& nr.fc == (if me.fc.value < 0 { 0int } else { me.fc.value as int })
    &&& nr.decay_time == me.decay_time.value
}

/// How one tick of reconciliation relates a model effect slot in the old
/// context to the new one: a bound effect has its changed parameters pushed
/// and its flags cleared (where the backend counterpart is of the matching
/// kind), and an unbound one is bound to a freshly created counterpart.
pub open spec fn effect_reconciled(ctx0: SoundContext, ctx1: SoundContext, he: Handle) -> bool {
    match ctx0.effects.at(he) {
        Effect::Reverb(me) => {
            if me.native.is_some_spec() {
                match ctx0.native.effects.at(me.native) {
                    crate::effect::Effect::Reverb(nr0) => {
                        &&& ctx1.effects.at(he) == Effect::Reverb(me.synced())
                        &&& ctx1.native.effects.at(me.native) == crate::effect::Effect::Reverb(
                            pushed_reverb(nr0, me),
                        )
                    },
                    crate::effect::Effect::Stub(stub0) => {
                        &&& ctx1.effects.at(he) == ctx0.effects.at(he)
                        &&& ctx1.native.effects.at(me.native) == ctx0.native.effects.at(me.native)
                    },
                }
            } else {
                ctx1.effects.at(he) matches Effect::Reverb(m1) && m1 == (ReverbEffect {
                    native: m1.native,
                    ..me
                }) && m1.native.is_some_spec() && ctx1.native.effects.valid(m1.native)
                    && !ctx0.native.effects.valid(m1.native) && (ctx1.native.effects.at(m1.native)
                    matches crate::effect::Effect::Reverb(nr) && created_reverb(me, nr))
            }
        },
    }
}

/// Reconciliation of one slot is stable under later changes that leave the
/// slot and its backend counterpart alone.
proof fn lemma_reconciled_frame(ctx0: SoundContext, a: SoundContext, b: SoundContext, he: Handle)
    requires
        ctx0.effects.valid(he),
        effect_reconciled(ctx0, a, he),
        b.effects.at(he) == a.effects.at(he),
        b.native.effects.valid(a.effects.at(he).native_spec()) == a.native.effects.valid(
            a.effects.at(he).native_spec(),
        ),
        b.native.effects.at(a.effects.at(he).native_spec()) == a.native.effects.at(
            a.effects.at(he).native_spec(),
        ),
    ensures
        effect_reconciled(ctx0, b, he),
{
    match ctx0.effects.at(he) {
        Effect::Reverb(me) => {
            if me.native.is_some_spec() {
                assert(a.effects.at(he).native_spec() == me.native);
            }
        },
    }
}

/// One backend effect after the rewiring step for a sound bound to `src`:
/// inputs referencing the source are dropped from every effect, and the
/// newly named effect (`attach`) gains a fresh direct input at the end of
/// its render order - where its input list has room.
pub open spec fn rewired_effect(
    x0: crate::effect::Effect,
    x1: crate::effect::Effect,
    src: Handle,
    attach: bool,
) -> bool {
    let kept = x0.base_of().inputs@.filter(|inp: EffectInput| inp.source != src);
    &&& x1 == x0.with_base(x1.base_of())
    &&& x1.base_of().gain == x0.base_of().gain
    &&& x1.base_of().frame_samples@ == x0.base_of().frame_samples@
    &&& x1.base_of().inputs@ == (if attach && kept.len() < MAX_INPUTS {
        kept.push(EffectInput { source: src, filter: None, last_distance_gain: None })
    } else {
        kept
    })
}

/// A rewired effect is still well-formed.
proof fn lemma_rewired_wf(
    x0: crate::effect::Effect,
    x1: crate::effect::Effect,
    src: Handle,
    attach: bool,
)
    requires
        x0.wf(),
        rewired_effect(x0, x1, src, attach),
    ensures
        x1.wf(),
{
    let pred = |inp: EffectInput| inp.source != src;
    crate::effect::lemma_filter_inputs_wf(x0.base_of().inputs@, pred);
    let kept = x0.base_of().inputs@.filter(pred);
    assert(x1.base_of().gain == x0.base_of().gain);
    assert forall|t: int| 0 <= t < x1.base_of().inputs@.len() implies (#[trigger] x1.base_of()
        .inputs@[t]).wf() by {
        if t < kept.len() {
            assert(x1.base_of().inputs@[t] == kept[t]);
        }
    }
}

/// Drops every input referencing `src` from every backend effect and, where
/// `target` names a live backend effect, attaches a fresh direct input for
/// `src` to it.
fn rewire_inputs(effects: &mut Pool<crate::effect::Effect>, src: Handle, target: Handle)
    requires
        old(effects).wf(),
        forall|h: Handle| #[trigger] old(effects).valid(h) ==> old(effects).at(h).wf(),
    ensures
        final(effects).wf(),
        final(effects).slot_count() == old(effects).slot_count(),
        final(effects).alive() == old(effects).alive(),
        forall|h: Handle| final(effects).valid(h) == old(effects).valid(h),
        forall|h: Handle| #[trigger] final(effects).valid(h) ==> final(effects).at(h).wf(),
        forall|h: Handle|
            #[trigger] old(effects).valid(h) ==> rewired_effect(
                old(effects).at(h),
                final(effects).at(h),
                src,
                h == target,
            ),
{
    let n = effects.num_slots();
    let mut i: usize = 0;
    while i < n
        invariant
            i <= n,
            n == effects.slot_count(),
            effects.wf(),
            effects.alive() == old(effects).alive(),
            forall|h: Handle| effects.valid(h) == old(effects).valid(h),
            forall|h: Handle| #[trigger] effects.valid(h) ==> effects.at(h).wf(),
            forall|h: Handle|
                #[trigger] old(effects).valid(h) && h.index >= i ==> effects.at(h) == old(
                    effects,
                ).at(h),
            forall|h: Handle|
                #[trigger] old(effects).valid(h) && h.index < i ==> rewired_effect(
                    old(effects).at(h),
                    effects.at(h),
                    src,
                    h == target,
                ),
        decreases n - i,
    {
        let found = effects.handle_at(i);
        match found {
            Some(eh) => {
                let ghost x0 = effects.at(eh);
                let e = effects.borrow_mut(eh);
                let b = e.base_mut();
                b.remove_inputs_of(src);
                if eh == target {
                    if b.inputs_ref().len() < MAX_INPUTS {
                        b.add_input(EffectInput::direct(src));
                    }
                }
                proof {
                    assert(rewired_effect(x0, effects.at(eh), src, eh == target));
                    lemma_rewired_wf(x0, effects.at(eh), src, eh == target);
                    assert forall|h: Handle|
                        #[trigger] old(effects).valid(h) && h.index < i + 1 implies rewired_effect(
                        old(effects).at(h),
                        effects.at(h),
                        src,
                        h == target,
                    ) by {
                        if h.index == i {
                            effects.lemma_valid_same_index(h, eh);
                        }
                    }
                }
            },
            None => {
                proof {
                    assert forall|h: Handle|
                        #[trigger] old(effects).valid(h) && h.index < i + 1 implies rewired_effect(
                        old(effects).at(h),
                        effects.at(h),
                        src,
                        h == target,
                    ) by {
                        if h.index == i {
                            assert(effects.valid(h));
                        }
                    }
                }
            },
        }
        i = i + 1;
    }
    proof {
        assert forall|h: Handle| #[trigger] old(effects).valid(h) implies rewired_effect(
            old(effects).at(h),
            effects.at(h),
            src,
            h == target,
        ) by {
            effects.lemma_valid_bounds(h);
        }
    }
}

/// The first half of the push order on the live source.
#[verifier::rlimit(100)]
#[verifier::spinoff_prover]
fn push_source_values_head(src: &mut SoundSource, sound: &Sound)
    requires
        old(src).wf(),
    ensures
        *final(src) == pushed_source_head(*old(src), *sound),
        final(src).wf(),
{
    if sound.buffer.need_sync() {
        src.set_buffer(*sound.buffer.get());
    }
    proof {
        assert(*src == push_buffer(*old(src), *sound));
    }
    let ghost g1 = push_buffer(*old(src), *sound);
    if sound.max_distance.need_sync() {
        src.set_max_distance(*sound.max_distance.get());
    }
    proof {
        assert(*src == push_max_distance(g1, *sound));
    }
    let ghost g2 = push_max_distance(g1, *sound);
    if sound.rolloff_factor.need_sync() {
        src.set_rolloff_factor(*sound.rolloff_factor.get());
    }
    proof {
        assert(*src == push_rolloff(g2, *sound));
    }
    let ghost g3 = push_rolloff(g2, *sound);
    if sound.radius.need_sync() {
        src.set_radius(*sound.radius.get());
    }
    proof {
        assert(*src == push_radius(g3, *sound));
    }
    let ghost g4 = push_radius(g3, *sound);
    if sound.playback_time.need_sync() {
        src.set_playback_time(*sound.playback_time.get());
    }
    proof {
        assert(*src == push_playback_time(g4, *sound));
    }
}

/// The second half of the push order on the live source.
#[verifier::rlimit(100)]
#[verifier::spinoff_prover]
fn push_source_values_tail(src: &mut SoundSource, sound: &Sound)
    requires
        old(src).wf(),
    ensures
        *final(src) == pushed_source_tail(*old(src), *sound),
        final(src).wf(),
{
    if sound.pitch.need_sync() {
        src.set_pitch(*sound.pitch.get());
    }
    proof {
        assert(*src == push_pitch(*old(src), *sound));
    }
    let ghost g6 = push_pitch(*old(src), *sound);
    if sound.looping.need_sync() {
        src.set_looping(*sound.looping.get());
    }
    proof {
        assert(*src == push_looping(g6, *sound));
    }
    let ghost g7 = push_looping(g6, *sound);
    if sound.panning.need_sync() {
        src.set_panning(*sound.panning.get());
    }
    proof {
        assert(*src == push_panning(g7, *sound));
    }
    let ghost g8 = push_panning(g7, *sound);
    if sound.gain.need_sync() {
        src.set_gain(*sound.gain.get());
    }
    proof {
        assert(*src == push_gain(g8, *sound));
    }
    let ghost g9 = push_gain(g8, *sound);
    if sound.spatial_blend.need_sync() {
        src.set_spatial_blend(*sound.spatial_blend.get());
    }
    proof {
        assert(*src == push_spatial_blend(g9, *sound));
    }
    let ghost g10 = push_spatial_blend(g9, *sound);
    if sound.status.need_sync() {
        match *sound.status.get() {
            Status::Stopped => src.stop(),
            Status::Playing => src.play(),
            Status::Paused => src.pause(),
        }
    }
    proof {
        assert(*src == push_status(g10, *sound));
    }
}

/// Pushes every changed field of a sound to its backend source and clears
/// the change flags; the effect name is left for the rewiring step.
#[verifier::rlimit(60)]
fn push_sound_fields(src: &mut SoundSource, sound: &mut Sound)
    requires
        old(src).wf(),
    ensures
        *final(src) == pushed_source(*old(src), *old(sound)),
        final(src).wf(),
        *final(sound) == (Sound { effect_name: old(sound).effect_name, ..old(sound).synced() }),
{
    push_source_values_head(src, sound);
    push_source_values_tail(src, sound);
    sound.buffer.mark_synced();
    sound.max_distance.mark_synced();
    sound.rolloff_factor.mark_synced();
    sound.radius.mark_synced();
    sound.playback_time.mark_synced();
    sound.pitch.mark_synced();
    sound.looping.mark_synced();
    sound.panning.mark_synced();
    sound.gain.mark_synced();
    sound.spatial_blend.mark_synced();
    sound.status.mark_synced();
}

impl Default for SoundContext {
    /// A fresh context over a fresh backend session.
    fn default() -> (c: SoundContext)
        ensures
            c.wf(),
            c.master_gain == FP_ONE,
            !c.paused,
            forall|he: Handle| !c.effects.valid(he),
            forall|h: Handle| !c.native.sources.valid(h),
            forall|h: Handle| !c.native.effects.valid(h),
    {
        SoundContext::new()
    }
}

/// Idempotent reconciliation, source side: pushing a sound whose change
/// flags are all clear performs no change at all - the backend source comes
/// out exactly as it went in. Together with the contract of
/// [`SoundContext::sync_to_sound`], which clears every flag it pushes, a
/// second sync with no model change in between leaves the backend untouched.
pub proof fn lemma_push_idempotent(s0: SoundSource, snd: Sound)
    requires
        snd.all_synced(),
    ensures
        pushed_source(s0, snd) == s0,
{
}

/// Idempotent reconciliation, effect side: pushing an effect model whose
/// change flags are all clear leaves its backend counterpart exactly as it
/// was.
pub proof fn lemma_effect_push_idempotent(r0: crate::reverb::Reverb, me: ReverbEffect)
    requires
        me.all_synced(),
    ensures
        pushed_reverb(r0, me) == r0,
{
}

/// Effect rewiring: after the rewiring step, an effect that is not the newly
/// named one holds no input referencing the rewired source, and the newly
/// named one holds exactly one fresh direct input at the end of its render
/// order (where its list had room).
pub proof fn lemma_rewired_effect_inputs(
    x0: crate::effect::Effect,
    x1: crate::effect::Effect,
    src: Handle,
    attach: bool,
)
    requires
        rewired_effect(x0, x1, src, attach),
    ensures
        !attach ==> forall|t: int|
            0 <= t < x1.base_of().inputs@.len() ==> (#[trigger] x1.base_of().inputs@[t]).source
                != src,
        ({
            let kept = x0.base_of().inputs@.filter(|inp: EffectInput| inp.source != src);
            attach && kept.len() < MAX_INPUTS ==> x1.base_of().inputs@.len() == kept.len() + 1
                && x1.base_of().inputs@.last().source == src && (forall|t: int|
                0 <= t < x1.base_of().inputs@.len() - 1 ==> (#[trigger] x1.base_of()
                    .inputs@[t]).source != src)
        }),
{
    let pred = |inp: EffectInput| inp.source != src;
    let kept = x0.base_of().inputs@.filter(pred);
    assert forall|t: int| 0 <= t < kept.len() implies (#[trigger] kept[t]).source != src by {
        x0.base_of().inputs@.lemma_filter_pred(pred, t);
    }
}

/// Builds an override set from node handles: the set that admits exactly
/// those nodes to synchronization.
pub fn make_override_set(handles: &Vec<Handle>) -> (s: FxHashSet<(usize, u64)>)
    ensures
        node_set_contents(s) == handles@.map_values(
            |h: Handle| (h.index, h.generation),
        ).to_set(),
{
    let mut s = node_set_new();
    let mut i: usize = 0;
    while i < handles.len()
        invariant
            i <= handles@.len(),
            node_set_contents(s) == handles@.take(i as int).map_values(
                |h: Handle| (h.index, h.generation),
            ).to_set(),
        decreases handles@.len() - i,
    {
        let h = handles[i];
        node_set_insert(&mut s, (h.index, h.generation));
        proof {
            let f = |h: Handle| (h.index, h.generation);
            assert(handles@.take(i + 1).map_values(f) =~= handles@.take(i as int).map_values(
                f,
            ).push((h.index, h.generation)));
            assert(handles@.take(i as int).map_values(f).push((h.index, h.generation)).to_set()
                =~= handles@.take(i as int).map_values(f).to_set().insert(
                (h.index, h.generation),
            )) by {
                let sq = handles@.take(i as int).map_values(f);
                let x = (h.index, h.generation);
                assert forall|e: (usize, u64)| #[trigger] sq.push(x).to_set().contains(e) implies
                    sq.to_set().insert(x).contains(e) by {
                    let k = choose|k: int| 0 <= k < sq.push(x).len() && sq.push(x)[k] == e;
                    if k < sq.len() {
                        assert(sq[k] == e);
                    }
                }
                assert forall|e: (usize, u64)| #[trigger] sq.to_set().insert(x).contains(e)
                    implies sq.push(x).to_set().contains(e) by {
                    if e == x {
                        assert(sq.push(x)[sq.len() as int] == e);
                    } else {
                        let k = choose|k: int| 0 <= k < sq.len() && sq[k] == e;
                        assert(sq.push(x)[k] == e);
                    }
                }
            }
        }
        i = i + 1;
    }
    proof {
        assert(handles@.take(handles@.len() as int) =~= handles@);
    }
    s
}

} // verus!
