//! The declarative model of an effect: the description the synchronizer
//! reconciles into a live backend effect. Parameters are change-tracked.

use vstd::prelude::*;

use crate::pool::Handle;
use crate::variable::SyncVar;

verus! {

/// The model of a reverberation effect: its name (sounds connect by name),
/// the lazily bound backend handle, and its change-tracked parameters.
#[derive(Clone, Debug)]
pub struct ReverbEffect {
    /// The name sounds use to feed into this effect.
    pub name: String,
    /// Weak handle to the backend counterpart, lazily bound on first sync.
    pub native: Handle,
    pub gain: SyncVar<i64>,
    pub dry: SyncVar<i64>,
    pub wet: SyncVar<i64>,
    pub fc: SyncVar<i64>,
    pub decay_time: SyncVar<u64>,
}

impl ReverbEffect {
    /// Whether every change flag is clear.
    pub open spec fn all_synced(self) -> bool {
        &&& !self.gain.dirty
        &&& !self.dry.dirty
        &&& !self.wet.dirty
        &&& !self.fc.dirty
        &&& !self.decay_time.dirty
    }

    /// The same effect model with every change flag clear.
    pub open spec fn synced(self) -> ReverbEffect {
        ReverbEffect {
            gain: SyncVar { dirty: false, ..self.gain },
            dry: SyncVar { dirty: false, ..self.dry },
            wet: SyncVar { dirty: false, ..self.wet },
            fc: SyncVar { dirty: false, ..self.fc },
            decay_time: SyncVar { dirty: false, ..self.decay_time },
            ..self
        }
    }

    /// A fresh reverb model with unit gain, full wet and dry shares, and no
    /// backend counterpart.
    pub fn new(name: String) -> (e: ReverbEffect)
        ensures
            e.name == name,
            !e.native.is_some_spec(),
            e.gain.value == crate::fixed::FP_ONE,
            e.dry.value == crate::fixed::FP_ONE,
            e.wet.value == crate::fixed::FP_ONE,
            e.fc.value == 256,
            e.decay_time.value == 3000,
            e.all_synced(),
    {
        ReverbEffect {
            name,
            native: Handle::none(),
            gain: SyncVar::new(crate::fixed::FP_ONE),
            dry: SyncVar::new(crate::fixed::FP_ONE),
            wet: SyncVar::new(crate::fixed::FP_ONE),
            fc: SyncVar::new(256),
            decay_time: SyncVar::new(3000),
        }
    }

    /// Sets the effect gain and remembers the change; negative gains are
    /// clamped to zero.
    pub fn set_gain(&mut self, gain: i64)
        ensures
            *final(self) == (ReverbEffect {
                gain: SyncVar { value: if gain < 0 { 0i64 } else { gain }, dirty: true },
                ..*old(self)
            }),
    {
        self.gain.set(if gain < 0 {
            0
        } else {
            gain
        });
    }

    /// Current gain.
    pub fn gain(&self) -> (g: i64)
        ensures
            g == self.gain.value,
    {
        *self.gain.get()
    }

    /// Sets the dry share and remembers the change.
    pub fn set_dry(&mut self, dry: i64)
        ensures
            *final(self) == (ReverbEffect {
                dry: SyncVar { value: dry, dirty: true },
                ..*old(self)
            }),
    {
        self.dry.set(dry);
    }

    /// Current dry share.
    pub fn dry(&self) -> (v: i64)
        ensures
            v == self.dry.value,
    {
        *self.dry.get()
    }

    /// Sets the wet share and remembers the change.
    pub fn set_wet(&mut self, wet: i64)
        ensures
            *final(self) == (ReverbEffect {
                wet: SyncVar { value: wet, dirty: true },
                ..*old(self)
            }),
    {
        self.wet.set(wet);
    }

    /// Current wet share.
    pub fn wet(&self) -> (v: i64)
        ensures
            v == self.wet.value,
    {
        *self.wet.get()
    }

    /// Sets the cutoff frequency and remembers the change.
    pub fn set_fc(&mut self, fc: i64)
        ensures
            *final(self) == (ReverbEffect {
                fc: SyncVar { value: fc, dirty: true },
                ..*old(self)
            }),
    {
        self.fc.set(fc);
    }

    /// Current cutoff frequency.
    pub fn fc(&self) -> (v: i64)
        ensures
            v == self.fc.value,
    {
        *self.fc.get()
    }

    /// Sets the decay time and remembers the change.
    pub fn set_decay_time(&mut self, decay_time: u64)
        ensures
            *final(self) == (ReverbEffect {
                decay_time: SyncVar { value: decay_time, dirty: true },
                ..*old(self)
            }),
    {
        self.decay_time.set(decay_time);
    }

    /// Current decay time.
    pub fn decay_time(&self) -> (v: u64)
        ensures
            v == self.decay_time.value,
    {
        *self.decay_time.get()
    }
}

/// The closed set of model-side effect kinds.
#[derive(Clone, Debug)]
pub enum Effect {
    /// A reverberation effect.
    Reverb(ReverbEffect),
}

impl Effect {
    /// The effect's name, by which sounds connect to it.
    pub open spec fn name_spec(self) -> Seq<char> {
        match self {
            Effect::Reverb(r) => r.name@,
        }
    }

    /// The backend handle the model is bound to, if any.
    pub open spec fn native_spec(self) -> Handle {
        match self {
            Effect::Reverb(r) => r.native,
        }
    }

    /// The effect's name.
    pub fn name(&self) -> (n: &String)
        ensures
            n@ == self.name_spec(),
    {
        match self {
            Effect::Reverb(r) => &r.name,
        }
    }

    /// The backend handle the model is bound to, if any.
    pub fn native(&self) -> (h: Handle)
        ensures
            h == self.native_spec(),
    {
        match self {
            Effect::Reverb(r) => r.native,
        }
    }
}

} // verus!
