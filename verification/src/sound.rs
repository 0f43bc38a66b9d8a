//! The declarative model of a sound: the scene-side description that the
//! synchronizer reconciles into a live backend source. Every synchronized
//! field is change-tracked.

use vstd::prelude::*;

use crate::pool::Handle;
use crate::source::{Status, Vec3};
use crate::variable::SyncVar;

verus! {

/// A scene node's sound payload. Scalar fields are change-tracked so a sync
/// tick pushes only what changed; the position is derived from the node's
/// world transform every tick and is pushed separately.
#[derive(Clone, Debug)]
pub struct Sound {
    /// Name of the owning node, for diagnostics.
    pub name: String,
    /// Whether the node is globally enabled; a disabled sound has no backend
    /// counterpart.
    pub enabled: bool,
    pub gain: SyncVar<i64>,
    pub buffer: SyncVar<Option<u32>>,
    pub looping: SyncVar<bool>,
    pub panning: SyncVar<i64>,
    pub pitch: SyncVar<i64>,
    pub status: SyncVar<Status>,
    pub playback_time: SyncVar<u64>,
    pub radius: SyncVar<i64>,
    pub max_distance: SyncVar<i64>,
    pub rolloff_factor: SyncVar<i64>,
    pub spatial_blend: SyncVar<i64>,
    /// Name of the effect the sound feeds into; the empty string means dry.
    pub effect_name: SyncVar<String>,
    /// World position derived from the node transform.
    pub position: Vec3,
    /// Weak handle to the backend source, lazily bound on first sync.
    pub native: Handle,
}

impl Sound {
    /// Whether every change flag is clear: nothing waits to be pushed.
    pub open spec fn all_synced(self) -> bool {
        &&& !self.gain.dirty
        &&& !self.buffer.dirty
        &&& !self.looping.dirty
        &&& !self.panning.dirty
        &&& !self.pitch.dirty
        &&& !self.status.dirty
        &&& !self.playback_time.dirty
        &&& !self.radius.dirty
        &&& !self.max_distance.dirty
        &&& !self.rolloff_factor.dirty
        &&& !self.spatial_blend.dirty
        &&& !self.effect_name.dirty
    }

    /// The same sound with every change flag clear.
    pub open spec fn synced(self) -> Sound {
        Sound {
            gain: SyncVar { dirty: false, ..self.gain },
            buffer: SyncVar { dirty: false, ..self.buffer },
            looping: SyncVar { dirty: false, ..self.looping },
            panning: SyncVar { dirty: false, ..self.panning },
            pitch: SyncVar { dirty: false, ..self.pitch },
            status: SyncVar { dirty: false, ..self.status },
            playback_time: SyncVar { dirty: false, ..self.playback_time },
            radius: SyncVar { dirty: false, ..self.radius },
            max_distance: SyncVar { dirty: false, ..self.max_distance },
            rolloff_factor: SyncVar { dirty: false, ..self.rolloff_factor },
            spatial_blend: SyncVar { dirty: false, ..self.spatial_blend },
            effect_name: SyncVar { dirty: false, ..self.effect_name },
            ..self
        }
    }

    /// A fresh, enabled, stopped sound with default parameters and no backend
    /// counterpart.
    pub fn new(name: String) -> (s: Sound)
        ensures
            s.name == name,
            s.enabled,
            s.gain.value == crate::fixed::FP_ONE,
            s.pitch.value == crate::fixed::FP_ONE,
            s.buffer.value is None,
            !s.looping.value,
            s.panning.value == 0,
            s.status.value == Status::Stopped,
            s.playback_time.value == 0,
            s.radius.value == 1,
            s.max_distance.value == crate::fixed::DIST_LIMIT,
            s.rolloff_factor.value == crate::fixed::FP_ONE,
            s.spatial_blend.value == crate::fixed::FP_ONE,
            s.effect_name.value@ == Seq::<char>::empty(),
            s.position == (Vec3 { x: 0, y: 0, z: 0 }),
            !s.native.is_some_spec(),
            s.all_synced(),
    {
        Sound {
            name,
            enabled: true,
            gain: SyncVar::new(crate::fixed::FP_ONE),
            buffer: SyncVar::new(None),
            looping: SyncVar::new(false),
            panning: SyncVar::new(0),
            pitch: SyncVar::new(crate::fixed::FP_ONE),
            status: SyncVar::new(Status::Stopped),
            playback_time: SyncVar::new(0),
            radius: SyncVar::new(1),
            max_distance: SyncVar::new(crate::fixed::DIST_LIMIT),
            rolloff_factor: SyncVar::new(crate::fixed::FP_ONE),
            spatial_blend: SyncVar::new(crate::fixed::FP_ONE),
            effect_name: SyncVar::new(String::new()),
            position: Vec3 { x: 0, y: 0, z: 0 },
            native: Handle::none(),
        }
    }

    /// Whether the sound takes part in synchronization at all.
    pub fn is_globally_enabled(&self) -> (r: bool)
        ensures
            r == self.enabled,
    {
        self.enabled
    }

    /// Enables or disables the sound.
    pub fn set_enabled(&mut self, enabled: bool)
        ensures
            *final(self) == (Sound { enabled, ..*old(self) }),
    {
        self.enabled = enabled;
    }

    /// Sets the gain and remembers the change.
    pub fn set_gain(&mut self, gain: i64)
        ensures
            *final(self) == (Sound { gain: SyncVar { value: gain, dirty: true }, ..*old(self) }),
    {
        self.gain.set(gain);
    }

    /// Sets the pitch and remembers the change.
    pub fn set_pitch(&mut self, pitch: i64)
        ensures
            *final(self) == (Sound { pitch: SyncVar { value: pitch, dirty: true }, ..*old(self) }),
    {
        self.pitch.set(pitch);
    }

    /// Sets the buffer reference and remembers the change.
    pub fn set_buffer(&mut self, buffer: Option<u32>)
        ensures
            *final(self) == (Sound {
                buffer: SyncVar { value: buffer, dirty: true },
                ..*old(self)
            }),
    {
        self.buffer.set(buffer);
    }

    /// Sets whether playback loops and remembers the change.
    pub fn set_looping(&mut self, looping: bool)
        ensures
            *final(self) == (Sound {
                looping: SyncVar { value: looping, dirty: true },
                ..*old(self)
            }),
    {
        self.looping.set(looping);
    }

    /// Sets the panning and remembers the change.
    pub fn set_panning(&mut self, panning: i64)
        ensures
            *final(self) == (Sound {
                panning: SyncVar { value: panning, dirty: true },
                ..*old(self)
            }),
    {
        self.panning.set(panning);
    }

    /// Sets the playback status and remembers the change.
    pub fn set_status(&mut self, status: Status)
        ensures
            *final(self) == (Sound {
                status: SyncVar { value: status, dirty: true },
                ..*old(self)
            }),
    {
        self.status.set(status);
    }

    /// Sets the playback position and remembers the change.
    pub fn set_playback_time(&mut self, playback_time: u64)
        ensures
            *final(self) == (Sound {
                playback_time: SyncVar { value: playback_time, dirty: true },
                ..*old(self)
            }),
    {
        self.playback_time.set(playback_time);
    }

    /// Sets the radius and remembers the change.
    pub fn set_radius(&mut self, radius: i64)
        ensures
            *final(self) == (Sound {
                radius: SyncVar { value: radius, dirty: true },
                ..*old(self)
            }),
    {
        self.radius.set(radius);
    }

    /// Sets the maximum distance and remembers the change.
    pub fn set_max_distance(&mut self, max_distance: i64)
        ensures
            *final(self) == (Sound {
                max_distance: SyncVar { value: max_distance, dirty: true },
                ..*old(self)
            }),
    {
        self.max_distance.set(max_distance);
    }

    /// Sets the rolloff factor and remembers the change.
    pub fn set_rolloff_factor(&mut self, rolloff_factor: i64)
        ensures
            *final(self) == (Sound {
                rolloff_factor: SyncVar { value: rolloff_factor, dirty: true },
                ..*old(self)
            }),
    {
        self.rolloff_factor.set(rolloff_factor);
    }

    /// Sets the 2D/3D blend and remembers the change.
    pub fn set_spatial_blend(&mut self, spatial_blend: i64)
        ensures
            *final(self) == (Sound {
                spatial_blend: SyncVar { value: spatial_blend, dirty: true },
                ..*old(self)
            }),
    {
        self.spatial_blend.set(spatial_blend);
    }

    /// Names the effect the sound feeds into and remembers the change; the
    /// empty string means dry.
    pub fn set_effect_name(&mut self, effect_name: String)
        ensures
            *final(self) == (Sound {
                effect_name: SyncVar { value: final(self).effect_name.value, dirty: true },
                ..*old(self)
            }),
            final(self).effect_name.value@ == effect_name@,
    {
        self.effect_name.set(effect_name);
    }

    /// Moves the sound in world space.
    pub fn set_position(&mut self, position: Vec3)
        ensures
            *final(self) == (Sound { position, ..*old(self) }),
    {
        self.position = position;
    }

    /// The world position.
    pub fn global_position(&self) -> (p: Vec3)
        ensures
            p == self.position,
    {
        self.position
    }

    /// The handle of the backend counterpart, if one is bound.
    pub fn native(&self) -> (h: Handle)
        ensures
            h == self.native,
    {
        self.native
    }

    /// The node name.
    pub fn name(&self) -> (n: &String)
        ensures
            n@ == self.name@,
    {
        &self.name
    }
}

} // verus!
