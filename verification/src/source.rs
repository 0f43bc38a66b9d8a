//! Sound sources as the mixing engine owns them, together with the listener
//! and the distance-attenuation models.

use vstd::prelude::*;

use crate::fixed::{
    floor_sqrt, isqrt, lemma_div_bound, DIST_LIMIT, FP_ONE, POS_LIMIT, ROLLOFF_LIMIT,
    SAMPLE_LIMIT,
};

verus! {

/// A point in world space, in integer world units.
#[derive(Clone, Copy, Debug, PartialEq, Eq, Structural)]
pub struct Vec3 {
    pub x: i64,
    pub y: i64,
    pub z: i64,
}

impl Vec3 {
    /// Whether every coordinate lies within the world bounds.
    pub open spec fn wf(self) -> bool {
        &&& -POS_LIMIT <= self.x <= POS_LIMIT
        &&& -POS_LIMIT <= self.y <= POS_LIMIT
        &&& -POS_LIMIT <= self.z <= POS_LIMIT
    }

    /// The origin.
    pub fn zero() -> (v: Vec3)
        ensures
            v == (Vec3 { x: 0, y: 0, z: 0 }),
    {
        Vec3 { x: 0, y: 0, z: 0 }
    }
}

/// The squared distance between two points.
pub open spec fn sq_dist(a: Vec3, b: Vec3) -> int {
    (a.x - b.x) * (a.x - b.x) + (a.y - b.y) * (a.y - b.y) + (a.z - b.z) * (a.z - b.z)
}

/// Playback state of a source.
#[derive(Clone, Copy, Debug, PartialEq, Eq, Structural)]
pub enum Status {
    Stopped,
    Playing,
    Paused,
}

/// How gain decays with the distance between a source and the listener.
#[derive(Clone, Copy, Debug, PartialEq, Eq, Structural)]
pub enum DistanceModel {
    /// Distance leaves the gain untouched.
    NoAttenuation,
    /// Gain falls linearly from one at the radius to zero at the maximum
    /// distance (scaled by the rolloff factor).
    Linear,
    /// Gain falls with the inverse of the distance beyond the radius.
    Inverse,
    /// Gain falls exponentially with the ratio of distance to radius.
    Exponential,
}

/// The single listener of the engine.
#[derive(Clone, Copy, Debug, PartialEq, Eq, Structural)]
pub struct Listener {
    pub position: Vec3,
}

impl Listener {
    /// A listener at the origin.
    pub fn new() -> (l: Listener)
        ensures
            l.position == (Vec3 { x: 0, y: 0, z: 0 }),
    {
        Listener { position: Vec3 { x: 0, y: 0, z: 0 } }
    }
}

/// Clamps a coordinate into the world bounds.
fn clamp_coord(v: i64) -> (r: i64)
    ensures
        r as int == clamp_spec(v as int, -POS_LIMIT as int, POS_LIMIT as int),
{
    if v < -POS_LIMIT {
        -POS_LIMIT
    } else if v > POS_LIMIT {
        POS_LIMIT
    } else {
        v
    }
}

/// Clamps a value into `[lo, hi]`.
pub open spec fn clamp_spec(v: int, lo: int, hi: int) -> int {
    if v < lo {
        lo
    } else if v > hi {
        hi
    } else {
        v
    }
}

/// A fixed-point power of a base that is at most one: each step multiplies by
/// the base and rescales.
pub open spec fn pow_frac(base: int, e: nat) -> int
    decreases e,
{
    if e == 0 {
        FP_ONE as int
    } else {
        base * pow_frac(base, (e - 1) as nat) / (FP_ONE as int)
    }
}

/// A fixed-point power of a base at most one stays between zero and one.
pub proof fn lemma_pow_frac_bounds(base: int, e: nat)
    requires
        0 <= base <= FP_ONE,
    ensures
        0 <= pow_frac(base, e) <= FP_ONE,
    decreases e,
{
    if e != 0 {
        lemma_pow_frac_bounds(base, (e - 1) as nat);
        let p = pow_frac(base, (e - 1) as nat);
        assert(0 <= base * p <= (FP_ONE as int) * (FP_ONE as int)) by (nonlinear_arith)
            requires 0 <= base <= FP_ONE && 0 <= p <= FP_ONE;
        lemma_div_bound(base * p, FP_ONE as int, FP_ONE as int);
    }
}

/// The attenuation a distance model yields for a source `d` world units away
/// from the listener, as a fixed-point gain in `[0, FP_ONE]`. The distance is
/// first clamped between the source radius and its maximum distance.
pub open spec fn attenuation(
    model: DistanceModel,
    d: int,
    radius: int,
    rolloff: int,
    max_distance: int,
) -> int {
    let dc = clamp_spec(d, radius, max_distance);
    match model {
        DistanceModel::NoAttenuation => FP_ONE as int,
        DistanceModel::Linear => if max_distance <= radius {
            FP_ONE as int
        } else {
            clamp_spec(
                (FP_ONE as int) - rolloff * (dc - radius) / (max_distance - radius),
                0,
                FP_ONE as int,
            )
        },
        DistanceModel::Inverse => {
            let denom = radius * (FP_ONE as int) + rolloff * (dc - radius);
            if denom <= 0 {
                FP_ONE as int
            } else {
                clamp_spec(
                    radius * (FP_ONE as int) * (FP_ONE as int) / denom,
                    0,
                    FP_ONE as int,
                )
            }
        },
        DistanceModel::Exponential => {
            let base = if dc <= 0 {
                FP_ONE as int
            } else {
                radius * (FP_ONE as int) / dc
            };
            pow_frac(clamp_spec(base, 0, FP_ONE as int), (rolloff / (FP_ONE as int)) as nat)
        },
    }
}

/// Whatever the distance, every model yields a fixed-point gain between zero
/// and one: attenuation never amplifies.
pub proof fn lemma_attenuation_bounds(
    model: DistanceModel,
    d: int,
    radius: int,
    rolloff: int,
    max_distance: int,
)
    ensures
        0 <= attenuation(model, d, radius, rolloff, max_distance) <= FP_ONE,
{
    match model {
        DistanceModel::NoAttenuation => {},
        DistanceModel::Linear => {},
        DistanceModel::Inverse => {},
        DistanceModel::Exponential => {
            let dc = clamp_spec(d, radius, max_distance);
            let base = if dc <= 0 {
                FP_ONE as int
            } else {
                radius * (FP_ONE as int) / dc
            };
            lemma_pow_frac_bounds(
                clamp_spec(base, 0, FP_ONE as int),
                (rolloff / (FP_ONE as int)) as nat,
            );
        },
    }
}

/// A playable unit the engine owns: its control parameters, its playback
/// status, and the stereo samples it produced for the current frame.
#[derive(Clone, Debug)]
pub struct SoundSource {
    pub gain: i64,
    pub pitch: i64,
    pub looping: bool,
    pub panning: i64,
    pub spatial_blend: i64,
    pub position: Vec3,
    pub radius: i64,
    pub rolloff_factor: i64,
    pub max_distance: i64,
    pub status: Status,
    pub playback_time: u64,
    pub buffer: Option<u32>,
    pub frame_samples: Vec<(i64, i64)>,
}

impl SoundSource {
    /// The ranges every live source keeps its parameters in.
    pub open spec fn wf(self) -> bool {
        &&& self.gain >= 0
        &&& self.pitch >= 0
        &&& -FP_ONE <= self.panning <= FP_ONE
        &&& 0 <= self.spatial_blend <= FP_ONE
        &&& self.position.wf()
        &&& 1 <= self.radius <= self.max_distance <= DIST_LIMIT
        &&& 0 <= self.rolloff_factor <= ROLLOFF_LIMIT
        &&& forall|i: int|
            0 <= i < self.frame_samples@.len() ==> (
            -SAMPLE_LIMIT <= (#[trigger] self.frame_samples@[i]).0 <= SAMPLE_LIMIT
                && -SAMPLE_LIMIT <= self.frame_samples@[i].1 <= SAMPLE_LIMIT)
    }

    /// The fixed-point gain the configured distance model yields for this
    /// source and the given listener.
    pub open spec fn distance_gain(self, listener: Listener, model: DistanceModel) -> int {
        attenuation(
            model,
            floor_sqrt(sq_dist(self.position, listener.position)),
            self.radius as int,
            self.rolloff_factor as int,
            self.max_distance as int,
        )
    }

    /// Current playback status.
    pub fn status(&self) -> (s: Status)
        ensures
            s == self.status,
    {
        self.status
    }

    /// Starts playback.
    pub fn play(&mut self)
        ensures
            *final(self) == (SoundSource { status: Status::Playing, ..*old(self) }),
    {
        self.status = Status::Playing;
    }

    /// Pauses playback, keeping the position.
    pub fn pause(&mut self)
        ensures
            *final(self) == (SoundSource { status: Status::Paused, ..*old(self) }),
    {
        self.status = Status::Paused;
    }

    /// Stops playback and rewinds to the start.
    pub fn stop(&mut self)
        ensures
            *final(self) == (SoundSource {
                status: Status::Stopped,
                playback_time: 0,
                ..*old(self)
            }),
    {
        self.status = Status::Stopped;
        self.playback_time = 0;
    }

    /// Sets the source gain; negative gains are clamped to zero.
    pub fn set_gain(&mut self, gain: i64)
        ensures
            *final(self) == (SoundSource {
                gain: if gain < 0 { 0 } else { gain },
                ..*old(self)
            }),
    {
        self.gain = if gain < 0 {
            0
        } else {
            gain
        };
    }

    /// Sets the pitch; negative pitches are clamped to zero.
    pub fn set_pitch(&mut self, pitch: i64)
        ensures
            *final(self) == (SoundSource {
                pitch: if pitch < 0 { 0 } else { pitch },
                ..*old(self)
            }),
    {
        self.pitch = if pitch < 0 {
            0
        } else {
            pitch
        };
    }

    /// Sets whether playback loops.
    pub fn set_looping(&mut self, looping: bool)
        ensures
            *final(self) == (SoundSource { looping, ..*old(self) }),
    {
        self.looping = looping;
    }

    /// Sets the stereo panning, clamped into `[-FP_ONE, FP_ONE]`.
    pub fn set_panning(&mut self, panning: i64)
        ensures
            *final(self) == (SoundSource {
                panning: clamp_spec(panning as int, -FP_ONE as int, FP_ONE as int) as i64,
                ..*old(self)
            }),
    {
        self.panning = if panning < -FP_ONE {
            -FP_ONE
        } else if panning > FP_ONE {
            FP_ONE
        } else {
            panning
        };
    }

    /// Sets the 2D/3D blend factor, clamped into `[0, FP_ONE]`.
    pub fn set_spatial_blend(&mut self, blend: i64)
        ensures
            *final(self) == (SoundSource {
                spatial_blend: clamp_spec(blend as int, 0, FP_ONE as int) as i64,
                ..*old(self)
            }),
    {
        self.spatial_blend = if blend < 0 {
            0
        } else if blend > FP_ONE {
            FP_ONE
        } else {
            blend
        };
    }

    /// Sets the world position; each coordinate saturates at the world
    /// bounds.
    pub fn set_position(&mut self, position: Vec3)
        ensures
            *final(self) == (SoundSource {
                position: Vec3 {
                    x: clamp_spec(position.x as int, -POS_LIMIT as int, POS_LIMIT as int) as i64,
                    y: clamp_spec(position.y as int, -POS_LIMIT as int, POS_LIMIT as int) as i64,
                    z: clamp_spec(position.z as int, -POS_LIMIT as int, POS_LIMIT as int) as i64,
                },
                ..*old(self)
            }),
    {
        self.position = Vec3 {
            x: clamp_coord(position.x),
            y: clamp_coord(position.y),
            z: clamp_coord(position.z),
        };
    }

    /// Sets the radius of full gain, saturating between one and the current
    /// maximum distance.
    pub fn set_radius(&mut self, radius: i64)
        requires
            1 <= old(self).max_distance,
        ensures
            *final(self) == (SoundSource {
                radius: clamp_spec(radius as int, 1, old(self).max_distance as int) as i64,
                ..*old(self)
            }),
    {
        self.radius = if radius < 1 {
            1
        } else if radius > self.max_distance {
            self.max_distance
        } else {
            radius
        };
    }

    /// Sets the rolloff factor, saturating at its legal range.
    pub fn set_rolloff_factor(&mut self, rolloff_factor: i64)
        ensures
            *final(self) == (SoundSource {
                rolloff_factor: clamp_spec(rolloff_factor as int, 0, ROLLOFF_LIMIT as int) as i64,
                ..*old(self)
            }),
    {
        self.rolloff_factor = if rolloff_factor < 0 {
            0
        } else if rolloff_factor > ROLLOFF_LIMIT {
            ROLLOFF_LIMIT
        } else {
            rolloff_factor
        };
    }

    /// Sets the distance past which gain no longer falls, saturating between
    /// the current radius and the world limit.
    pub fn set_max_distance(&mut self, max_distance: i64)
        requires
            old(self).radius <= DIST_LIMIT,
        ensures
            *final(self) == (SoundSource {
                max_distance: clamp_spec(
                    max_distance as int,
                    old(self).radius as int,
                    DIST_LIMIT as int,
                ) as i64,
                ..*old(self)
            }),
    {
        self.max_distance = if max_distance < self.radius {
            self.radius
        } else if max_distance > DIST_LIMIT {
            DIST_LIMIT
        } else {
            max_distance
        };
    }

    /// Sets the playback position.
    pub fn set_playback_time(&mut self, playback_time: u64)
        ensures
            *final(self) == (SoundSource { playback_time, ..*old(self) }),
    {
        self.playback_time = playback_time;
    }

    /// Current playback position.
    pub fn playback_time(&self) -> (t: u64)
        ensures
            t == self.playback_time,
    {
        self.playback_time
    }

    /// Binds a sample buffer to the source.
    pub fn set_buffer(&mut self, buffer: Option<u32>)
        ensures
            *final(self) == (SoundSource { buffer, ..*old(self) }),
    {
        self.buffer = buffer;
    }

    /// Replaces the samples the source feeds into the current frame.
    pub fn set_frame_samples(&mut self, samples: Vec<(i64, i64)>)
        requires
            forall|i: int|
                0 <= i < samples@.len() ==> (-SAMPLE_LIMIT <= (#[trigger] samples@[i]).0
                    <= SAMPLE_LIMIT && -SAMPLE_LIMIT <= samples@[i].1 <= SAMPLE_LIMIT),
        ensures
            *final(self) == (SoundSource { frame_samples: final(self).frame_samples, ..*old(self) }),
            final(self).frame_samples@ == samples@,
    {
        self.frame_samples = samples;
    }

    /// The samples the source produced for the current frame.
    pub fn frame_samples(&self) -> (s: &Vec<(i64, i64)>)
        ensures
            s@ == self.frame_samples@,
    {
        &self.frame_samples
    }

    /// Computes the distance gain of this source for the given listener under
    /// the given distance model.
    pub fn calculate_distance_gain(&self, listener: &Listener, model: DistanceModel) -> (g: i64)
        requires
            self.wf(),
            listener.position.wf(),
        ensures
            g == self.distance_gain(*listener, model),
            0 <= g <= FP_ONE,
    {
        let dx = self.position.x - listener.position.x;
        let dy = self.position.y - listener.position.y;
        let dz = self.position.z - listener.position.z;
        proof {
            assert(dx * dx <= 4 * POS_LIMIT * POS_LIMIT && dy * dy <= 4 * POS_LIMIT * POS_LIMIT
                && dz * dz <= 4 * POS_LIMIT * POS_LIMIT && dx * dx >= 0 && dy * dy >= 0
                && dz * dz >= 0) by (nonlinear_arith)
                requires -2 * POS_LIMIT <= dx <= 2 * POS_LIMIT && -2 * POS_LIMIT <= dy <= 2
                    * POS_LIMIT && -2 * POS_LIMIT <= dz <= 2 * POS_LIMIT;
        }
        let sq: u64 = (dx * dx) as u64 + (dy * dy) as u64 + (dz * dz) as u64;
        let root = isqrt(sq);
        proof {
            assert(sq <= 12 * 1048576 * 1048576);
            assert(root < 4194304) by (nonlinear_arith)
                requires 0 <= root && root * root <= 12 * 1048576 * 1048576;
        }
        let d = root as i64;
        gain_for_distance(model, d, self.radius, self.rolloff_factor, self.max_distance)
    }
}

/// Computes `attenuation` on machine integers.
pub fn gain_for_distance(
    model: DistanceModel,
    d: i64,
    radius: i64,
    rolloff: i64,
    max_distance: i64,
) -> (g: i64)
    requires
        0 <= d <= DIST_LIMIT,
        1 <= radius <= max_distance <= DIST_LIMIT,
        0 <= rolloff <= ROLLOFF_LIMIT,
    ensures
        g == attenuation(model, d as int, radius as int, rolloff as int, max_distance as int),
        0 <= g <= FP_ONE,
{
    let dc: i64 = if d < radius {
        radius
    } else if d > max_distance {
        max_distance
    } else {
        d
    };
    match model {
        DistanceModel::NoAttenuation => FP_ONE,
        DistanceModel::Linear => {
            if max_distance <= radius {
                FP_ONE
            } else {
                proof {
                    assert(0 <= rolloff * (dc - radius) <= ROLLOFF_LIMIT * DIST_LIMIT)
                        by (nonlinear_arith)
                        requires 0 <= rolloff <= ROLLOFF_LIMIT && 0 <= dc - radius <= DIST_LIMIT;
                    lemma_div_bound(
                        rolloff * (dc - radius),
                        max_distance - radius,
                        ROLLOFF_LIMIT * DIST_LIMIT,
                    );
                }
                let drop: i64 = (((rolloff as u64) * ((dc - radius) as u64)) / ((max_distance
                    - radius) as u64)) as i64;
                let raw: i64 = FP_ONE - drop;
                if raw < 0 {
                    0
                } else if raw > FP_ONE {
                    FP_ONE
                } else {
                    raw
                }
            }
        },
        DistanceModel::Inverse => {
            proof {
                assert(0 <= rolloff * (dc - radius) <= ROLLOFF_LIMIT * DIST_LIMIT)
                    by (nonlinear_arith)
                    requires 0 <= rolloff <= ROLLOFF_LIMIT && 0 <= dc - radius <= DIST_LIMIT;
                assert(FP_ONE <= radius * FP_ONE <= DIST_LIMIT * FP_ONE) by (nonlinear_arith)
                    requires 1 <= radius <= DIST_LIMIT;
                assert(radius * FP_ONE * FP_ONE <= DIST_LIMIT * FP_ONE * FP_ONE)
                    by (nonlinear_arith)
                    requires FP_ONE <= radius * FP_ONE <= DIST_LIMIT * FP_ONE;
            }
            let denom: i64 = radius * FP_ONE + rolloff * (dc - radius);
            let num: i64 = radius * FP_ONE * FP_ONE;
            proof {
                assert(num <= denom * num) by (nonlinear_arith)
                    requires 1 <= denom && 0 <= num;
                lemma_div_bound(num as int, denom as int, num as int);
            }
            let raw: i64 = ((num as u64) / (denom as u64)) as i64;
            if raw > FP_ONE {
                FP_ONE
            } else {
                raw
            }
        },
        DistanceModel::Exponential => {
            let base: i64 = if dc <= 0 {
                FP_ONE
            } else {
                proof {
                    assert(radius * FP_ONE <= DIST_LIMIT * FP_ONE) by (nonlinear_arith)
                        requires 1 <= radius <= DIST_LIMIT;
                    assert(radius * FP_ONE <= dc * (radius * FP_ONE)) by (nonlinear_arith)
                        requires 1 <= dc && 0 <= radius * FP_ONE;
                    lemma_div_bound(radius * FP_ONE, dc as int, radius * FP_ONE);
                }
                ((radius as u64 * FP_ONE as u64) / (dc as u64)) as i64
            };
            let base_c: i64 = if base < 0 {
                0
            } else if base > FP_ONE {
                FP_ONE
            } else {
                base
            };
            let e: u64 = (rolloff / FP_ONE) as u64;
            let mut acc: i64 = FP_ONE;
            let mut k: u64 = 0;
            while k < e
                invariant
                    0 <= k <= e,
                    0 <= base_c <= FP_ONE,
                    acc == pow_frac(base_c as int, k as nat),
                    0 <= acc <= FP_ONE,
                decreases e - k,
            {
                proof {
                    lemma_pow_frac_bounds(base_c as int, (k + 1) as nat);
                    assert(0 <= base_c * acc <= FP_ONE * FP_ONE) by (nonlinear_arith)
                        requires 0 <= base_c <= FP_ONE && 0 <= acc <= FP_ONE;
                }
                acc = ((base_c as u64 * acc as u64) / (FP_ONE as u64)) as i64;
                k = k + 1;
            }
            acc
        },
    }
}

/// Why a source could not be built.
#[derive(Clone, Copy, Debug, PartialEq, Eq, Structural)]
pub enum SoundError {
    /// The requested parameter combination lies outside the legal ranges.
    InvalidParameters,
}

/// Builds a sound source from explicit parameters, validating the whole
/// combination in one shot.
#[derive(Clone, Debug)]
pub struct SoundSourceBuilder {
    pub gain: i64,
    pub pitch: i64,
    pub looping: bool,
    pub panning: i64,
    pub spatial_blend: i64,
    pub position: Vec3,
    pub radius: i64,
    pub rolloff_factor: i64,
    pub max_distance: i64,
    pub status: Status,
    pub playback_time: u64,
    pub buffer: Option<u32>,
}

impl SoundSourceBuilder {
    /// Whether the parameter combination is legal: exactly the ranges
    /// [`SoundSource::wf`] demands.
    pub open spec fn params_ok(self) -> bool {
        &&& self.gain >= 0
        &&& self.pitch >= 0
        &&& -FP_ONE <= self.panning <= FP_ONE
        &&& 0 <= self.spatial_blend <= FP_ONE
        &&& self.position.wf()
        &&& 1 <= self.radius <= self.max_distance <= DIST_LIMIT
        &&& 0 <= self.rolloff_factor <= ROLLOFF_LIMIT
    }

    /// Whether a source carries every parameter as the builder holds it and
    /// has produced no samples yet.
    pub open spec fn builds(self, s: SoundSource) -> bool {
        &&& s.gain == self.gain
        &&& s.pitch == self.pitch
        &&& s.looping == self.looping
        &&& s.panning == self.panning
        &&& s.spatial_blend == self.spatial_blend
        &&& s.position == self.position
        &&& s.radius == self.radius
        &&& s.rolloff_factor == self.rolloff_factor
        &&& s.max_distance == self.max_distance
        &&& s.status == self.status
        &&& s.playback_time == self.playback_time
        &&& s.buffer == self.buffer
        &&& s.frame_samples@ =~= Seq::<(i64, i64)>::empty()
    }

    /// A builder with default parameters: unit gain and pitch, centered, a
    /// fully spatial, stopped source at the origin.
    pub fn new() -> (b: SoundSourceBuilder)
        ensures
            b == (SoundSourceBuilder {
                gain: FP_ONE,
                pitch: FP_ONE,
                looping: false,
                panning: 0,
                spatial_blend: FP_ONE,
                position: Vec3 { x: 0, y: 0, z: 0 },
                radius: 1,
                rolloff_factor: FP_ONE,
                max_distance: DIST_LIMIT,
                status: Status::Stopped,
                playback_time: 0,
                buffer: None,
            }),
            b.params_ok(),
    {
        SoundSourceBuilder {
            gain: FP_ONE,
            pitch: FP_ONE,
            looping: false,
            panning: 0,
            spatial_blend: FP_ONE,
            position: Vec3 { x: 0, y: 0, z: 0 },
            radius: 1,
            rolloff_factor: FP_ONE,
            max_distance: DIST_LIMIT,
            status: Status::Stopped,
            playback_time: 0,
            buffer: None,
        }
    }

    /// Sets the gain.
    pub fn with_gain(self, gain: i64) -> (b: SoundSourceBuilder)
        ensures
            b == (SoundSourceBuilder { gain, ..self }),
    {
        SoundSourceBuilder { gain, ..self }
    }

    /// Sets the pitch.
    pub fn with_pitch(self, pitch: i64) -> (b: SoundSourceBuilder)
        ensures
            b == (SoundSourceBuilder { pitch, ..self }),
    {
        SoundSourceBuilder { pitch, ..self }
    }

    /// Sets whether playback loops.
    pub fn with_looping(self, looping: bool) -> (b: SoundSourceBuilder)
        ensures
            b == (SoundSourceBuilder { looping, ..self }),
    {
        SoundSourceBuilder { looping, ..self }
    }

    /// Sets the panning.
    pub fn with_panning(self, panning: i64) -> (b: SoundSourceBuilder)
        ensures
            b == (SoundSourceBuilder { panning, ..self }),
    {
        SoundSourceBuilder { panning, ..self }
    }

    /// Sets the 2D/3D blend factor.
    pub fn with_spatial_blend(self, spatial_blend: i64) -> (b: SoundSourceBuilder)
        ensures
            b == (SoundSourceBuilder { spatial_blend, ..self }),
    {
        SoundSourceBuilder { spatial_blend, ..self }
    }

    /// Sets the world position.
    pub fn with_position(self, position: Vec3) -> (b: SoundSourceBuilder)
        ensures
            b == (SoundSourceBuilder { position, ..self }),
    {
        SoundSourceBuilder { position, ..self }
    }

    /// Sets the radius of full gain.
    pub fn with_radius(self, radius: i64) -> (b: SoundSourceBuilder)
        ensures
            b == (SoundSourceBuilder { radius, ..self }),
    {
        SoundSourceBuilder { radius, ..self }
    }

    /// Sets the rolloff factor.
    pub fn with_rolloff_factor(self, rolloff_factor: i64) -> (b: SoundSourceBuilder)
        ensures
            b == (SoundSourceBuilder { rolloff_factor, ..self }),
    {
        SoundSourceBuilder { rolloff_factor, ..self }
    }

    /// Sets the maximum distance.
    pub fn with_max_distance(self, max_distance: i64) -> (b: SoundSourceBuilder)
        ensures
            b == (SoundSourceBuilder { max_distance, ..self }),
    {
        SoundSourceBuilder { max_distance, ..self }
    }

    /// Sets the initial playback status.
    pub fn with_status(self, status: Status) -> (b: SoundSourceBuilder)
        ensures
            b == (SoundSourceBuilder { status, ..self }),
    {
        SoundSourceBuilder { status, ..self }
    }

    /// Sets the initial playback position.
    pub fn with_playback_time(self, playback_time: u64) -> (b: SoundSourceBuilder)
        ensures
            b == (SoundSourceBuilder { playback_time, ..self }),
    {
        SoundSourceBuilder { playback_time, ..self }
    }

    /// Sets the sample buffer, if any.
    pub fn with_opt_buffer(self, buffer: Option<u32>) -> (b: SoundSourceBuilder)
        ensures
            b == (SoundSourceBuilder { buffer, ..self }),
    {
        SoundSourceBuilder { buffer, ..self }
    }

    /// Builds the source: succeeds exactly when the parameter combination is
    /// legal, and the built source then carries every parameter as given.
    pub fn build(self) -> (r: Result<SoundSource, SoundError>)
        ensures
            self.params_ok() ==> (r matches Ok(s) && self.builds(s) && s.wf()),
            !self.params_ok() ==> r == Err::<SoundSource, SoundError>(
                SoundError::InvalidParameters,
            ),
    {
        if self.gain >= 0 && self.pitch >= 0 && -FP_ONE <= self.panning && self.panning <= FP_ONE
            && 0 <= self.spatial_blend && self.spatial_blend <= FP_ONE && -POS_LIMIT
            <= self.position.x && self.position.x <= POS_LIMIT && -POS_LIMIT <= self.position.y
            && self.position.y <= POS_LIMIT && -POS_LIMIT <= self.position.z && self.position.z
            <= POS_LIMIT && 1 <= self.radius && self.radius <= self.max_distance
            && self.max_distance <= DIST_LIMIT && 0 <= self.rolloff_factor && self.rolloff_factor
            <= ROLLOFF_LIMIT {
            let s = SoundSource {
                gain: self.gain,
                pitch: self.pitch,
                looping: self.looping,
                panning: self.panning,
                spatial_blend: self.spatial_blend,
                position: self.position,
                radius: self.radius,
                rolloff_factor: self.rolloff_factor,
                max_distance: self.max_distance,
                status: self.status,
                playback_time: self.playback_time,
                buffer: self.buffer,
                frame_samples: Vec::new(),
            };
            Ok(s)
        } else {
            Err(SoundError::InvalidParameters)
        }
    }
}

} // verus!
