//! A verified audio mixing core: an arena of sound sources and effects, a
//! fixed-point mixing pipeline with click-free distance-gain ramps and
//! biquad input filters, and a model/backend synchronizer that reconciles a
//! declarative sound scene into the live mixing engine.
//!
//! The engine side lives in [`pool`] (the generation-checked arena),
//! [`source`] (sources, listener, distance attenuation), [`filter`] (biquad
//! input filters), [`effect`] and [`reverb`] (the effect kinds and the
//! per-frame render algorithm), and [`backend`] (the engine state the
//! real-time pass renders from). The declarative model lives in [`sound`],
//! [`model`] and [`variable`] (change-tracked fields), and [`context`] holds
//! the synchronizer that reconciles the two on every control tick. All
//! arithmetic is integer fixed-point, scaled as [`fixed`] lays down.

pub mod backend;
pub mod context;
pub mod effect;
pub mod filter;
pub mod fixed;
pub mod message;
pub mod model;
pub mod node_set;
pub mod pool;
pub mod reverb;
pub mod sound;
pub mod source;
pub mod util;
pub mod variable;
