//! A particle system core: spawn accumulation and Verlet integration over a
//! fixed-capacity particle pool, and an extraction -> batching -> draw pipeline
//! that turns live particle state into a minimal set of draw calls.
//!
//! All real quantities (time, coordinates, colors) are fixed-point integers
//! with [`fx::FP`] as the unit, so every stage is deterministic and verified.
//! The host supplies scene data (visibility, transforms, texture handles) as
//! plain values and performs the actual GPU submission from the records this
//! crate produces.

pub mod fx;
pub mod math;
pub mod pool;
pub mod extract;
pub mod sort;
pub mod gpu;
pub mod batch;
pub mod pipeline;
pub mod queue;
pub mod draw;
pub mod lens;

use vstd::prelude::*;
use crate::pool::{SpawnState, Spawner, UpdateState, Updater};

verus! {

/// The particle-effect component of one emitting entity: its spawner and
/// its updater configuration.
#[derive(Clone, Copy, Debug)]
pub struct ParticlesEffect {
    pub spawner: Spawner,
    pub updater: Updater,
}

impl ParticlesEffect {
    /// The bundle that configures one emitting entity: the effect, a fresh
    /// spawn accumulator, and a pool of `capacity` inert slots.
    pub fn new_bundle(capacity: usize, spawner: Spawner, updater: Updater) -> (r: (
        ParticlesEffect,
        SpawnState,
        UpdateState,
    ))
        requires
            capacity <= fx::CAP_MAX,
        ensures
            r.0.spawner == spawner,
            r.0.updater == updater,
            r.1 == (SpawnState { count: 0 }),
            r.2.wf(),
            r.2.used == 0,
            r.2.buffer@.len() == capacity,
            forall|i: int| 0 <= i < capacity ==> r.2.buffer@[i] == pool::zero_motion(),
    {
        (ParticlesEffect { spawner, updater }, SpawnState::default(), UpdateState::new(capacity))
    }
}

/// Playback state of an animator.
#[derive(PartialEq, Eq, Debug, Clone, Copy, Structural)]
pub enum AnimatorState {
    /// The animation is playing.
    Playing,
    /// The animation is paused or stopped.
    Paused,
}

impl AnimatorState {
    /// The opposite playback state.
    pub fn not(self) -> (r: Self)
        ensures
            self is Playing <==> r is Paused,
    {
        match self {
            AnimatorState::Paused => AnimatorState::Playing,
            AnimatorState::Playing => AnimatorState::Paused,
        }
    }
}

} // verus!
