//! The messages through which a bot acts on the rest of the game.
//!
//! A bot never calls into other entities. Whatever it wants done to them it
//! appends to an outbound queue as a message, and the systems that own those
//! entities act on it in their own time.

use crate::effects::EffectKind;
use crate::geometry::{Orientation, Point3, Vector3};
use crate::handle::Handle;
use vstd::prelude::*;

verus! {

/// What a sound in the environment comes from.
#[derive(Copy, Clone, PartialEq, Eq, Structural, Hash, Debug)]
pub enum SoundKind {
    Impact,
    FootStep,
}

/// The part of a collider's shape that was touched.
#[derive(Copy, Clone, PartialEq, Eq, Structural, Hash, Debug)]
pub enum FeatureId {
    Vertex(u32),
    Edge(u32),
    Face(u32),
    Unknown,
}

/// A request to another system of the game.
#[derive(Copy, Clone, PartialEq, Eq, Structural, Debug)]
pub enum Message {
    /// Fire a weapon, along `direction` if one is given.
    ShootWeapon { weapon: Handle, direction: Option<Vector3> },
    /// Play the sound that belongs to a contact with the environment, such
    /// as a footstep on the surface that was stepped on. Gain and rolloff
    /// are in thousandths, the radius in millimetres.
    PlayEnvironmentSound {
        collider: Handle,
        feature: FeatureId,
        position: Point3,
        sound_kind: SoundKind,
        gain: u32,
        rolloff_factor: u32,
        radius: u32,
    },
    /// Take `amount` thousandths of a point from an actor's health.
    DamageActor {
        /// The actor to harm.
        actor: Handle,
        /// The actor that did it, or the handle to nothing if the harm came
        /// from no actor.
        who: Handle,
        amount: u32,
    },
    /// Create a visual effect.
    CreateEffect { kind: EffectKind, position: Point3, orientation: Orientation },
    /// Set the volume of the music, in thousandths.
    SetMusicVolume { volume: u32 },
}

} // verus!
