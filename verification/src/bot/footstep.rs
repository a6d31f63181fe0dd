//! The sound of a bot's feet on the ground.

use crate::geometry::Point3;
use crate::handle::Handle;
use crate::message::{FeatureId, Message, SoundKind};
use vstd::prelude::*;

verus! {

/// A place where a ray met a collider.
#[derive(Clone, Copy, PartialEq, Eq, Structural, Debug)]
pub struct Intersection {
    pub collider: Handle,
    /// The part of the collider's shape that was met.
    pub feature: FeatureId,
    pub position: Point3,
}

/// How loud a footstep is and how far it carries: gain and rolloff in
/// thousandths, the radius in millimetres.
#[derive(Clone, Copy, PartialEq, Eq, Structural, Debug)]
pub struct SoundSettings {
    pub gain: u32,
    pub rolloff_factor: u32,
    pub radius: u32,
}

/// Intersection `i` is where the foot comes down: the first that is not
/// with the bot's own collider.
pub open spec fn is_footstep_contact(
    intersections: Seq<Intersection>,
    self_collider: Handle,
    i: int,
) -> bool {
    &&& 0 <= i < intersections.len()
    &&& intersections[i].collider != self_collider
    &&& forall|j: int| 0 <= j < i ==> (#[trigger] intersections[j]).collider == self_collider
}

/// The message that sounds a footstep on what was stepped on.
pub open spec fn spec_footstep_message(contact: Intersection, sound: SoundSettings) -> Message {
    Message::PlayEnvironmentSound {
        collider: contact.collider,
        feature: contact.feature,
        position: contact.position,
        sound_kind: SoundKind::FootStep,
        gain: sound.gain,
        rolloff_factor: sound.rolloff_factor,
        radius: sound.radius,
    }
}

/// Makes the message for one footfall from what a ray cast straight down
/// from above the bot has met, nearest first. The foot comes down on the
/// first thing that is not the bot itself. If there is no such thing, there
/// is no sound.
pub fn footstep_sound(
    intersections: &Vec<Intersection>,
    self_collider: Handle,
    sound: SoundSettings,
) -> (r: Option<Message>)
    ensures
        match r {
            Some(message) => exists|i: int|
                is_footstep_contact(intersections@, self_collider, i) && message
                    == spec_footstep_message(#[trigger] intersections@[i], sound),
            None => forall|i: int|
                0 <= i < intersections@.len() ==> (#[trigger] intersections@[i]).collider
                    == self_collider,
        },
{
    let mut i: usize = 0;
    while i < intersections.len()
        invariant
            i <= intersections.len(),
            forall|j: int| 0 <= j < i ==> (#[trigger] intersections@[j]).collider == self_collider,
        decreases intersections.len() - i,
    {
        let contact = intersections[i];
        if contact.collider != self_collider {
            assert(is_footstep_contact(intersections@, self_collider, i as int));
            return Some(
                Message::PlayEnvironmentSound {
                    collider: contact.collider,
                    feature: contact.feature,
                    position: contact.position,
                    sound_kind: SoundKind::FootStep,
                    gain: sound.gain,
                    rolloff_factor: sound.rolloff_factor,
                    radius: sound.radius,
                },
            );
        }
        i += 1;
    }
    None
}

} // verus!
