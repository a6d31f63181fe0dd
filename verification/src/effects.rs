//! The visual effects that gameplay can ask for.

use vstd::prelude::*;

verus! {

/// A kind of short-lived particle effect. Each is authored along the z axis
/// and turned to the orientation it is created with.
#[derive(Copy, Clone, PartialEq, Eq, Structural, Hash, Debug)]
pub enum EffectKind {
    BulletImpact,
    BloodSpray,
    Smoke,
}

} // verus!
