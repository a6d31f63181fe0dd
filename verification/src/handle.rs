//! References to entities that live in pools owned by the world.

use vstd::prelude::*;

verus! {

/// A non-owning reference to an entity: the slot it occupies in its pool and
/// the generation of the slot's occupant. Generation zero is never handed
/// out, so the handle with both numbers zero refers to nothing.
#[derive(Clone, Copy, PartialEq, Eq, Structural, Hash, Debug)]
pub struct Handle {
    pub index: u64,
    pub generation: u64,
}

impl Handle {
    /// The handle that refers to nothing.
    pub open spec fn spec_none() -> Handle {
        Handle { index: 0, generation: 0 }
    }

    pub open spec fn spec_is_none(self) -> bool {
        self.index == 0 && self.generation == 0
    }

    pub open spec fn spec_is_some(self) -> bool {
        !self.spec_is_none()
    }

    pub fn none() -> (h: Handle)
        ensures
            h == Self::spec_none(),
            h.spec_is_none(),
    {
        Handle { index: 0, generation: 0 }
    }

    pub fn new(index: u64, generation: u64) -> (h: Handle)
        ensures
            h == (Handle { index, generation }),
    {
        Handle { index, generation }
    }

    pub fn is_none(self) -> (r: bool)
        ensures
            r == self.spec_is_none(),
            r <==> self == Self::spec_none(),
    {
        self.index == 0 && self.generation == 0
    }

    pub fn is_some(self) -> (r: bool)
        ensures
            r == self.spec_is_some(),
            r <==> self != Self::spec_none(),
    {
        !self.is_none()
    }
}

} // verus!
