//! What one leg intends: where its foot rests by default and where it is
//! planted now.

use vstd::prelude::*;
use bevy::math::Vec3;

verus! {

/// The gait intent of one leg.
pub struct AnimatedLeg {
    /// The neutral foot placement, relative to the anchor of the leg's
    /// chain. It is set once.
    pub reposition_target_offset: Vec3,
    /// The point that the solver reaches for. Only a retarget changes it.
    pub current_target: Vec3,
}

impl AnimatedLeg {
    /// A leg with the given neutral offset, its foot planted at
    /// `current_target`.
    pub fn new(reposition_target_offset: Vec3, current_target: Vec3) -> (leg: Self)
        ensures
            leg.reposition_target_offset == reposition_target_offset,
            leg.current_target == current_target,
    {
        Self { reposition_target_offset, current_target }
    }

    /// Plants the foot at `target`.
    pub fn set_new_target(&mut self, target: Vec3)
        ensures
            final(self).current_target == target,
            final(self).reposition_target_offset == old(self).reposition_target_offset,
    {
        self.current_target = target;
    }
}

} // verus!
