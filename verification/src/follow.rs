//! Transform following.
//!
//! The picture-in-picture camera is not a child of the generated graph's
//! parent; instead it copies selected placement components from a target
//! entity every frame.

use vstd::prelude::*;

use crate::units::Vec3i;

verus! {

/// The placement of an entity: where it sits and how it is scaled.
#[derive(Clone, Copy, PartialEq, Eq, Structural, Debug)]
pub struct Placement {
    pub translation: Vec3i,
    pub scale: Vec3i,
}

/// Which placement components a follower copies from its target each frame.
#[derive(Clone, Copy, PartialEq, Eq, Structural, Debug)]
pub struct FollowFlags {
    pub translation: bool,
    pub scale: bool,
}

/// Copies the selected placement components of the target onto the
/// follower; deselected components are left untouched.
pub fn propagate_follower(follower: &mut Placement, target: &Placement, flags: &FollowFlags)
    ensures
        final(follower).translation == (if flags.translation {
            target.translation
        } else {
            old(follower).translation
        }),
        final(follower).scale == (if flags.scale {
            target.scale
        } else {
            old(follower).scale
        }),
{
    if flags.translation {
        follower.translation = target.translation;
    }
    if flags.scale {
        follower.scale = target.scale;
    }
}

} // verus!
