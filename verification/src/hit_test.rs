//! Filtering of base-plane hit-test events.
//!
//! The picture-in-picture camera reports ray hits against the base image
//! plane. An event is only accepted when it comes from that camera, targets
//! the base plane, carries a position, and that position's depth is (within
//! tolerance) the base plane's; anything else — including hits against
//! entities a rebuild has since destroyed — is discarded for the frame. The
//! last accepted hit of a frame becomes the stored marker position.

use vstd::prelude::*;

use crate::units::{Vec3i, WORLD_UNIT};

verus! {

/// Tolerance, in coordinate units, for a hit to count as lying on the base
/// plane (0.001 world units).
pub const HIT_TOLERANCE: i64 = 1;

/// One hit-test event, as the engine's picking layer reports it.
#[derive(Clone, Copy, Debug)]
pub struct PlaneHit {
    /// The event came from the picture-in-picture camera.
    pub from_secondary_camera: bool,
    /// The event's target is the base image plane.
    pub target_is_main_plane: bool,
    /// World position of the intersection, if the backend provided one.
    pub position: Option<Vec3i>,
}

/// The depth lies within tolerance of the base plane's depth.
pub open spec fn near_base_depth(z: i64) -> bool {
    WORLD_UNIT - HIT_TOLERANCE <= z <= WORLD_UNIT + HIT_TOLERANCE
}

/// The event is accepted: right camera, right target, a position present,
/// and that position at the base plane's depth.
pub open spec fn hit_accepted(h: PlaneHit) -> bool {
    &&& h.from_secondary_camera
    &&& h.target_is_main_plane
    &&& h.position matches Some(p) && near_base_depth(p.z)
}

/// The stored marker position after processing one event.
pub open spec fn apply_hit(stored: Option<Vec3i>, h: PlaneHit) -> Option<Vec3i> {
    if hit_accepted(h) {
        h.position
    } else {
        stored
    }
}

/// The stored marker position after a frame's event queue, processed in
/// order: the last accepted event wins, and with none accepted the previous
/// marker is kept.
pub open spec fn folded_hits(stored: Option<Vec3i>, events: Seq<PlaneHit>) -> Option<Vec3i>
    decreases events.len(),
{
    if events.len() == 0 {
        stored
    } else {
        folded_hits(apply_hit(stored, events[0]), events.drop_first())
    }
}

/// Filters one event: its position when accepted, `None` otherwise.
pub fn accept_plane_hit(hit: &PlaneHit) -> (r: Option<Vec3i>)
    ensures
        hit_accepted(*hit) ==> r == hit.position,
        !hit_accepted(*hit) ==> r is None,
{
    if !hit.from_secondary_camera {
        return None;
    }
    if !hit.target_is_main_plane {
        return None;
    }
    match hit.position {
        None => None,
        Some(p) => {
            if WORLD_UNIT - HIT_TOLERANCE <= p.z && p.z <= WORLD_UNIT + HIT_TOLERANCE {
                Some(p)
            } else {
                None
            }
        },
    }
}

/// Folds a frame's hit events, in order, into the stored marker position.
pub fn update_stored_hit(stored: Option<Vec3i>, events: &Vec<PlaneHit>) -> (r: Option<Vec3i>)
    ensures
        r == folded_hits(stored, events@),
{
    let mut acc = stored;
    let mut i: usize = 0;
    proof {
        assert(events@.skip(0) =~= events@);
    }
    while i < events.len()
        invariant
            0 <= i <= events@.len(),
            folded_hits(acc, events@.skip(i as int)) == folded_hits(stored, events@),
        decreases events@.len() - i,
    {
        let ghost acc_before = acc;
        proof {
            assert(events@.skip(i as int)[0] == events@[i as int]);
            assert(events@.skip(i as int).drop_first() =~= events@.skip(i as int + 1));
        }
        match accept_plane_hit(&events[i]) {
            Some(p) => {
                acc = Some(p);
            },
            None => {},
        }
        proof {
            assert(acc == apply_hit(acc_before, events@[i as int]));
        }
        i += 1;
    }
    acc
}

} // verus!
