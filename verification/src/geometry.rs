//! Axis-aligned bounding-box overlap testing and contact-side
//! classification.
//!
//! Two boxes overlap when they intersect with positive area on both axes;
//! boxes that merely touch do not collide.  The contact side is the face of
//! the second box that the first box struck: the axis with the smaller
//! penetration depth decides, with ties resolved in favour of the
//! horizontal axis, and an exactly centred offset resolving to `Left`
//! (horizontally) or `Bottom` (vertically).  The tie-break is fixed and
//! does not change from tick to tick.

use vstd::math::abs;
use vstd::prelude::*;

use crate::common::{collision_box_ok, position_ok, CollisionBox, ContactSide, Position};

verus! {

/// Whether the box `ba` centred at `pa` and the box `bb` centred at `pb`
/// intersect with positive area.
pub open spec fn overlaps(pa: Position, ba: CollisionBox, pb: Position, bb: CollisionBox) -> bool {
    &&& 2 * abs(pa.x - pb.x) < ba.width + bb.width
    &&& 2 * abs(pa.y - pb.y) < ba.height + bb.height
}

/// The face of the second box struck by the first, for overlapping boxes:
/// decided by the axis of smaller penetration, horizontal first on ties.
pub open spec fn contact_of(pa: Position, ba: CollisionBox, pb: Position, bb: CollisionBox)
    -> ContactSide {
    let dx = pa.x - pb.x;
    let dy = pa.y - pb.y;
    let pen_x = ba.width + bb.width - 2 * abs(dx);
    let pen_y = ba.height + bb.height - 2 * abs(dy);
    if pen_x <= pen_y {
        if dx <= 0 {
            ContactSide::Left
        } else {
            ContactSide::Right
        }
    } else {
        if dy <= 0 {
            ContactSide::Bottom
        } else {
            ContactSide::Top
        }
    }
}

/// Overlap test and contact-side classification: returns the struck face
/// of the second box, or `None` when the boxes do not overlap.
pub fn collide(pa: Position, ba: CollisionBox, pb: Position, bb: CollisionBox)
    -> (r: Option<ContactSide>)
    requires
        position_ok(pa),
        position_ok(pb),
        collision_box_ok(ba),
        collision_box_ok(bb),
    ensures
        r == (if overlaps(pa, ba, pb, bb) {
            Some(contact_of(pa, ba, pb, bb))
        } else {
            None::<ContactSide>
        }),
{
    let dx: i64 = pa.x - pb.x;
    let dy: i64 = pa.y - pb.y;
    let adx: i64 = if dx >= 0 {
        dx
    } else {
        -dx
    };
    let ady: i64 = if dy >= 0 {
        dy
    } else {
        -dy
    };
    let wsum: i64 = ba.width + bb.width;
    let hsum: i64 = ba.height + bb.height;
    if 2 * adx < wsum && 2 * ady < hsum {
        let pen_x: i64 = wsum - 2 * adx;
        let pen_y: i64 = hsum - 2 * ady;
        if pen_x <= pen_y {
            if dx <= 0 {
                Some(ContactSide::Left)
            } else {
                Some(ContactSide::Right)
            }
        } else {
            if dy <= 0 {
                Some(ContactSide::Bottom)
            } else {
                Some(ContactSide::Top)
            }
        }
    } else {
        None
    }
}

} // verus!
