//! Village buildings: a door leaf blocks the doorway with its collider only
//! while the door is (almost) closed, and the hearth's fire texture is an
//! opaque RGBA image laid out row by row.

use vstd::prelude::*;

verus! {

/// What to do to a door leaf's collider this frame.
#[derive(Clone, Copy, Debug, PartialEq, Eq, Structural)]
pub enum ColliderChange {
    /// Re-enable the collider (the door has closed).
    Enable,
    /// Disable the collider (the door has opened).
    Disable,
    /// Leave it as it is.
    Keep,
}

/// Whether a leaf's collider is disabled after `change`.
pub open spec fn disabled_after(currently_disabled: bool, change: ColliderChange) -> bool {
    match change {
        ColliderChange::Enable => false,
        ColliderChange::Disable => true,
        ColliderChange::Keep => currently_disabled,
    }
}

/// The change that makes a leaf block the doorway exactly when
/// `should_block` (the door's swing is near closed), touching the collider
/// only when its state is wrong.
pub fn door_collider_change(should_block: bool, currently_disabled: bool) -> (change: ColliderChange)
    ensures
        disabled_after(currently_disabled, change) == !should_block,
        (change == ColliderChange::Keep) <==> (currently_disabled == !should_block),
        should_block && currently_disabled ==> change == ColliderChange::Enable,
        !should_block && !currently_disabled ==> change == ColliderChange::Disable,
{
    if should_block && currently_disabled {
        ColliderChange::Enable
    } else if !should_block && !currently_disabled {
        ColliderChange::Disable
    } else {
        ColliderChange::Keep
    }
}

/// Lays out an opaque RGBA8 image from its pixels' colours (row by row):
/// four bytes per pixel, red, green, blue, and an alpha of 255.
pub fn pack_opaque_rgba(rgb: &[(u8, u8, u8)]) -> (data: Vec<u8>)
    requires
        rgb@.len() * 4 <= usize::MAX,
    ensures
        data@.len() == 4 * rgb@.len(),
        forall|p: int|
            0 <= p < rgb@.len() ==> {
                &&& #[trigger] data@[4 * p] == rgb@[p].0
                &&& data@[4 * p + 1] == rgb@[p].1
                &&& data@[4 * p + 2] == rgb@[p].2
                &&& data@[4 * p + 3] == 255
            },
{
    let mut data: Vec<u8> = Vec::new();
    let mut p: usize = 0;
    while p < rgb.len()
        invariant
            p <= rgb@.len(),
            data@.len() == 4 * p,
            forall|q: int|
                0 <= q < p ==> {
                    &&& #[trigger] data@[4 * q] == rgb@[q].0
                    &&& data@[4 * q + 1] == rgb@[q].1
                    &&& data@[4 * q + 2] == rgb@[q].2
                    &&& data@[4 * q + 3] == 255
                },
        decreases rgb@.len() - p,
    {
        let (r, g, b) = rgb[p];
        let ghost prev = data@;
        data.push(r);
        data.push(g);
        data.push(b);
        data.push(255);
        proof {
            assert(data@ =~= prev + seq![r, g, b, 255u8]);
            assert forall|q: int| 0 <= q < p + 1 implies {
                &&& #[trigger] data@[4 * q] == rgb@[q].0
                &&& data@[4 * q + 1] == rgb@[q].1
                &&& data@[4 * q + 2] == rgb@[q].2
                &&& data@[4 * q + 3] == 255
            } by {
                if q < p {
                    assert(data@[4 * q] == prev[4 * q]);
                    assert(data@[4 * q + 1] == prev[4 * q + 1]);
                    assert(data@[4 * q + 2] == prev[4 * q + 2]);
                    assert(data@[4 * q + 3] == prev[4 * q + 3]);
                }
            }
        }
        p = p + 1;
    }
    data
}

} // verus!
