//! The sword pickup: the hero starts empty-handed, the sword stands in the
//! world, and a left click on it (highlighted, within reach) puts it in the
//! hero's hand, which enables combat.

use vstd::prelude::*;
use crate::menu::MenuState;
use crate::quest::{is_first_true, Visibility, visibility_of};

verus! {

/// Whether the hero holds the sword.
#[derive(Clone, Copy, Debug, PartialEq, Eq, Structural)]
pub struct HasSword(pub bool);

impl Default for HasSword {
    /// The hero starts without the sword.
    fn default() -> (s: Self)
        ensures
            s == (HasSword(false)),
            !s.0,
    {
        HasSword(false)
    }
}

/// The sword standing in the world, waiting to be picked up.
#[derive(Clone, Copy, Debug, PartialEq, Eq, Structural)]
pub struct SwordPickup {
    /// The cursor ray currently rests on this sword.
    pub highlighted: bool,
}

/// A sword can be picked up when it is highlighted and the player is within
/// reach of it (the second component).
pub open spec fn sword_pickable(p: (SwordPickup, bool)) -> bool {
    p.0.highlighted && p.1
}

/// Which swords of `pickups` can be picked up.
pub open spec fn pickable_swords(pickups: Seq<(SwordPickup, bool)>) -> Seq<bool> {
    pickups.map_values(|p: (SwordPickup, bool)| sword_pickable(p))
}

/// Pickup clicks are ignored when the sword is already held or the menu is
/// open.
pub open spec fn pickup_click_blocked(has_sword: HasSword, menu: MenuState, clicked: bool) -> bool {
    has_sword.0 || menu.open || !clicked
}

/// Re-evaluates the cursor highlight: only the pickup under the cursor ray
/// (`hit`, if the ray's first fixed collider is a pickup) is highlighted.
pub fn apply_pickup_hover(pickups: &mut Vec<SwordPickup>, hit: Option<usize>)
    ensures
        final(pickups)@.len() == old(pickups)@.len(),
        forall|i: int|
            0 <= i < final(pickups)@.len() ==> #[trigger] final(pickups)@[i].highlighted == (hit
                == Some(i as usize)),
{
    let mut i: usize = 0;
    while i < pickups.len()
        invariant
            i <= pickups@.len(),
            pickups@.len() == old(pickups)@.len(),
            forall|j: int|
                0 <= j < i ==> #[trigger] pickups@[j].highlighted == (hit == Some(j as usize)),
        decreases pickups@.len() - i,
    {
        let lit = match hit {
            Some(h) => h == i,
            None => false,
        };
        pickups.set(i, SwordPickup { highlighted: lit });
        i = i + 1;
    }
}

/// A left click on the sword: when the hero is empty-handed, the menu is
/// closed and the player clicked, the first pickup that is highlighted and
/// within reach is taken (its index is returned, for despawning) and the
/// hero now holds the sword.
pub fn click_pickup(
    has_sword: &mut HasSword,
    menu: &MenuState,
    clicked: bool,
    pickups: &[(SwordPickup, bool)],
) -> (taken: Option<usize>)
    ensures
        pickup_click_blocked(*old(has_sword), *menu, clicked) ==> taken is None,
        !pickup_click_blocked(*old(has_sword), *menu, clicked) ==> is_first_true(
            pickable_swords(pickups@),
            taken,
        ),
        final(has_sword).0 == (old(has_sword).0 || taken is Some),
        old(has_sword).0 || menu.open || !clicked ==> taken is None,
        taken matches Some(i) ==> {
            &&& i < pickups@.len()
            &&& pickups@[i as int].0.highlighted
            &&& pickups@[i as int].1
            &&& forall|j: int| 0 <= j < i ==> !(#[trigger] pickups@[j].0.highlighted && pickups@[j].1)
        },
        !old(has_sword).0 && !menu.open && clicked && taken is None ==> forall|j: int|
            0 <= j < pickups@.len() ==> !(#[trigger] pickups@[j].0.highlighted && pickups@[j].1),
{
    if has_sword.0 || menu.open || !clicked {
        return None;
    }
    let ghost flags = pickable_swords(pickups@);
    let mut i: usize = 0;
    while i < pickups.len()
        invariant
            i <= pickups@.len(),
            flags == pickable_swords(pickups@),
            flags.len() == pickups@.len(),
            *has_sword == *old(has_sword),
            !pickup_click_blocked(*old(has_sword), *menu, clicked),
            forall|j: int| 0 <= j < i ==> !flags[j],
        decreases pickups@.len() - i,
    {
        let (pickup, in_reach) = pickups[i];
        assert(flags[i as int] == sword_pickable(pickups@[i as int]));
        if pickup.highlighted && in_reach {
            has_sword.0 = true;
            proof {
                assert(is_first_true(flags, Some(i)));
                lemma_taken_sword_is_highlighted_in_reach(pickups@, Some(i));
            }
            return Some(i);
        }
        i = i + 1;
    }
    proof {
        assert(is_first_true(flags, None));
        lemma_taken_sword_is_highlighted_in_reach(pickups@, None);
    }
    None
}

/// The sword a click takes is highlighted and within reach, and every
/// pickup before it is not; when none is taken, no pickup is both.
pub proof fn lemma_taken_sword_is_highlighted_in_reach(
    pickups: Seq<(SwordPickup, bool)>,
    taken: Option<usize>,
)
    requires
        is_first_true(pickable_swords(pickups), taken),
    ensures
        taken matches Some(i) ==> {
            &&& i < pickups.len()
            &&& pickups[i as int].0.highlighted
            &&& pickups[i as int].1
            &&& forall|j: int| 0 <= j < i ==> !(#[trigger] pickups[j].0.highlighted && pickups[j].1)
        },
        taken is None ==> forall|j: int|
            0 <= j < pickups.len() ==> !(#[trigger] pickups[j].0.highlighted && pickups[j].1),
{
    assert(pickable_swords(pickups).len() == pickups.len());
    match taken {
        Some(i) => {
            assert(pickable_swords(pickups)[i as int]);
            assert forall|j: int| 0 <= j < i implies !(#[trigger] pickups[j].0.highlighted
                && pickups[j].1) by {
                assert(!pickable_swords(pickups)[j]);
            }
        },
        None => {
            assert forall|j: int| 0 <= j < pickups.len() implies !(#[trigger] pickups[j].0.highlighted
                && pickups[j].1) by {
                assert(!pickable_swords(pickups)[j]);
            }
        },
    }
}

/// Visibility of the sword meshes in the hero's right hand.
pub fn sword_in_hand_visibility(has_sword: &HasSword) -> (vis: Visibility)
    ensures
        vis == visibility_of(has_sword.0),
        vis == (if has_sword.0 {
            Visibility::Visible
        } else {
            Visibility::Hidden
        }),
{
    if has_sword.0 {
        Visibility::Visible
    } else {
        Visibility::Hidden
    }
}

} // verus!
