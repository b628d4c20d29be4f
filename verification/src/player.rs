//! What the keyboard asks of the player character this frame. The camera
//! axes, speeds and accelerations that turn this into motion are applied
//! by the movement system.

use vstd::prelude::*;

verus! {

/// The movement keys held (or, for `jump`, just pressed) this frame.
#[derive(Clone, Copy, Debug, PartialEq, Eq, Structural)]
pub struct MoveKeys {
    /// W, Z or Up.
    pub forward: bool,
    /// S or Down.
    pub back: bool,
    /// A, Q or Left.
    pub left: bool,
    /// D or Right.
    pub right: bool,
    /// Either Shift key.
    pub run: bool,
    /// Space, just pressed.
    pub jump: bool,
}

/// The player's input for this frame: how many steps along the camera's
/// forward and right axes (-1, 0 or 1 each), whether a sideways key is held
/// (sideways input moves without turning the character), whether running
/// is asked for, and whether a jump is asked for.
#[derive(Clone, Copy, Debug, PartialEq, Eq, Structural)]
pub struct MoveIntent {
    pub forward_axis: i8,
    pub right_axis: i8,
    pub strafing: bool,
    pub running: bool,
    pub jump: bool,
}

/// How fast the character moves.
#[derive(Clone, Copy, Debug, PartialEq, Eq, Structural)]
pub enum Gait {
    Swim,
    Run,
    Walk,
}

/// `1` when `b`, else `0`.
pub open spec fn count(b: bool) -> int {
    if b {
        1
    } else {
        0
    }
}

/// Reads the movement keys; while the pause menu is open every key is
/// ignored, so the character stands still.
pub fn movement_intent(keys: MoveKeys, menu_open: bool) -> (intent: MoveIntent)
    ensures
        menu_open ==> intent == (MoveIntent {
            forward_axis: 0,
            right_axis: 0,
            strafing: false,
            running: false,
            jump: false,
        }),
        !menu_open ==> {
            &&& intent.forward_axis == count(keys.forward) - count(keys.back)
            &&& intent.right_axis == count(keys.right) - count(keys.left)
            &&& intent.forward_axis == (if keys.forward {
                1int
            } else {
                0int
            }) - (if keys.back {
                1int
            } else {
                0int
            })
            &&& intent.right_axis == (if keys.right {
                1int
            } else {
                0int
            }) - (if keys.left {
                1int
            } else {
                0int
            })
            &&& intent.strafing == (keys.left || keys.right)
            &&& intent.running == keys.run
            &&& intent.jump == keys.jump
        },
{
    if menu_open {
        return MoveIntent { forward_axis: 0, right_axis: 0, strafing: false, running: false, jump: false };
    }
    let mut forward_axis: i8 = 0;
    if keys.forward {
        forward_axis = forward_axis + 1;
    }
    if keys.back {
        forward_axis = forward_axis - 1;
    }
    let mut right_axis: i8 = 0;
    if keys.left {
        right_axis = right_axis - 1;
    }
    if keys.right {
        right_axis = right_axis + 1;
    }
    MoveIntent {
        forward_axis,
        right_axis,
        strafing: keys.left || keys.right,
        running: keys.run,
        jump: keys.jump,
    }
}

/// In water the character swims; on land it runs when asked to, else walks.
pub fn gait(in_water: bool, running: bool) -> (g: Gait)
    ensures
        g == (if in_water {
            Gait::Swim
        } else if running {
            Gait::Run
        } else {
            Gait::Walk
        }),
{
    if in_water {
        Gait::Swim
    } else if running {
        Gait::Run
    } else {
        Gait::Walk
    }
}

} // verus!
