use dragon_world::player::{gait, movement_intent, Gait, MoveIntent, MoveKeys};

fn keys(forward: bool, back: bool, left: bool, right: bool, run: bool, jump: bool) -> MoveKeys {
    MoveKeys { forward, back, left, right, run, jump }
}

#[test]
fn keys_become_axes() {
    let i = movement_intent(keys(true, false, true, false, true, true), false);
    assert_eq!(
        i,
        MoveIntent { forward_axis: 1, right_axis: -1, strafing: true, running: true, jump: true }
    );
    let i = movement_intent(keys(true, true, true, true, false, false), false);
    assert_eq!(i.forward_axis, 0);
    assert_eq!(i.right_axis, 0);
    assert!(i.strafing);
    let i = movement_intent(keys(false, true, false, true, false, false), false);
    assert_eq!((i.forward_axis, i.right_axis), (-1, 1));
}

#[test]
fn open_menu_freezes_input() {
    let i = movement_intent(keys(true, false, true, false, true, true), true);
    assert_eq!(
        i,
        MoveIntent { forward_axis: 0, right_axis: 0, strafing: false, running: false, jump: false }
    );
}

#[test]
fn gaits() {
    assert_eq!(gait(true, true), Gait::Swim);
    assert_eq!(gait(false, true), Gait::Run);
    assert_eq!(gait(false, false), Gait::Walk);
}
