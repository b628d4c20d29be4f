use dragon_world::house::{door_collider_change, pack_opaque_rgba, ColliderChange};
use dragon_world::menu::MenuState;

#[test]
fn menu_toggles_and_closes() {
    let mut m = MenuState::default();
    assert!(!m.open);
    m.toggle();
    assert!(m.open);
    m.toggle();
    assert!(!m.open);
    m.toggle();
    m.close();
    assert!(!m.open);
}

#[test]
fn door_collider_follows_door() {
    assert_eq!(door_collider_change(true, true), ColliderChange::Enable);
    assert_eq!(door_collider_change(false, false), ColliderChange::Disable);
    assert_eq!(door_collider_change(true, false), ColliderChange::Keep);
    assert_eq!(door_collider_change(false, true), ColliderChange::Keep);
}

#[test]
fn rgba_pixels_are_opaque_and_in_order() {
    assert_eq!(
        pack_opaque_rgba(&[(1, 2, 3), (250, 0, 9)]),
        vec![1, 2, 3, 255, 250, 0, 9, 255]
    );
    assert!(pack_opaque_rgba(&[]).is_empty());
}
