use dragon_world::menu::MenuState;
use dragon_world::quest::Visibility;
use dragon_world::sword::{
    apply_pickup_hover, click_pickup, sword_in_hand_visibility, HasSword, SwordPickup,
};

#[test]
fn hero_starts_empty_handed() {
    assert_eq!(HasSword::default(), HasSword(false));
    assert_eq!(sword_in_hand_visibility(&HasSword::default()), Visibility::Hidden);
    assert_eq!(sword_in_hand_visibility(&HasSword(true)), Visibility::Visible);
}

#[test]
fn clicking_the_highlighted_sword_in_reach_takes_it() {
    let mut has = HasSword(false);
    let pickups = [(SwordPickup { highlighted: true }, true)];
    assert_eq!(click_pickup(&mut has, &MenuState { open: false }, true, &pickups), Some(0));
    assert_eq!(has, HasSword(true));
}

#[test]
fn pickup_ignored_when_far_held_or_menu_open() {
    let far = [(SwordPickup { highlighted: true }, false)];
    let mut has = HasSword(false);
    assert_eq!(click_pickup(&mut has, &MenuState { open: false }, true, &far), None);
    assert_eq!(has, HasSword(false));
    let near = [(SwordPickup { highlighted: true }, true)];
    assert_eq!(click_pickup(&mut has, &MenuState { open: true }, true, &near), None);
    assert_eq!(click_pickup(&mut has, &MenuState { open: false }, false, &near), None);
    let mut held = HasSword(true);
    assert_eq!(click_pickup(&mut held, &MenuState { open: false }, true, &near), None);
    assert_eq!(held, HasSword(true));
}

#[test]
fn pickup_hover_highlights_only_the_hit() {
    let mut p = vec![SwordPickup { highlighted: true }, SwordPickup { highlighted: false }];
    apply_pickup_hover(&mut p, Some(1));
    assert_eq!(p, vec![SwordPickup { highlighted: false }, SwordPickup { highlighted: true }]);
    apply_pickup_hover(&mut p, None);
    assert!(p.iter().all(|s| !s.highlighted));
}
