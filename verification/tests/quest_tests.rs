use dragon_world::menu::MenuState;
use dragon_world::quest::{
    apply_coin_hover, click_coin, reset_for_retry, retry_just_pressed, Coin, GameState, Visibility,
};
use dragon_world::sword::HasSword;

fn coin(h: bool) -> Coin {
    Coin { highlighted: h }
}

#[test]
fn quest_starts_neither_won_nor_dead() {
    let gs = GameState::default();
    assert!(!gs.won && !gs.died);
}

#[test]
fn clicking_a_close_highlighted_coin_wins() {
    let mut gs = GameState::default();
    let menu = MenuState { open: false };
    let coins = [(coin(false), true), (coin(true), false), (coin(true), true), (coin(true), true)];
    assert_eq!(click_coin(&mut gs, &menu, true, &coins), Some(2));
    assert!(gs.won);
    assert!(!gs.died);
}

#[test]
fn coin_out_of_reach_or_not_highlighted_is_ignored() {
    let mut gs = GameState::default();
    let menu = MenuState { open: false };
    let coins = [(coin(false), true), (coin(true), false)];
    assert_eq!(click_coin(&mut gs, &menu, true, &coins), None);
    assert!(!gs.won);
}

#[test]
fn won_quest_menu_or_no_click_ignores_coin() {
    let coins = [(coin(true), true)];
    let mut won = GameState { won: true, died: false };
    assert_eq!(click_coin(&mut won, &MenuState { open: false }, true, &coins), None);
    let mut gs = GameState::default();
    assert_eq!(click_coin(&mut gs, &MenuState { open: true }, true, &coins), None);
    assert_eq!(click_coin(&mut gs, &MenuState { open: false }, false, &coins), None);
    assert!(!gs.won);
}

#[test]
fn hover_highlights_only_the_hit_coin() {
    let mut coins = vec![coin(true), coin(false), coin(true)];
    apply_coin_hover(&mut coins, Some(1));
    assert_eq!(coins, vec![coin(false), coin(true), coin(false)]);
    apply_coin_hover(&mut coins, None);
    assert_eq!(coins, vec![coin(false), coin(false), coin(false)]);
    apply_coin_hover(&mut coins, Some(7));
    assert!(coins.iter().all(|c| !c.highlighted));
}

#[test]
fn death_is_mirrored_and_overlays_follow_state() {
    let mut gs = GameState { won: true, died: false };
    gs.sync_death(true);
    assert_eq!(gs, GameState { won: true, died: true });
    assert_eq!(gs.overlay_visibility(), (Visibility::Visible, Visibility::Visible));
    gs.sync_death(false);
    assert_eq!(gs.overlay_visibility(), (Visibility::Visible, Visibility::Hidden));
    assert_eq!(
        GameState::default().overlay_visibility(),
        (Visibility::Hidden, Visibility::Hidden)
    );
}

#[test]
fn retry_fires_once_per_press() {
    let mut was = false;
    assert!(!retry_just_pressed(&[false, false], &mut was));
    assert!(!was);
    assert!(retry_just_pressed(&[false, true], &mut was));
    assert!(was);
    assert!(!retry_just_pressed(&[true, false], &mut was));
    assert!(was);
    assert!(!retry_just_pressed(&[], &mut was));
    assert!(!was);
}

#[test]
fn retry_restores_the_starting_state() {
    let mut gs = GameState { won: true, died: true };
    let mut sword = HasSword(true);
    reset_for_retry(&mut gs, &mut sword);
    assert_eq!(gs, GameState::default());
    assert_eq!(sword, HasSword::default());
}
