use dragon_world::combat::{classify_hit_target, trigger_attack, HitTarget, Swing};
use dragon_world::menu::MenuState;
use dragon_world::quest::{click_coin, Coin, GameState};
use dragon_world::sword::{click_pickup, HasSword, SwordPickup};

const OPEN: MenuState = MenuState { open: true };
const CLOSED: MenuState = MenuState { open: false };

#[test]
fn click_with_sword_starts_swing() {
    let mut swing = Swing::default();
    assert!(trigger_attack(&HasSword(true), &GameState::default(), &CLOSED, true, &mut swing));
    assert_eq!(swing, Swing { active: true, hit_done: false });
    // A second click during the swing does not restart it.
    let mut mid = Swing { active: true, hit_done: true };
    assert!(!trigger_attack(&HasSword(true), &GameState::default(), &CLOSED, true, &mut mid));
    assert_eq!(mid, Swing { active: true, hit_done: true });
}

#[test]
fn no_swing_without_sword_when_won_in_menu_or_without_click() {
    let won = GameState { won: true, died: false };
    for (sword, gs, menu, click) in [
        (false, GameState::default(), CLOSED, true),
        (true, won, CLOSED, true),
        (true, GameState::default(), OPEN, true),
        (true, GameState::default(), CLOSED, false),
    ] {
        let mut swing = Swing::default();
        assert!(!trigger_attack(&HasSword(sword), &gs, &menu, click, &mut swing));
        assert_eq!(swing, Swing::default());
    }
}

#[test]
fn swing_hits_once_then_ends() {
    let mut swing = Swing { active: true, hit_done: false };
    assert!(!swing.tick(false, false));
    assert!(swing.tick(true, false));
    assert!(!swing.tick(true, false));
    assert!(!swing.tick(false, false));
    assert!(!swing.tick(false, true));
    assert_eq!(swing, Swing::default());
    assert!(!swing.tick(true, false));
}

#[test]
fn idle_swing_never_hits() {
    let mut swing = Swing::default();
    assert!(!swing.tick(true, false));
    assert_eq!(swing, Swing::default());
}

#[test]
fn hit_targets() {
    assert_eq!(classify_hit_target(true, true, true, false), HitTarget::Ignore);
    assert_eq!(classify_hit_target(false, false, true, true), HitTarget::Ignore);
    assert_eq!(classify_hit_target(false, true, false, true), HitTarget::Ignore);
    assert_eq!(classify_hit_target(false, true, true, true), HitTarget::BreakCrate);
    assert_eq!(classify_hit_target(false, true, true, false), HitTarget::Knock);
}

#[test]
fn coin_click_frame_does_not_swing() {
    let mut gs = GameState::default();
    let picked = click_coin(&mut gs, &CLOSED, true, &[(Coin { highlighted: true }, true)]);
    assert_eq!(picked, Some(0));
    let mut swing = Swing::default();
    assert!(!trigger_attack(&HasSword(true), &gs, &CLOSED, true, &mut swing));
}

#[test]
fn pickup_click_frame_does_not_swing() {
    let mut has = HasSword(false);
    let mut swing = Swing::default();
    assert!(!trigger_attack(&has, &GameState::default(), &CLOSED, true, &mut swing));
    let taken = click_pickup(&mut has, &CLOSED, true, &[(SwordPickup { highlighted: true }, true)]);
    assert_eq!(taken, Some(0));
    assert_eq!(swing, Swing::default());
}

#[test]
fn open_menu_ignores_every_click() {
    let mut gs = GameState::default();
    assert_eq!(click_coin(&mut gs, &OPEN, true, &[(Coin { highlighted: true }, true)]), None);
    let mut has = HasSword(false);
    assert_eq!(
        click_pickup(&mut has, &OPEN, true, &[(SwordPickup { highlighted: true }, true)]),
        None
    );
    let mut swing = Swing::default();
    assert!(!trigger_attack(&HasSword(true), &gs, &OPEN, true, &mut swing));
}
