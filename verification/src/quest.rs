//! The "break the crate, take the coin" quest: the win / death flags, the
//! coin pickup, the overlays that show the outcome, and the Retry button that
//! puts the quest back to its starting state.

use vstd::prelude::*;
use crate::menu::MenuState;
use crate::sword::HasSword;

verus! {

/// Outcome flags of the quest.
#[derive(Clone, Copy, Debug, PartialEq, Eq, Structural)]
pub struct GameState {
    /// The coin has been picked up.
    pub won: bool,
    /// The player is dead (mirrors the player's own flag).
    pub died: bool,
}

/// The quest as it stands when the game starts.
pub open spec fn initial_game_state() -> GameState {
    GameState { won: false, died: false }
}

impl Default for GameState {
    /// Neither won nor dead.
    fn default() -> (s: Self)
        ensures
            s == initial_game_state(),
            !s.won,
            !s.died,
    {
        GameState { won: false, died: false }
    }
}

/// A coin lying in the world.
#[derive(Clone, Copy, Debug, PartialEq, Eq, Structural)]
pub struct Coin {
    /// The cursor ray currently rests on this coin.
    pub highlighted: bool,
}

/// Whether a UI element is drawn.
#[derive(Clone, Copy, Debug, PartialEq, Eq, Structural)]
pub enum Visibility {
    Visible,
    Hidden,
}

/// `Visible` when `shown`, else `Hidden`.
pub open spec fn visibility_of(shown: bool) -> Visibility {
    if shown {
        Visibility::Visible
    } else {
        Visibility::Hidden
    }
}

/// `r` is the position of the first `true` in `flags`, or `None` when there
/// is none.
pub open spec fn is_first_true(flags: Seq<bool>, r: Option<usize>) -> bool {
    match r {
        Some(i) => {
            &&& i < flags.len()
            &&& flags[i as int]
            &&& forall|j: int| 0 <= j < i ==> !flags[j]
        },
        None => forall|j: int| 0 <= j < flags.len() ==> !flags[j],
    }
}

/// A coin can be picked up when it is highlighted and the player is within
/// reach of it (the second component).
pub open spec fn coin_pickable(c: (Coin, bool)) -> bool {
    c.0.highlighted && c.1
}

/// Which coins of `coins` can be picked up.
pub open spec fn pickable_coins(coins: Seq<(Coin, bool)>) -> Seq<bool> {
    coins.map_values(|c: (Coin, bool)| coin_pickable(c))
}

/// Clicks are ignored once the quest is won or while the menu is open.
pub open spec fn coin_click_blocked(game_state: GameState, menu: MenuState, clicked: bool) -> bool {
    game_state.won || menu.open || !clicked
}

/// Re-evaluates the cursor highlight: only the coin under the cursor ray
/// (`hit`, if the ray hit a coin) is highlighted.
pub fn apply_coin_hover(coins: &mut Vec<Coin>, hit: Option<usize>)
    ensures
        final(coins)@.len() == old(coins)@.len(),
        forall|i: int|
            0 <= i < final(coins)@.len() ==> #[trigger] final(coins)@[i].highlighted == (hit == Some(
                i as usize,
            )),
{
    let mut i: usize = 0;
    while i < coins.len()
        invariant
            i <= coins@.len(),
            coins@.len() == old(coins)@.len(),
            forall|j: int| 0 <= j < i ==> #[trigger] coins@[j].highlighted == (hit == Some(j as usize)),
        decreases coins@.len() - i,
    {
        let lit = match hit {
            Some(h) => h == i,
            None => false,
        };
        coins.set(i, Coin { highlighted: lit });
        i = i + 1;
    }
}

/// A left click on the coin: when the quest is not yet won, the menu is
/// closed and the player clicked, the first coin that is highlighted and
/// within reach is picked up (its index is returned, for despawning) and the
/// quest is won.
pub fn click_coin(
    game_state: &mut GameState,
    menu: &MenuState,
    clicked: bool,
    coins: &[(Coin, bool)],
) -> (picked: Option<usize>)
    ensures
        coin_click_blocked(*old(game_state), *menu, clicked) ==> picked is None,
        !coin_click_blocked(*old(game_state), *menu, clicked) ==> is_first_true(
            pickable_coins(coins@),
            picked,
        ),
        final(game_state).won == (old(game_state).won || picked is Some),
        final(game_state).died == old(game_state).died,
        old(game_state).won || menu.open || !clicked ==> picked is None,
        picked matches Some(i) ==> {
            &&& i < coins@.len()
            &&& coins@[i as int].0.highlighted
            &&& coins@[i as int].1
            &&& forall|j: int| 0 <= j < i ==> !(#[trigger] coins@[j].0.highlighted && coins@[j].1)
        },
        !old(game_state).won && !menu.open && clicked && picked is None ==> forall|j: int|
            0 <= j < coins@.len() ==> !(#[trigger] coins@[j].0.highlighted && coins@[j].1),
{
    if game_state.won || menu.open || !clicked {
        return None;
    }
    let ghost flags = pickable_coins(coins@);
    let mut i: usize = 0;
    while i < coins.len()
        invariant
            i <= coins@.len(),
            flags == pickable_coins(coins@),
            flags.len() == coins@.len(),
            *game_state == *old(game_state),
            !coin_click_blocked(*old(game_state), *menu, clicked),
            forall|j: int| 0 <= j < i ==> !flags[j],
        decreases coins@.len() - i,
    {
        let (coin, in_reach) = coins[i];
        assert(flags[i as int] == coin_pickable(coins@[i as int]));
        proof {
            lemma_pickable_coins_are_highlighted_in_reach(coins@);
        }
        if coin.highlighted && in_reach {
            game_state.won = true;
            proof {
                assert(is_first_true(flags, Some(i)));
                lemma_picked_coin_is_highlighted_in_reach(coins@, Some(i));
            }
            return Some(i);
        }
        i = i + 1;
    }
    proof {
        assert(is_first_true(flags, None));
        lemma_picked_coin_is_highlighted_in_reach(coins@, None);
    }
    None
}

/// A coin counts as pickable exactly when it is under the cursor and within
/// the player's reach.
pub proof fn lemma_pickable_coins_are_highlighted_in_reach(coins: Seq<(Coin, bool)>)
    ensures
        pickable_coins(coins).len() == coins.len(),
        forall|j: int|
            0 <= j < coins.len() ==> (#[trigger] pickable_coins(coins)[j] <==> (coins[j].0.highlighted
                && coins[j].1)),
{
}

/// The coin a click picks is highlighted and within reach, and every coin
/// before it is not; when none is picked, no coin is both.
pub proof fn lemma_picked_coin_is_highlighted_in_reach(coins: Seq<(Coin, bool)>, picked: Option<usize>)
    requires
        is_first_true(pickable_coins(coins), picked),
    ensures
        picked matches Some(i) ==> {
            &&& i < coins.len()
            &&& coins[i as int].0.highlighted
            &&& coins[i as int].1
            &&& forall|j: int| 0 <= j < i ==> !(#[trigger] coins[j].0.highlighted && coins[j].1)
        },
        picked is None ==> forall|j: int|
            0 <= j < coins.len() ==> !(#[trigger] coins[j].0.highlighted && coins[j].1),
{
    lemma_pickable_coins_are_highlighted_in_reach(coins);
    match picked {
        Some(i) => {
            assert forall|j: int| 0 <= j < i implies !(#[trigger] coins[j].0.highlighted
                && coins[j].1) by {
                assert(!pickable_coins(coins)[j]);
            }
        },
        None => {
            assert forall|j: int| 0 <= j < coins.len() implies !(#[trigger] coins[j].0.highlighted
                && coins[j].1) by {
                assert(!pickable_coins(coins)[j]);
            }
        },
    }
}

impl GameState {
    /// Mirrors the player's death flag into the quest state.
    pub fn sync_death(&mut self, player_dead: bool)
        ensures
            final(self).died == player_dead,
            final(self).won == old(self).won,
    {
        if player_dead != self.died {
            self.died = player_dead;
        }
    }

    /// Visibility of the win overlay and of the death overlay.
    pub fn overlay_visibility(&self) -> (vis: (Visibility, Visibility))
        ensures
            vis.0 == visibility_of(self.won),
            vis.1 == visibility_of(self.died),
            (vis.0 == Visibility::Visible) == self.won,
            (vis.1 == Visibility::Visible) == self.died,
    {
        let win = if self.won {
            Visibility::Visible
        } else {
            Visibility::Hidden
        };
        let death = if self.died {
            Visibility::Visible
        } else {
            Visibility::Hidden
        };
        (win, death)
    }
}

/// Edge detection for the Retry buttons: fires once on the frame where some
/// button becomes pressed, and records whether any button is pressed now.
pub fn retry_just_pressed(pressed: &[bool], was_pressed: &mut bool) -> (fire: bool)
    ensures
        *final(was_pressed) == pressed@.contains(true),
        fire == (pressed@.contains(true) && !*old(was_pressed)),
{
    let mut any = false;
    let mut i: usize = 0;
    while i < pressed.len()
        invariant
            i <= pressed@.len(),
            any == (exists|j: int| 0 <= j < i && pressed@[j]),
        decreases pressed@.len() - i,
    {
        if pressed[i] {
            any = true;
        }
        i = i + 1;
    }
    assert(any == pressed@.contains(true)) by {
        if any {
            let w = choose|j: int| 0 <= j < pressed@.len() && pressed@[j];
            assert(pressed@[w] == true);
        }
        if pressed@.contains(true) {
            let w = choose|j: int| 0 <= j < pressed@.len() && pressed@[j] == true;
            assert(pressed@[w]);
        }
    }
    let fire = any && !*was_pressed;
    *was_pressed = any;
    fire
}

/// The Retry button: the quest goes back to its starting state and the
/// sword is put back in the world.
pub fn reset_for_retry(game_state: &mut GameState, has_sword: &mut HasSword)
    ensures
        *final(game_state) == initial_game_state(),
        *final(has_sword) == (HasSword(false)),
        !final(game_state).won,
        !final(game_state).died,
        !final(has_sword).0,
{
    game_state.won = false;
    game_state.died = false;
    has_sword.0 = false;
}

} // verus!
