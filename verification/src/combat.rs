//! Sword combat: starting a swing on a left click, the single hit window of
//! each swing, and what a hit does to each body in front of the player.
//! The swing's clock (and the geometry of the hit cone) are measured by the
//! caller; this module keeps the swing's flags.

use vstd::prelude::*;
use crate::menu::MenuState;
use crate::quest::{coin_click_blocked, GameState};
use crate::sword::{pickup_click_blocked, HasSword};

verus! {

/// The flags of the player's current swing.
#[derive(Clone, Copy, Debug, PartialEq, Eq, Structural)]
pub struct Swing {
    /// A swing is in progress.
    pub active: bool,
    /// The swing's hit has already been applied.
    pub hit_done: bool,
}

/// No swing in progress.
pub open spec fn idle_swing() -> Swing {
    Swing { active: false, hit_done: false }
}

/// A swing that has just started.
pub open spec fn fresh_swing() -> Swing {
    Swing { active: true, hit_done: false }
}

impl Default for Swing {
    /// The player starts idle.
    fn default() -> (s: Self)
        ensures
            s == idle_swing(),
            !s.active,
            !s.hit_done,
    {
        Swing { active: false, hit_done: false }
    }
}

/// A left click starts a swing only when the hero holds the sword, the
/// quest is not won, the menu is closed, and no swing is in progress.
pub open spec fn swing_starts(
    has_sword: bool,
    won: bool,
    menu_open: bool,
    clicked: bool,
    active: bool,
) -> bool {
    has_sword && !won && !menu_open && clicked && !active
}

/// One frame of a swing whose clock is inside the hit window
/// (`in_hit_window`) and/or past the swing's duration (`finished`): the hit
/// is applied on the first frame inside the window, and the swing ends once
/// finished. The second component says whether the hit is applied.
pub open spec fn swing_tick(s: Swing, in_hit_window: bool, finished: bool) -> (Swing, bool) {
    if !s.active {
        (s, false)
    } else {
        let hit = !s.hit_done && in_hit_window;
        if finished {
            (idle_swing(), hit)
        } else {
            (Swing { active: true, hit_done: s.hit_done || hit }, hit)
        }
    }
}

/// Starts a swing on a left click (see `swing_starts`). Returns whether a
/// swing started; its clock then restarts from zero.
pub fn trigger_attack(
    has_sword: &HasSword,
    game_state: &GameState,
    menu: &MenuState,
    clicked: bool,
    swing: &mut Swing,
) -> (started: bool)
    ensures
        started == swing_starts(has_sword.0, game_state.won, menu.open, clicked, old(swing).active),
        started ==> *final(swing) == fresh_swing(),
        !started ==> *final(swing) == *old(swing),
        started == (has_sword.0 && !game_state.won && !menu.open && clicked && !old(swing).active),
        started ==> final(swing).active && !final(swing).hit_done,
{
    if !has_sword.0 || game_state.won || menu.open {
        return false;
    }
    if !clicked {
        return false;
    }
    if !swing.active {
        swing.active = true;
        swing.hit_done = false;
        true
    } else {
        false
    }
}

impl Swing {
    /// Advances the swing by one frame (see `swing_tick`); returns whether
    /// the hit is applied on this frame.
    pub fn tick(&mut self, in_hit_window: bool, finished: bool) -> (hit: bool)
        ensures
            (*final(self), hit) == swing_tick(*old(self), in_hit_window, finished),
            hit == (old(self).active && !old(self).hit_done && in_hit_window),
            !old(self).active ==> *final(self) == *old(self),
            old(self).active && finished ==> !final(self).active && !final(self).hit_done,
            old(self).active && !finished ==> final(self).active && final(self).hit_done == (
            old(self).hit_done || in_hit_window),
    {
        if !self.active {
            return false;
        }
        let hit = !self.hit_done && in_hit_window;
        if hit {
            self.hit_done = true;
        }
        if finished {
            self.active = false;
            self.hit_done = false;
        }
        hit
    }
}

/// What a swing's hit does to a body.
#[derive(Clone, Copy, Debug, PartialEq, Eq, Structural)]
pub enum HitTarget {
    /// Out of reach, static, or the player itself: untouched.
    Ignore,
    /// The quest crate: it breaks (and the coin appears).
    BreakCrate,
    /// Any other dynamic body: it is knocked away.
    Knock,
}

/// The effect of a hit on a body: the player, static bodies and bodies
/// outside the hit cone are ignored; a crate in the cone breaks; any other
/// dynamic body in the cone is knocked.
pub open spec fn hit_target_of(is_player: bool, is_dynamic: bool, in_reach: bool, is_crate: bool) -> HitTarget {
    if is_player || !is_dynamic || !in_reach {
        HitTarget::Ignore
    } else if is_crate {
        HitTarget::BreakCrate
    } else {
        HitTarget::Knock
    }
}

/// Classifies one body for the current hit (see `hit_target_of`).
pub fn classify_hit_target(is_player: bool, is_dynamic: bool, in_reach: bool, is_crate: bool) -> (t: HitTarget)
    ensures
        t == hit_target_of(is_player, is_dynamic, in_reach, is_crate),
        is_player || !is_dynamic || !in_reach ==> t == HitTarget::Ignore,
        t == HitTarget::BreakCrate <==> (!is_player && is_dynamic && in_reach && is_crate),
        t == HitTarget::Knock <==> (!is_player && is_dynamic && in_reach && !is_crate),
{
    if is_player {
        return HitTarget::Ignore;
    }
    if !is_dynamic {
        return HitTarget::Ignore;
    }
    if !in_reach {
        return HitTarget::Ignore;
    }
    if is_crate {
        HitTarget::BreakCrate
    } else {
        HitTarget::Knock
    }
}

/// A hit leaves the player, static bodies and bodies outside its reach
/// untouched; it breaks a reachable dynamic crate and knocks every other
/// reachable dynamic body.
pub proof fn lemma_hit_affects_only_reachable_dynamic_bodies(
    is_player: bool,
    is_dynamic: bool,
    in_reach: bool,
    is_crate: bool,
)
    ensures
        !in_reach ==> hit_target_of(is_player, is_dynamic, in_reach, is_crate) == HitTarget::Ignore,
        is_player ==> hit_target_of(is_player, is_dynamic, in_reach, is_crate) == HitTarget::Ignore,
        !is_dynamic ==> hit_target_of(is_player, is_dynamic, in_reach, is_crate) == HitTarget::Ignore,
        (hit_target_of(is_player, is_dynamic, in_reach, is_crate) == HitTarget::BreakCrate) <==> (
        !is_player && is_dynamic && in_reach && is_crate),
        (hit_target_of(is_player, is_dynamic, in_reach, is_crate) == HitTarget::Knock) <==> (
        !is_player && is_dynamic && in_reach && !is_crate),
{
}

/// A swing starts exactly when the hero holds the sword, the quest is not
/// won, the menu is closed, the player clicked and no swing is running.
pub proof fn lemma_swing_start_conditions(
    has_sword: bool,
    won: bool,
    menu_open: bool,
    clicked: bool,
    active: bool,
)
    ensures
        swing_starts(has_sword, won, menu_open, clicked, active) ==> has_sword && !won && !menu_open
            && clicked && !active,
        has_sword && !won && !menu_open && clicked && !active ==> swing_starts(
            has_sword,
            won,
            menu_open,
            clicked,
            active,
        ),
{
}

/// One frame of a swing applies the hit only on an active swing that has
/// not hit yet and whose clock is in the hit window; an idle swing is left
/// alone, and a finished swing becomes idle.
pub proof fn lemma_swing_tick_hits_only_in_window(s: Swing, in_hit_window: bool, finished: bool)
    ensures
        swing_tick(s, in_hit_window, finished).1 == (s.active && !s.hit_done && in_hit_window),
        !s.active ==> swing_tick(s, in_hit_window, finished).0 == s,
        s.active && finished ==> !swing_tick(s, in_hit_window, finished).0.active
            && !swing_tick(s, in_hit_window, finished).0.hit_done,
        s.active && !finished ==> swing_tick(s, in_hit_window, finished).0.active,
        s.active && swing_tick(s, in_hit_window, finished).1 && !finished ==> swing_tick(
            s,
            in_hit_window,
            finished,
        ).0.hit_done,
{
}

/// How many hits a run of frames `frames` (each `(in_hit_window, finished)`)
/// applies, starting from swing `s`.
pub open spec fn hits_during(s: Swing, frames: Seq<(bool, bool)>) -> nat
    decreases frames.len(),
{
    if frames.len() == 0 {
        0
    } else {
        let (next, hit) = swing_tick(s, frames[0].0, frames[0].1);
        (if hit {
            1nat
        } else {
            0nat
        }) + hits_during(next, frames.drop_first())
    }
}

/// A swing that has not applied its hit applies at most one more; an idle
/// swing or one that has hit applies none until a new swing starts.
proof fn lemma_hits_bounded(s: Swing, frames: Seq<(bool, bool)>)
    requires
        !s.active ==> !s.hit_done,
    ensures
        hits_during(s, frames) <= (if s.active && !s.hit_done {
            1nat
        } else {
            0nat
        }),
    decreases frames.len(),
{
    if frames.len() > 0 {
        let (next, hit) = swing_tick(s, frames[0].0, frames[0].1);
        lemma_hits_bounded(next, frames.drop_first());
    }
}

/// Each swing connects at most once, however many frames its clock spends
/// inside the hit window.
pub proof fn lemma_one_hit_per_swing(frames: Seq<(bool, bool)>)
    ensures
        hits_during(fresh_swing(), frames) <= 1,
{
    lemma_hits_bounded(fresh_swing(), frames);
}

/// The click that picks up the coin cannot also swing the sword: coin
/// clicks are handled first in a frame, and once the coin is taken the quest
/// is won, which blocks the swing.
pub proof fn lemma_coin_click_does_not_swing(has_sword: bool, menu_open: bool, clicked: bool, active: bool)
    ensures
        !swing_starts(has_sword, true, menu_open, clicked, active),
{
}

/// The click that picks up the sword cannot also swing it: swings are
/// handled before pickups in a frame, so that click sees an empty hand.
pub proof fn lemma_pickup_click_does_not_swing(won: bool, menu_open: bool, clicked: bool, active: bool)
    ensures
        !swing_starts(false, won, menu_open, clicked, active),
{
}

/// While the pause menu is open a left click has no effect on the game: it
/// neither picks up the coin, nor picks up the sword, nor starts a swing.
pub proof fn lemma_open_menu_ignores_clicks(
    game_state: GameState,
    has_sword: HasSword,
    clicked: bool,
    active: bool,
)
    ensures
        coin_click_blocked(game_state, MenuState { open: true }, clicked),
        pickup_click_blocked(has_sword, MenuState { open: true }, clicked),
        !swing_starts(has_sword.0, game_state.won, true, clicked, active),
{
}

} // verus!
