//! Pause menu state. While the menu is open, gameplay input (movement,
//! attacking, pickups) is ignored.

use vstd::prelude::*;

verus! {

/// Whether the pause menu is shown.
#[derive(Clone, Copy, Debug, PartialEq, Eq, Structural)]
pub struct MenuState {
    pub open: bool,
}

impl Default for MenuState {
    /// The menu starts closed.
    fn default() -> (s: Self)
        ensures
            s == (MenuState { open: false }),
    {
        MenuState { open: false }
    }
}

impl MenuState {
    /// The Escape key: opens a closed menu and closes an open one.
    pub fn toggle(&mut self)
        ensures
            final(self).open == !old(self).open,
    {
        self.open = !self.open;
    }

    /// The Resume button: closes the menu.
    pub fn close(&mut self)
        ensures
            final(self).open == false,
    {
        self.open = false;
    }
}

} // verus!
