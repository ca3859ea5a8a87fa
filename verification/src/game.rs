//! What the game's menus are doing.

use vstd::prelude::*;

verus! {

/// The game that this client plays.
pub struct EldenRing;

/// What the heads-up display shows.
#[derive(Clone, Copy, Debug, PartialEq, Eq, Structural)]
pub enum HudState {
    /// Health, focus and stamina are hidden.
    HideAll,
    /// Health, focus and stamina are shown, as they are while the main menu is open.
    ShowAll,
    /// A pop-up menu is open.
    PopupMenu,
    /// The state of normal gameplay.
    Default,
}

impl EldenRing {
    /// Returns whether the player is on the main menu. The item manager exists only
    /// while a world is loaded, so its absence usually means the main menu.
    pub fn is_main_menu(item_manager_exists: bool) -> (main_menu: bool)
        ensures
            main_menu == !item_manager_exists,
    {
        !item_manager_exists
    }

    /// Returns whether any menu is open, given the state of the heads-up display
    /// where there is one.
    pub fn is_menu_open(item_manager_exists: bool, hud_state: Option<HudState>) -> (open: bool)
        ensures
            open <==> !item_manager_exists || hud_state == Some(HudState::ShowAll) || hud_state
                == Some(HudState::PopupMenu),
    {
        if Self::is_main_menu(item_manager_exists) {
            return true;
        }
        match hud_state {
            Some(HudState::ShowAll) => true,
            Some(HudState::PopupMenu) => true,
            _ => false,
        }
    }
}

} // verus!
