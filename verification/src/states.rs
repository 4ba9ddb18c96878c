//! The two layers of application state: whether a match runs, and which menu
//! screen is shown.

use vstd::prelude::*;

verus! {

/// Whether the game shows its menus or runs a match.
#[derive(Clone, Copy, Debug, PartialEq, Eq, Hash, Structural)]
pub enum GameState {
    Menu,
    InGame,
}

/// The menu screen on show; `Disabled` while a match runs.
#[derive(Clone, Copy, Debug, PartialEq, Eq, Hash, Structural)]
pub enum MenuState {
    Disabled,
    Main,
    CharSelect,
    WorldSelect,
    WorldLoading,
    LevelSelect,
}

impl Default for GameState {
    fn default() -> (r: GameState)
        ensures
            r == GameState::Menu,
    {
        GameState::Menu
    }
}

impl Default for MenuState {
    fn default() -> (r: MenuState)
        ensures
            r == MenuState::Disabled,
    {
        MenuState::Disabled
    }
}

} // verus!
