//! The coarse game and level states whose transitions the simulation
//! announces to the surrounding menu and loading layers.

use vstd::prelude::*;

verus! {

/// The overall state of the application.
#[derive(Clone, Copy, PartialEq, Eq, Structural, Debug, Hash)]
pub enum GameState {
    MainMenu,
    Game,
    PauseMenu,
    GameOver,
}

impl Default for GameState {
    /// The application opens on the main menu.
    fn default() -> (r: Self)
        ensures
            r == GameState::MainMenu,
    {
        GameState::MainMenu
    }
}

/// How far level loading has progressed.
#[derive(Clone, Copy, PartialEq, Eq, Structural, Debug, Hash)]
pub enum LevelState {
    Pre,
    Loading,
    LevelLoaded,
}

impl Default for LevelState {
    /// No level is loaded at start.
    fn default() -> (r: Self)
        ensures
            r == LevelState::Pre,
    {
        LevelState::Pre
    }
}

} // verus!
