//! The states the game moves through, and what the game does on entering each one.

use vstd::prelude::*;

verus! {

/// The top-level state of the game.
#[derive(Clone, Copy, Debug, PartialEq, Eq, Hash, Structural)]
pub enum GameState {
    Menu,
    Editor,
    Level,
    Settings,
    CustomLevel,
    Exit,
}

impl Default for GameState {
    /// The game starts in the main menu.
    fn default() -> (s: Self)
        ensures
            s == GameState::Menu,
    {
        GameState::Menu
    }
}

/// The work that the game schedules when it enters a state.
#[derive(Clone, Copy, Debug, PartialEq, Eq, Hash, Structural)]
pub enum EnterAction {
    /// Build the main menu screen.
    BuildMenu,
    /// Set up the level editor.
    BuildEditor,
    /// Spawn the playable level.
    BuildLevel,
    /// Set up the settings screen.
    BuildSettings,
    /// Set up the custom level browser.
    BuildCustomLevels,
    /// Ask the application to terminate with a success status.
    QuitWithSuccess,
}

/// What entering `s` schedules: one setup step per state, and quitting for `Exit`.
pub open spec fn spec_enter_action(s: GameState) -> EnterAction {
    match s {
        GameState::Menu => EnterAction::BuildMenu,
        GameState::Editor => EnterAction::BuildEditor,
        GameState::Level => EnterAction::BuildLevel,
        GameState::Settings => EnterAction::BuildSettings,
        GameState::CustomLevel => EnterAction::BuildCustomLevels,
        GameState::Exit => EnterAction::QuitWithSuccess,
    }
}

/// The work to schedule on entering `s`.
pub fn enter_action(s: GameState) -> (a: EnterAction)
    ensures
        a == spec_enter_action(s),
        (a == EnterAction::QuitWithSuccess) <==> (s == GameState::Exit),
        (a == EnterAction::BuildMenu) <==> (s == GameState::Menu),
        (a == EnterAction::BuildEditor) <==> (s == GameState::Editor),
        (a == EnterAction::BuildLevel) <==> (s == GameState::Level),
        (a == EnterAction::BuildSettings) <==> (s == GameState::Settings),
        (a == EnterAction::BuildCustomLevels) <==> (s == GameState::CustomLevel),
{
    match s {
        GameState::Menu => EnterAction::BuildMenu,
        GameState::Editor => EnterAction::BuildEditor,
        GameState::Level => EnterAction::BuildLevel,
        GameState::Settings => EnterAction::BuildSettings,
        GameState::CustomLevel => EnterAction::BuildCustomLevels,
        GameState::Exit => EnterAction::QuitWithSuccess,
    }
}

/// Whether the in-level camera controls (projection switch, zoom, orbit) and block
/// picking run while the game is in state `s`: only inside a level.
pub fn camera_controls_active(s: GameState) -> (b: bool)
    ensures
        b <==> s == GameState::Level,
{
    match s {
        GameState::Level => true,
        _ => false,
    }
}

/// Entering two different states never schedules the same work: each state has its own
/// setup, and only `Exit` quits.
pub proof fn lemma_enter_actions_distinct(s: GameState, t: GameState)
    requires
        s != t,
    ensures
        spec_enter_action(s) != spec_enter_action(t),
{
}

} // verus!
