use vstd::prelude::*;

verus! {

/// The game's current mode. Only `Playing` and `GameOver` are reached by the
/// rules; the others are kept as places for later screens.
#[derive(Clone, Copy, Debug, PartialEq, Eq, Hash, Structural)]
pub enum GameState {
    Loading,
    Menu,
    Playing,
    Paused,
    GameOver,
    Cleanup,
}

/// Requests a front end may make of the game.
#[derive(Clone, Copy, Debug, PartialEq, Eq, Hash, Structural)]
pub enum GameCommand {
    StartGame,
    Pause,
    Resume,
    Restart,
    Quit,
}

/// Marks the scene that holds a running game.
pub struct GameScene;

/// Puts the game into its loading mode.
pub fn initialize_game_state(state: &mut GameState)
    ensures
        *final(state) == GameState::Loading,
{
    *state = GameState::Loading;
}

} // verus!
