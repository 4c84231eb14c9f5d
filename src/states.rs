use vstd::prelude::*;

verus! {

/// The top-level state of a game session.
#[derive(Debug, PartialEq, Eq, Structural, Hash, Clone, Copy)]
pub enum GameState {
    /// The world runs and the player steers the ship.
    InGame,
    /// The world is frozen behind the pause menu.
    Pause,
    /// The player's ship was destroyed; the respawn menu is shown.
    Respawn,
}

impl Default for GameState {
    fn default() -> (r: GameState)
        ensures
            r == GameState::InGame,
    {
        GameState::InGame
    }
}

/// What the player or the world reports to the state machine in one frame.
#[derive(Debug, PartialEq, Eq, Structural, Clone, Copy)]
pub enum StateInput {
    /// The escape key went down this frame.
    EscapePressed,
    /// The "Continue" button of the pause menu was clicked.
    ContinuePressed,
    /// The "Respawn" button of the respawn menu was clicked.
    RespawnPressed,
    /// An "Exit" button was clicked.
    ExitPressed,
    /// The player's ship was found dead.
    PlayerDied,
}

/// What the session does in answer to an input.
#[derive(Debug, PartialEq, Eq, Structural, Clone, Copy)]
pub enum StateAction {
    /// Nothing changes.
    Stay,
    /// The session moves to the given state.
    Enter(GameState),
    /// The application closes.
    Quit,
}

/// The state machine of a session.
///
/// Escape toggles between play and pause; the pause menu's "Continue" and the
/// respawn menu's "Respawn" return to play; "Exit" closes the application from
/// either menu; a dead player leads to the respawn menu from any state. Inputs
/// that the current state has no control for are ignored.
pub open spec fn state_action(state: GameState, input: StateInput) -> StateAction {
    match (state, input) {
        (_, StateInput::PlayerDied) => StateAction::Enter(GameState::Respawn),
        (GameState::InGame, StateInput::EscapePressed) => StateAction::Enter(GameState::Pause),
        (GameState::Pause, StateInput::EscapePressed) => StateAction::Enter(GameState::InGame),
        (GameState::Pause, StateInput::ContinuePressed) => StateAction::Enter(GameState::InGame),
        (GameState::Respawn, StateInput::RespawnPressed) => StateAction::Enter(GameState::InGame),
        (GameState::Pause, StateInput::ExitPressed) => StateAction::Quit,
        (GameState::Respawn, StateInput::ExitPressed) => StateAction::Quit,
        _ => StateAction::Stay,
    }
}

/// The state a session is in after an action; `None` once it has quit.
pub open spec fn state_after(state: GameState, action: StateAction) -> Option<GameState> {
    match action {
        StateAction::Stay => Some(state),
        StateAction::Enter(next) => Some(next),
        StateAction::Quit => None,
    }
}

impl GameState {
    /// Whether the world simulation and the gameplay systems run in this state.
    pub open spec fn is_playing_spec(self) -> bool {
        self == GameState::InGame
    }

    /// Whether the world simulation and the gameplay systems run in this state.
    pub fn is_playing(&self) -> (r: bool)
        ensures
            r == self.is_playing_spec(),
    {
        match self {
            GameState::InGame => true,
            _ => false,
        }
    }

    /// Decides what the session does with an input received in this state.
    pub fn action(&self, input: StateInput) -> (r: StateAction)
        ensures
            r == state_action(*self, input),
    {
        match (self, input) {
            (_, StateInput::PlayerDied) => StateAction::Enter(GameState::Respawn),
            (GameState::InGame, StateInput::EscapePressed) => StateAction::Enter(GameState::Pause),
            (GameState::Pause, StateInput::EscapePressed) => StateAction::Enter(GameState::InGame),
            (GameState::Pause, StateInput::ContinuePressed) => StateAction::Enter(GameState::InGame),
            (GameState::Respawn, StateInput::RespawnPressed) => StateAction::Enter(GameState::InGame),
            (GameState::Pause, StateInput::ExitPressed) => StateAction::Quit,
            (GameState::Respawn, StateInput::ExitPressed) => StateAction::Quit,
            _ => StateAction::Stay,
        }
    }

    /// Applies an input: the state that follows, or `None` when the session quits.
    pub fn step(&self, input: StateInput) -> (r: Option<GameState>)
        ensures
            r == state_after(*self, state_action(*self, input)),
    {
        match self.action(input) {
            StateAction::Stay => Some(*self),
            StateAction::Enter(next) => Some(next),
            StateAction::Quit => None,
        }
    }
}

/// Pressing escape twice leaves a running game where it was: the first press
/// pauses it and the second resumes it.
pub proof fn lemma_escape_twice_resumes()
    ensures
        state_after(GameState::InGame, state_action(GameState::InGame, StateInput::EscapePressed))
            == Some(GameState::Pause),
        state_after(GameState::Pause, state_action(GameState::Pause, StateInput::EscapePressed))
            == Some(GameState::InGame),
{
}

/// The session quits only from one of the two menus, and only on "Exit".
pub proof fn lemma_quit_only_on_exit_from_menu(state: GameState, input: StateInput)
    ensures
        state_action(state, input) == StateAction::Quit <==> (input == StateInput::ExitPressed
            && state != GameState::InGame),
{
}

/// Whatever the state, a dead player always ends in the respawn menu, where
/// the world is frozen.
pub proof fn lemma_death_freezes_world(state: GameState)
    ensures
        state_after(state, state_action(state, StateInput::PlayerDied)) == Some(GameState::Respawn),
        !GameState::Respawn.is_playing_spec(),
{
}

} // verus!
