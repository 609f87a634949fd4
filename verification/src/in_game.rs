use vstd::prelude::*;

use crate::state::InGameState;

verus! {

/// The buttons of the pause menu.
#[derive(Debug, Clone, Copy, PartialEq, Eq, Structural, Hash)]
pub enum PauseButton {
    Resume,
    Setting,
    GiveUp,
}

/// The buttons of the window that asks whether to give up.
#[derive(Debug, Clone, Copy, PartialEq, Eq, Structural, Hash)]
pub enum ExitWndButton {
    Yes,
    No,
}

/// The buttons of the in-game scene that change its state.
#[derive(Debug, Clone, Copy, PartialEq, Eq, Structural, Hash)]
pub enum InGameButton {
    /// The menu button, which pauses the game.
    Menu,
    /// A button of the window that asks whether to give up.
    Exit(ExitWndButton),
    /// The return button of the settings window.
    SettingReturn,
}

/// What happens in the in-game scene.
#[derive(Debug, Clone, Copy, PartialEq, Eq, Structural, Hash)]
pub enum InGameEvent {
    /// The escape key is pressed.
    Escape,
    /// The enter key is pressed.
    Confirm,
    /// A button is pressed and released over it.
    Activated(InGameButton),
    /// The animation of the current state has run its course.
    AnimationDone,
    /// The stage is over: time is up, the last life is lost or every tile is owned.
    StageOver,
}

/// The outcome of an event: the next state, whether the game goes back to the title, and
/// whether the player stops moving.
#[derive(Debug, Clone, Copy, PartialEq, Eq, Structural, Hash)]
pub struct InGameStep {
    pub state: InGameState,
    pub to_title: bool,
    pub stop_player: bool,
}

/// The states whose handling of events this module decides.
pub open spec fn spec_step_known(state: InGameState) -> bool {
    state == InGameState::Enter || state == InGameState::Run || state == InGameState::MsgBox
        || state == InGameState::EnterSetting || state == InGameState::Setting || state
        == InGameState::WaitForFinish || state == InGameState::DisappearRun
}

/// A move to `state` that neither leaves the stage nor stops the player.
pub open spec fn spec_plain(state: InGameState) -> InGameStep {
    InGameStep { state, to_title: false, stop_player: false }
}

pub open spec fn spec_in_game_step(state: InGameState, event: InGameEvent) -> InGameStep {
    match state {
        InGameState::Enter => match event {
            InGameEvent::AnimationDone => spec_plain(InGameState::Spawn),
            _ => spec_plain(state),
        },
        InGameState::Run => match event {
            InGameEvent::Escape => InGameStep {
                state: InGameState::EnterPause,
                to_title: false,
                stop_player: true,
            },
            InGameEvent::Activated(InGameButton::Menu) => InGameStep {
                state: InGameState::EnterPause,
                to_title: false,
                stop_player: true,
            },
            InGameEvent::StageOver => spec_plain(InGameState::WaitForFinish),
            _ => spec_plain(state),
        },
        InGameState::MsgBox => match event {
            InGameEvent::Escape => spec_plain(InGameState::ExitMsgBox),
            InGameEvent::Activated(InGameButton::Exit(ExitWndButton::No)) => spec_plain(InGameState::ExitMsgBox),
            InGameEvent::Confirm => InGameStep { state, to_title: true, stop_player: false },
            InGameEvent::Activated(InGameButton::Exit(ExitWndButton::Yes)) => InGameStep {
                state,
                to_title: true,
                stop_player: false,
            },
            _ => spec_plain(state),
        },
        InGameState::EnterSetting => match event {
            InGameEvent::AnimationDone => spec_plain(InGameState::Setting),
            _ => spec_plain(state),
        },
        InGameState::Setting => match event {
            InGameEvent::Escape => spec_plain(InGameState::ExitSetting),
            InGameEvent::Activated(InGameButton::SettingReturn) => spec_plain(
                InGameState::ExitSetting,
            ),
            _ => spec_plain(state),
        },
        InGameState::WaitForFinish => match event {
            InGameEvent::AnimationDone => spec_plain(InGameState::DisappearRun),
            _ => spec_plain(state),
        },
        InGameState::DisappearRun => match event {
            InGameEvent::AnimationDone => spec_plain(InGameState::AppearResult),
            _ => spec_plain(state),
        },
        _ => spec_plain(state),
    }
}

fn plain(state: InGameState) -> (res: InGameStep)
    ensures
        res == spec_plain(state),
{
    InGameStep { state, to_title: false, stop_player: false }
}

/// The in-game scene's response to an event in one of the states this module decides:
/// the fades of entering the stage, of opening the settings and of finishing lead to the
/// next state; while running, escape or the menu button pauses the game and stops the
/// player, and the end of the stage waits for the finish; in the give-up window, escape or
/// "No" closes it and enter or "Yes" goes back to the title; in the settings window, escape
/// or the return button closes it. Other events change nothing.
pub fn in_game_step(state: InGameState, event: InGameEvent) -> (res: InGameStep)
    requires
        spec_step_known(state),
    ensures
        res == spec_in_game_step(state, event),
{
    match state {
        InGameState::Enter => match event {
            InGameEvent::AnimationDone => plain(InGameState::Spawn),
            _ => plain(state),
        },
        InGameState::Run => match event {
            InGameEvent::Escape => InGameStep {
                state: InGameState::EnterPause,
                to_title: false,
                stop_player: true,
            },
            InGameEvent::Activated(InGameButton::Menu) => InGameStep {
                state: InGameState::EnterPause,
                to_title: false,
                stop_player: true,
            },
            InGameEvent::StageOver => plain(InGameState::WaitForFinish),
            _ => plain(state),
        },
        InGameState::MsgBox => match event {
            InGameEvent::Escape => plain(InGameState::ExitMsgBox),
            InGameEvent::Activated(InGameButton::Exit(ExitWndButton::No)) => plain(InGameState::ExitMsgBox),
            InGameEvent::Confirm => InGameStep { state, to_title: true, stop_player: false },
            InGameEvent::Activated(InGameButton::Exit(ExitWndButton::Yes)) => InGameStep {
                state,
                to_title: true,
                stop_player: false,
            },
            _ => plain(state),
        },
        InGameState::EnterSetting => match event {
            InGameEvent::AnimationDone => plain(InGameState::Setting),
            _ => plain(state),
        },
        InGameState::Setting => match event {
            InGameEvent::Escape => plain(InGameState::ExitSetting),
            InGameEvent::Activated(InGameButton::SettingReturn) => plain(InGameState::ExitSetting),
            _ => plain(state),
        },
        InGameState::WaitForFinish => match event {
            InGameEvent::AnimationDone => plain(InGameState::DisappearRun),
            _ => plain(state),
        },
        InGameState::DisappearRun => match event {
            InGameEvent::AnimationDone => plain(InGameState::AppearResult),
            _ => plain(state),
        },
        _ => plain(state),
    }
}

/// The game goes back to the title only from the give-up window; the result appears only
/// after the stage is over and its fade-out has run; a stage ends only while running.
pub proof fn lemma_in_game_paths(state: InGameState, event: InGameEvent)
    requires
        spec_step_known(state),
    ensures
        spec_in_game_step(state, event).to_title ==> state == InGameState::MsgBox,
        spec_in_game_step(state, event).state == InGameState::AppearResult ==> state
            == InGameState::DisappearRun,
        spec_in_game_step(state, event).state == InGameState::DisappearRun ==> state
            == InGameState::WaitForFinish || state == InGameState::DisappearRun,
        (spec_in_game_step(state, event).state == InGameState::WaitForFinish && state
            != InGameState::WaitForFinish) ==> state == InGameState::Run,
        spec_in_game_step(state, event).stop_player ==> spec_in_game_step(state, event).state
            == InGameState::EnterPause,
{
}

} // verus!
