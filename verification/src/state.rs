use vstd::prelude::*;

verus! {

/// The states of the in-game scene. Each state has its own event, update and draw
/// functions, found by the state's index.
#[derive(Debug, Clone, Copy, PartialEq, Eq, Structural, Hash)]
pub enum InGameState {
    Enter,
    Spawn,
    Ready,
    Run,
    EnterPause,
    Pause,
    ExitPause,
    EnterMsgBox,
    MsgBox,
    ExitMsgBox,
    EnterSetting,
    Setting,
    ExitSetting,
    WaitForFinish,
    DisappearRun,
    AppearResult,
    Result,
}

/// The number of in-game states.
pub const NUM_IN_GAME_STATES: usize = 17;

pub open spec fn spec_in_game_index(s: InGameState) -> usize {
    match s {
        InGameState::Enter => 0,
        InGameState::Spawn => 1,
        InGameState::Ready => 2,
        InGameState::Run => 3,
        InGameState::EnterPause => 4,
        InGameState::Pause => 5,
        InGameState::ExitPause => 6,
        InGameState::EnterMsgBox => 7,
        InGameState::MsgBox => 8,
        InGameState::ExitMsgBox => 9,
        InGameState::EnterSetting => 10,
        InGameState::Setting => 11,
        InGameState::ExitSetting => 12,
        InGameState::WaitForFinish => 13,
        InGameState::DisappearRun => 14,
        InGameState::AppearResult => 15,
        InGameState::Result => 16,
    }
}

impl InGameState {
    /// The position of the state's functions in the tables of state functions.
    pub fn index(self) -> (res: usize)
        ensures
            res == spec_in_game_index(self),
            res < NUM_IN_GAME_STATES,
    {
        match self {
            InGameState::Enter => 0,
            InGameState::Spawn => 1,
            InGameState::Ready => 2,
            InGameState::Run => 3,
            InGameState::EnterPause => 4,
            InGameState::Pause => 5,
            InGameState::ExitPause => 6,
            InGameState::EnterMsgBox => 7,
            InGameState::MsgBox => 8,
            InGameState::ExitMsgBox => 9,
            InGameState::EnterSetting => 10,
            InGameState::Setting => 11,
            InGameState::ExitSetting => 12,
            InGameState::WaitForFinish => 13,
            InGameState::DisappearRun => 14,
            InGameState::AppearResult => 15,
            InGameState::Result => 16,
        }
    }
}

impl Default for InGameState {
    fn default() -> (res: Self)
        ensures
            res == InGameState::Enter,
    {
        InGameState::Enter
    }
}

/// Distinct in-game states have distinct indices, so that each has its own functions.
pub proof fn lemma_in_game_index_injective(a: InGameState, b: InGameState)
    ensures
        spec_in_game_index(a) == spec_in_game_index(b) ==> a == b,
        spec_in_game_index(a) < NUM_IN_GAME_STATES,
{
}

/// The states of the intro scene, in the order in which the scene goes through them.
#[derive(Debug, Clone, Copy, PartialEq, Eq, Structural, Hash)]
pub enum IntroState {
    FadeIn,
    DisplayNotify,
    DisappearNotify,
    PlayTitleVoice,
    AppearLogo,
    DisplayLogo,
    WaitLoading,
    FadeOut,
}

/// The number of intro states.
pub const NUM_INTRO_STATES: usize = 8;

pub open spec fn spec_intro_index(s: IntroState) -> usize {
    match s {
        IntroState::FadeIn => 0,
        IntroState::DisplayNotify => 1,
        IntroState::DisappearNotify => 2,
        IntroState::PlayTitleVoice => 3,
        IntroState::AppearLogo => 4,
        IntroState::DisplayLogo => 5,
        IntroState::WaitLoading => 6,
        IntroState::FadeOut => 7,
    }
}

pub open spec fn spec_intro_successor(s: IntroState) -> Option<IntroState> {
    match s {
        IntroState::FadeIn => Some(IntroState::DisplayNotify),
        IntroState::DisplayNotify => Some(IntroState::DisappearNotify),
        IntroState::DisappearNotify => Some(IntroState::PlayTitleVoice),
        IntroState::PlayTitleVoice => Some(IntroState::AppearLogo),
        IntroState::AppearLogo => Some(IntroState::DisplayLogo),
        IntroState::DisplayLogo => Some(IntroState::WaitLoading),
        IntroState::WaitLoading => Some(IntroState::FadeOut),
        IntroState::FadeOut => None,
    }
}

impl IntroState {
    /// The position of the state's functions in the tables of state functions.
    pub fn index(self) -> (res: usize)
        ensures
            res == spec_intro_index(self),
            res < NUM_INTRO_STATES,
    {
        match self {
            IntroState::FadeIn => 0,
            IntroState::DisplayNotify => 1,
            IntroState::DisappearNotify => 2,
            IntroState::PlayTitleVoice => 3,
            IntroState::AppearLogo => 4,
            IntroState::DisplayLogo => 5,
            IntroState::WaitLoading => 6,
            IntroState::FadeOut => 7,
        }
    }

    /// The state that follows this one when its part of the intro is over; `None` after the
    /// last one, when the scene changes.
    pub fn successor(self) -> (res: Option<IntroState>)
        ensures
            res == spec_intro_successor(self),
    {
        match self {
            IntroState::FadeIn => Some(IntroState::DisplayNotify),
            IntroState::DisplayNotify => Some(IntroState::DisappearNotify),
            IntroState::DisappearNotify => Some(IntroState::PlayTitleVoice),
            IntroState::PlayTitleVoice => Some(IntroState::AppearLogo),
            IntroState::AppearLogo => Some(IntroState::DisplayLogo),
            IntroState::DisplayLogo => Some(IntroState::WaitLoading),
            IntroState::WaitLoading => Some(IntroState::FadeOut),
            IntroState::FadeOut => None,
        }
    }
}

impl Default for IntroState {
    fn default() -> (res: Self)
        ensures
            res == IntroState::FadeIn,
    {
        IntroState::FadeIn
    }
}

/// The intro goes through its states one after the other, from the first to the last, each
/// state once: a successor is always the state of the next index, and only the last state
/// has none.
pub proof fn lemma_intro_order(s: IntroState)
    ensures
        spec_intro_successor(s) matches Some(n) ==> spec_intro_index(n) == spec_intro_index(s)
            + 1,
        spec_intro_successor(s) is None <==> spec_intro_index(s) == NUM_INTRO_STATES - 1,
        spec_intro_index(s) < NUM_INTRO_STATES,
{
}

/// The states of the first-time setup scene; the last variant counts the states.
#[derive(Debug, Clone, Copy, PartialEq, Eq, Structural, Hash)]
pub enum FirstTimeSetupSceneState {
    Wait,
    Exit,
    NumStatus,
}

impl FirstTimeSetupSceneState {
    /// The position of the state's functions in the tables of state functions; the counting
    /// variant stands for the number of states.
    pub fn index(self) -> (res: usize)
        ensures
            res == match self {
                FirstTimeSetupSceneState::Wait => 0usize,
                FirstTimeSetupSceneState::Exit => 1usize,
                FirstTimeSetupSceneState::NumStatus => 2usize,
            },
    {
        match self {
            FirstTimeSetupSceneState::Wait => 0,
            FirstTimeSetupSceneState::Exit => 1,
            FirstTimeSetupSceneState::NumStatus => 2,
        }
    }
}

impl Default for FirstTimeSetupSceneState {
    fn default() -> (res: Self)
        ensures
            res == FirstTimeSetupSceneState::Wait,
    {
        FirstTimeSetupSceneState::Wait
    }
}

} // verus!
