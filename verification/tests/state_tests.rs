use millennium_run::state::{
    FirstTimeSetupSceneState, InGameState, IntroState, NUM_INTRO_STATES, NUM_IN_GAME_STATES,
};

#[test]
fn in_game_indices_are_distinct_and_in_range() {
    let all = [
        InGameState::Enter, InGameState::Spawn, InGameState::Ready, InGameState::Run,
        InGameState::EnterPause, InGameState::Pause, InGameState::ExitPause,
        InGameState::EnterMsgBox, InGameState::MsgBox, InGameState::ExitMsgBox,
        InGameState::EnterSetting, InGameState::Setting, InGameState::ExitSetting,
        InGameState::WaitForFinish, InGameState::DisappearRun, InGameState::AppearResult,
        InGameState::Result,
    ];
    for (i, s) in all.iter().enumerate() {
        assert_eq!(s.index(), i);
        assert!(s.index() < NUM_IN_GAME_STATES);
    }
    assert_eq!(InGameState::default(), InGameState::Enter);
}

#[test]
fn intro_goes_through_its_states_in_order() {
    let mut s = IntroState::default();
    let mut seen = vec![s];
    while let Some(n) = s.successor() {
        assert_eq!(n.index(), s.index() + 1);
        s = n;
        seen.push(s);
    }
    assert_eq!(seen, vec![
        IntroState::FadeIn, IntroState::DisplayNotify, IntroState::DisappearNotify,
        IntroState::PlayTitleVoice, IntroState::AppearLogo, IntroState::DisplayLogo,
        IntroState::WaitLoading, IntroState::FadeOut,
    ]);
    assert_eq!(seen.len(), NUM_INTRO_STATES);
}

#[test]
fn first_time_setup_states() {
    assert_eq!(FirstTimeSetupSceneState::default(), FirstTimeSetupSceneState::Wait);
    assert_eq!(FirstTimeSetupSceneState::Wait.index(), 0);
    assert_eq!(FirstTimeSetupSceneState::Exit.index(), 1);
    assert_eq!(FirstTimeSetupSceneState::NumStatus.index(), 2);
}
