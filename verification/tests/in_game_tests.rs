use millennium_run::in_game::{in_game_step, ExitWndButton, InGameButton, InGameEvent, InGameStep};
use millennium_run::state::InGameState as S;

fn plain(state: S) -> InGameStep {
    InGameStep { state, to_title: false, stop_player: false }
}

#[test]
fn running_game_pauses() {
    let paused = InGameStep { state: S::EnterPause, to_title: false, stop_player: true };
    assert_eq!(in_game_step(S::Run, InGameEvent::Escape), paused);
    assert_eq!(in_game_step(S::Run, InGameEvent::Activated(InGameButton::Menu)), paused);
    assert_eq!(in_game_step(S::Run, InGameEvent::Confirm), plain(S::Run));
}

#[test]
fn stage_end_leads_to_the_result() {
    let mut s = S::Run;
    s = in_game_step(s, InGameEvent::StageOver).state;
    assert_eq!(s, S::WaitForFinish);
    s = in_game_step(s, InGameEvent::AnimationDone).state;
    assert_eq!(s, S::DisappearRun);
    s = in_game_step(s, InGameEvent::AnimationDone).state;
    assert_eq!(s, S::AppearResult);
}

#[test]
fn give_up_window() {
    assert_eq!(in_game_step(S::MsgBox, InGameEvent::Escape), plain(S::ExitMsgBox));
    assert_eq!(in_game_step(S::MsgBox, InGameEvent::Activated(InGameButton::Exit(ExitWndButton::No))), plain(S::ExitMsgBox));
    assert!(in_game_step(S::MsgBox, InGameEvent::Confirm).to_title);
    assert!(in_game_step(S::MsgBox, InGameEvent::Activated(InGameButton::Exit(ExitWndButton::Yes))).to_title);
}

#[test]
fn settings_window_and_fades() {
    assert_eq!(in_game_step(S::EnterSetting, InGameEvent::AnimationDone), plain(S::Setting));
    assert_eq!(in_game_step(S::Setting, InGameEvent::Escape), plain(S::ExitSetting));
    assert_eq!(in_game_step(S::Setting, InGameEvent::Activated(InGameButton::SettingReturn)), plain(S::ExitSetting));
    assert_eq!(in_game_step(S::Enter, InGameEvent::AnimationDone), plain(S::Spawn));
    assert_eq!(in_game_step(S::Enter, InGameEvent::Escape), plain(S::Enter));
}
