use millennium_run::credit::{
    credit_step, hidden_image_path, pressable, CreditButton, CreditEvent, CreditSceneState as S,
    CreditStep,
};
use millennium_run::path::{DEF_IMG_TEXTURE_PATH, YUUKA_IMG_TEXTURE_PATH};
use millennium_run::progress::SaveData;

#[test]
fn credits_leave_on_escape_or_return() {
    assert_eq!(credit_step(S::Main, CreditEvent::Escape), CreditStep { state: S::Main, leave: true });
    assert_eq!(
        credit_step(S::Main, CreditEvent::Activated(CreditButton::Return)),
        CreditStep { state: S::Main, leave: true }
    );
}

#[test]
fn viewer_round_trip() {
    let mut s = S::Main;
    for (event, expected) in [
        (CreditEvent::Activated(CreditButton::HiddenImage), S::EnterViewer),
        (CreditEvent::Escape, S::EnterViewer),
        (CreditEvent::AnimationDone, S::Viewer),
        (CreditEvent::Activated(CreditButton::HiddenImage), S::Viewer),
        (CreditEvent::Activated(CreditButton::Return), S::ExitViewer),
        (CreditEvent::AnimationDone, S::Main),
    ] {
        let step = credit_step(s, event);
        assert!(!step.leave);
        assert_eq!(step.state, expected);
        s = step.state;
    }
    assert_eq!(credit_step(S::Viewer, CreditEvent::Escape).state, S::ExitViewer);
}

#[test]
fn buttons_pressable_by_state() {
    assert!(pressable(S::Main, CreditButton::Return));
    assert!(pressable(S::Main, CreditButton::HiddenImage));
    assert!(pressable(S::Viewer, CreditButton::Return));
    assert!(!pressable(S::Viewer, CreditButton::HiddenImage));
    assert!(!pressable(S::EnterViewer, CreditButton::Return));
    assert!(!pressable(S::ExitViewer, CreditButton::Return));
}

#[test]
fn hidden_image_unlocked_by_full_stages() {
    let full = SaveData { stage_aris: 10000, stage_momoi: 10000, stage_midori: 10000, stage_yuzu: 10000 };
    assert_eq!(hidden_image_path(&full), YUUKA_IMG_TEXTURE_PATH);
    let partial = SaveData { stage_midori: 9000, ..full };
    assert_eq!(hidden_image_path(&partial), DEF_IMG_TEXTURE_PATH);
}
