use vstd::prelude::*;

use crate::path::{DEF_IMG_TEXTURE_PATH, YUUKA_IMG_TEXTURE_PATH};
use crate::progress::{SaveData, NUM_TILES};

verus! {

/// The states of the credits scene: the credits, the hidden image fading in, the hidden
/// image, and the hidden image fading out.
#[derive(Debug, Clone, Copy, PartialEq, Eq, Structural, Hash)]
pub enum CreditSceneState {
    Main,
    EnterViewer,
    ExitViewer,
    Viewer,
}

/// The buttons of the credits scene.
#[derive(Debug, Clone, Copy, PartialEq, Eq, Structural, Hash)]
pub enum CreditButton {
    Return,
    HiddenImage,
}

/// What happens in the credits scene.
#[derive(Debug, Clone, Copy, PartialEq, Eq, Structural, Hash)]
pub enum CreditEvent {
    /// The escape key is pressed (not repeated).
    Escape,
    /// A button is pressed and released over it.
    Activated(CreditButton),
    /// The fade of the current state has run its course.
    AnimationDone,
}

/// The outcome of an event: the next state, and whether the scene is left.
#[derive(Debug, Clone, Copy, PartialEq, Eq, Structural, Hash)]
pub struct CreditStep {
    pub state: CreditSceneState,
    pub leave: bool,
}

pub open spec fn spec_credit_step(state: CreditSceneState, event: CreditEvent) -> CreditStep {
    match state {
        CreditSceneState::Main => match event {
            CreditEvent::Escape => CreditStep { state, leave: true },
            CreditEvent::Activated(CreditButton::Return) => CreditStep { state, leave: true },
            CreditEvent::Activated(CreditButton::HiddenImage) => CreditStep {
                state: CreditSceneState::EnterViewer,
                leave: false,
            },
            CreditEvent::AnimationDone => CreditStep { state, leave: false },
        },
        CreditSceneState::EnterViewer => match event {
            CreditEvent::AnimationDone => CreditStep {
                state: CreditSceneState::Viewer,
                leave: false,
            },
            _ => CreditStep { state, leave: false },
        },
        CreditSceneState::Viewer => match event {
            CreditEvent::Escape => CreditStep { state: CreditSceneState::ExitViewer, leave: false },
            CreditEvent::Activated(CreditButton::Return) => CreditStep {
                state: CreditSceneState::ExitViewer,
                leave: false,
            },
            _ => CreditStep { state, leave: false },
        },
        CreditSceneState::ExitViewer => match event {
            CreditEvent::AnimationDone => CreditStep { state: CreditSceneState::Main, leave: false },
            _ => CreditStep { state, leave: false },
        },
    }
}

/// The credits scene's response to an event: in the credits, escape or the return button
/// leaves the scene and the hidden image button opens the viewer; in the viewer, escape or
/// the return button closes it; the fades lead from one to the other; events during a fade
/// are ignored.
pub fn credit_step(state: CreditSceneState, event: CreditEvent) -> (res: CreditStep)
    ensures
        res == spec_credit_step(state, event),
{
    match state {
        CreditSceneState::Main => match event {
            CreditEvent::Escape => CreditStep { state, leave: true },
            CreditEvent::Activated(CreditButton::Return) => CreditStep { state, leave: true },
            CreditEvent::Activated(CreditButton::HiddenImage) => CreditStep {
                state: CreditSceneState::EnterViewer,
                leave: false,
            },
            CreditEvent::AnimationDone => CreditStep { state, leave: false },
        },
        CreditSceneState::EnterViewer => match event {
            CreditEvent::AnimationDone => CreditStep {
                state: CreditSceneState::Viewer,
                leave: false,
            },
            _ => CreditStep { state, leave: false },
        },
        CreditSceneState::Viewer => match event {
            CreditEvent::Escape => CreditStep { state: CreditSceneState::ExitViewer, leave: false },
            CreditEvent::Activated(CreditButton::Return) => CreditStep {
                state: CreditSceneState::ExitViewer,
                leave: false,
            },
            _ => CreditStep { state, leave: false },
        },
        CreditSceneState::ExitViewer => match event {
            CreditEvent::AnimationDone => CreditStep { state: CreditSceneState::Main, leave: false },
            _ => CreditStep { state, leave: false },
        },
    }
}

/// The buttons that can be pressed in a state: both in the credits, the return button in the
/// viewer, none during a fade.
pub fn pressable(state: CreditSceneState, button: CreditButton) -> (res: bool)
    ensures
        res == (state == CreditSceneState::Main || (state == CreditSceneState::Viewer && button
            == CreditButton::Return)),
{
    match state {
        CreditSceneState::Main => true,
        CreditSceneState::Viewer => button == CreditButton::Return,
        _ => false,
    }
}

/// The image behind the hidden image button: the hidden picture once every character has
/// owned every tile of its stage, else the default picture.
pub fn hidden_image_path(save: &SaveData) -> (res: &'static str)
    ensures
        res == if save.stage_aris == NUM_TILES && save.stage_momoi == NUM_TILES
            && save.stage_midori == NUM_TILES && save.stage_yuzu == NUM_TILES {
            YUUKA_IMG_TEXTURE_PATH
        } else {
            DEF_IMG_TEXTURE_PATH
        },
{
    if save.all_stages_cleared() {
        YUUKA_IMG_TEXTURE_PATH
    } else {
        DEF_IMG_TEXTURE_PATH
    }
}

/// The credits scene is left only from the credits themselves, never from the viewer or a
/// fade; and the viewer is reached from the credits only through its fade-in and left only
/// through its fade-out.
pub proof fn lemma_credit_leave_only_from_main(state: CreditSceneState, event: CreditEvent)
    ensures
        spec_credit_step(state, event).leave ==> state == CreditSceneState::Main,
        spec_credit_step(state, event).state == CreditSceneState::Viewer ==> (state
            == CreditSceneState::Viewer || state == CreditSceneState::EnterViewer),
        (state == CreditSceneState::Viewer && spec_credit_step(state, event).state
            != CreditSceneState::Viewer) ==> spec_credit_step(state, event).state
            == CreditSceneState::ExitViewer,
        spec_credit_step(state, event).state == CreditSceneState::EnterViewer ==> (state
            == CreditSceneState::EnterViewer || state == CreditSceneState::Main),
{
}

} // verus!
