use vstd::prelude::*;

use crate::user::Language;

verus! {

/// The phases of the opening scene: a notice fades in, stays and fades out, then the logo
/// appears, stays and disappears.
#[derive(Debug, Clone, Copy, PartialEq, Eq, Structural, Hash)]
pub enum EntryPhase {
    FadeIn,
    DisplayNotify,
    DisappearNotify,
    AppearLogo,
    DisplayLogo,
    DisappearLogo,
}

/// What follows a phase whose time has run out.
#[derive(Debug, Clone, Copy, PartialEq, Eq, Structural, Hash)]
pub enum EntryNext {
    Phase(EntryPhase),
    /// The opening scene is over and leaves the scene stack.
    Leave,
}

pub open spec fn spec_phase_index(phase: EntryPhase) -> int {
    match phase {
        EntryPhase::FadeIn => 0,
        EntryPhase::DisplayNotify => 1,
        EntryPhase::DisappearNotify => 2,
        EntryPhase::AppearLogo => 3,
        EntryPhase::DisplayLogo => 4,
        EntryPhase::DisappearLogo => 5,
    }
}

pub open spec fn spec_entry_next(phase: EntryPhase) -> EntryNext {
    match phase {
        EntryPhase::FadeIn => EntryNext::Phase(EntryPhase::DisplayNotify),
        EntryPhase::DisplayNotify => EntryNext::Phase(EntryPhase::DisappearNotify),
        EntryPhase::DisappearNotify => EntryNext::Phase(EntryPhase::AppearLogo),
        EntryPhase::AppearLogo => EntryNext::Phase(EntryPhase::DisplayLogo),
        EntryPhase::DisplayLogo => EntryNext::Phase(EntryPhase::DisappearLogo),
        EntryPhase::DisappearLogo => EntryNext::Leave,
    }
}

impl EntryPhase {
    /// The position of the phase in the scene, from 0.
    pub fn index(self) -> (res: usize)
        ensures
            res == spec_phase_index(self),
    {
        match self {
            EntryPhase::FadeIn => 0,
            EntryPhase::DisplayNotify => 1,
            EntryPhase::DisappearNotify => 2,
            EntryPhase::AppearLogo => 3,
            EntryPhase::DisplayLogo => 4,
            EntryPhase::DisappearLogo => 5,
        }
    }

    /// How long the phase lasts, in milliseconds: the notice and the logo stay for three
    /// seconds, every fade takes half a second.
    pub fn duration_ms(self) -> (res: u32)
        ensures
            res == (if self is DisplayNotify || self is DisplayLogo {
                3000u32
            } else {
                500u32
            }),
    {
        match self {
            EntryPhase::DisplayNotify => 3000,
            EntryPhase::DisplayLogo => 3000,
            _ => 500,
        }
    }

    /// Whether the phase draws the logo; the first three draw the notice.
    pub fn shows_logo(self) -> (res: bool)
        ensures
            res == (spec_phase_index(self) >= 3),
    {
        match self {
            EntryPhase::AppearLogo => true,
            EntryPhase::DisplayLogo => true,
            EntryPhase::DisappearLogo => true,
            _ => false,
        }
    }

    /// What follows the phase when its time has run out: the next phase, and after the
    /// last one the scene is left.
    pub fn next(self) -> (res: EntryNext)
        ensures
            res == spec_entry_next(self),
    {
        match self {
            EntryPhase::FadeIn => EntryNext::Phase(EntryPhase::DisplayNotify),
            EntryPhase::DisplayNotify => EntryNext::Phase(EntryPhase::DisappearNotify),
            EntryPhase::DisappearNotify => EntryNext::Phase(EntryPhase::AppearLogo),
            EntryPhase::AppearLogo => EntryNext::Phase(EntryPhase::DisplayLogo),
            EntryPhase::DisplayLogo => EntryNext::Phase(EntryPhase::DisappearLogo),
            EntryPhase::DisappearLogo => EntryNext::Leave,
        }
    }
}

impl Default for EntryPhase {
    fn default() -> (res: Self)
        ensures
            res == EntryPhase::FadeIn,
    {
        EntryPhase::FadeIn
    }
}

/// The phase reached from `phase` after `n` phases have run out, if the scene is still on.
pub open spec fn spec_phase_after(phase: EntryPhase, n: nat) -> EntryNext
    decreases n,
{
    if n == 0 {
        EntryNext::Phase(phase)
    } else {
        match spec_phase_after(phase, (n - 1) as nat) {
            EntryNext::Phase(p) => spec_entry_next(p),
            EntryNext::Leave => EntryNext::Leave,
        }
    }
}

/// Every phase but the last leads to the one after it, and from the first phase the scene
/// passes through all six in order and then leaves.
pub proof fn lemma_entry_runs_in_order(phase: EntryPhase)
    ensures
        spec_phase_index(phase) < 5 ==> (spec_entry_next(phase) matches EntryNext::Phase(p)
            && spec_phase_index(p) == spec_phase_index(phase) + 1),
        spec_phase_index(phase) == 5 <==> spec_entry_next(phase) == EntryNext::Leave,
        spec_phase_after(EntryPhase::FadeIn, 5) == EntryNext::Phase(EntryPhase::DisappearLogo),
        spec_phase_after(EntryPhase::FadeIn, 6) == EntryNext::Leave,
{
    reveal_with_fuel(spec_phase_after, 7);
}

/// The two lines of the notice, the title and the message, in `language`.
pub fn notice_lines(language: Language) -> (res: (&'static str, &'static str))
    requires
        language == Language::Korean,
    ensures
        res.0@ == "알 림"@,
        res.1@ == "이 게임은 Blue Archive의 팬 제작 게임입니다."@,
{
    ("알 림", "이 게임은 Blue Archive의 팬 제작 게임입니다.")
}

} // verus!
