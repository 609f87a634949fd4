use vstd::prelude::*;

use crate::user::{Language, Resolution, Settings, Volume};

verus! {

/// The right end of the volume bars, in pixels from the centre of the screen.
pub const SETTING_VOLUME_RANGE_MAX: i32 = 272;

/// The left end of the volume bars, in pixels from the centre of the screen.
pub const SETTING_VOLUME_RANGE_MIN: i32 = -240;

/// The width of a volume bar's handle, in pixels.
pub const VOLUME_BAR_WIDTH: i32 = 8;

/// How often the hidden voice is played when the voice volume is set.
pub const NUM_HIDDEN: usize = 7;

/// The sound volumes that the settings window sets.
#[derive(Debug, Clone, Copy, PartialEq, Eq, Structural, Hash)]
pub enum VolumeOptions {
    Background,
    Effect,
    Voice,
}

/// The volume level that a handle at `pos` stands for: the share of the bar left of it, in
/// percent, rounded down.
pub open spec fn spec_volume_at(pos: int) -> int {
    (pos - SETTING_VOLUME_RANGE_MIN) * 100 / (SETTING_VOLUME_RANGE_MAX - SETTING_VOLUME_RANGE_MIN)
}

/// The volume level that a handle at `pos` pixels from the centre stands for.
pub fn volume_from_position(pos: i32) -> (res: u8)
    requires
        SETTING_VOLUME_RANGE_MIN <= pos <= SETTING_VOLUME_RANGE_MAX,
    ensures
        res == spec_volume_at(pos as int),
        res <= 100,
{
    let range = SETTING_VOLUME_RANGE_MAX - SETTING_VOLUME_RANGE_MIN;
    let delta = pos - SETTING_VOLUME_RANGE_MIN;
    assert(0 <= (delta as int) * 100 / (range as int) <= 100) by (nonlinear_arith)
        requires
            0 <= delta <= range,
            range == 512,
    ;
    (delta * 100 / range) as u8
}

/// The left and right margins of a handle centred at `pos`.
pub fn volume_bar_margins(pos: i32) -> (res: (i32, i32))
    requires
        i32::MIN + VOLUME_BAR_WIDTH / 2 <= pos <= i32::MAX - VOLUME_BAR_WIDTH / 2,
    ensures
        res.0 == pos - VOLUME_BAR_WIDTH / 2,
        res.1 == pos + VOLUME_BAR_WIDTH / 2,
{
    (pos - VOLUME_BAR_WIDTH / 2, pos + VOLUME_BAR_WIDTH / 2)
}

/// The handle's position for a volume level: the left end of the bar plus the level's share
/// of its length, rounded down; a level above 100 counts as 100.
pub fn position_of_volume(level: u8) -> (res: i32)
    ensures
        res == SETTING_VOLUME_RANGE_MIN + (if level <= 100 {
            level as int
        } else {
            100
        }) * (SETTING_VOLUME_RANGE_MAX - SETTING_VOLUME_RANGE_MIN) / 100,
        SETTING_VOLUME_RANGE_MIN <= res <= SETTING_VOLUME_RANGE_MAX,
{
    let range = SETTING_VOLUME_RANGE_MAX - SETTING_VOLUME_RANGE_MIN;
    let l: i32 = if level <= 100 {
        level as i32
    } else {
        100
    };
    assert(0 <= (l as int) * (range as int) / 100 <= range) by (nonlinear_arith)
        requires
            0 <= l <= 100,
            range == 512,
    ;
    SETTING_VOLUME_RANGE_MIN + l * range / 100
}

/// `after` is `before` with the volume `option` set to `level` and every other setting kept.
pub open spec fn spec_volume_set(
    before: Settings,
    after: Settings,
    option: VolumeOptions,
    level: int,
) -> bool {
    match option {
        VolumeOptions::Background => after == (Settings {
            background_volume: after.background_volume,
            ..before
        }) && after.background_volume.spec_level() == level,
        VolumeOptions::Effect => after == (Settings { effect_volume: after.effect_volume, ..before })
            && after.effect_volume.spec_level() == level,
        VolumeOptions::Voice => after == (Settings { voice_volume: after.voice_volume, ..before })
            && after.voice_volume.spec_level() == level,
    }
}

/// Sets the volume `option` of `settings` to `level`, leaving the other settings as they are.
pub fn set_volume(settings: &mut Settings, option: VolumeOptions, level: u8)
    ensures
        spec_volume_set(*old(settings), *final(settings), option, level as int),
{
    match option {
        VolumeOptions::Background => settings.background_volume.set(level),
        VolumeOptions::Effect => settings.effect_volume.set(level),
        VolumeOptions::Voice => settings.voice_volume.set(level),
    }
}

/// Where a handle dragged to `pos` stops: the bar's ends hold it back.
pub open spec fn spec_clamp_position(pos: int) -> int {
    if pos < SETTING_VOLUME_RANGE_MIN {
        SETTING_VOLUME_RANGE_MIN as int
    } else if pos > SETTING_VOLUME_RANGE_MAX {
        SETTING_VOLUME_RANGE_MAX as int
    } else {
        pos
    }
}

/// The handle of `option` is dragged to `pos` pixels from the centre of the screen: it
/// stops at the ends of the bar, the volume follows it, and its new left and right margins
/// are returned.
pub fn drag_volume(settings: &mut Settings, option: VolumeOptions, pos: i32) -> (res: (i32, i32))
    ensures
        res.0 == spec_clamp_position(pos as int) - VOLUME_BAR_WIDTH / 2,
        res.1 == spec_clamp_position(pos as int) + VOLUME_BAR_WIDTH / 2,
        spec_volume_set(
            *old(settings),
            *final(settings),
            option,
            spec_volume_at(spec_clamp_position(pos as int)),
        ),
{
    let p = if pos < SETTING_VOLUME_RANGE_MIN {
        SETTING_VOLUME_RANGE_MIN
    } else if pos > SETTING_VOLUME_RANGE_MAX {
        SETTING_VOLUME_RANGE_MAX
    } else {
        pos
    };
    let level = volume_from_position(p);
    set_volume(settings, option, level);
    volume_bar_margins(p)
}

/// Whether setting the voice volume for the `count`-th time plays the hidden voice.
pub fn plays_hidden_voice(count: usize) -> (res: bool)
    ensures
        res == (count % NUM_HIDDEN == 0),
{
    count % NUM_HIDDEN == 0
}

/// The count of voice volume settings after one more, kept below `NUM_HIDDEN`.
pub fn next_voice_count(count: usize) -> (res: usize)
    ensures
        res == (count + 1) % (NUM_HIDDEN as int),
        res < NUM_HIDDEN,
{
    (count % NUM_HIDDEN + 1) % NUM_HIDDEN
}

/// The language that choosing `new` in the settings window sets: `None` when it is the
/// current one and nothing changes.
pub fn changed_language(settings: &Settings, new: Language) -> (res: Option<Language>)
    ensures
        res == if settings.language == new {
            None
        } else {
            Some(new)
        },
{
    if settings.language == new {
        None
    } else {
        Some(new)
    }
}

/// The resolution that choosing `new` in the settings window asks for: `None` when it is
/// the current one and nothing changes.
pub fn changed_resolution(settings: &Settings, new: Resolution) -> (res: Option<Resolution>)
    ensures
        res == if settings.resolution == new {
            None
        } else {
            Some(new)
        },
{
    if settings.resolution == new {
        None
    } else {
        Some(new)
    }
}

/// The elements of the settings window that answer the mouse.
#[derive(Debug, Clone, Copy, PartialEq, Eq, Structural, Hash)]
pub enum SettingItem {
    Language(Language),
    Resolution(Resolution),
    Volume(VolumeOptions),
    Return,
}

/// The short sounds with which a button answers.
#[derive(Debug, Clone, Copy, PartialEq, Eq, Structural, Hash)]
pub enum FeedbackSound {
    Click,
    Cancel,
}

pub open spec fn spec_pressed_sound(item: SettingItem) -> Option<FeedbackSound> {
    match item {
        SettingItem::Language(_) => Some(FeedbackSound::Click),
        SettingItem::Resolution(_) => Some(FeedbackSound::Click),
        SettingItem::Volume(_) => None,
        SettingItem::Return => Some(FeedbackSound::Cancel),
    }
}

/// The sound played when the left mouse button goes down over `item`: a click for the
/// language and resolution buttons, the cancel sound for the return button, none for a
/// volume handle.
pub fn pressed_sound(item: SettingItem) -> (res: Option<FeedbackSound>)
    ensures
        res == spec_pressed_sound(item),
{
    match item {
        SettingItem::Language(_) => Some(FeedbackSound::Click),
        SettingItem::Resolution(_) => Some(FeedbackSound::Click),
        SettingItem::Volume(_) => None,
        SettingItem::Return => Some(FeedbackSound::Cancel),
    }
}

pub open spec fn spec_released_item(
    held: Option<SettingItem>,
    hit: Option<SettingItem>,
) -> Option<SettingItem> {
    match held {
        Some(SettingItem::Volume(_)) => held,
        Some(_) => if hit == held {
            held
        } else {
            None
        },
        None => None,
    }
}

/// The element activated when the left mouse button goes up over `hit` while `held` is
/// held: a volume handle wherever the cursor is, another element only when the cursor is
/// still over it.
pub fn released_item(held: Option<SettingItem>, hit: Option<SettingItem>) -> (res: Option<
    SettingItem,
>)
    ensures
        res == spec_released_item(held, hit),
{
    match held {
        Some(SettingItem::Volume(v)) => Some(SettingItem::Volume(v)),
        Some(item) => match hit {
            Some(h) => if h == item {
                Some(item)
            } else {
                None
            },
            None => None,
        },
        None => None,
    }
}

/// What activating an element of the settings window asks of the game.
#[derive(Debug, Clone, Copy, PartialEq, Eq, Structural, Hash)]
pub enum SettingAction {
    Nothing,
    ChangeLanguage(Language),
    ChangeResolution(Resolution),
    Play(FeedbackSound),
    /// A character's voice, the hidden one or the title one.
    PlayVoice { hidden: bool },
    /// The settings window closes.
    Close,
}

pub open spec fn spec_setting_action(
    settings: Settings,
    item: SettingItem,
    voice_count: int,
) -> SettingAction {
    match item {
        SettingItem::Language(new) => if settings.language == new {
            SettingAction::Nothing
        } else {
            SettingAction::ChangeLanguage(new)
        },
        SettingItem::Resolution(new) => if settings.resolution == new {
            SettingAction::Nothing
        } else {
            SettingAction::ChangeResolution(new)
        },
        SettingItem::Volume(VolumeOptions::Background) => SettingAction::Nothing,
        SettingItem::Volume(VolumeOptions::Effect) => SettingAction::Play(FeedbackSound::Click),
        SettingItem::Volume(VolumeOptions::Voice) => SettingAction::PlayVoice {
            hidden: voice_count % (NUM_HIDDEN as int) == 0,
        },
        SettingItem::Return => SettingAction::Close,
    }
}

/// Activates `item` of the settings window: a language or resolution other than the current
/// one is asked for; letting go of the effect handle plays a click so that its new volume can
/// be heard, and letting go of the voice handle plays a voice, the hidden one on every
/// `NUM_HIDDEN`-th time, counted in `voice_count`; the return button closes the window.
pub fn activate_item(settings: &Settings, item: SettingItem, voice_count: &mut usize) -> (res:
    SettingAction)
    ensures
        res == spec_setting_action(*settings, item, *old(voice_count) as int),
        item == SettingItem::Volume(VolumeOptions::Voice) ==> *final(voice_count) == (*old(
            voice_count,
        ) + 1) % (NUM_HIDDEN as int),
        item != SettingItem::Volume(VolumeOptions::Voice) ==> *final(voice_count) == *old(
            voice_count,
        ),
{
    match item {
        SettingItem::Language(new) => match changed_language(settings, new) {
            Some(l) => SettingAction::ChangeLanguage(l),
            None => SettingAction::Nothing,
        },
        SettingItem::Resolution(new) => match changed_resolution(settings, new) {
            Some(r) => SettingAction::ChangeResolution(r),
            None => SettingAction::Nothing,
        },
        SettingItem::Volume(VolumeOptions::Background) => SettingAction::Nothing,
        SettingItem::Volume(VolumeOptions::Effect) => SettingAction::Play(FeedbackSound::Click),
        SettingItem::Volume(VolumeOptions::Voice) => {
            let hidden = plays_hidden_voice(*voice_count);
            *voice_count = next_voice_count(*voice_count);
            SettingAction::PlayVoice { hidden }
        },
        SettingItem::Return => SettingAction::Close,
    }
}

/// A handle put at the position of a level reads back that level or one less (both
/// conversions round down).
pub proof fn lemma_volume_position_round_trip(level: int)
    requires
        0 <= level <= 100,
    ensures
        SETTING_VOLUME_RANGE_MIN <= SETTING_VOLUME_RANGE_MIN + level * 512 / 100
            <= SETTING_VOLUME_RANGE_MAX,
        level - 1 <= spec_volume_at(SETTING_VOLUME_RANGE_MIN + level * 512 / 100) <= level,
{
    let p = level * 512 / 100;
    assert(0 <= p <= 512 && level - 1 <= p * 100 / 512 <= level) by (nonlinear_arith)
        requires
            0 <= level <= 100,
            p == level * 512 / 100,
    ;
}

/// Moving a handle to the right never lowers its volume level.
pub proof fn lemma_volume_monotonic(a: int, b: int)
    requires
        SETTING_VOLUME_RANGE_MIN <= a <= b <= SETTING_VOLUME_RANGE_MAX,
    ensures
        spec_volume_at(a) <= spec_volume_at(b),
{
    let da = (a - SETTING_VOLUME_RANGE_MIN) * 100;
    let db = (b - SETTING_VOLUME_RANGE_MIN) * 100;
    assert(da <= db) by (nonlinear_arith)
        requires
            a <= b,
            da == (a - SETTING_VOLUME_RANGE_MIN) * 100,
            db == (b - SETTING_VOLUME_RANGE_MIN) * 100,
    ;
    assert(da / 512 <= db / 512) by (nonlinear_arith)
        requires
            0 <= da <= db,
    ;
}

/// The voice count after `n` releases of the voice handle, starting from `count`.
pub open spec fn spec_voice_count_after(count: int, n: nat) -> int
    decreases n,
{
    if n == 0 {
        count
    } else {
        (spec_voice_count_after(count, (n - 1) as nat) + 1) % (NUM_HIDDEN as int)
    }
}

/// After `n` releases of the voice handle the count is `count + n` modulo `NUM_HIDDEN`, so
/// the hidden voice plays on exactly one of any `NUM_HIDDEN` releases in a row.
pub proof fn lemma_voice_count_cycles(count: int, n: nat)
    requires
        count >= 0,
        n >= 1,
    ensures
        spec_voice_count_after(count, n) == (count + n) % (NUM_HIDDEN as int),
    decreases n,
{
    assert(spec_voice_count_after(count, 0) == count);
    if n > 1 {
        lemma_voice_count_cycles(count, (n - 1) as nat);
        let k = count + n - 1;
        assert((k % 7 + 1) % 7 == (k + 1) % 7) by (nonlinear_arith)
            requires
                k >= 0,
        ;
        assert(spec_voice_count_after(count, n) == (spec_voice_count_after(count, (n - 1) as nat)
            + 1) % 7);
    }
}

/// Letting go of the button activates an element only if it was held, and an element other
/// than a volume handle only when the cursor is still over it.
pub proof fn lemma_release_activates_held(held: Option<SettingItem>, hit: Option<SettingItem>)
    ensures
        spec_released_item(held, hit) is Some ==> spec_released_item(held, hit) == held,
        (held is Some && !(held->0 is Volume)) ==> (spec_released_item(held, hit) is Some
            <==> hit == held),
        (held is Some && held->0 is Volume) ==> spec_released_item(held, hit) == held,
{
}

/// What each element of the settings window asks for, in terms of the settings: a language
/// or resolution button asks for its own language or resolution exactly when it differs
/// from the current one, so pressing it again once it is set asks for nothing; the effect
/// handle plays a click, the background handle nothing, the voice handle a voice (the hidden
/// one when the count is a multiple of `NUM_HIDDEN`), and the return button closes the
/// window. The voice count matters to the voice handle alone.
pub proof fn lemma_setting_buttons(
    settings: Settings,
    language: Language,
    resolution: Resolution,
    count: int,
    other_count: int,
)
    ensures
        spec_setting_action(settings, SettingItem::Resolution(resolution), count) == if settings.resolution
            == resolution {
            SettingAction::Nothing
        } else {
            SettingAction::ChangeResolution(resolution)
        },
        spec_setting_action(
            (Settings { resolution, ..settings }),
            SettingItem::Resolution(resolution),
            count,
        ) == SettingAction::Nothing,
        spec_setting_action(settings, SettingItem::Language(language), count) == if settings.language
            == language {
            SettingAction::Nothing
        } else {
            SettingAction::ChangeLanguage(language)
        },
        spec_setting_action(
            (Settings { language, ..settings }),
            SettingItem::Language(language),
            count,
        ) == SettingAction::Nothing,
        spec_setting_action(settings, SettingItem::Return, count) == SettingAction::Close,
        spec_setting_action(settings, SettingItem::Volume(VolumeOptions::Background), count)
            == SettingAction::Nothing,
        spec_setting_action(settings, SettingItem::Volume(VolumeOptions::Effect), count)
            == SettingAction::Play(FeedbackSound::Click),
        spec_setting_action(settings, SettingItem::Volume(VolumeOptions::Voice), count)
            == (SettingAction::PlayVoice { hidden: count % 7 == 0 }),
        spec_setting_action(settings, SettingItem::Resolution(resolution), count)
            == spec_setting_action(settings, SettingItem::Resolution(resolution), other_count),
        spec_setting_action(settings, SettingItem::Language(language), count)
            == spec_setting_action(settings, SettingItem::Language(language), other_count),
{
}

} // verus!
