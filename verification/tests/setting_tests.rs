use millennium_run::setting::{
    activate_item, changed_language, changed_resolution, drag_volume, next_voice_count,
    plays_hidden_voice, position_of_volume, pressed_sound, released_item, set_volume,
    volume_bar_margins, volume_from_position, FeedbackSound, SettingAction, SettingItem,
    VolumeOptions, SETTING_VOLUME_RANGE_MAX, SETTING_VOLUME_RANGE_MIN,
};
use millennium_run::user::{Language, Resolution, Settings};

#[test]
fn volume_at_the_ends_of_the_bar() {
    assert_eq!(volume_from_position(SETTING_VOLUME_RANGE_MIN), 0);
    assert_eq!(volume_from_position(SETTING_VOLUME_RANGE_MAX), 100);
    assert_eq!(volume_from_position(16), 50);
    assert_eq!(volume_from_position(-235), 0);
    assert_eq!(volume_from_position(-234), 1);
}

#[test]
fn volume_matches_the_float_formula() {
    for pos in SETTING_VOLUME_RANGE_MIN..=SETTING_VOLUME_RANGE_MAX {
        let range = SETTING_VOLUME_RANGE_MAX - SETTING_VOLUME_RANGE_MIN;
        let delta = pos - SETTING_VOLUME_RANGE_MIN;
        let float = (delta as f32 / range as f32 * 100.0) as u8;
        assert_eq!(volume_from_position(pos), float);
    }
}

#[test]
fn volume_never_falls_to_the_right() {
    let mut last = 0;
    for pos in SETTING_VOLUME_RANGE_MIN..=SETTING_VOLUME_RANGE_MAX {
        let v = volume_from_position(pos);
        assert!(v >= last);
        last = v;
    }
}

#[test]
fn handle_position_of_a_level() {
    assert_eq!(position_of_volume(0), SETTING_VOLUME_RANGE_MIN);
    assert_eq!(position_of_volume(100), SETTING_VOLUME_RANGE_MAX);
    assert_eq!(position_of_volume(200), SETTING_VOLUME_RANGE_MAX);
    assert_eq!(position_of_volume(1), -235);
    for level in 0..=100u8 {
        let back = volume_from_position(position_of_volume(level));
        assert!(back == level || back + 1 == level);
    }
}

#[test]
fn handle_margins() {
    assert_eq!(volume_bar_margins(0), (-4, 4));
    assert_eq!(volume_bar_margins(SETTING_VOLUME_RANGE_MIN), (-244, -236));
}

#[test]
fn set_volume_changes_one_volume() {
    let mut s = Settings::default();
    set_volume(&mut s, VolumeOptions::Effect, 33);
    assert_eq!(s.effect_volume.level(), 33);
    assert_eq!(s.background_volume.level(), 80);
    assert_eq!(s.voice_volume.level(), 70);
    set_volume(&mut s, VolumeOptions::Voice, 1);
    assert_eq!(s.voice_volume.level(), 1);
    set_volume(&mut s, VolumeOptions::Background, 2);
    assert_eq!(s.background_volume.level(), 2);
}

#[test]
fn hidden_voice_every_seventh_time() {
    let mut count = 0;
    let mut hidden = Vec::new();
    for _ in 0..15 {
        hidden.push(plays_hidden_voice(count));
        count = next_voice_count(count);
    }
    let expected: Vec<bool> = (0..15).map(|i| i % 7 == 0).collect();
    assert_eq!(hidden, expected);
}

#[test]
fn choosing_the_current_option_changes_nothing() {
    let s = Settings { language: Language::Korean, resolution: Resolution::W1024H768, ..Settings::default() };
    assert_eq!(changed_language(&s, Language::Korean), None);
    assert_eq!(changed_language(&s, Language::Unknown), Some(Language::Unknown));
    assert_eq!(changed_resolution(&s, Resolution::W1024H768), None);
    assert_eq!(changed_resolution(&s, Resolution::W800H600), Some(Resolution::W800H600));
}

#[test]
fn next_voice_count_of_the_largest_count() {
    assert_eq!(next_voice_count(usize::MAX), ((usize::MAX as u128 + 1) % 7) as usize);
    assert_eq!(next_voice_count(6), 0);
    assert_eq!(next_voice_count(13), 0);
}

#[test]
fn dragging_a_handle_stops_at_the_ends() {
    let mut s = Settings::default();
    assert_eq!(drag_volume(&mut s, VolumeOptions::Voice, 1000), (268, 276));
    assert_eq!(s.voice_volume.level(), 100);
    assert_eq!(s.background_volume.level(), 80);
    assert_eq!(drag_volume(&mut s, VolumeOptions::Background, -1000), (-244, -236));
    assert_eq!(s.background_volume.level(), 0);
    assert_eq!(drag_volume(&mut s, VolumeOptions::Effect, 16), (12, 20));
    assert_eq!(s.effect_volume.level(), 50);
    assert_eq!(s.voice_volume.level(), 100);
}

#[test]
fn pressing_an_item_plays_its_sound() {
    assert_eq!(pressed_sound(SettingItem::Language(Language::Korean)), Some(FeedbackSound::Click));
    assert_eq!(pressed_sound(SettingItem::Resolution(Resolution::W800H600)), Some(FeedbackSound::Click));
    assert_eq!(pressed_sound(SettingItem::Return), Some(FeedbackSound::Cancel));
    assert_eq!(pressed_sound(SettingItem::Volume(VolumeOptions::Voice)), None);
}

#[test]
fn releasing_activates_the_held_item() {
    let ret = Some(SettingItem::Return);
    let lang = Some(SettingItem::Language(Language::Korean));
    let vol = Some(SettingItem::Volume(VolumeOptions::Effect));
    assert_eq!(released_item(ret, ret), ret);
    assert_eq!(released_item(ret, lang), None);
    assert_eq!(released_item(ret, None), None);
    assert_eq!(released_item(vol, None), vol);
    assert_eq!(released_item(vol, ret), vol);
    assert_eq!(released_item(None, ret), None);
}

#[test]
fn activating_items() {
    let s = Settings { language: Language::Korean, resolution: Resolution::W1024H768, ..Settings::default() };
    let mut count = 0;
    assert_eq!(activate_item(&s, SettingItem::Language(Language::Korean), &mut count), SettingAction::Nothing);
    assert_eq!(
        activate_item(&s, SettingItem::Resolution(Resolution::W800H600), &mut count),
        SettingAction::ChangeResolution(Resolution::W800H600)
    );
    assert_eq!(activate_item(&s, SettingItem::Return, &mut count), SettingAction::Close);
    assert_eq!(
        activate_item(&s, SettingItem::Volume(VolumeOptions::Effect), &mut count),
        SettingAction::Play(FeedbackSound::Click)
    );
    assert_eq!(activate_item(&s, SettingItem::Volume(VolumeOptions::Background), &mut count), SettingAction::Nothing);
    assert_eq!(count, 0);
    assert_eq!(
        activate_item(&s, SettingItem::Volume(VolumeOptions::Voice), &mut count),
        SettingAction::PlayVoice { hidden: true }
    );
    assert_eq!(count, 1);
    for _ in 0..6 {
        assert_eq!(
            activate_item(&s, SettingItem::Volume(VolumeOptions::Voice), &mut count),
            SettingAction::PlayVoice { hidden: false }
        );
    }
    assert_eq!(count, 0);
    assert_eq!(
        activate_item(&s, SettingItem::Volume(VolumeOptions::Voice), &mut count),
        SettingAction::PlayVoice { hidden: true }
    );
}

#[test]
fn handle_position_matches_the_float_formula() {
    let range = SETTING_VOLUME_RANGE_MAX - SETTING_VOLUME_RANGE_MIN;
    for level in 0..=255u8 {
        let norm = level as f32 / 100.0;
        let delta = range as f32 * norm.min(1.0);
        assert_eq!(position_of_volume(level), SETTING_VOLUME_RANGE_MIN + delta as i32);
    }
}
