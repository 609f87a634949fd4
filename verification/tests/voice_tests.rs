use millennium_run::path::{
    ARIS_DAMAGE_0_SOUND_PATH, ARIS_STAGE_START_SOUND_PATH, ARIS_TITLE_SOUND_PATH,
    MIDORI_TITLE_SOUND_PATH, MOMOI_TITLE_SOUND_PATH, THEME18_SOUND_PATH, THEME19_SOUND_PATH,
    THEME23_SOUND_PATH, THEME27_SOUND_PATH, THEME30_SOUND_PATH, YUUKA_ATTACK0_SOUND_PATH,
    YUZU_SMILE_0_SOUND_PATH, YUZU_SMILE_1_SOUND_PATH, YUZU_TITLE_SOUND_PATH,
};
use millennium_run::progress::Actor;
use millennium_run::voice::{
    choose_stage_theme, choose_title_voice, damage_voices, pick_character_voice, result_theme,
    smile_voices, speaks_on_capture, capture_voice_odds, stage_start_voice, title_voices,
};

#[test]
fn title_voice_is_a_character_title_voice() {
    let all = [ARIS_TITLE_SOUND_PATH, MOMOI_TITLE_SOUND_PATH, MIDORI_TITLE_SOUND_PATH, YUZU_TITLE_SOUND_PATH];
    assert_eq!(title_voices(), all.to_vec());
    for _ in 0..50 {
        assert!(all.contains(&choose_title_voice()));
    }
}

#[test]
fn stage_theme_is_a_stage_theme() {
    let all = [THEME18_SOUND_PATH, THEME19_SOUND_PATH, THEME30_SOUND_PATH];
    for _ in 0..50 {
        assert!(all.contains(&choose_stage_theme()));
    }
}

#[test]
fn voices_of_a_character() {
    assert_eq!(stage_start_voice(Actor::Aris), ARIS_STAGE_START_SOUND_PATH);
    assert_eq!(smile_voices(Actor::Yuzu), vec![YUZU_SMILE_0_SOUND_PATH, YUZU_SMILE_1_SOUND_PATH]);
    let d = damage_voices(Actor::Aris);
    assert_eq!(d.len(), 4);
    assert_eq!(d[0], YUUKA_ATTACK0_SOUND_PATH);
    assert_eq!(d[1], ARIS_DAMAGE_0_SOUND_PATH);
}

#[test]
fn no_new_voice_while_one_plays() {
    let voices = smile_voices(Actor::Momoi);
    assert_eq!(pick_character_voice(&voices, true), None);
    for _ in 0..20 {
        let v = pick_character_voice(&voices, false).unwrap();
        assert!(voices.contains(&v));
    }
}

#[test]
fn result_theme_depends_on_lives() {
    assert_eq!(result_theme(0), THEME27_SOUND_PATH);
    assert_eq!(result_theme(2), THEME23_SOUND_PATH);
}

#[test]
fn capture_voice_roll_sometimes_speaks() {
    let spoke = (0..2000).filter(|_| speaks_on_capture()).count();
    assert!(spoke > 300 && spoke < 900);
}

#[test]
fn capture_voice_odds_are_three_in_ten() {
    assert_eq!(capture_voice_odds(), (3, 10));
}
