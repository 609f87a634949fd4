use vstd::prelude::*;

use rand::Rng;
use rand::seq::SliceRandom;

use crate::path::{
    ARIS_DAMAGE_0_SOUND_PATH, ARIS_DAMAGE_1_SOUND_PATH, ARIS_DAMAGE_2_SOUND_PATH,
    ARIS_SMILE_0_SOUND_PATH, ARIS_SMILE_1_SOUND_PATH, ARIS_STAGE_START_SOUND_PATH,
    ARIS_TITLE_SOUND_PATH, MIDORI_DAMAGE_0_SOUND_PATH, MIDORI_DAMAGE_1_SOUND_PATH,
    MIDORI_DAMAGE_2_SOUND_PATH, MIDORI_SMILE_0_SOUND_PATH, MIDORI_SMILE_1_SOUND_PATH,
    MIDORI_STAGE_START_SOUND_PATH, MIDORI_TITLE_SOUND_PATH, MOMOI_DAMAGE_0_SOUND_PATH,
    MOMOI_DAMAGE_1_SOUND_PATH, MOMOI_DAMAGE_2_SOUND_PATH, MOMOI_SMILE_0_SOUND_PATH,
    MOMOI_SMILE_1_SOUND_PATH, MOMOI_STAGE_START_SOUND_PATH, MOMOI_TITLE_SOUND_PATH,
    THEME18_SOUND_PATH, THEME19_SOUND_PATH, THEME23_SOUND_PATH, THEME27_SOUND_PATH,
    THEME30_SOUND_PATH, YUUKA_ATTACK0_SOUND_PATH, YUZU_DAMAGE_0_SOUND_PATH,
    YUZU_DAMAGE_1_SOUND_PATH, YUZU_DAMAGE_2_SOUND_PATH, YUZU_SMILE_0_SOUND_PATH,
    YUZU_SMILE_1_SOUND_PATH, YUZU_STAGE_START_SOUND_PATH, YUZU_TITLE_SOUND_PATH,
};
use crate::progress::Actor;

verus! {

/// A uniformly random index below `len`: `rand`'s `Rng::gen_range(0..len)` on the thread's
/// generator. The contract claims only that the index is below `len`; which one comes out
/// is left open, as it rests on chance. `gen_range` panics on an empty range, which
/// `len > 0` rules out.
#[verifier::external_body]
fn random_index(len: usize) -> (res: usize)
    requires
        len > 0,
    ensures
        res < len,
{
    rand::thread_rng().gen_range(0..len)
}

/// `true` with chance `numerator / denominator`: `rand`'s `Rng::gen_ratio` on the thread's
/// generator. As its documentation says, the result is always `true` when the two are equal
/// and always `false` when the numerator is 0; otherwise it rests on chance and nothing more
/// is claimed. `gen_ratio` panics when the denominator is 0 or below the numerator, which
/// `requires` rules out.
#[verifier::external_body]
fn random_ratio(numerator: u32, denominator: u32) -> (res: bool)
    requires
        denominator > 0,
        numerator <= denominator,
    ensures
        numerator == denominator ==> res,
        numerator == 0 ==> !res,
{
    rand::thread_rng().gen_ratio(numerator, denominator)
}

/// Shuffles `items` in place: `rand`'s `SliceRandom::shuffle` on the thread's generator. The
/// contract claims that the items are permuted, the same items as often as before; their
/// order rests on chance.
#[verifier::external_body]
fn shuffle<T>(items: &mut Vec<T>)
    ensures
        final(items)@.to_multiset() == old(items)@.to_multiset(),
{
    items.shuffle(&mut rand::thread_rng())
}

/// A random item of `items`: `rand`'s `SliceRandom::choose` on the thread's generator,
/// copied out. As its source shows, it is `None` exactly when `items` is empty, and else one
/// of the items; which one rests on chance.
#[verifier::external_body]
fn random_item<T: Copy>(items: &Vec<T>) -> (res: Option<T>)
    ensures
        res is None <==> items@.len() == 0,
        res matches Some(item) ==> items@.contains(item),
{
    items.choose(&mut rand::thread_rng()).copied()
}

/// The title voices of the characters.
pub open spec fn spec_title_voices() -> Seq<&'static str> {
    seq![ARIS_TITLE_SOUND_PATH, MOMOI_TITLE_SOUND_PATH, MIDORI_TITLE_SOUND_PATH, YUZU_TITLE_SOUND_PATH]
}

/// The title voices of the characters, one of which the intro and the entry scene play.
pub fn title_voices() -> (res: Vec<&'static str>)
    ensures
        res@ == spec_title_voices(),
{
    let mut v = Vec::new();
    v.push(ARIS_TITLE_SOUND_PATH);
    v.push(MOMOI_TITLE_SOUND_PATH);
    v.push(MIDORI_TITLE_SOUND_PATH);
    v.push(YUZU_TITLE_SOUND_PATH);
    assert(v@ =~= spec_title_voices());
    v
}

/// Picks the title voice to play, at random among the characters' title voices.
pub fn choose_title_voice() -> (res: &'static str)
    ensures
        spec_title_voices().contains(res),
{
    let voices = title_voices();
    let i = random_index(voices.len());
    assert(spec_title_voices()[i as int] == voices@[i as int]);
    voices[i]
}

/// The voice that a character says when its stage starts.
pub fn stage_start_voice(actor: Actor) -> (res: &'static str)
    ensures
        res == match actor {
            Actor::Aris => ARIS_STAGE_START_SOUND_PATH,
            Actor::Momoi => MOMOI_STAGE_START_SOUND_PATH,
            Actor::Midori => MIDORI_STAGE_START_SOUND_PATH,
            Actor::Yuzu => YUZU_STAGE_START_SOUND_PATH,
        },
{
    match actor {
        Actor::Aris => ARIS_STAGE_START_SOUND_PATH,
        Actor::Momoi => MOMOI_STAGE_START_SOUND_PATH,
        Actor::Midori => MIDORI_STAGE_START_SOUND_PATH,
        Actor::Yuzu => YUZU_STAGE_START_SOUND_PATH,
    }
}

pub open spec fn spec_smile_voices(actor: Actor) -> Seq<&'static str> {
    match actor {
        Actor::Aris => seq![ARIS_SMILE_0_SOUND_PATH, ARIS_SMILE_1_SOUND_PATH],
        Actor::Momoi => seq![MOMOI_SMILE_0_SOUND_PATH, MOMOI_SMILE_1_SOUND_PATH],
        Actor::Midori => seq![MIDORI_SMILE_0_SOUND_PATH, MIDORI_SMILE_1_SOUND_PATH],
        Actor::Yuzu => seq![YUZU_SMILE_0_SOUND_PATH, YUZU_SMILE_1_SOUND_PATH],
    }
}

pub open spec fn spec_damage_voices(actor: Actor) -> Seq<&'static str> {
    match actor {
        Actor::Aris => seq![
            YUUKA_ATTACK0_SOUND_PATH,
            ARIS_DAMAGE_0_SOUND_PATH,
            ARIS_DAMAGE_1_SOUND_PATH,
            ARIS_DAMAGE_2_SOUND_PATH,
        ],
        Actor::Momoi => seq![
            YUUKA_ATTACK0_SOUND_PATH,
            MOMOI_DAMAGE_0_SOUND_PATH,
            MOMOI_DAMAGE_1_SOUND_PATH,
            MOMOI_DAMAGE_2_SOUND_PATH,
        ],
        Actor::Midori => seq![
            YUUKA_ATTACK0_SOUND_PATH,
            MIDORI_DAMAGE_0_SOUND_PATH,
            MIDORI_DAMAGE_1_SOUND_PATH,
            MIDORI_DAMAGE_2_SOUND_PATH,
        ],
        Actor::Yuzu => seq![
            YUUKA_ATTACK0_SOUND_PATH,
            YUZU_DAMAGE_0_SOUND_PATH,
            YUZU_DAMAGE_1_SOUND_PATH,
            YUZU_DAMAGE_2_SOUND_PATH,
        ],
    }
}

/// The voices that a character says when it captures an area.
pub fn smile_voices(actor: Actor) -> (res: Vec<&'static str>)
    ensures
        res@ == spec_smile_voices(actor),
{
    let mut v = Vec::new();
    match actor {
        Actor::Aris => {
            v.push(ARIS_SMILE_0_SOUND_PATH);
            v.push(ARIS_SMILE_1_SOUND_PATH);
        },
        Actor::Momoi => {
            v.push(MOMOI_SMILE_0_SOUND_PATH);
            v.push(MOMOI_SMILE_1_SOUND_PATH);
        },
        Actor::Midori => {
            v.push(MIDORI_SMILE_0_SOUND_PATH);
            v.push(MIDORI_SMILE_1_SOUND_PATH);
        },
        Actor::Yuzu => {
            v.push(YUZU_SMILE_0_SOUND_PATH);
            v.push(YUZU_SMILE_1_SOUND_PATH);
        },
    }
    assert(v@ =~= spec_smile_voices(actor));
    v
}

/// The voices heard when a character loses a life.
pub fn damage_voices(actor: Actor) -> (res: Vec<&'static str>)
    ensures
        res@ == spec_damage_voices(actor),
{
    let mut v = Vec::new();
    v.push(YUUKA_ATTACK0_SOUND_PATH);
    match actor {
        Actor::Aris => {
            v.push(ARIS_DAMAGE_0_SOUND_PATH);
            v.push(ARIS_DAMAGE_1_SOUND_PATH);
            v.push(ARIS_DAMAGE_2_SOUND_PATH);
        },
        Actor::Momoi => {
            v.push(MOMOI_DAMAGE_0_SOUND_PATH);
            v.push(MOMOI_DAMAGE_1_SOUND_PATH);
            v.push(MOMOI_DAMAGE_2_SOUND_PATH);
        },
        Actor::Midori => {
            v.push(MIDORI_DAMAGE_0_SOUND_PATH);
            v.push(MIDORI_DAMAGE_1_SOUND_PATH);
            v.push(MIDORI_DAMAGE_2_SOUND_PATH);
        },
        Actor::Yuzu => {
            v.push(YUZU_DAMAGE_0_SOUND_PATH);
            v.push(YUZU_DAMAGE_1_SOUND_PATH);
            v.push(YUZU_DAMAGE_2_SOUND_PATH);
        },
    }
    assert(v@ =~= spec_damage_voices(actor));
    v
}

/// The background music themes of a stage, one of which plays.
pub open spec fn spec_stage_themes() -> Seq<&'static str> {
    seq![THEME18_SOUND_PATH, THEME19_SOUND_PATH, THEME30_SOUND_PATH]
}

/// Picks the background music of a stage: the first of the stage themes after shuffling them.
pub fn choose_stage_theme() -> (res: &'static str)
    ensures
        spec_stage_themes().contains(res),
{
    let mut candidates = Vec::new();
    candidates.push(THEME18_SOUND_PATH);
    candidates.push(THEME19_SOUND_PATH);
    candidates.push(THEME30_SOUND_PATH);
    assert(candidates@ =~= spec_stage_themes());
    let ghost before = candidates@;
    shuffle(&mut candidates);
    proof {
        assert(candidates@.to_multiset() == before.to_multiset());
        before.to_multiset_ensures();
        candidates@.to_multiset_ensures();
        assert(candidates@.len() == 3) by {
            assert(candidates@.to_multiset().len() == 3);
        }
        assert(candidates@.contains(candidates@[0]));
        assert(candidates@.to_multiset().count(candidates@[0]) > 0);
        assert(before.to_multiset().count(candidates@[0]) > 0);
    }
    candidates[0]
}

/// The music that plays with the result of a stage: a defeat theme when no life is left,
/// else a victory theme.
pub fn result_theme(hearts_left: usize) -> (res: &'static str)
    ensures
        res == if hearts_left == 0 {
            THEME27_SOUND_PATH
        } else {
            THEME23_SOUND_PATH
        },
{
    if hearts_left == 0 {
        THEME27_SOUND_PATH
    } else {
        THEME23_SOUND_PATH
    }
}

/// The chance that capturing an area makes the character speak: three in ten, as a
/// numerator and a denominator.
pub fn capture_voice_odds() -> (res: (u32, u32))
    ensures
        res == (3u32, 10u32),
{
    (3, 10)
}

/// Whether capturing an area makes the character speak, with the chance that
/// `capture_voice_odds` gives.
pub fn speaks_on_capture() -> (res: bool) {
    let (numerator, denominator) = capture_voice_odds();
    random_ratio(numerator, denominator)
}

/// The character voice to start playing, if any: none while a voice is still playing,
/// else one of `voices` at random.
pub fn pick_character_voice(voices: &Vec<&'static str>, voice_playing: bool) -> (res: Option<
    &'static str,
>)
    requires
        !voice_playing ==> voices@.len() > 0,
    ensures
        voice_playing ==> res is None,
        !voice_playing ==> (res matches Some(v) && voices@.contains(v)),
{
    if voice_playing {
        None
    } else {
        random_item(voices)
    }
}

} // verus!
