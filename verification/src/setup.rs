use vstd::prelude::*;

use crate::parser::{Config, StartScene};
use crate::path::KOR_SCRIPTS_PATH;
use crate::user::{Language, Settings};

verus! {

/// The title of the window while no language is chosen.
pub const TITLE_SELECT_LANGUAGE: &'static str = "Select a language";

/// The title of the window once a language is chosen.
pub const TITLE_GAME: &'static str = "Millennium Run";

/// The scene that the game starts with after loading: the first-time setup while no
/// language is chosen, else the intro.
pub fn first_scene(settings: &Settings) -> (res: StartScene)
    ensures
        res == if settings.language == Language::Unknown {
            StartScene::FirstTimeSetup
        } else {
            StartScene::Intro
        },
{
    match settings.language {
        Language::Unknown => StartScene::FirstTimeSetup,
        _ => StartScene::Intro,
    }
}

/// The script file of a language; there is none for an unknown language.
pub fn script_path(language: Language) -> (res: Option<&'static str>)
    ensures
        res == match language {
            Language::Korean => Some(KOR_SCRIPTS_PATH),
            Language::Unknown => None::<&'static str>,
        },
{
    match language {
        Language::Korean => Some(KOR_SCRIPTS_PATH),
        Language::Unknown => None,
    }
}

/// The title of the application window.
pub fn window_title(language: Language) -> (res: &'static str)
    ensures
        res == if language == Language::Unknown {
            TITLE_SELECT_LANGUAGE
        } else {
            TITLE_GAME
        },
{
    match language {
        Language::Unknown => TITLE_SELECT_LANGUAGE,
        _ => TITLE_GAME,
    }
}

/// Where the game goes after loading when the command line names a starting scene: that
/// scene, with the Korean script, whatever the language (the Korean script is the only one).
/// `None` when the command line names no scene and the settings decide.
pub fn command_line_start(config: &Config) -> (res: Option<(StartScene, &'static str)>)
    ensures
        res == match config.next_scene {
            Some(scene) => Some((scene, KOR_SCRIPTS_PATH)),
            None => None::<(StartScene, &'static str)>,
        },
{
    match config.next_scene {
        Some(scene) => Some((scene, KOR_SCRIPTS_PATH)),
        None => None,
    }
}

/// The language chosen in the first-time setup is not a known one.
#[derive(Debug, Clone, Copy, PartialEq, Eq, Structural)]
pub struct UnknownLanguage;

/// Leaving the first-time setup: the chosen language goes into the settings, which are to
/// be saved. An unknown language is an error and leaves the settings as they are.
pub fn confirm_language(settings: &mut Settings, language: Language) -> (res: Result<
    (),
    UnknownLanguage,
>)
    ensures
        res is Err <==> language == Language::Unknown,
        res is Ok ==> *final(settings) == (Settings { language, ..*old(settings) }),
        res is Err ==> *final(settings) == *old(settings),
{
    if language == Language::Unknown {
        return Err(UnknownLanguage);
    }
    settings.language = language;
    Ok(())
}

} // verus!
