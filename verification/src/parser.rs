use vstd::prelude::*;

use crate::user::Language;

verus! {

/// How to use the program's command line.
pub const USAGE: &'static str = "
Usage: [PROGRAM_PATH] <OPTIONS>

Options
    -s <SCENE>, --scene <SCENE> : Specify the starting game scene. If no language is specified at this time, 'Korean' will be displayed.
    -l <LANGUAGE>, --language <LANGUAGE> : Specify the language used. This option does not affect the user settings file.

Scenes
    FirstTimeSetup, Intro, Title, InGame

Languages
    Korean
";

/// The game scenes that the command line can start with.
#[derive(Debug, Clone, Copy, PartialEq, Eq, Structural, Hash)]
pub enum StartScene {
    FirstTimeSetup,
    Intro,
    Title,
    InGame,
}

/// The result of parsing a command line.
#[derive(Debug, Clone, Copy, PartialEq, Eq, Structural)]
pub struct Config {
    pub next_scene: Option<StartScene>,
    pub language: Language,
}

impl Default for Config {
    fn default() -> (res: Self)
        ensures
            res == spec_default_config(),
    {
        Config { next_scene: None, language: Language::Korean }
    }
}

pub open spec fn spec_default_config() -> Config {
    Config { next_scene: None, language: Language::Korean }
}

/// The scene that a scene name on the command line stands for.
pub open spec fn spec_scene_named(name: Seq<char>) -> Option<StartScene> {
    if name == "FirstTimeSetup"@ {
        Some(StartScene::FirstTimeSetup)
    } else if name == "Intro"@ {
        Some(StartScene::Intro)
    } else if name == "Title"@ {
        Some(StartScene::Title)
    } else if name == "InGame"@ {
        Some(StartScene::InGame)
    } else {
        None
    }
}

/// The language that a language name on the command line stands for.
pub open spec fn spec_language_named(name: Seq<char>) -> Option<Language> {
    if name == "Korean"@ {
        Some(Language::Korean)
    } else {
        None
    }
}

pub open spec fn spec_is_scene_flag(arg: Seq<char>) -> bool {
    arg == "-s"@ || arg == "--scene"@
}

pub open spec fn spec_is_language_flag(arg: Seq<char>) -> bool {
    arg == "-l"@ || arg == "--language"@
}

/// The outcome of parsing the arguments from position `i` on, starting from `config`:
/// `None` when they do not follow the usage text (an unknown option, a missing value or an
/// unknown value), on which the program stops with the usage text.
pub open spec fn spec_parse_from(args: Seq<Seq<char>>, i: int, config: Config) -> Option<Config>
    decreases args.len() - i,
{
    if i < 0 || i >= args.len() {
        Some(config)
    } else if spec_is_scene_flag(args[i]) {
        if i + 1 < args.len() {
            match spec_scene_named(args[i + 1]) {
                Some(scene) => spec_parse_from(
                    args,
                    i + 2,
                    Config { next_scene: Some(scene), ..config },
                ),
                None => None,
            }
        } else {
            None
        }
    } else if spec_is_language_flag(args[i]) {
        if i + 1 < args.len() {
            match spec_language_named(args[i + 1]) {
                Some(language) => spec_parse_from(
                    args,
                    i + 2,
                    Config { language, ..config },
                ),
                None => None,
            }
        } else {
            None
        }
    } else {
        None
    }
}

/// Whether no argument from position `i` on is a language option.
pub open spec fn spec_no_language_option_from(args: Seq<Seq<char>>, i: int) -> bool {
    forall|k: int| i <= k < args.len() ==> !spec_is_language_flag(#[trigger] args[k])
}

/// As the usage text says, a command line with no language option shows Korean: parsing
/// keeps the language it starts from when no language option follows.
pub proof fn lemma_no_language_option_keeps_language(
    args: Seq<Seq<char>>,
    i: int,
    config: Config,
)
    requires
        i >= 0,
        spec_no_language_option_from(args, i),
    ensures
        spec_parse_from(args, i, config) matches Some(c) ==> c.language == config.language,
    decreases args.len() - i,
{
    if i < args.len() {
        assert(!spec_is_language_flag(args[i]));
        if spec_is_scene_flag(args[i]) && i + 1 < args.len() {
            if let Some(scene) = spec_scene_named(args[i + 1]) {
                lemma_no_language_option_keeps_language(
                    args,
                    i + 2,
                    Config { next_scene: Some(scene), ..config },
                );
            }
        }
    }
}

/// Whether no argument from position `i` on is a scene option.
pub open spec fn spec_no_scene_option_from(args: Seq<Seq<char>>, i: int) -> bool {
    forall|k: int| i <= k < args.len() ==> !spec_is_scene_flag(#[trigger] args[k])
}

/// Only a scene option names a starting scene: when none follows, parsing keeps the scene
/// it starts from, so a command line with no scene option (a language option alone, say)
/// names no scene and the settings decide where the game starts.
pub proof fn lemma_no_scene_option_keeps_scene(args: Seq<Seq<char>>, i: int, config: Config)
    requires
        i >= 0,
        spec_no_scene_option_from(args, i),
    ensures
        spec_parse_from(args, i, config) matches Some(c) ==> c.next_scene == config.next_scene,
        (i == 1 && config == spec_default_config()) ==> (spec_parse_from(args, i, config) matches Some(
            c,
        ) ==> c.next_scene is None),
    decreases args.len() - i,
{
    if i < args.len() {
        assert(!spec_is_scene_flag(args[i]));
        if spec_is_language_flag(args[i]) && i + 1 < args.len() {
            if let Some(language) = spec_language_named(args[i + 1]) {
                lemma_no_scene_option_keeps_scene(args, i + 2, Config { language, ..config });
            }
        }
    }
}

/// A scene option names the scene it is given: a command line that is nothing but one
/// scene option starts with that scene, in Korean, and one that is nothing but a language
/// option names no scene.
pub proof fn lemma_single_options(flag: Seq<char>, value: Seq<char>, program: Seq<char>)
    ensures
        spec_is_scene_flag(flag) ==> spec_parse_from(seq![program, flag, value], 1, spec_default_config())
            == match spec_scene_named(value) {
            Some(scene) => Some(Config { next_scene: Some(scene), language: Language::Korean }),
            None => None::<Config>,
        },
        spec_is_language_flag(flag) ==> spec_parse_from(seq![program, flag, value], 1, spec_default_config())
            == match spec_language_named(value) {
            Some(language) => Some(Config { next_scene: None, language }),
            None => None::<Config>,
        },
{
    reveal_strlit("-s");
    reveal_strlit("--scene");
    reveal_strlit("-l");
    reveal_strlit("--language");
    let args = seq![program, flag, value];
    assert(args[1] == flag);
    assert(args[2] == value);
    if spec_is_scene_flag(flag) {
        if let Some(scene) = spec_scene_named(value) {
            assert(spec_parse_from(args, 3, Config { next_scene: Some(scene), ..spec_default_config() })
                == Some(Config { next_scene: Some(scene), ..spec_default_config() }));
        }
    }
    if spec_is_language_flag(flag) {
        assert("-l"@[1] != "-s"@[1]);
        assert("-l"@ != "-s"@);
        assert("-l"@.len() != "--scene"@.len());
        assert("--language"@.len() != "-s"@.len());
        assert("--language"@.len() != "--scene"@.len());
        assert(!spec_is_scene_flag(flag));
        if let Some(language) = spec_language_named(value) {
            assert(spec_parse_from(args, 3, Config { language, ..spec_default_config() })
                == Some(Config { language, ..spec_default_config() }));
        }
    }
}

/// The views of a list of strings.
pub open spec fn spec_views(args: Seq<String>) -> Seq<Seq<char>> {
    args.map_values(|a: String| a@)
}

/// Whether the command line `args` follows the usage text, so that it can be parsed.
pub open spec fn spec_command_line_valid(args: Seq<String>) -> bool {
    spec_parse_from(spec_views(args), 1, spec_default_config()) is Some
}

/// Whether `arg` reads exactly `text`.
fn reads(arg: &String, text: &str) -> (res: bool)
    ensures
        res == (arg@ == text@),
{
    let owned = text.to_owned();
    *arg == owned
}

/// The scene that a scene name stands for, if any.
fn scene_named(arg: &String) -> (res: Option<StartScene>)
    ensures
        res == spec_scene_named(arg@),
{
    if reads(arg, "FirstTimeSetup") {
        Some(StartScene::FirstTimeSetup)
    } else if reads(arg, "Intro") {
        Some(StartScene::Intro)
    } else if reads(arg, "Title") {
        Some(StartScene::Title)
    } else if reads(arg, "InGame") {
        Some(StartScene::InGame)
    } else {
        None
    }
}

/// The language that a language name stands for, if any.
fn language_named(arg: &String) -> (res: Option<Language>)
    ensures
        res == spec_language_named(arg@),
{
    if reads(arg, "Korean") {
        Some(Language::Korean)
    } else {
        None
    }
}

/// Parses the scene name at `*next`, moving `*next` past it. The name must be one of the
/// scenes of the usage text: the program stops with the usage text on any other name and
/// when no argument is left.
pub fn parse_scene_option(args: &Vec<String>, next: &mut usize, config: &mut Config)
    requires
        *old(next) < args.len(),
        spec_scene_named(args@[*old(next) as int]@) is Some,
    ensures
        *final(next) == *old(next) + 1,
        *final(config) == (Config {
            next_scene: spec_scene_named(args@[*old(next) as int]@),
            ..*old(config)
        }),
{
    let scene = scene_named(&args[*next]);
    *next = *next + 1;
    config.next_scene = scene;
}

/// Parses the language name at `*next`, moving `*next` past it. The name must be one of the
/// languages of the usage text: the program stops with the usage text on any other name and
/// when no argument is left.
pub fn parse_language_option(args: &Vec<String>, next: &mut usize, config: &mut Config)
    requires
        *old(next) < args.len(),
        spec_language_named(args@[*old(next) as int]@) is Some,
    ensures
        *final(next) == *old(next) + 1,
        *final(config) == (Config {
            language: spec_language_named(args@[*old(next) as int]@).unwrap(),
            ..*old(config)
        }),
{
    let language = language_named(&args[*next]);
    *next = *next + 1;
    match language {
        Some(l) => config.language = l,
        None => {},
    }
}

/// Parses the arguments, or finds that they do not follow the usage text.
fn parse_arguments(args: &Vec<String>) -> (res: Option<Config>)
    ensures
        res == spec_parse_from(spec_views(args@), 1, spec_default_config()),
{
    let ghost views = spec_views(args@);
    let mut config = Config::default();
    let mut i: usize = 1;
    while i < args.len()
        invariant
            views == spec_views(args@),
            1 <= i,
            i <= args.len() || i == 1,
            spec_parse_from(views, 1, spec_default_config()) == spec_parse_from(views, i as int, config),
        decreases args.len() - i,
    {
        let arg = &args[i];
        assert(views[i as int] == arg@);
        if reads(arg, "-s") || reads(arg, "--scene") {
            if i + 1 >= args.len() {
                return None;
            }
            assert(views[i + 1] == args@[i + 1]@);
            if scene_named(&args[i + 1]).is_none() {
                return None;
            }
            i = i + 1;
            parse_scene_option(args, &mut i, &mut config);
        } else if reads(arg, "-l") || reads(arg, "--language") {
            if i + 1 >= args.len() {
                return None;
            }
            assert(views[i + 1] == args@[i + 1]@);
            if language_named(&args[i + 1]).is_none() {
                return None;
            }
            i = i + 1;
            parse_language_option(args, &mut i, &mut config);
        } else {
            return None;
        }
    }
    Some(config)
}

/// Whether the command line follows the usage text; `args[0]` is the program path and the
/// options follow it. It does not on an unknown option, a missing value or an unknown value,
/// and then the program stops with the usage text.
pub fn command_line_is_valid(args: &Vec<String>) -> (res: bool)
    ensures
        res == spec_command_line_valid(args@),
{
    parse_arguments(args).is_some()
}

/// Parses a command line that follows the usage text; `args[0]` is the program path and the
/// options follow it. On any other command line the program stops with the usage text.
pub fn parse_command_lines(args: &Vec<String>) -> (res: Config)
    requires
        spec_command_line_valid(args@),
    ensures
        spec_parse_from(spec_views(args@), 1, spec_default_config()) == Some(res),
{
    parse_arguments(args).unwrap()
}

} // verus!
