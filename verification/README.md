# Millennium Run — verified game logic

The rules and state machines of the game Millennium Run, written in Verus and proved
against their contracts. The executable under `app/` reads the command line and the
settings file, opens the window at a resolution that fits the monitor and waits for it to
close; it calls the library for every decision. Rendering, audio playback and the scenes'
drawing code are not part of this crate.

- `src/user.rs` — languages, screen modes, resolutions, volumes and settings; choosing a
  window resolution that fits the monitor and centring the window.
- `src/parser.rs` — the command line (`-s/--scene`, `-l/--language`).
- `src/setup.rs` — where the game starts, the script and window title of a language.
- `src/scene.rs` — the scene stack: push, pop, change and reset of scenes.
- `src/state.rs`, `src/in_game.rs`, `src/credit.rs`, `src/entry.rs` — scene states and their
  transitions.
- `src/timing.rs` — how many fixed-step updates the game and logic loops run.
- `src/ui.rs` — interface margins and the press/release logic of buttons.
- `src/control.rs` — the user's key bindings and steering the player with them.
- `src/table.rs` — ownership of the stage's tiles: the spawn area and the drawn path.
- `src/collision.rs` — hits on the player and the bullets that remain.
- `src/progress.rs` — lives, stage ranks and best results.
- `src/setting.rs` — the settings window: volume bars, its buttons and option changes.
- `src/voice.rs` — which voice or music plays, with `rand` for the random choices.
- `src/shader.rs` — decoding shader sources.
- `src/path.rs` — the asset paths.
