//! Game rules and state machines of Millennium Run: user settings, window
//! sizing, command-line options, scene transitions, stage scoring and the
//! input handling that drives the game's interface.

pub mod collision;
pub mod control;
pub mod credit;
pub mod entry;
pub mod in_game;
pub mod parser;
pub mod path;
pub mod progress;
pub mod scene;
pub mod setting;
pub mod setup;
pub mod shader;
pub mod state;
pub mod table;
pub mod text;
pub mod timing;
pub mod ui;
pub mod user;
pub mod voice;
