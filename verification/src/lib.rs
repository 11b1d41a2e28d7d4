//! Core logic of a desktop dictation tool: the portal-based global shortcut
//! session manager, together with the small rule sets that surround it.
//!
//! What is decided is decided here; what is done to the desktop portal, the
//! audio stack and the files is left to the program that embeds this
//! library.

pub mod audio;
pub mod clipboard;
pub mod history;
pub mod hotkey;
pub mod models;
pub mod overlay;
pub mod paths;
pub mod settings;
pub mod text;
pub mod whisper;
