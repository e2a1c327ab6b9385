//! Decision logic of a menu bar dictation utility: record with a global
//! hotkey, transcribe locally, paste the transcript into the focused field.
//!
//! Everything that touches the microphone, the model file, the window
//! server or the pasteboard lives in the application; this crate holds the
//! rules it follows, each with a contract proved by Verus.

pub mod config;
pub mod hotkey;
pub mod menu_bar;
pub mod app_state;
pub mod recorder;
pub mod transcriber;
pub mod injector;
