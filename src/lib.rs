//! The global-input and window-lifecycle core of a clipboard-history
//! utility: modifier tracking and toggle-shortcut detection, the state
//! machine of the history popup and the settings window, interactive
//! shortcut capture, history selection, and the paste keystroke.

pub mod app;
pub mod entry;
pub mod idents;
pub mod keys;
pub mod listener;
pub mod paste;
pub mod tray;
pub mod utils;
pub mod window;
