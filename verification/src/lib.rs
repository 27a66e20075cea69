//! Verified core of an auto-clicker: the persisted settings and their repair,
//! the hotkey table, the click session state machine, the tray and hotkey
//! decisions, and the interface texts in English and Chinese.

pub mod text;
pub mod i18n;
pub mod hotkeys;
pub mod config;
pub mod clicker;
pub mod tray;
pub mod commands;
