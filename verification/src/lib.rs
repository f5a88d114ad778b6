//! Verified core of a desktop speech-to-text tool: configuration, text
//! correction, Chinese script conversion, send planning, hotkey decisions,
//! the process log and WAV encoding.

pub mod config;
pub mod text;
pub mod correction;
pub mod spelling;
pub mod process_log;
pub mod hotkeys;
pub mod send;
pub mod models;
pub mod whisper;
pub mod settings;
pub mod audio;
pub mod opencc;
pub mod session;
