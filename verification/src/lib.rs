//! voicewedge: push-to-talk dictation. Press the hotkey, speak, press Enter;
//! the speech is transcribed and typed into whatever window has focus, and
//! the raw audio is kept.
//!
//! This crate holds the decisions and text handling of the tool: the
//! configuration and its defaults, the session state machine, the keyboard
//! hook rule, the injection plan, inject templates, recording names, the
//! speech-to-text request and reply, the focus check and the sound cues.
//! Devices, windows, files and the network are the caller's.
pub mod clock;
pub mod config;
pub mod focus;
pub mod hook;
pub mod icon;
pub mod inject;
pub mod recording;
pub mod session;
pub mod sound;
pub mod stt;
pub mod template;
pub mod text;
