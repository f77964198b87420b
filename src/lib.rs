//! A chat bot's translation library: language tables of three translation
//! backends, the ordered fallback among them, command parsing and replies,
//! and the auto-translation relay.

pub mod text;
pub mod provider;
pub mod fallback;
pub mod models;
pub mod commands;
pub mod dispatch;
