//! Verified core of a terminal client for an AFK Minecraft bot: command-line
//! handling, configuration merging, the chat/error panels, the input line
//! editor, ANSI colour decoding and the bot's anti-AFK schedule.

pub mod ansi;
pub mod app;
pub mod args;
pub mod bot;
pub mod chat_panel;
pub mod console;
pub mod error_panel;
pub mod events;
pub mod input;
pub mod modal;
pub mod state;
pub mod status_bar;
pub mod style;
pub mod text;
