//! Events from the bot to the UI and commands from the UI to the bot.

use vstd::prelude::*;

verus! {

/// Events flowing from bot to UI. Position, health and metrics updates,
/// which carry floating-point values, travel beside these in the runtime.
#[derive(Clone, Debug)]
pub enum UiEvent {
    Connected { server: String, username: String },
    Disconnected { reason: Option<String> },
    ChatReceived { username: String, message: String },
    SystemMessage(String),
    PlayerCount(usize),
    Error(String),
    Log { level: LogLevel, message: String },
}

#[derive(Clone, Debug, Copy, PartialEq, Eq, Structural)]
pub enum LogLevel {
    Trace,
    Debug,
    Info,
    Warn,
    Error,
}

/// Commands flowing from UI to bot.
#[derive(Clone, Debug)]
pub enum BotCommand {
    Chat(String),
    Command(String),
    Reconnect,
    Disconnect,
}

/// A bot command as plain values.
pub enum CommandView {
    Chat(Seq<char>),
    Command(Seq<char>),
    Reconnect,
    Disconnect,
}

impl View for BotCommand {
    type V = CommandView;

    open spec fn view(&self) -> CommandView {
        match self {
            BotCommand::Chat(s) => CommandView::Chat(s@),
            BotCommand::Command(s) => CommandView::Command(s@),
            BotCommand::Reconnect => CommandView::Reconnect,
            BotCommand::Disconnect => CommandView::Disconnect,
        }
    }
}

} // verus!
