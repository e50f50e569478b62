//! Application state: the bot's connection state, the UI state of the input
//! line and panels, modal dialogs, configuration and colour themes.

use vstd::prelude::*;
use crate::style::Color;
use crate::text::str_eq;
use std::time::Instant;

verus! {

/// A point in time on the monotonic clock (`std::time::Instant`), carried
/// through the state without being inspected.
#[verifier::external_type_specification]
#[verifier::external_body]
pub struct ExInstant(Instant);

/// `Instant` is `Copy`; its `clone` gives back the same instant.
pub assume_specification[ <Instant as Clone>::clone ](i: &Instant) -> (r: Instant)
    ensures
        r == *i,
;

/// The current instant of the monotonic clock.
/// Trusted: `Instant::now()`; nothing is stated of which instant it is.
#[verifier::external_body]
pub(crate) fn instant_now() -> Instant {
    Instant::now()
}

/// The bot's connection state.
#[derive(Clone, Debug)]
pub enum BotState {
    /// Initial state or disconnected
    Disconnected { last_error: Option<String> },
    /// Currently connecting
    Connecting { server: String, started_at: Instant },
    /// Successfully connected
    Connected { server: String, username: String, since: Instant },
    /// Connection lost, will reconnect
    Reconnecting { server: String, attempt: u32, delay_secs: u64 },
    /// Transferring to different server
    Transferring { from: String, to: String },
}

impl Default for BotState {
    fn default() -> (r: Self)
        ensures
            r matches BotState::Disconnected { last_error: None },
    {
        BotState::Disconnected { last_error: None }
    }
}

impl BotState {
    /// The server a state names, for the connecting, connected and
    /// reconnecting states.
    pub open spec fn spec_server(&self) -> Option<Seq<char>> {
        match self {
            BotState::Connecting { server, .. } => Some(server@),
            BotState::Connected { server, .. } => Some(server@),
            BotState::Reconnecting { server, .. } => Some(server@),
            _ => None,
        }
    }

    /// The username of the connected state.
    pub open spec fn spec_username(&self) -> Option<Seq<char>> {
        match self {
            BotState::Connected { username, .. } => Some(username@),
            _ => None,
        }
    }

    pub fn is_connected(&self) -> (r: bool)
        ensures
            r == (*self is Connected),
    {
        matches!(self, BotState::Connected { .. })
    }

    pub fn server(&self) -> (r: Option<&str>)
        ensures
            match r {
                Some(s) => self.spec_server() == Some(s@),
                None => self.spec_server() is None,
            },
    {
        match self {
            BotState::Connecting { server, .. } => Some(server.as_str()),
            BotState::Connected { server, .. } => Some(server.as_str()),
            BotState::Reconnecting { server, .. } => Some(server.as_str()),
            _ => None,
        }
    }

    pub fn username(&self) -> (r: Option<&str>)
        ensures
            match r {
                Some(u) => self.spec_username() == Some(u@),
                None => self.spec_username() is None,
            },
    {
        match self {
            BotState::Connected { username, .. } => Some(username.as_str()),
            _ => None,
        }
    }
}

/// A connected bot has both a server and a username, and a username is
/// known only while connected.
pub proof fn law_connected_state_names(s: BotState)
    ensures
        (s is Connected) <==> s.spec_username() is Some,
        (s is Connected) ==> s.spec_server() is Some,
        (s is Disconnected || s is Transferring) <==> s.spec_server() is None,
{
}

/// A modal dialog.
#[derive(Clone, Debug)]
pub enum ModalType {
    ConfirmReconnect,
    ConfirmQuit,
    Error(String),
    Help,
}

/// UI state independent from the bot state.
#[derive(Clone, Debug)]
pub struct UiState {
    /// Current scroll position in chat
    pub chat_scroll: usize,
    /// Current scroll position in error panel
    pub error_scroll: usize,
    /// Whether error panel is visible
    pub error_visible: bool,
    /// Command history
    pub command_history: Vec<String>,
    /// Current position in history (None = not navigating)
    pub history_index: Option<usize>,
    /// Current input buffer (separate from history)
    pub input_buffer: String,
    /// Cursor position in input, as a byte offset
    pub cursor_position: usize,
    /// Whether help overlay is shown
    pub show_help: bool,
    /// Active modal dialog
    pub active_modal: Option<ModalType>,
    /// Last frame time
    pub last_frame_time: Option<Instant>,
}

impl UiState {
    /// The initial UI state: nothing typed, no history, no overlay.
    pub open spec fn is_initial(&self) -> bool {
        &&& self.chat_scroll == 0
        &&& self.error_scroll == 0
        &&& !self.error_visible
        &&& self.command_history@.len() == 0
        &&& self.history_index is None
        &&& self.input_buffer@.len() == 0
        &&& self.cursor_position == 0
        &&& !self.show_help
        &&& self.active_modal is None
        &&& self.last_frame_time is None
    }
}

impl Default for UiState {
    fn default() -> (r: Self)
        ensures
            r.is_initial(),
    {
        UiState {
            chat_scroll: 0,
            error_scroll: 0,
            error_visible: false,
            command_history: Vec::new(),
            history_index: None,
            input_buffer: String::new(),
            cursor_position: 0,
            show_help: false,
            active_modal: None,
            last_frame_time: None,
        }
    }
}

/// A colour theme.
#[derive(Clone, Copy, Debug, PartialEq, Eq, Structural)]
pub struct Theme {
    pub primary: Color,
    pub success: Color,
    pub error: Color,
    pub warning: Color,
    pub info: Color,
    pub background: Color,
    pub foreground: Color,
    pub border: Color,
    pub highlight: Color,
}

impl Theme {
    /// The dark theme (the default).
    pub open spec fn spec_dark() -> Theme {
        Theme {
            primary: Color::Cyan,
            success: Color::Green,
            error: Color::Red,
            warning: Color::Yellow,
            info: Color::Blue,
            background: Color::Black,
            foreground: Color::White,
            border: Color::Gray,
            highlight: Color::Magenta,
        }
    }

    /// The light theme.
    pub open spec fn spec_light() -> Theme {
        Theme {
            primary: Color::Blue,
            success: Color::Green,
            error: Color::Red,
            warning: Color::Yellow,
            info: Color::Cyan,
            background: Color::White,
            foreground: Color::Black,
            border: Color::Gray,
            highlight: Color::Magenta,
        }
    }

    pub fn dark() -> (r: Self)
        ensures
            r == Theme::spec_dark(),
    {
        Self::default()
    }

    pub fn light() -> (r: Self)
        ensures
            r == Theme::spec_light(),
    {
        Theme {
            primary: Color::Blue,
            success: Color::Green,
            error: Color::Red,
            warning: Color::Yellow,
            info: Color::Cyan,
            background: Color::White,
            foreground: Color::Black,
            border: Color::Gray,
            highlight: Color::Magenta,
        }
    }
}

impl Default for Theme {
    fn default() -> (r: Self)
        ensures
            r == Theme::spec_dark(),
    {
        Theme {
            primary: Color::Cyan,
            success: Color::Green,
            error: Color::Red,
            warning: Color::Yellow,
            info: Color::Blue,
            background: Color::Black,
            foreground: Color::White,
            border: Color::Gray,
            highlight: Color::Magenta,
        }
    }
}

/// The theme that a theme name selects: `light`, or else dark.
pub open spec fn theme_named(name: Seq<char>) -> Theme {
    if name == "light"@ {
        Theme::spec_light()
    } else {
        Theme::spec_dark()
    }
}

/// The theme section of the configuration file.
#[derive(Clone, Debug)]
pub struct ThemeConfig {
    pub name: String,
}

impl Default for ThemeConfig {
    fn default() -> (r: Self)
        ensures
            r.name@ == "dark"@,
    {
        ThemeConfig { name: "dark".to_owned() }
    }
}

impl ThemeConfig {
    pub fn to_theme(&self) -> (r: Theme)
        ensures
            r == theme_named(self.name@),
    {
        if str_eq(self.name.as_str(), "light") {
            Theme::light()
        } else {
            Theme::dark()
        }
    }
}

pub fn default_server() -> (r: String)
    ensures
        r@ == "localhost:25565"@,
{
    "localhost:25565".to_owned()
}

pub fn default_username() -> (r: String)
    ensures
        r@ == "afk_bot"@,
{
    "afk_bot".to_owned()
}

pub fn default_reconnect_delay() -> (r: u64)
    ensures
        r == 5,
{
    5
}

pub fn default_view_distance() -> (r: u8)
    ensures
        r == 8,
{
    8
}

/// The configuration file.
#[derive(Clone, Debug)]
pub struct Config {
    pub server: String,
    pub username: String,
    pub email: Option<String>,
    pub password: Option<String>,
    pub reconnect_delay: u64,
    pub view_distance: u8,
    pub auto_commands: Vec<String>,
    pub theme: ThemeConfig,
}

impl Config {
    /// The configuration with every setting at its default.
    pub open spec fn is_default(&self) -> bool {
        &&& self.server@ == "localhost:25565"@
        &&& self.username@ == "afk_bot"@
        &&& self.email is None
        &&& self.password is None
        &&& self.reconnect_delay == 5
        &&& self.view_distance == 8
        &&& self.auto_commands@.len() == 0
        &&& self.theme.name@ == "dark"@
    }

    pub fn new() -> (r: Self)
        ensures
            r.is_default(),
    {
        Self {
            server: default_server(),
            username: default_username(),
            email: None,
            password: None,
            reconnect_delay: default_reconnect_delay(),
            view_distance: default_view_distance(),
            auto_commands: Vec::new(),
            theme: ThemeConfig::default(),
        }
    }
}

impl Default for Config {
    fn default() -> (r: Self)
        ensures
            r.is_default(),
    {
        Self::new()
    }
}

} // verus!
