//! The status bar's connection facts and the texts derived from them.
//! Health, position and frame rate (floating-point values) are kept and
//! drawn beside it by the terminal front end.

use vstd::prelude::*;
use crate::state::{BotState, Theme};
use crate::style::Color;
use crate::text::{decimal_chars, push_decimal};

verus! {

/// The connection facts shown in the status bar.
pub struct StatusBar {
    pub connected: bool,
    pub server: String,
    pub username: String,
    pub online_players: usize,
    pub theme: Theme,
}

impl StatusBar {
    /// A bar for a disconnected bot with no server or user yet.
    pub fn new(theme: Theme) -> (r: Self)
        ensures
            !r.connected,
            r.server@.len() == 0,
            r.username@.len() == 0,
            r.online_players == 0,
            r.theme == theme,
    {
        Self { connected: false, server: String::new(), username: String::new(), online_players: 0, theme }
    }

    /// Records whether the bot is connected, and to which server as whom.
    pub fn update_connection(&mut self, connected: bool, server: String, username: String)
        ensures
            final(self).connected == connected,
            final(self).server@ == server@,
            final(self).username@ == username@,
            final(self).online_players == old(self).online_players,
            final(self).theme == old(self).theme,
    {
        self.connected = connected;
        self.server = server;
        self.username = username;
    }

    /// Records the number of players online.
    pub fn update_online_players(&mut self, count: usize)
        ensures
            *final(self) == (StatusBar { online_players: count, ..*old(self) }),
    {
        self.online_players = count;
    }

    /// The connection label and its colour.
    pub fn status_label(&self) -> (r: (&'static str, Color))
        ensures
            self.connected ==> r.0@ == "● CONNECTED"@ && r.1 == self.theme.success,
            !self.connected ==> r.0@ == "● DISCONNECTED"@ && r.1 == self.theme.error,
    {
        if self.connected {
            ("● CONNECTED", self.theme.success)
        } else {
            ("● DISCONNECTED", self.theme.error)
        }
    }

    /// The start of the bar's line: the connection label, the server, the
    /// user and the player count, each followed by ` | `. The front end
    /// appends health, position, frame rate and `connection_detail`.
    pub fn status_head(&self) -> (r: String)
        ensures
            r@ == " "@ + (if self.connected { "● CONNECTED"@ } else { "● DISCONNECTED"@ }) + " | Server: "@
                + self.server@ + " | User: "@ + self.username@ + " | Players: "@ + decimal_chars(
                self.online_players as nat,
            ) + " | "@,
    {
        let (label, _) = self.status_label();
        let mut r = " ".to_owned();
        r.append(label);
        r.append(" | Server: ");
        r.append(self.server.as_str());
        r.append(" | User: ");
        r.append(self.username.as_str());
        r.append(" | Players: ");
        push_decimal(&mut r, self.online_players as u64);
        r.append(" | ");
        r
    }
}

impl Default for StatusBar {
    fn default() -> (r: Self)
        ensures
            !r.connected,
            r.server@.len() == 0,
            r.username@.len() == 0,
            r.online_players == 0,
            r.theme == Theme::spec_dark(),
    {
        Self::new(Theme::default())
    }
}

/// The extra text the bar shows while connecting or reconnecting.
pub open spec fn connection_detail_spec(state: BotState) -> Seq<char> {
    match state {
        BotState::Connecting { server, .. } => " | Connecting to "@ + server@ + "..."@,
        BotState::Reconnecting { server, attempt, delay_secs } => " | Reconnecting to "@ + server@
            + " (attempt "@ + decimal_chars(attempt as nat) + ", "@ + decimal_chars(delay_secs as nat)
            + "s)"@,
        _ => Seq::<char>::empty(),
    }
}

/// The extra text the bar shows while connecting or reconnecting.
pub fn connection_detail(state: &BotState) -> (r: String)
    ensures
        r@ == connection_detail_spec(*state),
{
    match state {
        BotState::Connecting { server, .. } => {
            let mut r = " | Connecting to ".to_owned();
            r.append(server.as_str());
            r.append("...");
            r
        },
        BotState::Reconnecting { server, attempt, delay_secs } => {
            let mut r = " | Reconnecting to ".to_owned();
            r.append(server.as_str());
            r.append(" (attempt ");
            push_decimal(&mut r, *attempt as u64);
            r.append(", ");
            push_decimal(&mut r, *delay_secs);
            r.append("s)");
            r
        },
        _ => String::new(),
    }
}

} // verus!
