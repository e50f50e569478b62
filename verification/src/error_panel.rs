//! The error panel's log of internal errors: timestamped entries tagged
//! with their source, kept to the newest hundred, with known noise left out.

use vstd::prelude::*;
use crate::chat_panel::{bounded_push, clock_timestamp, is_clock_time};
use crate::state::Theme;
use crate::style::Color;
use crate::text::{contains_str, decimal_chars, push_decimal, seq_contains, str_eq};
use std::collections::VecDeque;

verus! {

/// One logged error.
#[derive(Clone, Debug)]
pub struct ErrorLog {
    pub timestamp: String,
    pub source: String,
    pub message: String,
}

impl ErrorLog {
    /// An entry for `message` from `source`, stamped with the time of day.
    pub fn new(source: String, message: String) -> (r: Self)
        ensures
            r.source@ == source@,
            r.message@ == message@,
            is_clock_time(r.timestamp@),
    {
        Self { timestamp: clock_timestamp(), source, message }
    }

    /// The entry's line in the error panel: `[timestamp] [source] message`.
    pub fn line(&self) -> (r: String)
        ensures
            r@ == "["@ + self.timestamp@ + "] ["@ + self.source@ + "] "@ + self.message@,
    {
        let mut r = "[".to_owned();
        r.append(self.timestamp.as_str());
        r.append("] [");
        r.append(self.source.as_str());
        r.append("] ");
        r.append(self.message.as_str());
        r
    }
}

/// The colour of an entry's line by its source.
pub open spec fn source_color_spec(source: Seq<char>, theme: Theme) -> Color {
    if source == "internal"@ {
        theme.warning
    } else if source == "network"@ {
        theme.highlight
    } else if source == "bot"@ {
        theme.primary
    } else {
        theme.foreground
    }
}

/// The colour of an entry's line by its source.
pub fn source_color(source: &str, theme: &Theme) -> (r: Color)
    ensures
        r == source_color_spec(source@, *theme),
{
    if str_eq(source, "internal") {
        theme.warning
    } else if str_eq(source, "network") {
        theme.highlight
    } else if str_eq(source, "bot") {
        theme.primary
    } else {
        theme.foreground
    }
}

/// Messages that the bot's libraries emit routinely and that are not
/// worth showing: those holding one of these phrases.
pub open spec fn is_noise(message: Seq<char>) -> bool {
    ||| seq_contains(message, "Event channel has more than 1,000 items"@)
    ||| seq_contains(message, "packet-event"@)
    ||| seq_contains(message, "Error reading packet set_objective"@)
    ||| seq_contains(message, "Invalid root type"@)
    ||| seq_contains(message, "Could not set global logger"@)
    ||| seq_contains(message, "bevy_log"@)
    ||| seq_contains(message, "azalea::swarm"@)
    ||| seq_contains(message, "azalea_client::plugins::connection"@)
}

/// `new` is `old` after an internal error `message` was reported: noise
/// is dropped, anything else is logged from source `internal`.
pub open spec fn logged_internal(old: ErrorPanel, new: ErrorPanel, message: Seq<char>) -> bool {
    &&& is_noise(message) ==> new.logs_view() == old.logs_view()
    &&& !is_noise(message) ==> {
        &&& new.logs_view() == bounded_push(old.logs_view(), new.logs_view().last(), old.capacity())
        &&& new.logs_view().last().source@ == "internal"@
        &&& new.logs_view().last().message@ == message
    }
    &&& new.capacity() == old.capacity()
    &&& new.theme_view() == old.theme_view()
}

/// The error panel: the newest entries, oldest first, at most `max_logs`.
pub struct ErrorPanel {
    logs: VecDeque<ErrorLog>,
    max_logs: usize,
    theme: Theme,
}

/// The number of entries the error panel keeps.
pub const MAX_ERROR_LOGS: usize = 100;

impl ErrorPanel {
    #[verifier::type_invariant]
    spec fn bounded(&self) -> bool {
        &&& self.max_logs == MAX_ERROR_LOGS
        &&& self.logs@.len() <= self.max_logs
    }

    /// The entries held, oldest first.
    pub closed spec fn logs_view(&self) -> Seq<ErrorLog> {
        self.logs@
    }

    /// How many entries the panel keeps: every panel keeps the newest
    /// `MAX_ERROR_LOGS`.
    pub open spec fn capacity(&self) -> nat {
        MAX_ERROR_LOGS as nat
    }

    /// The panel's colour theme.
    pub closed spec fn theme_view(&self) -> Theme {
        self.theme
    }

    /// An empty panel that keeps the newest hundred entries.
    pub fn new(theme: Theme) -> (r: Self)
        ensures
            r.logs_view().len() == 0,
            r.capacity() == MAX_ERROR_LOGS,
            r.theme_view() == theme,
    {
        Self { logs: VecDeque::with_capacity(100), max_logs: MAX_ERROR_LOGS, theme }
    }

    /// Logs `message` from `source`; when the panel is full the oldest
    /// entry leaves.
    pub fn add_log(&mut self, source: String, message: String)
        ensures
            final(self).logs_view() == bounded_push(
                old(self).logs_view(),
                final(self).logs_view().last(),
                old(self).capacity(),
            ),
            final(self).logs_view().len() <= final(self).capacity(),
            final(self).logs_view().last().source@ == source@,
            final(self).logs_view().last().message@ == message@,
            is_clock_time(final(self).logs_view().last().timestamp@),
            final(self).capacity() == old(self).capacity(),
            final(self).theme_view() == old(self).theme_view(),
    {
        proof {
            use_type_invariant(&*self);
        }
        let entry = ErrorLog::new(source, message);
        let mut logs: VecDeque<ErrorLog> = VecDeque::new();
        std::mem::swap(&mut logs, &mut self.logs);
        logs.push_back(entry);
        if logs.len() > self.max_logs {
            logs.pop_front();
        }
        self.logs = logs;
    }

    /// Logs an internal error unless it is known noise.
    pub fn add_internal_error(&mut self, message: String)
        ensures
            logged_internal(*old(self), *final(self), message@),
            final(self).logs_view().len() <= final(self).capacity(),
            !is_noise(message@) ==> final(self).logs_view().len() == (if old(self).logs_view().len()
                < MAX_ERROR_LOGS {
                old(self).logs_view().len() + 1
            } else {
                MAX_ERROR_LOGS as nat
            }),
    {
        proof {
            use_type_invariant(&*self);
        }
        if Self::is_noise_error(message.as_str()) {
            return;
        }
        self.add_log("internal".to_owned(), message);
    }

    /// Whether a message is known noise.
    pub fn is_noise_error(message: &str) -> (r: bool)
        ensures
            r == is_noise(message@),
    {
        contains_str(message, "Event channel has more than 1,000 items")
            || contains_str(message, "packet-event")
            || contains_str(message, "Error reading packet set_objective")
            || contains_str(message, "Invalid root type")
            || contains_str(message, "Could not set global logger")
            || contains_str(message, "bevy_log")
            || contains_str(message, "azalea::swarm")
            || contains_str(message, "azalea_client::plugins::connection")
    }

    /// The panel's title, with the number of entries held.
    pub fn title(&self) -> (r: String)
        ensures
            r@ == " Error Logs ("@ + decimal_chars(self.logs_view().len()) + ") "@,
    {
        let mut r = " Error Logs (".to_owned();
        push_decimal(&mut r, self.logs.len() as u64);
        r.append(") ");
        r
    }

    /// Removes every entry.
    pub fn clear(&mut self)
        ensures
            final(self).logs_view().len() == 0,
            final(self).capacity() == old(self).capacity(),
            final(self).theme_view() == old(self).theme_view(),
    {
        proof {
            use_type_invariant(&*self);
        }
        self.logs = VecDeque::new();
    }

    /// The number of entries held.
    pub fn get_log_count(&self) -> (r: usize)
        ensures
            r == self.logs_view().len(),
            r <= self.capacity(),
    {
        proof {
            use_type_invariant(self);
        }
        self.logs.len()
    }

    /// The entries held, oldest first.
    pub fn logs(&self) -> (r: &VecDeque<ErrorLog>)
        ensures
            r@ == self.logs_view(),
    {
        &self.logs
    }

    /// The panel's colour theme.
    pub fn theme(&self) -> (r: &Theme)
        ensures
            *r == self.theme_view(),
    {
        &self.theme
    }
}

impl Default for ErrorPanel {
    fn default() -> (r: Self)
        ensures
            r.logs_view().len() == 0,
            r.capacity() == MAX_ERROR_LOGS,
            r.theme_view() == Theme::spec_dark(),
    {
        Self::new(Theme::default())
    }
}

} // verus!
