//! The chat panel's message log: timestamped messages of five kinds, kept
//! to the newest thousand, and the arithmetic of the visible window.

use vstd::prelude::*;
use crate::ansi::{ansi_spans_spec, parse_ansi_to_spans, spans_view, Span};
use crate::state::Theme;
use crate::style::{Color, Style};
use crate::text::{concat_str, utf8};
use std::collections::VecDeque;

verus! {

/// A time of day as `HH:MM:SS`: hour 00–23, minute 00–59, second 00–60
/// (60 for a leap second), each zero-padded to two digits.
pub open spec fn is_clock_time(t: Seq<char>) -> bool {
    &&& t.len() == 8
    &&& t[2] == ':' && t[5] == ':'
    &&& forall|k: int| #![trigger t[k]] 0 <= k < 8 && k != 2 && k != 5 ==> '0' <= t[k] <= '9'
    &&& two_digits(t, 0) <= 23
    &&& two_digits(t, 3) <= 59
    &&& two_digits(t, 6) <= 60
}

/// The number written by the two digits at `k`.
pub open spec fn two_digits(t: Seq<char>, k: int) -> int {
    (t[k] as int - 48) * 10 + (t[k + 1] as int - 48)
}

/// The current local time of day, for message timestamps.
/// Trusted: `chrono::Local::now()` formatted with `%H:%M:%S`, which chrono
/// documents as zero-padded hour (00–23), minute (00–59) and second
/// (00–60) separated by colons. Which time it is, is not stated.
#[verifier::external_body]
pub(crate) fn clock_timestamp() -> (r: String)
    ensures
        is_clock_time(r@),
{
    chrono::Local::now().format("%H:%M:%S").to_string()
}

/// The kind of a chat message; a chat line carries its sender.
#[derive(Clone, Debug)]
pub enum MessageType {
    System,
    Chat(String),
    Command,
    Error,
    Info,
}

impl MessageType {
    /// The tag shown before a message of this kind.
    pub open spec fn spec_prefix(&self) -> Seq<char> {
        match self {
            MessageType::System => "[SYS]"@,
            MessageType::Chat(_) => "[C]"@,
            MessageType::Command => "[CMD]"@,
            MessageType::Error => "[ERR]"@,
            MessageType::Info => "[INFO]"@,
        }
    }

    /// The tag shown before a message of this kind.
    pub fn prefix(&self) -> (r: &'static str)
        ensures
            r@ == self.spec_prefix(),
    {
        match self {
            MessageType::System => "[SYS]",
            MessageType::Chat(_) => "[C]",
            MessageType::Command => "[CMD]",
            MessageType::Error => "[ERR]",
            MessageType::Info => "[INFO]",
        }
    }

    /// The theme colour of the tag (and of text without its own colours).
    pub open spec fn spec_color(&self, theme: Theme) -> Color {
        match self {
            MessageType::System => theme.warning,
            MessageType::Command => theme.primary,
            MessageType::Error => theme.error,
            MessageType::Info => theme.success,
            MessageType::Chat(_) => theme.foreground,
        }
    }

    /// The theme colour of the tag (and of text without its own colours).
    pub fn color(&self, theme: &Theme) -> (r: Color)
        ensures
            r == self.spec_color(*theme),
    {
        match self {
            MessageType::System => theme.warning,
            MessageType::Command => theme.primary,
            MessageType::Error => theme.error,
            MessageType::Info => theme.success,
            MessageType::Chat(_) => theme.foreground,
        }
    }
}

/// A timestamped chat message.
#[derive(Clone, Debug)]
pub struct ChatMessage {
    pub timestamp: String,
    pub message_type: MessageType,
    pub content: String,
}

impl ChatMessage {
    /// A message of the given kind and text, stamped with the time of day.
    pub fn new(message_type: MessageType, content: String) -> (r: Self)
        ensures
            r.message_type == message_type,
            r.content@ == content@,
            is_clock_time(r.timestamp@),
    {
        Self { timestamp: clock_timestamp(), message_type, content }
    }

    pub fn system(content: String) -> (r: Self)
        ensures
            r.message_type is System,
            r.content@ == content@,
            is_clock_time(r.timestamp@),
    {
        Self::new(MessageType::System, content)
    }

    pub fn chat(username: String, content: String) -> (r: Self)
        ensures
            r.message_type matches MessageType::Chat(u) && u@ == username@,
            r.content@ == content@,
            is_clock_time(r.timestamp@),
    {
        Self::new(MessageType::Chat(username), content)
    }

    pub fn error(content: String) -> (r: Self)
        ensures
            r.message_type is Error,
            r.content@ == content@,
            is_clock_time(r.timestamp@),
    {
        Self::new(MessageType::Error, content)
    }

    pub fn info(content: String) -> (r: Self)
        ensures
            r.message_type is Info,
            r.content@ == content@,
            is_clock_time(r.timestamp@),
    {
        Self::new(MessageType::Info, content)
    }

    pub fn command(content: String) -> (r: Self)
        ensures
            r.message_type is Command,
            r.content@ == content@,
            is_clock_time(r.timestamp@),
    {
        Self::new(MessageType::Command, content)
    }
}

/// The styled runs of a message's line in the chat panel: its timestamp
/// in dark grey, its tag in its kind's colour, each followed by a space,
/// then its text with ANSI colours decoded, starting from the tag's style.
pub open spec fn message_line_spec(msg: ChatMessage, theme: Theme) -> Seq<(Seq<u8>, Style)> {
    let tag_style = Style::spec_default().spec_fg(msg.message_type.spec_color(theme));
    seq![
        (utf8(msg.timestamp@ + " "@), Style::spec_default().spec_fg(Color::DarkGray)),
        (utf8(msg.message_type.spec_prefix() + " "@), tag_style),
    ] + ansi_spans_spec(utf8(msg.content@), tag_style)
}

impl ChatMessage {
    /// The styled runs of this message's line (see `message_line_spec`).
    pub fn line(&self, theme: &Theme) -> (r: Vec<Span>)
        ensures
            spans_view(r@) == message_line_spec(*self, *theme),
    {
        let tag_style = Style::new().fg(self.message_type.color(theme));
        let mut r: Vec<Span> = Vec::new();
        r.push(Span { content: concat_str(self.timestamp.as_str(), " "), style: Style::new().fg(Color::DarkGray) });
        r.push(Span { content: concat_str(self.message_type.prefix(), " "), style: tag_style });
        let ghost head = r@;
        let mut rest = parse_ansi_to_spans(self.content.as_str(), tag_style);
        let ghost tail = rest@;
        r.append(&mut rest);
        assert(r@ =~= head + tail);
        assert(spans_view(head + tail) =~= spans_view(head) + spans_view(tail));
        assert(spans_view(head) =~= seq![
            (utf8(self.timestamp@ + " "@), Style::spec_default().spec_fg(Color::DarkGray)),
            (utf8(self.message_type.spec_prefix() + " "@), tag_style),
        ]);
        r
    }
}

/// The log after adding `m` to `log` with room for `max` entries: the
/// oldest entry leaves when the log would grow past `max`.
pub open spec fn bounded_push<T>(log: Seq<T>, m: T, max: nat) -> Seq<T> {
    if log.len() + 1 > max {
        log.push(m).drop_first()
    } else {
        log.push(m)
    }
}

/// `new` is `old` with one message appended (the oldest leaving when full).
pub open spec fn appended_message(old: ChatPanel, new: ChatPanel) -> bool {
    &&& new.messages_view().len() > 0
    &&& new.messages_view() == bounded_push(old.messages_view(), new.messages_view().last(), old.capacity())
    &&& new.capacity() == old.capacity()
    &&& new.theme_view() == old.theme_view()
}

/// The chat panel: the newest messages, oldest first, at most
/// `max_messages` of them.
pub struct ChatPanel {
    messages: VecDeque<ChatMessage>,
    max_messages: usize,
    theme: Theme,
}

/// The number of messages the chat panel keeps.
pub const MAX_CHAT_MESSAGES: usize = 1000;

impl ChatPanel {
    #[verifier::type_invariant]
    spec fn bounded(&self) -> bool {
        &&& self.max_messages == MAX_CHAT_MESSAGES
        &&& self.messages@.len() <= self.max_messages
    }

    /// The messages held, oldest first.
    pub closed spec fn messages_view(&self) -> Seq<ChatMessage> {
        self.messages@
    }

    /// How many messages the panel keeps: every panel keeps the newest
    /// `MAX_CHAT_MESSAGES`.
    pub open spec fn capacity(&self) -> nat {
        MAX_CHAT_MESSAGES as nat
    }

    /// The panel's colour theme.
    pub closed spec fn theme_view(&self) -> Theme {
        self.theme
    }

    /// An empty panel that keeps the newest thousand messages.
    pub fn new(theme: Theme) -> (r: Self)
        ensures
            r.messages_view().len() == 0,
            r.capacity() == MAX_CHAT_MESSAGES,
            r.theme_view() == theme,
    {
        Self { messages: VecDeque::with_capacity(1000), max_messages: MAX_CHAT_MESSAGES, theme }
    }

    /// Appends a message; when the panel is full the oldest one leaves.
    pub fn add_message(&mut self, message: ChatMessage)
        ensures
            final(self).messages_view() == bounded_push(old(self).messages_view(), message, old(self).capacity()),
            final(self).messages_view().len() <= final(self).capacity(),
            final(self).messages_view().len() > 0,
            final(self).messages_view().last() == message,
            final(self).messages_view().len() == (if old(self).messages_view().len() < MAX_CHAT_MESSAGES {
                old(self).messages_view().len() + 1
            } else {
                MAX_CHAT_MESSAGES as nat
            }),
            final(self).capacity() == old(self).capacity(),
            final(self).theme_view() == old(self).theme_view(),
    {
        proof {
            use_type_invariant(&*self);
        }
        let mut log: VecDeque<ChatMessage> = VecDeque::new();
        std::mem::swap(&mut log, &mut self.messages);
        log.push_back(message);
        if log.len() > self.max_messages {
            log.pop_front();
        }
        self.messages = log;
    }

    /// Removes every message.
    pub fn clear(&mut self)
        ensures
            final(self).messages_view().len() == 0,
            final(self).capacity() > 0,
            final(self).capacity() == old(self).capacity(),
            final(self).theme_view() == old(self).theme_view(),
    {
        proof {
            use_type_invariant(&*self);
        }
        self.messages = VecDeque::new();
    }

    /// The number of messages held.
    pub fn len(&self) -> (r: usize)
        ensures
            r == self.messages_view().len(),
            r <= self.capacity(),
    {
        proof {
            use_type_invariant(self);
        }
        self.messages.len()
    }

    /// The messages held, oldest first.
    pub fn messages(&self) -> (r: &VecDeque<ChatMessage>)
        ensures
            r@ == self.messages_view(),
    {
        &self.messages
    }

    /// The panel's colour theme.
    pub fn theme(&self) -> (r: &Theme)
        ensures
            *r == self.theme_view(),
    {
        &self.theme
    }
}

impl Default for ChatPanel {
    fn default() -> (r: Self)
        ensures
            r.messages_view().len() == 0,
            r.capacity() == MAX_CHAT_MESSAGES,
            r.theme_view() == Theme::spec_dark(),
    {
        Self::new(Theme::default())
    }
}

/// The first and one-past-last line of the window of `visible` lines out of
/// `total`, scrolled `scroll` lines up from the bottom.
pub open spec fn window_spec(total: nat, visible: nat, scroll: nat) -> (nat, nat) {
    let start: nat = if total >= visible + scroll { (total - (visible + scroll)) as nat } else { 0 };
    let end: nat = if start + visible <= total { start + visible } else { total };
    (start, end)
}

/// The window of `visible` lines out of `total`, scrolled `scroll` lines
/// up from the bottom: the range of lines to draw.
pub fn visible_window(total: usize, visible: usize, scroll: usize) -> (r: (usize, usize))
    requires
        visible + scroll <= usize::MAX,
    ensures
        (r.0 as nat, r.1 as nat) == window_spec(total as nat, visible as nat, scroll as nat),
{
    let start = total.saturating_sub(visible + scroll);
    let end = if start + visible <= total { start + visible } else { total };
    (start, end)
}

/// How a panel of `total` lines is drawn in `rows` rows, scrolled `scroll`
/// lines up from the bottom.
#[derive(Clone, Copy, Debug, PartialEq, Eq, Structural)]
pub struct PanelLayout {
    /// There is nothing to list: the chat panel shows its placeholder
    /// text instead, the error panel is not drawn.
    pub empty: bool,
    /// The first line drawn.
    pub start: usize,
    /// One past the last line drawn.
    pub end: usize,
    /// A scrollbar is drawn: there are more lines than rows.
    pub scrollbar: bool,
}

/// The layout of a panel of `total` lines in `rows` rows, scrolled
/// `scroll` lines up (see `PanelLayout` and `window_spec`).
pub fn panel_layout(total: usize, rows: usize, scroll: usize) -> (r: PanelLayout)
    requires
        total > 0 ==> rows + scroll <= usize::MAX,
    ensures
        r.empty == (total == 0),
        r.scrollbar == (total > rows),
        (r.start as nat, r.end as nat) == window_spec(total as nat, rows as nat, scroll as nat),
{
    if total == 0 {
        return PanelLayout { empty: true, start: 0, end: 0, scrollbar: false };
    }
    let (start, end) = visible_window(total, rows, scroll);
    PanelLayout { empty: total == 0, start, end, scrollbar: total > rows }
}

impl ChatPanel {
    /// The text an empty chat panel shows.
    pub fn placeholder() -> (r: &'static str)
        ensures
            r@ == "No messages yet..."@,
    {
        "No messages yet..."
    }
}

/// The window lies within the lines, holds at most `visible` of them, and
/// unscrolled it ends at the newest line.
pub proof fn law_window_bounds(total: nat, visible: nat, scroll: nat)
    ensures
        window_spec(total, visible, scroll).0 <= window_spec(total, visible, scroll).1 <= total,
        window_spec(total, visible, scroll).1 - window_spec(total, visible, scroll).0 <= visible,
        scroll == 0 ==> window_spec(total, visible, scroll).1 == total,
{
}

} // verus!
