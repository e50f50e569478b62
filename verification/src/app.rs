//! The application's decisions: what a key press or a bot event does to
//! the UI state and panels, and which command, if any, goes to the bot.
//! The terminal front end performs the drawing and the sending.

use vstd::prelude::*;
use crate::chat_panel::{appended_message, ChatMessage, ChatPanel, MessageType, MAX_CHAT_MESSAGES};
use crate::error_panel::{logged_internal, ErrorPanel, MAX_ERROR_LOGS};
use crate::events::{BotCommand, CommandView, UiEvent};
use crate::input::{
    ascii_bytes, edit_is_safe, history_index_valid, lemma_ascii_boundaries, lemma_ascii_char_byte, ui_edit,
    InputPanel, KeyCode, KeyInput, UiModel,
};
use crate::text::utf8;
use crate::args::opt_view;
use crate::state::{instant_now, BotState, ModalType, Theme, UiState};
use crate::status_bar::StatusBar;
use crate::text::{byte_len, concat_str, contains_str, seq_contains, str_eq, strip_prefix_char};

verus! {

/// The most commands the history keeps.
pub const MAX_HISTORY: usize = 1000;

/// The application state.
pub struct App {
    pub should_quit: bool,
    pub state: UiState,
    pub bot_state: BotState,
    pub chat_panel: ChatPanel,
    pub error_panel: ErrorPanel,
    pub input_panel: InputPanel,
    pub status_bar: StatusBar,
    pub theme: Theme,
    pub dirty: bool,
}

/// `new` is `old` with an information message `text` appended.
pub open spec fn added_info(old: ChatPanel, new: ChatPanel, text: Seq<char>) -> bool {
    &&& appended_message(old, new)
    &&& new.messages_view().last().message_type is Info
    &&& new.messages_view().last().content@ == text
}

/// `new` is `old` emptied and then given the one information message `text`.
pub open spec fn reset_with_info(old: ChatPanel, new: ChatPanel, text: Seq<char>) -> bool {
    &&& new.messages_view().len() == 1
    &&& new.messages_view()[0].message_type is Info
    &&& new.messages_view()[0].content@ == text
    &&& new.capacity() == old.capacity()
    &&& new.theme_view() == old.theme_view()
}

/// The command history after recording `entry`: the oldest entry leaves
/// when there are more than `MAX_HISTORY`.
pub open spec fn record_history(history: Seq<Seq<char>>, entry: Seq<char>) -> Seq<Seq<char>> {
    let h = history.push(entry);
    if h.len() > MAX_HISTORY {
        h.drop_first()
    } else {
        h
    }
}

/// The history never holds more than `MAX_HISTORY` commands, and the
/// newest is the one just recorded.
pub proof fn law_history_bounded(history: Seq<Seq<char>>, entry: Seq<char>)
    requires
        history.len() <= MAX_HISTORY,
    ensures
        record_history(history, entry).len() <= MAX_HISTORY,
        record_history(history, entry).last() == entry,
{
}

/// The UI state just after a non-empty input line is submitted: recorded
/// in the history, the line emptied, history browsing ended.
pub open spec fn after_submit(u: UiModel, content: Seq<char>) -> UiModel {
    UiModel {
        history: record_history(u.history, content),
        history_index: None,
        buffer: Seq::empty(),
        cursor: 0,
        ..u
    }
}

/// The text that `/status` reports.
pub open spec fn status_text(connected: bool, server: Seq<char>, username: Seq<char>) -> Seq<char> {
    "Status: "@ + (if connected { "Connected"@ } else { "Disconnected"@ }) + " | Server: "@ + server
        + " | User: "@ + username
}

/// A key that goes to the input line editor when no dialog or help is
/// open: anything but `?`, Ctrl+Q, Esc and Enter.
pub open spec fn is_edit_key(key: KeyInput) -> bool {
    match key.code {
        KeyCode::Char(c) => c != '?' && !(c == 'q' && key.ctrl),
        KeyCode::Esc => false,
        KeyCode::Enter => false,
        _ => true,
    }
}

/// The key can be handled without a panic: an editing key that reaches
/// the input line must be safe for it (see `edit_is_safe`).
pub open spec fn key_is_safe(u: UiModel, key: KeyInput) -> bool {
    (key.press && u.active_modal is None && !u.show_help && is_edit_key(key)) ==> edit_is_safe(u, key.code)
}

/// `b` and `r` are what submitting the input line of `a` gives (see
/// `App::submit_input`).
pub open spec fn submitted(a: App, b: App, r: Option<BotCommand>) -> bool {
    let u = a.state@;
    let content = a.state.input_buffer@;
    let cmd = content.drop_first();
    let is_command = content.len() > 0 && content[0] == '/';
    if content.len() == 0 {
        b == a && r is None
    } else if is_command && (cmd == "quit"@ || cmd == "exit"@) {
        &&& b.state@ == after_submit(u, content)
        &&& b.error_panel == a.error_panel
        &&& b.should_quit
        &&& b.chat_panel == a.chat_panel
        &&& r is None
    } else if is_command && cmd == "clear"@ {
        &&& b.state@ == after_submit(u, content)
        &&& b.error_panel == a.error_panel
        &&& b.should_quit == a.should_quit
        &&& reset_with_info(a.chat_panel, b.chat_panel, "Chat cleared"@)
        &&& r is None
    } else if is_command && cmd == "reconnect"@ {
        &&& b.state@ == after_submit(u, content)
        &&& b.error_panel == a.error_panel
        &&& b.should_quit == a.should_quit
        &&& added_info(a.chat_panel, b.chat_panel, "Reconnecting..."@)
        &&& r matches Some(BotCommand::Reconnect)
    } else if is_command && cmd == "status"@ {
        &&& b.state@ == after_submit(u, content)
        &&& b.error_panel == a.error_panel
        &&& b.should_quit == a.should_quit
        &&& added_info(
            a.chat_panel,
            b.chat_panel,
            status_text(a.bot_state is Connected, a.status_bar.server@, a.status_bar.username@),
        )
        &&& r is None
    } else if is_command && cmd == "clear-errors"@ {
        &&& b.state@ == after_submit(u, content)
        &&& b.should_quit == a.should_quit
        &&& b.error_panel.logs_view().len() == 0
        &&& b.error_panel.capacity() == a.error_panel.capacity()
        &&& b.error_panel.theme_view() == a.error_panel.theme_view()
        &&& added_info(a.chat_panel, b.chat_panel, "Error logs cleared"@)
        &&& r is None
    } else if is_command && cmd == "toggle-errors"@ {
        &&& b.state@ == UiModel { error_visible: !u.error_visible, ..after_submit(u, content) }
        &&& b.error_panel == a.error_panel
        &&& b.should_quit == a.should_quit
        &&& added_info(
            a.chat_panel,
            b.chat_panel,
            "Error panel "@ + (if !u.error_visible { "shown"@ } else { "hidden"@ }),
        )
        &&& r is None
    } else {
        &&& b.state@ == after_submit(u, content)
        &&& b.error_panel == a.error_panel
        &&& b.should_quit == a.should_quit
        &&& b.chat_panel == a.chat_panel
        &&& r matches Some(c) && c@ == (if is_command {
            CommandView::Command(content)
        } else {
            CommandView::Chat(content)
        })
    }
}

/// `b` and `r` are what the key `key` gives in `a` (see `App::on_key`).
pub open spec fn key_handled(a: App, b: App, key: KeyInput, r: Option<BotCommand>) -> bool {
    let u = a.state@;
    &&& (if !key.press {
        b == a && r is None
    } else if u.active_modal is Some {
        if key.code == KeyCode::Enter {
            &&& b.state@ == UiModel { active_modal: None, ..u }
            &&& b.should_quit == (a.should_quit || u.active_modal == Some(ModalType::ConfirmQuit))
            &&& if u.active_modal == Some(ModalType::ConfirmReconnect) {
                added_info(a.chat_panel, b.chat_panel, "Reconnecting..."@)
                    && r matches Some(BotCommand::Reconnect)
            } else {
                b.chat_panel == a.chat_panel && r is None
            }
        } else if key.code == KeyCode::Esc {
            &&& b.state@ == UiModel { active_modal: None, ..u }
            &&& App::same_but_state(a, b)
            &&& r is None
        } else {
            b == a && r is None
        }
    } else if u.show_help {
        &&& b.state@ == (if key.code == KeyCode::Char('?') || key.code == KeyCode::Esc {
            UiModel { show_help: false, ..u }
        } else {
            u
        })
        &&& App::same_but_state(a, b)
        &&& r is None
    } else if key.code == KeyCode::Char('?') {
        &&& b.state@ == UiModel { show_help: true, ..u }
        &&& App::same_but_state(a, b)
        &&& r is None
    } else if key.code == KeyCode::Char('q') && key.ctrl {
        &&& b.state@ == UiModel { active_modal: Some(ModalType::ConfirmQuit), ..u }
        &&& App::same_but_state(a, b)
        &&& r is None
    } else if key.code == KeyCode::Esc {
        &&& b.state@ == (if u.buffer.len() > 0 { UiModel { buffer: Seq::empty(), cursor: 0, ..u } } else { u })
        &&& b.should_quit == (a.should_quit || u.buffer.len() == 0)
        &&& b.chat_panel == a.chat_panel
        &&& r is None
    } else if key.code == KeyCode::Enter {
        true
    } else {
        &&& b.state@ == ui_edit(u, key.code)
        &&& App::same_but_state(a, b)
        &&& r is None
    })
    &&& (key.press && a.state.active_modal is None && !a.state.show_help && key.code == KeyCode::Enter
        ==> submitted(a, b, r))
    &&& (!(key.press && a.state.active_modal is None && !a.state.show_help && key.code == KeyCode::Enter)
        ==> b.error_panel == a.error_panel)
}

/// The facts about the input line that the keys keep: the line and every
/// command in the history are ASCII text, the history holds at most
/// `MAX_HISTORY` commands, the cursor lies within the line and the history
/// position, when browsing, names an entry.
pub open spec fn ui_well_formed(u: UiModel) -> bool {
    &&& ascii_bytes(u.buffer)
    &&& forall|i: int| 0 <= i < u.history.len() ==> ascii_bytes(utf8(#[trigger] u.history[i]))
    &&& u.history.len() <= MAX_HISTORY
    &&& u.cursor <= u.buffer.len()
    &&& history_index_valid(u)
}

/// With those facts, every key whose character (if any) is ASCII can be
/// handled (`App::on_key` accepts it); only a line of `usize::MAX` bytes
/// is left out.
pub proof fn law_ascii_keys_are_safe(a: App, key: KeyInput)
    requires
        ui_well_formed(a.state@),
        a.state@.buffer.len() < usize::MAX,
        key.code matches KeyCode::Char(c) ==> c <= '\u{7f}',
    ensures
        key_is_safe(a.state@, key),
{
    let u = a.state@;
    vstd::utf8::encode_utf8_valid_utf8(a.state.input_buffer@);
    lemma_ascii_boundaries(u.buffer, u.cursor as int);
    if u.cursor > 0 {
        lemma_ascii_boundaries(u.buffer, u.cursor - 1);
    }
}

/// Every key whose character (if any) is ASCII keeps those facts.
pub proof fn law_keys_keep_ui_well_formed(a: App, b: App, key: KeyInput, r: Option<BotCommand>)
    requires
        ui_well_formed(a.state@),
        a.state@.buffer.len() < usize::MAX,
        key.code matches KeyCode::Char(c) ==> c <= '\u{7f}',
        key_handled(a, b, key, r),
    ensures
        ui_well_formed(b.state@),
{
    let u = a.state@;
    let v = b.state@;
    vstd::utf8::encode_utf8_valid_utf8(a.state.input_buffer@);
    law_ascii_keys_are_safe(a, key);
    if key.press && u.active_modal is None && !u.show_help && key.code == KeyCode::Enter {
        let content = a.state.input_buffer@;
        if content.len() > 0 {
            let h = u.history.push(content);
            assert(u.buffer == utf8(content));
            assert(forall|i: int| 0 <= i < h.len() ==> ascii_bytes(utf8(#[trigger] h[i]))) by {
                assert forall|i: int| 0 <= i < h.len() implies ascii_bytes(utf8(#[trigger] h[i])) by {
                    if i < u.history.len() {
                        assert(h[i] == u.history[i]);
                    }
                }
            }
            let rh = record_history(u.history, content);
            assert(forall|i: int| 0 <= i < rh.len() ==> ascii_bytes(utf8(#[trigger] rh[i]))) by {
                assert forall|i: int| 0 <= i < rh.len() implies ascii_bytes(utf8(#[trigger] rh[i])) by {
                    if h.len() > MAX_HISTORY {
                        assert(rh[i] == h[i + 1]);
                    } else {
                        assert(rh[i] == h[i]);
                    }
                }
            }
            assert(v.history == rh);
            assert(ascii_bytes(v.buffer));
        }
    } else if key.press && u.active_modal is None && !u.show_help && key.code != KeyCode::Char('?')
        && !(key.code == KeyCode::Char('q') && key.ctrl) && key.code != KeyCode::Esc {
        assert(v == ui_edit(u, key.code));
        match key.code {
            KeyCode::Char(c) => {
                lemma_ascii_char_byte(c);
                let k = u.cursor as int;
                let e = utf8(seq![c]);
                assert forall|j: int| 0 <= j < v.buffer.len() implies #[trigger] v.buffer[j] < 128 by {
                    if j < k {
                        assert(v.buffer[j] == u.buffer[j]);
                    } else if j == k {
                        assert(v.buffer[j] == e[0]);
                    } else {
                        assert(v.buffer[j] == u.buffer[j - 1]);
                    }
                }
            },
            KeyCode::Backspace => {
                if u.cursor > 0 {
                    let k = u.cursor - 1;
                    lemma_ascii_boundaries(u.buffer, k);
                    assert forall|j: int| 0 <= j < v.buffer.len() implies #[trigger] v.buffer[j] < 128 by {
                        if j < k {
                            assert(v.buffer[j] == u.buffer[j]);
                        } else {
                            assert(v.buffer[j] == u.buffer[j + 1]);
                        }
                    }
                }
            },
            KeyCode::Delete => {
                if u.cursor < u.buffer.len() {
                    let k = u.cursor as int;
                    lemma_ascii_boundaries(u.buffer, k);
                    assert forall|j: int| 0 <= j < v.buffer.len() implies #[trigger] v.buffer[j] < 128 by {
                        if j < k {
                            assert(v.buffer[j] == u.buffer[j]);
                        } else {
                            assert(v.buffer[j] == u.buffer[j + 1]);
                        }
                    }
                }
            },
            KeyCode::Up => {
                if u.history.len() > 0 {
                    let idx = v.history_index->0;
                    assert(ascii_bytes(utf8(u.history[idx as int])));
                }
            },
            KeyCode::Down => {
                if u.history_index is Some {
                    let i = u.history_index->0;
                    if i + 1 < u.history.len() {
                        assert(ascii_bytes(utf8(u.history[i + 1])));
                    }
                }
            },
            _ => {},
        }
    }
}

/// `/status` reports in the chat whether the bot is connected, then the
/// server and the user the status bar shows, and sends nothing.
pub proof fn law_status_reports_connection(a: App, b: App, r: Option<BotCommand>)
    requires
        submitted(a, b, r),
        a.state.input_buffer@ == "/status"@,
    ensures
        b.chat_panel.messages_view().last().message_type is Info,
        b.chat_panel.messages_view().last().content@ == (if a.bot_state is Connected {
            "Status: Connected | Server: "@
        } else {
            "Status: Disconnected | Server: "@
        }) + a.status_bar.server@ + " | User: "@ + a.status_bar.username@,
        r is None,
{
    reveal_strlit("/status");
    assert("/status"@.len() == 7);
    reveal_strlit("status");
    assert("status"@.len() == 6);
    reveal_strlit("quit");
    assert("quit"@.len() == 4);
    reveal_strlit("exit");
    assert("exit"@.len() == 4);
    reveal_strlit("clear");
    assert("clear"@.len() == 5);
    reveal_strlit("reconnect");
    assert("reconnect"@.len() == 9);
    reveal_strlit("Status: ");
    assert("Status: "@.len() == 8);
    reveal_strlit("Connected");
    assert("Connected"@.len() == 9);
    reveal_strlit("Disconnected");
    assert("Disconnected"@.len() == 12);
    reveal_strlit(" | Server: ");
    assert(" | Server: "@.len() == 11);
    reveal_strlit("Status: Connected | Server: ");
    assert("Status: Connected | Server: "@.len() == 28);
    reveal_strlit("Status: Disconnected | Server: ");
    assert("Status: Disconnected | Server: "@.len() == 31);
    let content = a.state.input_buffer@;
    assert(content[0] == '/');
    assert(content.drop_first() =~= "status"@);
    assert(("Status: "@ + "Connected"@) + " | Server: "@ =~= "Status: Connected | Server: "@);
    assert(("Status: "@ + "Disconnected"@) + " | Server: "@ =~= "Status: Disconnected | Server: "@);
}

impl App {
    /// Everything but the UI state is the same in `a` and `b`.
    pub open spec fn same_but_state(a: App, b: App) -> bool {
        &&& a.should_quit == b.should_quit
        &&& a.bot_state == b.bot_state
        &&& a.chat_panel == b.chat_panel
        &&& a.error_panel == b.error_panel
        &&& a.input_panel == b.input_panel
        &&& a.status_bar == b.status_bar
        &&& a.theme == b.theme
        &&& a.dirty == b.dirty
    }

    /// A fresh application for `server` and `username`: disconnected,
    /// nothing typed, empty panels, to be drawn.
    pub fn new(server: String, username: String, theme: Theme) -> (r: Self)
        ensures
            !r.should_quit,
            r.state.is_initial(),
            r.bot_state matches BotState::Disconnected { last_error: None },
            r.chat_panel.messages_view().len() == 0,
            r.chat_panel.capacity() == MAX_CHAT_MESSAGES,
            r.chat_panel.theme_view() == theme,
            r.error_panel.logs_view().len() == 0,
            r.error_panel.capacity() == MAX_ERROR_LOGS,
            r.error_panel.theme_view() == theme,
            r.input_panel.theme == theme,
            !r.status_bar.connected,
            r.status_bar.server@ == server@,
            r.status_bar.username@ == username@,
            r.status_bar.online_players == 0,
            r.status_bar.theme == theme,
            r.theme == theme,
            r.dirty,
    {
        let mut status_bar = StatusBar::new(theme);
        status_bar.server = server;
        status_bar.username = username;
        Self {
            should_quit: false,
            state: UiState::default(),
            bot_state: BotState::Disconnected { last_error: None },
            chat_panel: ChatPanel::new(theme),
            error_panel: ErrorPanel::new(theme),
            input_panel: InputPanel::new(theme),
            status_bar,
            theme,
            dirty: true,
        }
    }

    fn add_info(&mut self, text: &str)
        ensures
            added_info(old(self).chat_panel, final(self).chat_panel, text@),
            final(self).should_quit == old(self).should_quit,
            final(self).state == old(self).state,
            final(self).bot_state == old(self).bot_state,
            final(self).error_panel == old(self).error_panel,
            final(self).input_panel == old(self).input_panel,
            final(self).status_bar == old(self).status_bar,
            final(self).theme == old(self).theme,
            final(self).dirty == old(self).dirty,
    {
        self.chat_panel.add_message(ChatMessage::info(text.to_owned()));
    }

    fn reset_chat_with_info(&mut self, text: &str)
        ensures
            reset_with_info(old(self).chat_panel, final(self).chat_panel, text@),
            final(self).should_quit == old(self).should_quit,
            final(self).state == old(self).state,
            final(self).bot_state == old(self).bot_state,
            final(self).error_panel == old(self).error_panel,
            final(self).input_panel == old(self).input_panel,
            final(self).status_bar == old(self).status_bar,
            final(self).theme == old(self).theme,
            final(self).dirty == old(self).dirty,
    {
        self.chat_panel.clear();
        self.chat_panel.add_message(ChatMessage::info(text.to_owned()));
        assert(self.chat_panel.messages_view().len() == 1);
    }

    /// Applies an event from the bot: a connection or disconnection updates
    /// the bot state and the status bar and is announced in the chat; chat
    /// lines and system messages go to the chat; the player count goes to
    /// the status bar; an error that mentions the bot library, packets or
    /// channels goes to the error panel (see `ErrorPanel::add_internal_error`)
    /// and any other error to the chat. Log events are not shown.
    pub fn on_bot_event(&mut self, event: UiEvent)
        ensures
            ({
                let a = *old(self);
                let b = *final(self);
                match event {
                    UiEvent::Connected { server, username } => {
                        &&& b.bot_state matches BotState::Connected { server: s, username: n, .. }
                            && s@ == server@ && n@ == username@
                        &&& b.status_bar.connected
                        &&& b.status_bar.server@ == server@
                        &&& b.status_bar.username@ == username@
                        &&& b.status_bar.online_players == a.status_bar.online_players
                        &&& appended_message(a.chat_panel, b.chat_panel)
                        &&& b.chat_panel.messages_view().last().message_type is System
                        &&& b.chat_panel.messages_view().last().content@ == "Connected to server as "@ + username@
                        &&& b.error_panel == a.error_panel
                    },
                    UiEvent::Disconnected { reason } => {
                        &&& b.bot_state matches BotState::Disconnected { last_error: e }
                            && opt_view(e) == opt_view(reason)
                        &&& !b.status_bar.connected
                        &&& b.status_bar.server == a.status_bar.server
                        &&& b.status_bar.username == a.status_bar.username
                        &&& b.status_bar.online_players == a.status_bar.online_players
                        &&& appended_message(a.chat_panel, b.chat_panel)
                        &&& b.chat_panel.messages_view().last().message_type is Error
                        &&& b.chat_panel.messages_view().last().content@ == "Disconnected: "@ + match reason {
                            Some(r) => r@,
                            None => "Unknown"@,
                        }
                        &&& b.error_panel == a.error_panel
                    },
                    UiEvent::ChatReceived { username, message } => {
                        &&& b.bot_state == a.bot_state
                        &&& b.status_bar == a.status_bar
                        &&& appended_message(a.chat_panel, b.chat_panel)
                        &&& b.chat_panel.messages_view().last().message_type matches MessageType::Chat(n)
                            && n@ == username@
                        &&& b.chat_panel.messages_view().last().content@ == message@
                        &&& b.error_panel == a.error_panel
                    },
                    UiEvent::SystemMessage(message) => {
                        &&& b.bot_state == a.bot_state
                        &&& b.status_bar == a.status_bar
                        &&& appended_message(a.chat_panel, b.chat_panel)
                        &&& b.chat_panel.messages_view().last().message_type is System
                        &&& b.chat_panel.messages_view().last().content@ == message@
                        &&& b.error_panel == a.error_panel
                    },
                    UiEvent::PlayerCount(count) => {
                        &&& b.bot_state == a.bot_state
                        &&& b.status_bar.online_players == count
                        &&& b.status_bar.connected == a.status_bar.connected
                        &&& b.status_bar.server == a.status_bar.server
                        &&& b.status_bar.username == a.status_bar.username
                        &&& b.chat_panel == a.chat_panel
                        &&& b.error_panel == a.error_panel
                    },
                    UiEvent::Error(error) => {
                        &&& b.bot_state == a.bot_state
                        &&& b.status_bar == a.status_bar
                        &&& if seq_contains(error@, "azalea"@) || seq_contains(error@, "packet"@)
                            || seq_contains(error@, "channel"@) {
                            logged_internal(a.error_panel, b.error_panel, error@) && b.chat_panel
                                == a.chat_panel
                        } else {
                            &&& appended_message(a.chat_panel, b.chat_panel)
                            &&& b.chat_panel.messages_view().last().message_type is Error
                            &&& b.chat_panel.messages_view().last().content@ == error@
                            &&& b.error_panel == a.error_panel
                        }
                    },
                    UiEvent::Log { .. } => b == a,
                }
            }),
            final(self).status_bar.theme == old(self).status_bar.theme,
            final(self).should_quit == old(self).should_quit,
            final(self).state == old(self).state,
            final(self).input_panel == old(self).input_panel,
            final(self).theme == old(self).theme,
            final(self).dirty == old(self).dirty,
    {
        match event {
            UiEvent::Connected { server, username } => {
                self.bot_state = BotState::Connected {
                    server: server.clone(),
                    username: username.clone(),
                    since: instant_now(),
                };
                self.status_bar.update_connection(true, server, username);
                let text = concat_str("Connected to server as ", self.status_bar.username.as_str());
                self.chat_panel.add_message(ChatMessage::system(text));
            },
            UiEvent::Disconnected { reason } => {
                let last_error = match &reason {
                    Some(r) => Some(r.clone()),
                    None => None,
                };
                self.bot_state = BotState::Disconnected { last_error };
                self.status_bar.connected = false;
                let text = match &reason {
                    Some(r) => concat_str("Disconnected: ", r.as_str()),
                    None => concat_str("Disconnected: ", "Unknown"),
                };
                self.chat_panel.add_message(ChatMessage::error(text));
            },
            UiEvent::ChatReceived { username, message } => {
                self.chat_panel.add_message(ChatMessage::chat(username, message));
            },
            UiEvent::SystemMessage(message) => {
                self.chat_panel.add_message(ChatMessage::system(message));
            },
            UiEvent::PlayerCount(count) => {
                self.status_bar.update_online_players(count);
            },
            UiEvent::Error(error) => {
                if contains_str(error.as_str(), "azalea") || contains_str(error.as_str(), "packet")
                    || contains_str(error.as_str(), "channel") {
                    self.error_panel.add_internal_error(error);
                } else {
                    self.chat_panel.add_message(ChatMessage::error(error));
                }
            },
            UiEvent::Log { .. } => {},
        }
    }

    /// Whether the error panel is drawn: it has entries and is switched on.
    pub fn error_panel_visible(&self) -> (r: bool)
        ensures
            r == (self.error_panel.logs_view().len() > 0 && self.state.error_visible),
    {
        self.error_panel.get_log_count() > 0 && self.state.error_visible
    }

    /// Whether `on_key` can handle `key` in this state.
    pub fn key_is_safe(&self, key: KeyInput) -> (r: bool)
        ensures
            r == key_is_safe(self.state@, key),
    {
        if !key.press || self.state.active_modal.is_some() || self.state.show_help {
            return true;
        }
        let edit_key = match key.code {
            KeyCode::Char(c) => c != '?' && !(c == 'q' && key.ctrl),
            KeyCode::Esc => false,
            KeyCode::Enter => false,
            _ => true,
        };
        !edit_key || self.state.edit_is_safe(key.code)
    }

    /// Handles a key press: an open dialog takes Enter (confirm) and Esc
    /// (close) first; then the help overlay takes `?` and Esc (close);
    /// otherwise `?` opens the help, Ctrl+Q asks to quit, Esc clears the
    /// input line or, when it is empty, quits, Enter submits the line, and
    /// every other key edits the line. Releases and repeats are ignored.
    /// The result is the command for the bot, if any.
    pub fn on_key(&mut self, key: KeyInput) -> (r: Option<BotCommand>)
        requires
            key_is_safe(old(self).state@, key),
        ensures
            key_handled(*old(self), *final(self), key, r),
            final(self).bot_state == old(self).bot_state,
            final(self).input_panel == old(self).input_panel,
            final(self).status_bar == old(self).status_bar,
            final(self).theme == old(self).theme,
            final(self).dirty == old(self).dirty,
    {
        if !key.press {
            return None;
        }
        // Handle an open dialog first
        if self.state.active_modal.is_some() {
            match key.code {
                KeyCode::Enter => {
                    let mut command = None;
                    match &self.state.active_modal {
                        Some(ModalType::ConfirmQuit) => {
                            self.should_quit = true;
                        },
                        Some(ModalType::ConfirmReconnect) => {
                            command = Some(BotCommand::Reconnect);
                            self.add_info("Reconnecting...");
                        },
                        _ => {},
                    }
                    self.state.active_modal = None;
                    return command;
                },
                KeyCode::Esc => {
                    self.state.active_modal = None;
                },
                _ => {},
            }
            return None;
        }
        // Then the help overlay
        if self.state.show_help {
            if key.code == KeyCode::Char('?') || key.code == KeyCode::Esc {
                self.state.show_help = false;
            }
            return None;
        }
        match key.code {
            KeyCode::Char('?') => {
                self.state.show_help = true;
            },
            KeyCode::Char('q') if key.ctrl => {
                self.state.active_modal = Some(ModalType::ConfirmQuit);
            },
            KeyCode::Esc => {
                if byte_len(self.state.input_buffer.as_str()) > 0 {
                    self.state.input_buffer = String::new();
                    self.state.cursor_position = 0;
                } else {
                    self.should_quit = true;
                }
            },
            KeyCode::Enter => {
                return self.submit_input();
            },
            _ => {
                self.state.edit(key.code);
            },
        }
        None
    }

    /// Submits the input line: an empty line does nothing; otherwise the
    /// line is recorded in the history and cleared, and then a line that
    /// starts with `/` runs a built-in command (`quit`, `exit`, `clear`,
    /// `reconnect`, `status`, `clear-errors`, `toggle-errors`) or is sent to
    /// the server as a command, and any other line is sent as chat.
    /// The result is the command for the bot, if any.
    pub fn submit_input(&mut self) -> (r: Option<BotCommand>)
        ensures
            submitted(*old(self), *final(self), r),
            final(self).bot_state == old(self).bot_state,
            final(self).input_panel == old(self).input_panel,
            final(self).status_bar == old(self).status_bar,
            final(self).theme == old(self).theme,
            final(self).dirty == old(self).dirty,
    {
        let ghost u = self.state@;
        let content = self.state.input_buffer.clone();
        if content.as_str().is_empty() {
            return None;
        }
        // Record in the history
        let ghost h = self.state.command_history@;
        self.state.command_history.push(content.clone());
        if self.state.command_history.len() > MAX_HISTORY {
            self.state.command_history.remove(0);
        }
        self.state.history_index = None;
        self.state.input_buffer = String::new();
        self.state.cursor_position = 0;
        assert(self.state@.history =~= record_history(u.history, content@));
        assert(self.state@ =~= after_submit(u, content@));
        // Built-in commands start with '/', like the game's own
        match strip_prefix_char(content.as_str(), '/') {
            Some(cmd) => {
                let cmd = cmd.as_str();
                if str_eq(cmd, "quit") || str_eq(cmd, "exit") {
                    self.should_quit = true;
                    return None;
                } else if str_eq(cmd, "clear") {
                    self.reset_chat_with_info("Chat cleared");
                    return None;
                } else if str_eq(cmd, "reconnect") {
                    self.add_info("Reconnecting...");
                    return Some(BotCommand::Reconnect);
                } else if str_eq(cmd, "status") {
                    let mut text = "Status: ".to_owned();
                    text.append(if self.bot_state.is_connected() { "Connected" } else { "Disconnected" });
                    text.append(" | Server: ");
                    text.append(self.status_bar.server.as_str());
                    text.append(" | User: ");
                    text.append(self.status_bar.username.as_str());
                    self.add_info(text.as_str());
                    return None;
                } else if str_eq(cmd, "clear-errors") {
                    self.error_panel.clear();
                    self.add_info("Error logs cleared");
                    return None;
                } else if str_eq(cmd, "toggle-errors") {
                    self.state.error_visible = !self.state.error_visible;
                    let mut text = "Error panel ".to_owned();
                    text.append(if self.state.error_visible { "shown" } else { "hidden" });
                    self.add_info(text.as_str());
                    return None;
                }
                Some(BotCommand::Command(content))
            },
            None => Some(BotCommand::Chat(content)),
        }
    }
}

} // verus!
