//! The input line editor: keys, the state they edit, and what each editing
//! key does to it. Positions in the input line are byte offsets into its
//! UTF-8 text.

use vstd::prelude::*;
use crate::state::{ModalType, Theme, UiState};
use crate::text::{byte_len, char_width_at, string_insert, string_remove, utf8};
use std::time::Instant;

verus! {

/// A key, as the terminal reports it.
#[derive(Clone, Copy, Debug, PartialEq, Eq, Structural)]
pub enum KeyCode {
    Char(char),
    Enter,
    Esc,
    Backspace,
    Delete,
    Left,
    Right,
    Home,
    End,
    Up,
    Down,
    PageUp,
    PageDown,
    /// Any other key.
    Other,
}

/// A key event: the key, whether Control was held, and whether it is a
/// press (rather than a repeat or a release).
#[derive(Clone, Copy, Debug, PartialEq, Eq, Structural)]
pub struct KeyInput {
    pub code: KeyCode,
    pub ctrl: bool,
    pub press: bool,
}

/// The UI state as plain values; the input line by its UTF-8 bytes.
#[verifier::ext_equal]
pub struct UiModel {
    pub chat_scroll: usize,
    pub error_scroll: usize,
    pub error_visible: bool,
    pub history: Seq<Seq<char>>,
    pub history_index: Option<usize>,
    pub buffer: Seq<u8>,
    pub cursor: usize,
    pub show_help: bool,
    pub active_modal: Option<ModalType>,
    pub last_frame_time: Option<Instant>,
}

impl View for UiState {
    type V = UiModel;

    open spec fn view(&self) -> UiModel {
        UiModel {
            chat_scroll: self.chat_scroll,
            error_scroll: self.error_scroll,
            error_visible: self.error_visible,
            history: self.command_history@.map_values(|s: String| s@),
            history_index: self.history_index,
            buffer: utf8(self.input_buffer@),
            cursor: self.cursor_position,
            show_help: self.show_help,
            active_modal: self.active_modal,
            last_frame_time: self.last_frame_time,
        }
    }
}

pub open spec fn sat_sub(a: usize, b: usize) -> usize {
    if a >= b { (a - b) as usize } else { 0 }
}

pub open spec fn sat_add(a: usize, b: usize) -> usize {
    if a + b <= usize::MAX { (a + b) as usize } else { usize::MAX }
}

/// What an editing key does to the UI state: typing inserts at the cursor
/// (and leaves history browsing), Backspace and Delete remove the character
/// before and at the cursor, the arrows, Home and End move the cursor, Up
/// and Down browse the command history, and PageUp/PageDown scroll the
/// chat by five lines.
pub open spec fn ui_edit(u: UiModel, code: KeyCode) -> UiModel {
    let len = u.buffer.len();
    match code {
        KeyCode::Char(c) => UiModel {
            buffer: u.buffer.take(u.cursor as int) + utf8(seq![c]) + u.buffer.skip(u.cursor as int),
            cursor: (u.cursor + 1) as usize,
            history_index: None,
            ..u
        },
        KeyCode::Backspace => if u.cursor > 0 {
            let k = (u.cursor - 1) as usize;
            UiModel {
                cursor: k,
                buffer: u.buffer.take(k as int) + u.buffer.skip(k + char_width_at(u.buffer, k as int)),
                ..u
            }
        } else {
            u
        },
        KeyCode::Delete => if u.cursor < len {
            UiModel {
                buffer: u.buffer.take(u.cursor as int) + u.buffer.skip(
                    u.cursor + char_width_at(u.buffer, u.cursor as int),
                ),
                ..u
            }
        } else {
            u
        },
        KeyCode::Left => UiModel { cursor: sat_sub(u.cursor, 1), ..u },
        KeyCode::Right => UiModel {
            cursor: if u.cursor + 1 <= len { (u.cursor + 1) as usize } else { len as usize },
            ..u
        },
        KeyCode::Home => UiModel { cursor: 0, ..u },
        KeyCode::End => UiModel { cursor: len as usize, ..u },
        KeyCode::Up => if u.history.len() > 0 {
            let idx: usize = match u.history_index {
                None => (u.history.len() - 1) as usize,
                Some(i) => sat_sub(i, 1),
            };
            UiModel {
                history_index: Some(idx),
                buffer: utf8(u.history[idx as int]),
                cursor: utf8(u.history[idx as int]).len() as usize,
                ..u
            }
        } else {
            u
        },
        KeyCode::Down => match u.history_index {
            Some(i) => if i + 1 < u.history.len() {
                UiModel {
                    history_index: Some((i + 1) as usize),
                    buffer: utf8(u.history[i + 1]),
                    cursor: utf8(u.history[i + 1]).len() as usize,
                    ..u
                }
            } else {
                UiModel { history_index: None, buffer: Seq::empty(), cursor: 0, ..u }
            },
            None => u,
        },
        KeyCode::PageUp => UiModel { chat_scroll: sat_add(u.chat_scroll, 5), ..u },
        KeyCode::PageDown => UiModel { chat_scroll: sat_sub(u.chat_scroll, 5), ..u },
        _ => u,
    }
}

/// An editing key can be applied without a panic: an insertion or removal
/// must fall on a character boundary, a history step on an entry, and no
/// position may overflow.
pub open spec fn edit_is_safe(u: UiModel, code: KeyCode) -> bool {
    let len = u.buffer.len();
    match code {
        KeyCode::Char(_) => vstd::utf8::is_char_boundary(u.buffer, u.cursor as int) && u.cursor < usize::MAX,
        KeyCode::Backspace => u.cursor > 0 ==> (vstd::utf8::is_char_boundary(u.buffer, u.cursor - 1)
            && u.cursor - 1 < len),
        KeyCode::Delete => u.cursor < len ==> vstd::utf8::is_char_boundary(u.buffer, u.cursor as int),
        KeyCode::Right => u.cursor < usize::MAX,
        KeyCode::Up => (u.history.len() > 0 && u.history_index is Some) ==> sat_sub(
            u.history_index->0,
            1,
        ) < u.history.len(),
        KeyCode::Down => u.history_index is Some ==> u.history_index->0 < usize::MAX,
        _ => true,
    }
}

impl UiState {
    /// Whether `edit` can be applied to this state with this key.
    pub fn edit_is_safe(&self, code: KeyCode) -> (r: bool)
        ensures
            r == edit_is_safe(self@, code),
    {
        let len = byte_len(self.input_buffer.as_str());
        let b = self.input_buffer.as_str().as_bytes();
        proof {
            vstd::utf8::encode_utf8_valid_utf8(self.input_buffer@);
        }
        match code {
            KeyCode::Char(_) => self.cursor_position < usize::MAX && is_boundary(b, self.cursor_position),
            KeyCode::Backspace => {
                self.cursor_position == 0 || (self.cursor_position - 1 < len && is_boundary(
                    b,
                    self.cursor_position - 1,
                ))
            },
            KeyCode::Delete => self.cursor_position >= len || is_boundary(b, self.cursor_position),
            KeyCode::Right => self.cursor_position < usize::MAX,
            KeyCode::Up => {
                if self.command_history.len() > 0 {
                    match self.history_index {
                        Some(i) => (if i >= 1 { i - 1 } else { 0 }) < self.command_history.len(),
                        None => true,
                    }
                } else {
                    true
                }
            },
            KeyCode::Down => match self.history_index {
                Some(i) => i < usize::MAX,
                None => true,
            },
            _ => true,
        }
    }

    /// Applies an editing key (see `ui_edit`).
    pub fn edit(&mut self, code: KeyCode)
        requires
            edit_is_safe(old(self)@, code),
        ensures
            final(self)@ == ui_edit(old(self)@, code),
    {
        let ghost u = self@;
        match code {
            KeyCode::Char(c) => {
                string_insert(&mut self.input_buffer, self.cursor_position, c);
                self.cursor_position = self.cursor_position + 1;
                self.history_index = None;
            },
            KeyCode::Backspace => {
                if self.cursor_position > 0 {
                    self.cursor_position = self.cursor_position - 1;
                    string_remove(&mut self.input_buffer, self.cursor_position);
                }
            },
            KeyCode::Delete => {
                if self.cursor_position < byte_len(self.input_buffer.as_str()) {
                    string_remove(&mut self.input_buffer, self.cursor_position);
                }
            },
            KeyCode::Left => {
                self.cursor_position = if self.cursor_position >= 1 { self.cursor_position - 1 } else { 0 };
            },
            KeyCode::Right => {
                let len = byte_len(self.input_buffer.as_str());
                self.cursor_position = if self.cursor_position + 1 <= len { self.cursor_position + 1 } else { len };
            },
            KeyCode::Home => {
                self.cursor_position = 0;
            },
            KeyCode::End => {
                self.cursor_position = byte_len(self.input_buffer.as_str());
            },
            KeyCode::Up => {
                if self.command_history.len() > 0 {
                    let new_index = match self.history_index {
                        None => self.command_history.len() - 1,
                        Some(i) => if i >= 1 { i - 1 } else { 0 },
                    };
                    self.history_index = Some(new_index);
                    self.input_buffer = self.command_history[new_index].clone();
                    self.cursor_position = byte_len(self.input_buffer.as_str());
                }
            },
            KeyCode::Down => {
                if let Some(i) = self.history_index {
                    if i + 1 < self.command_history.len() {
                        self.history_index = Some(i + 1);
                        self.input_buffer = self.command_history[i + 1].clone();
                        self.cursor_position = byte_len(self.input_buffer.as_str());
                    } else {
                        self.history_index = None;
                        self.input_buffer = String::new();
                        self.cursor_position = 0;
                    }
                }
            },
            KeyCode::PageUp => {
                self.chat_scroll = self.chat_scroll.saturating_add(5);
            },
            KeyCode::PageDown => {
                self.chat_scroll = self.chat_scroll.saturating_sub(5);
            },
            _ => {},
        }
        assert(self@ =~= ui_edit(u, code));
    }
}

/// The input line's frame: the theme it is drawn in.
#[derive(Clone, Debug)]
pub struct InputPanel {
    pub theme: Theme,
}

impl InputPanel {
    pub fn new(theme: Theme) -> (r: Self)
        ensures
            r.theme == theme,
    {
        Self { theme }
    }
}

/// The column of the cursor cell in a box at column `x`: inside the
/// border, after the `> ` prompt, at the cursor's offset (counted modulo
/// 2^16, as a `u16` cast does).
pub open spec fn cursor_column(x: u16, cursor: usize) -> int {
    x + 2 + (cursor as int % 65536) + 1
}

impl InputPanel {
    /// The cell where the cursor is drawn for an input box at (`x`, `y`)
    /// of `width` × `height`, when it falls inside the box.
    pub fn cursor_cell(x: u16, y: u16, width: u16, height: u16, cursor: usize) -> (r: Option<(u16, u16)>)
        requires
            cursor_column(x, cursor) <= u16::MAX,
            x + width <= u16::MAX,
            y + height <= u16::MAX,
            y + 1 <= u16::MAX,
        ensures
            match r {
                Some((cx, cy)) => cx == cursor_column(x, cursor) && cy == y + 1,
                None => true,
            },
            r is Some <==> (cursor_column(x, cursor) < x + width && y + 1 < y + height),
    {
        let offset = (cursor % 65536) as u16;
        let cursor_x = x + 2 + offset + 1;
        let cursor_y = y + 1;
        if cursor_x < x + width && cursor_y < y + height {
            Some((cursor_x, cursor_y))
        } else {
            None
        }
    }
}

impl Default for InputPanel {
    fn default() -> (r: Self)
        ensures
            r.theme == Theme::spec_dark(),
    {
        Self::new(Theme::default())
    }
}

/// The history position, when browsing, names an entry.
pub open spec fn history_index_valid(u: UiModel) -> bool {
    u.history_index matches Some(i) ==> i < u.history.len()
}

/// Editing keys keep the history position on an entry, and with it in
/// place the history keys are always safe.
pub proof fn law_edit_keeps_history_index_valid(u: UiModel, code: KeyCode)
    requires
        history_index_valid(u),
        u.history.len() <= usize::MAX,
    ensures
        history_index_valid(ui_edit(u, code)),
        edit_is_safe(u, KeyCode::Up),
        edit_is_safe(u, KeyCode::Down),
{
}

/// The cursor keys move the cursor and leave the line as it is: Right one
/// byte on unless at the end, Left one byte back unless at the start, Home
/// to the start and End to the end.
pub proof fn law_cursor_keys(u: UiModel)
    requires
        u.cursor <= u.buffer.len(),
        u.buffer.len() <= usize::MAX,
    ensures
        u.cursor < u.buffer.len() ==> ui_edit(u, KeyCode::Right).cursor == u.cursor + 1,
        u.cursor == u.buffer.len() ==> ui_edit(u, KeyCode::Right).cursor == u.cursor,
        u.cursor > 0 ==> ui_edit(u, KeyCode::Left).cursor == u.cursor - 1,
        u.cursor == 0 ==> ui_edit(u, KeyCode::Left).cursor == 0,
        ui_edit(u, KeyCode::Home).cursor == 0,
        ui_edit(u, KeyCode::End).cursor == u.buffer.len(),
        ui_edit(u, KeyCode::Right).buffer == u.buffer,
        ui_edit(u, KeyCode::Left).buffer == u.buffer,
        ui_edit(u, KeyCode::Home).buffer == u.buffer,
        ui_edit(u, KeyCode::End).buffer == u.buffer,
{
}

/// Up from the line being edited recalls the newest command, and Down
/// from there returns to an empty line, no longer browsing.
pub proof fn law_up_then_down_returns_to_empty_line(u: UiModel)
    requires
        u.history_index is None,
        u.history.len() > 0,
        u.history.len() <= usize::MAX,
    ensures
        ui_edit(u, KeyCode::Up).buffer == utf8(u.history.last()),
        ui_edit(u, KeyCode::Up).history_index == Some((u.history.len() - 1) as usize),
        ui_edit(ui_edit(u, KeyCode::Up), KeyCode::Down).history_index is None,
        ui_edit(ui_edit(u, KeyCode::Up), KeyCode::Down).buffer.len() == 0,
        ui_edit(ui_edit(u, KeyCode::Up), KeyCode::Down).cursor == 0,
{
}

/// Typing a character and then pressing Backspace gives back the input
/// line and the cursor as they were.
pub proof fn law_type_then_backspace_restores(u: UiModel, c: char)
    requires
        vstd::utf8::valid_utf8(u.buffer),
        edit_is_safe(u, KeyCode::Char(c)),
    ensures
        edit_is_safe(ui_edit(u, KeyCode::Char(c)), KeyCode::Backspace),
        ui_edit(ui_edit(u, KeyCode::Char(c)), KeyCode::Backspace).buffer == u.buffer,
        ui_edit(ui_edit(u, KeyCode::Char(c)), KeyCode::Backspace).cursor == u.cursor,
{
    let k = u.cursor as int;
    let e = utf8(seq![c]);
    let b = u.buffer;
    let b2 = b.take(k) + e + b.skip(k);
    vstd::utf8::encode_utf8_first_scalar(seq![c]);
    vstd::utf8::encode_utf8_valid_utf8(seq![c]);
    assert(vstd::utf8::encode_utf8(seq![c].drop_first()) =~= Seq::<u8>::empty());
    assert(e =~= vstd::utf8::encode_scalar(c as u32));
    assert(e.len() >= 1);
    // the new line is valid UTF-8
    vstd::utf8::valid_utf8_split(b, k);
    assert(b.take(k) =~= b.subrange(0, k));
    assert(b.skip(k) =~= b.subrange(k, b.len() as int));
    vstd::utf8::valid_utf8_concat(b.take(k), e);
    vstd::utf8::valid_utf8_concat(b.take(k) + e, b.skip(k));
    // the cursor is at the start of the inserted character
    assert(b2[k] == e[0]);
    crate::text::lemma_boundary_iff(b2, k);
    // the character there is the inserted one, of the same width
    assert(b2.skip(k)[0] == e[0]);
    assert(char_width_at(b2, k) == vstd::utf8::length_of_first_scalar(e));
    assert(b2.take(k) + b2.skip(k + e.len()) =~= b);
}

/// Every byte of `b` is ASCII.
pub open spec fn ascii_bytes(b: Seq<u8>) -> bool {
    forall|k: int| 0 <= k < b.len() ==> #[trigger] b[k] < 128
}

/// The UTF-8 encoding of an ASCII character is that one byte.
pub proof fn lemma_ascii_char_byte(c: char)
    requires
        c <= '\u{7f}',
    ensures
        utf8(seq![c]).len() == 1,
        ascii_bytes(utf8(seq![c])),
{
    let s = seq![c];
    assert(vstd::utf8::is_ascii_chars(s)) by {
        assert forall|i: int| 0 <= i < s.len() implies '\0' <= #[trigger] s[i] <= '\u{7f}' by {
            assert(s[i] == c);
        }
    }
    vstd::utf8::is_ascii_chars_encode_utf8(s);
    vstd::utf8::is_ascii_chars_nat_bound(s);
    assert((s[0] as nat) < 128);
    assert(s[0] as u8 == utf8(s)[0]);
}

/// In valid UTF-8 text made of ASCII bytes, every offset up to the end is a
/// character boundary, and each character there is one byte wide.
pub proof fn lemma_ascii_boundaries(b: Seq<u8>, k: int)
    requires
        vstd::utf8::valid_utf8(b),
        ascii_bytes(b),
        0 <= k <= b.len(),
    ensures
        vstd::utf8::is_char_boundary(b, k),
        k < b.len() ==> char_width_at(b, k) == 1,
{
    crate::text::lemma_boundary_iff(b, k);
    if k < b.len() {
        assert(b.skip(k)[0] == b[k]);
    }
}

/// Whether byte offset `k` of the valid UTF-8 bytes `b` is a character
/// boundary (`str::is_char_boundary`).
fn is_boundary(b: &[u8], k: usize) -> (r: bool)
    requires
        vstd::utf8::valid_utf8(b@),
    ensures
        r == vstd::utf8::is_char_boundary(b@, k as int),
{
    proof {
        if k <= b@.len() {
            crate::text::lemma_boundary_iff(b@, k as int);
        } else {
            reveal_with_fuel(vstd::utf8::is_char_boundary, 1);
        }
    }
    if k == b.len() {
        true
    } else if k > b.len() {
        false
    } else {
        !(b[k] >= 0x80 && b[k] <= 0xbf)
    }
}

} // verus!
