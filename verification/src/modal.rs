//! The texts of the modal dialogs.

use vstd::prelude::*;
use crate::state::{ModalType, Theme};
use crate::style::Color;
use crate::text::concat_str;

verus! {

/// What a modal dialog shows: its title, its text and its border colour.
pub struct ModalContent {
    pub title: &'static str,
    pub body: String,
    pub color: Color,
}

/// The modal dialogs' contents.
pub struct Modal;

pub open spec fn modal_title(m: ModalType) -> Seq<char> {
    match m {
        ModalType::ConfirmQuit => " Confirm "@,
        ModalType::ConfirmReconnect => " Confirm Reconnect "@,
        ModalType::Error(_) => " Error "@,
        ModalType::Help => " Help "@,
    }
}

pub open spec fn modal_body(m: ModalType) -> Seq<char> {
    match m {
        ModalType::ConfirmQuit => "Are you sure you want to quit?\n\nPress Enter to confirm, Esc to cancel."@,
        ModalType::ConfirmReconnect => "Reconnect to server?\n\nPress Enter to confirm, Esc to cancel."@,
        ModalType::Error(msg) => msg@ + "\n\nPress Esc to close."@,
        ModalType::Help => "Keyboard shortcuts:\n\nCtrl+Q / Esc  - Quit\nTab           - Toggle Chat/Command mode\nUp/Down       - Command history\nPageUp/Down   - Scroll chat\n?             - Toggle help\n\nPress Esc to close."@,
    }
}

pub open spec fn modal_color(m: ModalType, theme: Theme) -> Color {
    match m {
        ModalType::ConfirmQuit => theme.warning,
        ModalType::ConfirmReconnect => theme.primary,
        ModalType::Error(_) => theme.error,
        ModalType::Help => theme.foreground,
    }
}

impl Modal {
    /// The title, text and border colour of a modal dialog.
    pub fn content(modal_type: &ModalType, theme: &Theme) -> (r: ModalContent)
        ensures
            r.title@ == modal_title(*modal_type),
            r.body@ == modal_body(*modal_type),
            r.color == modal_color(*modal_type, *theme),
    {
        match modal_type {
            ModalType::ConfirmQuit => ModalContent {
                title: " Confirm ",
                body: "Are you sure you want to quit?\n\nPress Enter to confirm, Esc to cancel.".to_owned(),
                color: theme.warning,
            },
            ModalType::ConfirmReconnect => ModalContent {
                title: " Confirm Reconnect ",
                body: "Reconnect to server?\n\nPress Enter to confirm, Esc to cancel.".to_owned(),
                color: theme.primary,
            },
            ModalType::Error(msg) => ModalContent {
                title: " Error ",
                body: concat_str(msg.as_str(), "\n\nPress Esc to close."),
                color: theme.error,
            },
            ModalType::Help => ModalContent {
                title: " Help ",
                body: "Keyboard shortcuts:\n\nCtrl+Q / Esc  - Quit\nTab           - Toggle Chat/Command mode\nUp/Down       - Command history\nPageUp/Down   - Scroll chat\n?             - Toggle help\n\nPress Esc to close.".to_owned(),
                color: theme.foreground,
            },
        }
    }
}

} // verus!
