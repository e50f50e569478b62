//! The plain console mode (no terminal UI): the lines printed for bot
//! events and the commands read from input lines.

use vstd::prelude::*;
use crate::args::Args;
use crate::events::{BotCommand, CommandView, UiEvent};
use crate::text::{concat_str, strip_prefix_char, trim, trim_str};

verus! {

/// A line to print, on standard error or standard output.
#[derive(Clone, Debug)]
pub struct ConsoleLine {
    pub to_stderr: bool,
    pub text: String,
}

/// The line printed for a bot event: connections, disconnections, chat,
/// system messages and errors (the last on standard error); nothing for
/// other events.
pub fn console_line(event: &UiEvent) -> (r: Option<ConsoleLine>)
    ensures
        match *event {
            UiEvent::Connected { server, username } => r matches Some(l) && !l.to_stderr && l.text@
                == "[CONNECTED] "@ + server@ + " as "@ + username@,
            UiEvent::Disconnected { reason } => r matches Some(l) && !l.to_stderr && l.text@
                == "[DISCONNECTED] "@ + match reason {
                Some(x) => x@,
                None => Seq::<char>::empty(),
            },
            UiEvent::ChatReceived { username, message } => r matches Some(l) && !l.to_stderr && l.text@
                == "[CHAT] <"@ + username@ + "> "@ + message@,
            UiEvent::SystemMessage(m) => r matches Some(l) && !l.to_stderr && l.text@ == "[SYSTEM] "@ + m@,
            UiEvent::Error(e) => r matches Some(l) && l.to_stderr && l.text@ == "[ERROR] "@ + e@,
            _ => r is None,
        },
{
    match event {
        UiEvent::Connected { server, username } => {
            let mut text = concat_str("[CONNECTED] ", server.as_str());
            text.append(" as ");
            text.append(username.as_str());
            Some(ConsoleLine { to_stderr: false, text })
        },
        UiEvent::Disconnected { reason } => {
            let text = match reason {
                Some(x) => concat_str("[DISCONNECTED] ", x.as_str()),
                None => "[DISCONNECTED] ".to_owned(),
            };
            Some(ConsoleLine { to_stderr: false, text })
        },
        UiEvent::ChatReceived { username, message } => {
            let mut text = concat_str("[CHAT] <", username.as_str());
            text.append("> ");
            text.append(message.as_str());
            Some(ConsoleLine { to_stderr: false, text })
        },
        UiEvent::SystemMessage(m) => Some(ConsoleLine { to_stderr: false, text: concat_str("[SYSTEM] ", m.as_str()) }),
        UiEvent::Error(e) => Some(ConsoleLine { to_stderr: true, text: concat_str("[ERROR] ", e.as_str()) }),
        _ => None,
    }
}

/// The command an input line gives: nothing for a blank line; after
/// trimming white space, a line starting with `/` is a command (without
/// the `/`) and any other line is chat.
pub fn console_command(line: &str) -> (r: Option<BotCommand>)
    ensures
        ({
            let t = trim(line@);
            if t.len() == 0 {
                r is None
            } else if t[0] == '/' {
                r matches Some(c) && c@ == CommandView::Command(t.drop_first())
            } else {
                r matches Some(c) && c@ == CommandView::Chat(t)
            }
        }),
{
    let input = trim_str(line);
    if input.as_str().is_empty() {
        return None;
    }
    match strip_prefix_char(input.as_str(), '/') {
        Some(stripped) => Some(BotCommand::Command(stripped)),
        None => Some(BotCommand::Chat(input)),
    }
}

/// The lines printed when the console mode starts.
pub fn console_banner(args: &Args) -> (r: Vec<String>)
    ensures
        r@.len() == 5,
        r@[0]@ == "Starting Minecraft AFK TUI (Simple Mode)..."@,
        r@[1]@ == "Server: "@ + args.server@,
        r@[2]@ == "Username: "@ + args.username@,
        r@[3]@ == (if args.email is Some { "Auth: Microsoft"@ } else { "Auth: Offline"@ }),
        r@[4]@.len() == 0,
{
    let mut r: Vec<String> = Vec::new();
    r.push("Starting Minecraft AFK TUI (Simple Mode)...".to_owned());
    r.push(concat_str("Server: ", args.server.as_str()));
    r.push(concat_str("Username: ", args.username.as_str()));
    if args.email.is_some() {
        r.push("Auth: Microsoft".to_owned());
    } else {
        r.push("Auth: Offline".to_owned());
    }
    r.push(String::new());
    r
}

} // verus!
