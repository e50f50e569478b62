use mc_afk_tui::ansi::{apply_sgr, parse_ansi_to_spans, parse_extended_color};
use mc_afk_tui::chat_panel::{panel_layout, visible_window, ChatMessage, ChatPanel, MessageType};
use mc_afk_tui::error_panel::{source_color, ErrorPanel};
use mc_afk_tui::modal::Modal;
use mc_afk_tui::state::{BotState, ModalType, Theme};
use mc_afk_tui::status_bar::{connection_detail, StatusBar};
use mc_afk_tui::style::{Color, Modifier, Style};

fn fallback() -> Style {
    Style::new().fg(Color::White)
}

fn spans(s: &str) -> Vec<(String, Style)> {
    parse_ansi_to_spans(s, fallback()).into_iter().map(|sp| (sp.content, sp.style)).collect()
}

fn is_clock(t: &str) -> bool {
    let b = t.as_bytes();
    b.len() == 8 && b[2] == b':' && b[5] == b':' && [0, 1, 3, 4, 6, 7].iter().all(|&k| b[k].is_ascii_digit())
}

#[test]
fn plain_text_is_one_span() {
    assert_eq!(spans("hello world"), vec![("hello world".to_string(), fallback())]);
    assert_eq!(spans("héllo ✓"), vec![("héllo ✓".to_string(), fallback())]);
    assert!(spans("").is_empty());
}

#[test]
fn colours_and_reset() {
    let red = fallback().fg(Color::Red);
    assert_eq!(
        spans("\x1b[31mred\x1b[0m normal"),
        vec![("red".to_string(), red), (" normal".to_string(), fallback())]
    );
    assert_eq!(
        spans("pre\x1b[1;4mbold\x1b[22mplain"),
        vec![
            ("pre".to_string(), fallback()),
            ("bold".to_string(), fallback().add_modifier(Modifier::Bold).add_modifier(Modifier::Underlined)),
            ("plain".to_string(), fallback().add_modifier(Modifier::Bold).add_modifier(Modifier::Underlined).remove_modifier(Modifier::Bold)),
        ]
    );
    assert_eq!(spans("\x1b[38;5;208mo"), vec![("o".to_string(), fallback().fg(Color::Indexed(208)))]);
    assert_eq!(spans("\x1b[48;2;1;2;3mo"), vec![("o".to_string(), fallback().bg(Color::Rgb(1, 2, 3)))]);
    assert_eq!(spans("\x1b[93;49mx"), vec![("x".to_string(), fallback().fg(Color::LightYellow).bg(Color::Reset))]);
    assert_eq!(spans("\x1b[35m\x1b[39mx"), vec![("x".to_string(), fallback().fg(Color::White))]);
}

#[test]
fn escapes_only_give_no_span() {
    assert!(spans("\x1b[31m").is_empty());
    assert!(spans("\x1b[1m\x1b[0m").is_empty());
}

#[test]
fn malformed_escape_drops_only_the_escape_character() {
    assert_eq!(spans("a\x1b[31xyz"), vec![("a".to_string(), fallback()), ("[31xyz".to_string(), fallback())]);
    let long = format!("\x1b[{}m", "1".repeat(40));
    let out = spans(&long);
    assert_eq!(out, vec![(long[1..].to_string(), fallback())]);
    // a lone escape at the end stays text
    assert_eq!(spans("x\x1b"), vec![("x\x1b".to_string(), fallback())]);
}

#[test]
fn apply_sgr_cases() {
    let s = fallback().fg(Color::Red);
    assert_eq!(apply_sgr("", s, fallback()), fallback());
    assert_eq!(apply_sgr("0", s, fallback()), fallback());
    assert_eq!(apply_sgr("3", s, fallback()), s.add_modifier(Modifier::Italic));
    assert_eq!(apply_sgr("23", s.add_modifier(Modifier::Italic), fallback()), s.add_modifier(Modifier::Italic).remove_modifier(Modifier::Italic));
    assert_eq!(apply_sgr("24;92", s, fallback()), s.remove_modifier(Modifier::Underlined).fg(Color::LightGreen));
    // an unparsable piece is skipped
    assert_eq!(apply_sgr("x;32", s, fallback()), s.fg(Color::Green));
    // 39 restores the fallback's foreground, or Reset when it has none
    assert_eq!(apply_sgr("39", s, Style::new()), s.fg(Color::Reset));
    // an incomplete extended colour is skipped, and its pieces read as codes
    assert_eq!(apply_sgr("38;2;1", s, fallback()), s.add_modifier(Modifier::Bold));
    assert_eq!(apply_sgr("38", s, fallback()), s);
}

#[test]
fn extended_colour_counts_raw_pieces() {
    assert_eq!(parse_extended_color("38;2;10;20;30", 0, &[]), Some((Color::Rgb(10, 20, 30), 4)));
    assert_eq!(parse_extended_color("38;5;7", 0, &[]), Some((Color::Indexed(7), 2)));
    assert_eq!(parse_extended_color("38;9;7", 0, &[]), None);
    assert_eq!(parse_extended_color("38;5;300", 0, &[]), None);
    assert_eq!(parse_extended_color("38", 0, &[]), None);
    // with an unparsable piece first, the parameter index and the raw piece
    // index differ: parameter 0 is `38`, raw piece 0 is `x`
    assert_eq!(apply_sgr("x;38;5;9", fallback(), fallback()), fallback());
}

#[test]
fn chat_panel_keeps_newest_thousand() {
    let mut p = ChatPanel::new(Theme::dark());
    assert_eq!(p.len(), 0);
    for i in 0..1005 {
        p.add_message(ChatMessage::info(format!("m{}", i)));
    }
    assert_eq!(p.len(), 1000);
    assert_eq!(p.messages().front().unwrap().content, "m5");
    assert_eq!(p.messages().back().unwrap().content, "m1004");
    p.clear();
    assert_eq!(p.len(), 0);
    assert_eq!(*p.theme(), Theme::dark());
}

#[test]
fn messages_carry_kind_and_time() {
    let m = ChatMessage::chat("Alex".to_string(), "hi".to_string());
    assert!(matches!(&m.message_type, MessageType::Chat(u) if u == "Alex"));
    assert_eq!(m.content, "hi");
    assert!(is_clock(&m.timestamp), "{}", m.timestamp);
    assert_eq!(ChatMessage::system("s".to_string()).message_type.prefix(), "[SYS]");
    assert_eq!(ChatMessage::error("e".to_string()).message_type.prefix(), "[ERR]");
    assert_eq!(ChatMessage::command("c".to_string()).message_type.prefix(), "[CMD]");
    assert_eq!(ChatMessage::info("i".to_string()).message_type.prefix(), "[INFO]");
    assert_eq!(m.message_type.prefix(), "[C]");
    let t = Theme::dark();
    assert_eq!(MessageType::System.color(&t), Color::Yellow);
    assert_eq!(MessageType::Info.color(&t), Color::Green);
    assert_eq!(MessageType::Error.color(&t), Color::Red);
    assert_eq!(MessageType::Command.color(&t), Color::Cyan);
}

#[test]
fn window_arithmetic() {
    assert_eq!(visible_window(100, 10, 0), (90, 100));
    assert_eq!(visible_window(100, 10, 5), (85, 95));
    assert_eq!(visible_window(100, 10, 500), (0, 10));
    assert_eq!(visible_window(3, 10, 0), (0, 3));
    assert_eq!(visible_window(0, 10, 0), (0, 0));
}

#[test]
fn error_panel_filters_noise_and_keeps_hundred() {
    let mut p = ErrorPanel::new(Theme::dark());
    p.add_internal_error("Error reading packet set_objective: x".to_string());
    p.add_internal_error("bevy_log failed".to_string());
    assert_eq!(p.get_log_count(), 0);
    p.add_internal_error("packet decode failure".to_string());
    assert_eq!(p.get_log_count(), 1);
    let log = p.logs().back().unwrap();
    assert_eq!(log.source, "internal");
    assert_eq!(log.message, "packet decode failure");
    assert!(is_clock(&log.timestamp));
    for i in 0..150 {
        p.add_log("network".to_string(), format!("e{}", i));
    }
    assert_eq!(p.get_log_count(), 100);
    assert_eq!(p.logs().front().unwrap().message, "e50");
    p.clear();
    assert_eq!(p.get_log_count(), 0);
    assert!(ErrorPanel::is_noise_error("azalea::swarm: stopped"));
    assert!(!ErrorPanel::is_noise_error("azalea stopped"));
}

#[test]
fn source_colours() {
    let t = Theme::dark();
    assert_eq!(source_color("internal", &t), t.warning);
    assert_eq!(source_color("network", &t), t.highlight);
    assert_eq!(source_color("bot", &t), t.primary);
    assert_eq!(source_color("other", &t), t.foreground);
}

#[test]
fn status_bar_texts() {
    let mut bar = StatusBar::new(Theme::dark());
    assert_eq!(bar.status_label(), ("● DISCONNECTED", Color::Red));
    bar.update_connection(true, "srv".to_string(), "me".to_string());
    bar.update_online_players(7);
    assert_eq!(bar.status_label(), ("● CONNECTED", Color::Green));
    assert_eq!(bar.online_players, 7);
    assert_eq!(bar.server, "srv");
    let r = BotState::Reconnecting { server: "srv".to_string(), attempt: 3, delay_secs: 15 };
    assert_eq!(connection_detail(&r), " | Reconnecting to srv (attempt 3, 15s)");
    let c = BotState::Connecting { server: "srv".to_string(), started_at: std::time::Instant::now() };
    assert_eq!(connection_detail(&c), " | Connecting to srv...");
    assert_eq!(connection_detail(&BotState::default()), "");
}

#[test]
fn modal_texts() {
    let t = Theme::dark();
    let q = Modal::content(&ModalType::ConfirmQuit, &t);
    assert_eq!(q.title, " Confirm ");
    assert_eq!(q.body, "Are you sure you want to quit?\n\nPress Enter to confirm, Esc to cancel.");
    assert_eq!(q.color, t.warning);
    let e = Modal::content(&ModalType::Error("boom".to_string()), &t);
    assert_eq!(e.body, "boom\n\nPress Esc to close.");
    assert_eq!(e.color, t.error);
    assert_eq!(Modal::content(&ModalType::ConfirmReconnect, &t).color, t.primary);
    assert!(Modal::content(&ModalType::Help, &t).body.starts_with("Keyboard shortcuts:\n\nCtrl+Q / Esc  - Quit\n"));
}

#[test]
fn bot_state_queries() {
    let now = std::time::Instant::now();
    let c = BotState::Connected { server: "s".to_string(), username: "u".to_string(), since: now };
    assert!(c.is_connected());
    assert_eq!(c.server(), Some("s"));
    assert_eq!(c.username(), Some("u"));
    let copy = c.clone();
    assert!(matches!(copy, BotState::Connected { since, .. } if since == now));
    let d = BotState::default();
    assert!(!d.is_connected());
    assert_eq!(d.server(), None);
    assert_eq!(d.username(), None);
    let t = BotState::Transferring { from: "a".to_string(), to: "b".to_string() };
    assert_eq!(t.server(), None);
}

#[test]
fn chat_line_has_time_tag_and_decoded_text() {
    let theme = Theme::dark();
    let mut msg = ChatMessage::system("a\x1b[32mb".to_string());
    msg.timestamp = "12:34:56".to_string();
    let tag = Style::new().fg(theme.warning);
    let line: Vec<(String, Style)> = msg.line(&theme).into_iter().map(|s| (s.content, s.style)).collect();
    assert_eq!(
        line,
        vec![
            ("12:34:56 ".to_string(), Style::new().fg(Color::DarkGray)),
            ("[SYS] ".to_string(), tag),
            ("a".to_string(), tag),
            ("b".to_string(), tag.fg(Color::Green)),
        ]
    );
    let mut chat = ChatMessage::chat("Steve".to_string(), "hi".to_string());
    chat.timestamp = "00:00:00".to_string();
    let line: Vec<String> = chat.line(&theme).into_iter().map(|s| s.content).collect();
    assert_eq!(line, vec!["00:00:00 ".to_string(), "[C] ".to_string(), "hi".to_string()]);
}

#[test]
fn error_panel_title_and_lines() {
    let mut panel = ErrorPanel::new(Theme::dark());
    assert_eq!(panel.title(), " Error Logs (0) ");
    panel.add_log("network".to_string(), "timed out".to_string());
    panel.add_log("bot".to_string(), "stuck".to_string());
    assert_eq!(panel.title(), " Error Logs (2) ");
    let mut log = panel.logs()[0].clone();
    log.timestamp = "09:08:07".to_string();
    assert_eq!(log.line(), "[09:08:07] [network] timed out");
}

#[test]
fn status_bar_head_text() {
    let mut bar = StatusBar::new(Theme::dark());
    assert_eq!(bar.status_head(), " ● DISCONNECTED | Server:  | User:  | Players: 0 | ");
    bar.update_connection(true, "mc.example.net:25565".to_string(), "Bot".to_string());
    bar.update_online_players(17);
    assert_eq!(bar.status_head(), " ● CONNECTED | Server: mc.example.net:25565 | User: Bot | Players: 17 | ");
}

#[test]
fn spans_join_to_text_without_escapes() {
    let input = "a\x1b[1mb\x1b[0m\x1b[31md\x1b[x";
    let parts = spans(input);
    assert!(parts.iter().all(|(t, _)| !t.is_empty()));
    let joined: String = parts.iter().map(|(t, _)| t.as_str()).collect();
    assert_eq!(joined, "abd[x");
}

#[test]
fn sgr_code_lists_apply_in_turn() {
    let s = fallback();
    let f = Style::new().fg(Color::Gray);
    assert_eq!(apply_sgr("1;31", s, f), apply_sgr("31", apply_sgr("1", s, f), f));
    assert_eq!(apply_sgr("92;22", s, f), apply_sgr("22", apply_sgr("92", s, f), f));
    assert_eq!(apply_sgr("31", s, f), s.fg(Color::Red));
    assert_eq!(apply_sgr("39", s, f), s.fg(Color::Gray));
    assert_eq!(apply_sgr("49", s, f), s.bg(Color::Reset));
    assert_eq!(apply_sgr("5", s, f), s);
}

#[test]
fn panel_layout_decisions() {
    let empty = panel_layout(0, 10, 0);
    assert!(empty.empty);
    assert!(!empty.scrollbar);
    assert_eq!((empty.start, empty.end), (0, 0));
    let small = panel_layout(4, 10, 0);
    assert!(!small.empty && !small.scrollbar);
    assert_eq!((small.start, small.end), (0, 4));
    let big = panel_layout(25, 10, 3);
    assert!(!big.empty && big.scrollbar);
    assert_eq!((big.start, big.end), (12, 22));
    let exact = panel_layout(10, 10, 0);
    assert!(!exact.scrollbar);
    assert_eq!(ChatPanel::placeholder(), "No messages yet...");
    assert!(panel_layout(0, usize::MAX, usize::MAX).empty);
}

#[test]
fn error_panel_holds_at_most_hundred() {
    let mut panel = ErrorPanel::new(Theme::dark());
    for k in 0..150 {
        panel.add_internal_error(format!("failure {}", k));
        assert_eq!(panel.get_log_count(), std::cmp::min(k + 1, 100));
    }
    panel.add_internal_error("bevy_log noise".to_string());
    assert_eq!(panel.get_log_count(), 100);
    assert_eq!(panel.logs()[99].message, "failure 149");
    assert_eq!(panel.logs()[99].source, "internal");
}
