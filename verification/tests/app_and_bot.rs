use mc_afk_tui::app::App;
use mc_afk_tui::bot::{
    after_session, anti_afk_tick, auto_command_script, handle_event, plan_account, plan_command,
    reports_player_count, AccountPlan, AfkAction, BotAction, BotEvent, BotStateComponent,
    ScriptStep,
};
use mc_afk_tui::console::{console_banner, console_command, console_line};
use mc_afk_tui::events::{BotCommand, UiEvent};
use mc_afk_tui::args::{Args, ParseOutcome};
use mc_afk_tui::chat_panel::MessageType;
use mc_afk_tui::input::{InputPanel, KeyCode, KeyInput};
use mc_afk_tui::state::{BotState, ModalType, Theme};

fn press(code: KeyCode) -> KeyInput {
    KeyInput { code, ctrl: false, press: true }
}

fn app() -> App {
    App::new("srv:25565".to_string(), "Bot".to_string(), Theme::dark())
}

fn key(a: &mut App, code: KeyCode) -> Option<BotCommand> {
    let k = press(code);
    assert!(a.key_is_safe(k));
    a.on_key(k)
}

fn type_text(a: &mut App, s: &str) {
    for c in s.chars() {
        key(a, KeyCode::Char(c));
    }
}

fn last_chat(a: &App) -> (String, String) {
    let m = a.chat_panel.messages().back().unwrap();
    (m.message_type.prefix().to_string(), m.content.clone())
}

#[test]
fn new_app_is_blank() {
    let a = app();
    assert!(!a.should_quit);
    assert!(a.dirty);
    assert_eq!(a.status_bar.server, "srv:25565");
    assert_eq!(a.status_bar.username, "Bot");
    assert_eq!(a.chat_panel.len(), 0);
    assert!(matches!(a.bot_state, BotState::Disconnected { last_error: None }));
    assert!(a.state.input_buffer.is_empty());
}

#[test]
fn typing_and_editing() {
    let mut a = app();
    type_text(&mut a, "helo");
    key(&mut a, KeyCode::Left);
    key(&mut a, KeyCode::Char('l'));
    assert_eq!(a.state.input_buffer, "hello");
    assert_eq!(a.state.cursor_position, 4);
    key(&mut a, KeyCode::Home);
    key(&mut a, KeyCode::Delete);
    assert_eq!(a.state.input_buffer, "ello");
    key(&mut a, KeyCode::End);
    key(&mut a, KeyCode::Backspace);
    assert_eq!(a.state.input_buffer, "ell");
    assert_eq!(a.state.cursor_position, 3);
    key(&mut a, KeyCode::Right);
    assert_eq!(a.state.cursor_position, 3);
    key(&mut a, KeyCode::Home);
    key(&mut a, KeyCode::Left);
    key(&mut a, KeyCode::Backspace);
    assert_eq!(a.state.cursor_position, 0);
    assert_eq!(a.state.input_buffer, "ell");
}

#[test]
fn type_then_backspace_restores_the_line() {
    let mut a = app();
    type_text(&mut a, "ab");
    key(&mut a, KeyCode::Left);
    let before = (a.state.input_buffer.clone(), a.state.cursor_position);
    key(&mut a, KeyCode::Char('é'));
    assert_eq!(a.state.input_buffer, "aéb");
    key(&mut a, KeyCode::Backspace);
    assert_eq!((a.state.input_buffer.clone(), a.state.cursor_position), before);
}

#[test]
fn cursor_counts_bytes() {
    let mut a = app();
    key(&mut a, KeyCode::Char('é'));
    // the cursor moves one byte, into the middle of the two-byte character,
    // where the next insertion would not be on a character boundary
    assert_eq!(a.state.cursor_position, 1);
    assert!(!a.key_is_safe(press(KeyCode::Char('x'))));
    key(&mut a, KeyCode::End);
    assert_eq!(a.state.cursor_position, 2);
    key(&mut a, KeyCode::Char('x'));
    assert_eq!(a.state.input_buffer, "éx");
}

#[test]
fn history_browsing() {
    let mut a = app();
    type_text(&mut a, "one");
    assert!(matches!(key(&mut a, KeyCode::Enter), Some(BotCommand::Chat(s)) if s == "one"));
    type_text(&mut a, "/two");
    assert!(matches!(key(&mut a, KeyCode::Enter), Some(BotCommand::Command(s)) if s == "/two"));
    assert_eq!(a.state.command_history, vec!["one".to_string(), "/two".to_string()]);
    assert!(a.state.input_buffer.is_empty());
    key(&mut a, KeyCode::Up);
    assert_eq!(a.state.input_buffer, "/two");
    assert_eq!(a.state.cursor_position, 4);
    key(&mut a, KeyCode::Up);
    assert_eq!(a.state.input_buffer, "one");
    key(&mut a, KeyCode::Up);
    assert_eq!(a.state.input_buffer, "one");
    assert_eq!(a.state.history_index, Some(0));
    key(&mut a, KeyCode::Down);
    assert_eq!(a.state.input_buffer, "/two");
    key(&mut a, KeyCode::Down);
    assert_eq!(a.state.input_buffer, "");
    assert_eq!(a.state.history_index, None);
    // typing leaves history browsing
    key(&mut a, KeyCode::Up);
    key(&mut a, KeyCode::Char('!'));
    assert_eq!(a.state.history_index, None);
}

#[test]
fn history_keeps_thousand() {
    let mut a = app();
    for i in 0..1003 {
        type_text(&mut a, &format!("m{}", i));
        key(&mut a, KeyCode::Enter);
    }
    assert_eq!(a.state.command_history.len(), 1000);
    assert_eq!(a.state.command_history[0], "m3");
    assert_eq!(a.state.command_history[999], "m1002");
}

#[test]
fn built_in_commands() {
    let mut a = app();
    type_text(&mut a, "/status");
    assert!(key(&mut a, KeyCode::Enter).is_none());
    assert_eq!(last_chat(&a), ("[INFO]".to_string(), "Status: Disconnected | Server: srv:25565 | User: Bot".to_string()));
    type_text(&mut a, "/toggle-errors");
    key(&mut a, KeyCode::Enter);
    assert!(a.state.error_visible);
    assert_eq!(last_chat(&a).1, "Error panel shown");
    type_text(&mut a, "/toggle-errors");
    key(&mut a, KeyCode::Enter);
    assert!(!a.state.error_visible);
    assert_eq!(last_chat(&a).1, "Error panel hidden");
    type_text(&mut a, "/reconnect");
    assert!(matches!(key(&mut a, KeyCode::Enter), Some(BotCommand::Reconnect)));
    assert_eq!(last_chat(&a).1, "Reconnecting...");
    type_text(&mut a, "/clear");
    key(&mut a, KeyCode::Enter);
    assert_eq!(a.chat_panel.len(), 1);
    assert_eq!(last_chat(&a).1, "Chat cleared");
    a.on_bot_event(UiEvent::Error("packet decode failed".to_string()));
    assert_eq!(a.error_panel.get_log_count(), 1);
    type_text(&mut a, "/clear-errors");
    key(&mut a, KeyCode::Enter);
    assert_eq!(a.error_panel.get_log_count(), 0);
    assert_eq!(a.chat_panel.len(), 2);
    assert_eq!(last_chat(&a).1, "Error logs cleared");
    type_text(&mut a, "/warp afk");
    assert!(matches!(key(&mut a, KeyCode::Enter), Some(BotCommand::Command(s)) if s == "/warp afk"));
    assert!(!a.should_quit);
    type_text(&mut a, "/exit");
    assert!(key(&mut a, KeyCode::Enter).is_none());
    assert!(a.should_quit);
    let mut b = app();
    assert!(key(&mut b, KeyCode::Enter).is_none());
    assert!(b.state.command_history.is_empty());
    type_text(&mut b, "/quit");
    key(&mut b, KeyCode::Enter);
    assert!(b.should_quit);
}

#[test]
fn escape_clears_then_quits() {
    let mut a = app();
    type_text(&mut a, "abc");
    key(&mut a, KeyCode::Esc);
    assert!(a.state.input_buffer.is_empty());
    assert_eq!(a.state.cursor_position, 0);
    assert!(!a.should_quit);
    key(&mut a, KeyCode::Esc);
    assert!(a.should_quit);
}

#[test]
fn help_and_dialogs() {
    let mut a = app();
    key(&mut a, KeyCode::Char('?'));
    assert!(a.state.show_help);
    key(&mut a, KeyCode::Char('x'));
    assert!(a.state.input_buffer.is_empty());
    key(&mut a, KeyCode::Esc);
    assert!(!a.state.show_help);
    assert!(!a.should_quit);
    let ctrl_q = KeyInput { code: KeyCode::Char('q'), ctrl: true, press: true };
    a.on_key(ctrl_q);
    assert!(matches!(a.state.active_modal, Some(ModalType::ConfirmQuit)));
    key(&mut a, KeyCode::Esc);
    assert!(a.state.active_modal.is_none());
    assert!(!a.should_quit);
    a.on_key(ctrl_q);
    key(&mut a, KeyCode::Enter);
    assert!(a.should_quit);
    let mut b = app();
    b.state.active_modal = Some(ModalType::ConfirmReconnect);
    assert!(matches!(key(&mut b, KeyCode::Enter), Some(BotCommand::Reconnect)));
    assert_eq!(last_chat(&b).1, "Reconnecting...");
    assert!(b.state.active_modal.is_none());
    // releases are ignored
    let mut c = app();
    c.on_key(KeyInput { code: KeyCode::Char('z'), ctrl: false, press: false });
    assert!(c.state.input_buffer.is_empty());
    // plain q types
    key(&mut c, KeyCode::Char('q'));
    assert_eq!(c.state.input_buffer, "q");
}

#[test]
fn scrolling() {
    let mut a = app();
    key(&mut a, KeyCode::PageUp);
    key(&mut a, KeyCode::PageUp);
    assert_eq!(a.state.chat_scroll, 10);
    key(&mut a, KeyCode::PageDown);
    assert_eq!(a.state.chat_scroll, 5);
    key(&mut a, KeyCode::PageDown);
    key(&mut a, KeyCode::PageDown);
    assert_eq!(a.state.chat_scroll, 0);
}

#[test]
fn bot_events_update_the_app() {
    let mut a = app();
    a.on_bot_event(UiEvent::Connected { server: "play".to_string(), username: "Neo".to_string() });
    assert!(a.bot_state.is_connected());
    assert!(a.status_bar.connected);
    assert_eq!(a.status_bar.server, "play");
    assert_eq!(last_chat(&a), ("[SYS]".to_string(), "Connected to server as Neo".to_string()));
    a.on_bot_event(UiEvent::PlayerCount(12));
    assert_eq!(a.status_bar.online_players, 12);
    a.on_bot_event(UiEvent::ChatReceived { username: "Trin".to_string(), message: "hey".to_string() });
    assert_eq!(last_chat(&a), ("[C]".to_string(), "hey".to_string()));
    a.on_bot_event(UiEvent::SystemMessage("sun".to_string()));
    assert_eq!(last_chat(&a), ("[SYS]".to_string(), "sun".to_string()));
    let n = a.chat_panel.len();
    a.on_bot_event(UiEvent::Error("packet too big".to_string()));
    assert_eq!(a.chat_panel.len(), n);
    assert_eq!(a.error_panel.get_log_count(), 1);
    a.on_bot_event(UiEvent::Error("channel closed: bevy_log".to_string()));
    assert_eq!(a.error_panel.get_log_count(), 1);
    a.on_bot_event(UiEvent::Error("login failed".to_string()));
    assert_eq!(last_chat(&a), ("[ERR]".to_string(), "login failed".to_string()));
    a.on_bot_event(UiEvent::Disconnected { reason: None });
    assert!(!a.status_bar.connected);
    assert!(matches!(&a.bot_state, BotState::Disconnected { last_error: None }));
    assert_eq!(last_chat(&a), ("[ERR]".to_string(), "Disconnected: Unknown".to_string()));
    a.on_bot_event(UiEvent::Disconnected { reason: Some("kicked".to_string()) });
    assert!(matches!(&a.bot_state, BotState::Disconnected { last_error: Some(e) } if e == "kicked"));
    assert_eq!(last_chat(&a).1, "Disconnected: kicked");
}

#[test]
fn anti_afk_schedule() {
    assert_eq!(anti_afk_tick(0), AfkAction { walk_forward: true, jumping: true, look_yaw: Some(-180) });
    assert_eq!(anti_afk_tick(1), AfkAction { walk_forward: true, jumping: true, look_yaw: None });
    assert_eq!(anti_afk_tick(39).walk_forward, true);
    assert_eq!(anti_afk_tick(40).walk_forward, false);
    assert_eq!(anti_afk_tick(99).walk_forward, false);
    assert_eq!(anti_afk_tick(100).walk_forward, true);
    assert_eq!(anti_afk_tick(2).jumping, false);
    assert_eq!(anti_afk_tick(300).jumping, true);
    assert_eq!(anti_afk_tick(301).jumping, true);
    assert_eq!(anti_afk_tick(200).look_yaw, Some(-135));
    assert_eq!(anti_afk_tick(1400).look_yaw, Some(135));
    assert_eq!(anti_afk_tick(1600).look_yaw, Some(-180));
    for t in [0u64, 17, 123, 4799, 100_000] {
        assert_eq!(anti_afk_tick(t + 4800), anti_afk_tick(t));
    }
    assert!(reports_player_count(99));
    assert!(!reports_player_count(100));
    assert!(reports_player_count(u64::MAX));
}

#[test]
fn commands_reach_the_server() {
    let says = |acts: &Vec<BotAction>, i: usize| match &acts[i] {
        BotAction::Say(s) => s.clone(),
        other => panic!("{:?}", other),
    };
    let a = plan_command(BotCommand::Chat("hi".to_string()));
    assert_eq!(a.len(), 1);
    assert_eq!(says(&a, 0), "hi");
    let b = plan_command(BotCommand::Command("/spawn".to_string()));
    assert_eq!(says(&b, 0), "/spawn");
    assert!(matches!(&b[1], BotAction::Notify(UiEvent::SystemMessage(m)) if m == "[CMD] /spawn"));
    let c = plan_command(BotCommand::Command("spawn".to_string()));
    assert_eq!(says(&c, 0), "/spawn");
    let d = plan_command(BotCommand::Command("//x".to_string()));
    assert_eq!(says(&d, 0), "//x");
    let e = plan_command(BotCommand::Reconnect);
    assert!(matches!(&e[0], BotAction::Notify(UiEvent::SystemMessage(m)) if m == "[RECONNECT] Forcing reconnect..."));
    assert!(matches!(&e[1], BotAction::ForceReconnect));
    assert!(plan_command(BotCommand::Disconnect).is_empty());
}

fn session() -> BotStateComponent {
    let args = match Args::parse(vec!["-s".into(), "host".into(), "-u".into(), "Bob".into(), "-p".into(), "pw".into(), "--command".into(), "/a".into(), "--command".into(), "/b".into(), "--chat".into(), "hello".into(), "-v".into(), "6".into()]) {
        Ok(ParseOutcome::Run(a)) => a,
        other => panic!("{:?}", other),
    };
    BotStateComponent::from_args(&args)
}

#[test]
fn game_events_are_reported() {
    let st = session();
    assert_eq!(st.server_address, "host");
    assert_eq!(st.view_distance, 6);
    let init = handle_event(BotEvent::Init, &st);
    assert_eq!(init.view_distance, Some(6));
    assert!(matches!(&init.notify[0], UiEvent::Connected { server, username } if server == "host" && username == "Bob"));
    assert!(matches!(&init.notify[1], UiEvent::SystemMessage(m) if m == "Connected to server"));
    let spawn = handle_event(BotEvent::Spawn, &st);
    assert!(spawn.reset_afk_tick && spawn.run_auto_commands);
    assert!(matches!(&spawn.notify[0], UiEvent::SystemMessage(m) if m == "Spawned and ready"));
    let login = handle_event(BotEvent::Login, &st);
    assert!(matches!(&login.notify[0], UiEvent::SystemMessage(m) if m == "Login successful"));
    let chat = handle_event(BotEvent::Chat { sender: Some("Ann".to_string()), message: "yo".to_string() }, &st);
    assert!(matches!(&chat.notify[0], UiEvent::ChatReceived { username, message } if username == "Ann" && message == "yo"));
    let sys = handle_event(BotEvent::Chat { sender: None, message: "Server restarting".to_string() }, &st);
    assert!(matches!(&sys.notify[0], UiEvent::SystemMessage(m) if m == "Server restarting"));
    assert!(handle_event(BotEvent::Tick, &st).run_tick);
    let gone = handle_event(BotEvent::Disconnect { reason: None }, &st);
    assert!(gone.reset_afk_tick);
    assert!(matches!(&gone.notify[0], UiEvent::Disconnected { reason: Some(r) } if r == "no reason provided"));
    assert!(handle_event(BotEvent::Other, &st).notify.is_empty());
}

#[test]
fn after_spawn_script() {
    let steps = auto_command_script(&session());
    let text: Vec<String> = steps.iter().map(|s| match s {
        ScriptStep::Wait(n) => format!("wait {}", n),
        ScriptStep::Say(t) => format!("say {}", t),
    }).collect();
    assert_eq!(text, vec!["wait 2", "say /login pw", "wait 3", "say /a", "wait 3", "say /b", "wait 3", "say hello"]);
    let bare = auto_command_script(&BotStateComponent::default());
    assert_eq!(bare.len(), 1);
}

#[test]
fn sessions_and_accounts() {
    let forced = after_session(true, true, 9);
    assert_eq!(forced.message, "[RECONNECT] Reconnecting now...");
    assert_eq!(forced.wait_secs, 2);
    assert!(!forced.stop);
    let normal = after_session(false, false, 9);
    assert_eq!(normal.message, "Reconnecting in 9 seconds...");
    assert_eq!(normal.wait_secs, 9);
    assert!(!normal.stop);
    assert!(after_session(false, true, 5).stop);
    let args = match Args::parse(vec!["-e".into(), "a@b".into()]) {
        Ok(ParseOutcome::Run(a)) => a,
        other => panic!("{:?}", other),
    };
    assert!(matches!(plan_account(&args), AccountPlan::Microsoft(e) if e == "a@b"));
    let plain = match Args::parse(vec![]) {
        Ok(ParseOutcome::Run(a)) => a,
        other => panic!("{:?}", other),
    };
    assert!(matches!(plan_account(&plain), AccountPlan::Offline(u) if u == "afk_bot"));
}

#[test]
fn console_mode() {
    let l = console_line(&UiEvent::Connected { server: "s".to_string(), username: "u".to_string() }).unwrap();
    assert_eq!(l.text, "[CONNECTED] s as u");
    assert!(!l.to_stderr);
    assert_eq!(console_line(&UiEvent::Disconnected { reason: None }).unwrap().text, "[DISCONNECTED] ");
    assert_eq!(console_line(&UiEvent::ChatReceived { username: "a".to_string(), message: "b".to_string() }).unwrap().text, "[CHAT] <a> b");
    assert_eq!(console_line(&UiEvent::SystemMessage("m".to_string())).unwrap().text, "[SYSTEM] m");
    let e = console_line(&UiEvent::Error("x".to_string())).unwrap();
    assert!(e.to_stderr);
    assert_eq!(e.text, "[ERROR] x");
    assert!(console_line(&UiEvent::PlayerCount(3)).is_none());
    assert!(console_command("   ").is_none());
    assert!(matches!(console_command("  /home  "), Some(BotCommand::Command(c)) if c == "home"));
    assert!(matches!(console_command("hello there\n"), Some(BotCommand::Chat(c)) if c == "hello there"));
    let args = match Args::parse(vec!["-s".into(), "h".into()]) {
        Ok(ParseOutcome::Run(a)) => a,
        other => panic!("{:?}", other),
    };
    assert_eq!(console_banner(&args), vec![
        "Starting Minecraft AFK TUI (Simple Mode)...".to_string(),
        "Server: h".to_string(),
        "Username: afk_bot".to_string(),
        "Auth: Offline".to_string(),
        String::new(),
    ]);
}

#[test]
fn message_kinds_in_chat() {
    let mut a = app();
    a.on_bot_event(UiEvent::ChatReceived { username: "Zed".to_string(), message: "m".to_string() });
    assert!(matches!(&a.chat_panel.messages().back().unwrap().message_type, MessageType::Chat(u) if u == "Zed"));
}

#[test]
fn cursor_cell_and_error_panel_visibility() {
    assert_eq!(InputPanel::cursor_cell(0, 10, 80, 3, 0), Some((3, 11)));
    assert_eq!(InputPanel::cursor_cell(5, 0, 80, 3, 10), Some((18, 1)));
    assert_eq!(InputPanel::cursor_cell(0, 0, 10, 3, 7), None);
    assert_eq!(InputPanel::cursor_cell(0, 0, 10, 1, 0), None);
    let mut a = app();
    assert!(!a.error_panel_visible());
    a.on_bot_event(UiEvent::Error("packet lost".to_string()));
    assert!(!a.error_panel_visible());
    type_text(&mut a, "/toggle-errors");
    key(&mut a, KeyCode::Enter);
    assert!(a.error_panel_visible());
}

#[test]
fn ascii_keys_keep_the_input_line_sound() {
    let mut a = app();
    let keys = [
        KeyCode::Char('h'), KeyCode::Char('i'), KeyCode::Left, KeyCode::Char('x'), KeyCode::Backspace,
        KeyCode::Home, KeyCode::Delete, KeyCode::End, KeyCode::Right, KeyCode::Enter, KeyCode::Up,
        KeyCode::Up, KeyCode::Down, KeyCode::Down, KeyCode::Char('/'), KeyCode::Char('w'), KeyCode::Enter,
        KeyCode::Up, KeyCode::Backspace, KeyCode::PageUp, KeyCode::PageDown, KeyCode::Other,
    ];
    for code in keys {
        let k = press(code);
        assert!(a.key_is_safe(k));
        a.on_key(k);
        assert!(a.state.input_buffer.is_ascii());
        assert!(a.state.cursor_position <= a.state.input_buffer.len());
        assert!(a.state.command_history.len() <= 1000);
        assert!(a.state.command_history.iter().all(|h| h.is_ascii()));
        if let Some(i) = a.state.history_index {
            assert!(i < a.state.command_history.len());
        }
    }
    assert_eq!(a.state.command_history, vec!["i".to_string(), "/w".to_string()]);
}
