use mc_afk_tui::args::{Args, ArgsError, ParseOutcome};
use mc_afk_tui::state::{Config, Theme, ThemeConfig};
use mc_afk_tui::text::{
    contains_str, parse_unsigned_str, push_decimal, str_eq, strip_prefix_char, trim_str,
};

fn strings(v: &[&str]) -> Vec<String> {
    v.iter().map(|s| s.to_string()).collect()
}

fn run(v: &[&str]) -> Args {
    match Args::parse(strings(v)) {
        Ok(ParseOutcome::Run(a)) => a,
        other => panic!("unexpected parse result: {:?}", other),
    }
}

#[test]
fn parse_unsigned_follows_str_parse() {
    assert_eq!(parse_unsigned_str("5", u64::MAX), Some(5));
    assert_eq!(parse_unsigned_str("+5", u64::MAX), Some(5));
    assert_eq!(parse_unsigned_str("0042", u64::MAX), Some(42));
    assert_eq!(parse_unsigned_str("", u64::MAX), None);
    assert_eq!(parse_unsigned_str("+", u64::MAX), None);
    assert_eq!(parse_unsigned_str("-1", u64::MAX), None);
    assert_eq!(parse_unsigned_str(" 1", u64::MAX), None);
    assert_eq!(parse_unsigned_str("1a", u64::MAX), None);
    assert_eq!(parse_unsigned_str("255", 255), Some(255));
    assert_eq!(parse_unsigned_str("256", 255), None);
    assert_eq!(parse_unsigned_str("18446744073709551615", u64::MAX), Some(u64::MAX));
    assert_eq!(parse_unsigned_str("18446744073709551616", u64::MAX), None);
    for s in ["0", "7", "123", "+9", "x", "", "99999999999999999999"] {
        assert_eq!(parse_unsigned_str(s, u64::MAX), s.parse::<u64>().ok());
        assert_eq!(parse_unsigned_str(s, 255).map(|v| v as u8), s.parse::<u8>().ok());
    }
}

#[test]
fn decimal_printing_matches_display() {
    for n in [0u64, 7, 10, 42, 1000, u64::MAX] {
        let mut s = String::from("n=");
        push_decimal(&mut s, n);
        assert_eq!(s, format!("n={}", n));
    }
}

#[test]
fn string_helpers() {
    assert!(contains_str("an azalea error", "azalea"));
    assert!(!contains_str("an error", "azalea"));
    assert!(contains_str("abc", ""));
    assert!(!contains_str("ab", "abc"));
    assert!(str_eq("héllo", "héllo"));
    assert!(!str_eq("a", "b"));
    assert_eq!(strip_prefix_char("/quit", '/'), Some("quit".to_string()));
    assert_eq!(strip_prefix_char("quit", '/'), None);
    assert_eq!(strip_prefix_char("//x", '/'), Some("/x".to_string()));
    assert_eq!(trim_str("  hi there \t\n"), "hi there");
    assert_eq!(trim_str("\u{3000}x\u{a0}"), "x");
    assert_eq!(trim_str("   "), "");
    for s in ["  a b ", "\u{2003}z", "", "q"] {
        assert_eq!(trim_str(s), s.trim());
    }
}

#[test]
fn empty_command_line_gives_defaults() {
    let a = run(&[]);
    assert_eq!(a.server, "localhost:25565");
    assert_eq!(a.username, "afk_bot");
    assert_eq!(a.email, None);
    assert_eq!(a.login_password, None);
    assert!(a.command.is_empty());
    assert_eq!(a.chat, None);
    assert_eq!(a.reconnect_delay_seconds, 5);
    assert_eq!(a.view_distance, 8);
    assert_eq!(a.config_file, None);
    assert!(!a.no_tui);
    assert_eq!(a.theme, Theme::dark());
}

#[test]
fn parse_reads_every_flag() {
    let a = run(&[
        "-s", "mc.server.com", "-u", "MyBot", "-p", "mypassword", "--command", "/login pass",
        "--command", "/warp afk", "--chat", "hello", "-r", "10", "-v", "12", "-c", "bot.toml",
        "--no-tui", "--theme", "light", "-e", "user@example.com",
    ]);
    assert_eq!(a.server, "mc.server.com");
    assert_eq!(a.username, "MyBot");
    assert_eq!(a.login_password.as_deref(), Some("mypassword"));
    assert_eq!(a.command, strings(&["/login pass", "/warp afk"]));
    assert_eq!(a.chat.as_deref(), Some("hello"));
    assert_eq!(a.reconnect_delay_seconds, 10);
    assert_eq!(a.view_distance, 12);
    assert_eq!(a.config_file.as_deref(), Some("bot.toml"));
    assert!(a.no_tui);
    assert_eq!(a.theme, Theme::light());
    assert_eq!(a.email.as_deref(), Some("user@example.com"));
}

#[test]
fn later_flags_override_earlier_ones() {
    let a = run(&["--server", "a", "-s", "b", "--login-password", "x", "--password", "y", "--theme", "light", "--theme", "solarized"]);
    assert_eq!(a.server, "b");
    assert_eq!(a.login_password.as_deref(), Some("y"));
    assert_eq!(a.theme, Theme::dark());
}

#[test]
fn parse_errors_and_help() {
    match Args::parse(strings(&["--server"])) {
        Err(e) => assert_eq!(e.message(), "Value for --server not provided"),
        other => panic!("{:?}", other),
    }
    match Args::parse(strings(&["-r", "soon"])) {
        Err(e) => assert_eq!(e.message(), "--reconnect-delay must be a number"),
        other => panic!("{:?}", other),
    }
    match Args::parse(strings(&["-v", "300"])) {
        Err(e) => assert_eq!(e.message(), "--view-distance must be a number"),
        other => panic!("{:?}", other),
    }
    match Args::parse(strings(&["--bogus"])) {
        Err(e) => {
            assert!(matches!(e, ArgsError::UnknownArgument(_)));
            assert_eq!(e.message(), "Unknown argument: --bogus");
        },
        other => panic!("{:?}", other),
    }
    assert!(matches!(Args::parse(strings(&["-s", "x", "--help", "--bogus"])), Ok(ParseOutcome::Help)));
    assert!(matches!(Args::parse(strings(&["-h"])), Ok(ParseOutcome::Help)));
    // an error before --help wins
    assert!(matches!(Args::parse(strings(&["--bogus", "--help"])), Err(_)));
}

fn config() -> Config {
    let mut c = Config::new();
    c.server = "play.example.net".to_string();
    c.username = "Steve".to_string();
    c.email = Some("e@x".to_string());
    c.password = Some("pw".to_string());
    c.reconnect_delay = 30;
    c.view_distance = 4;
    c.auto_commands = strings(&["/afk"]);
    c.theme = ThemeConfig { name: "light".to_string() };
    c
}

#[test]
fn merge_takes_config_for_defaults() {
    let mut a = run(&[]);
    a.merge_with_config(&config());
    assert_eq!(a.server, "play.example.net");
    assert_eq!(a.username, "Steve");
    assert_eq!(a.email.as_deref(), Some("e@x"));
    assert_eq!(a.login_password.as_deref(), Some("pw"));
    assert_eq!(a.command, strings(&["/afk"]));
    assert_eq!(a.reconnect_delay_seconds, 30);
    assert_eq!(a.view_distance, 4);
    assert_eq!(a.theme, Theme::light());
}

#[test]
fn merge_keeps_explicit_settings_and_is_idempotent() {
    let mut a = run(&["-s", "mine", "-u", "Me", "-p", "secret", "--command", "/hi", "-r", "1", "-v", "2", "--theme", "light"]);
    let mut c = config();
    c.theme = ThemeConfig::default();
    a.merge_with_config(&c);
    assert_eq!(a.server, "mine");
    assert_eq!(a.username, "Me");
    assert_eq!(a.login_password.as_deref(), Some("secret"));
    assert_eq!(a.command, strings(&["/hi"]));
    assert_eq!(a.reconnect_delay_seconds, 1);
    assert_eq!(a.view_distance, 2);
    // the theme always comes from the file
    assert_eq!(a.theme, Theme::dark());
    let once = a.clone();
    a.merge_with_config(&c);
    assert_eq!(a.server, once.server);
    assert_eq!(a.command, once.command);
    assert_eq!(a.email, once.email);
    assert_eq!(a.theme, once.theme);
}

#[test]
fn config_and_theme_defaults() {
    let c = Config::default();
    assert_eq!(c.server, "localhost:25565");
    assert_eq!(c.username, "afk_bot");
    assert_eq!(c.reconnect_delay, 5);
    assert_eq!(c.view_distance, 8);
    assert!(c.auto_commands.is_empty());
    assert_eq!(c.theme.name, "dark");
    assert_eq!(ThemeConfig { name: "light".to_string() }.to_theme(), Theme::light());
    assert_eq!(ThemeConfig { name: "Light".to_string() }.to_theme(), Theme::dark());
    assert_eq!(Theme::default(), Theme::dark());
    assert_eq!(mc_afk_tui::state::default_server(), "localhost:25565");
    assert_eq!(mc_afk_tui::state::default_username(), "afk_bot");
    assert_eq!(mc_afk_tui::state::default_reconnect_delay(), 5);
    assert_eq!(mc_afk_tui::state::default_view_distance(), 8);
}

#[test]
fn next_arg_takes_the_following_value() {
    let v = strings(&["a", "b"]);
    let mut pos = 1;
    assert_eq!(mc_afk_tui::args::next_arg(&v, &mut pos, "--x").ok(), Some("b".to_string()));
    assert_eq!(pos, 2);
    match mc_afk_tui::args::next_arg(&v, &mut pos, "--x") {
        Err(e) => assert_eq!(e.message(), "Value for --x not provided"),
        Ok(v) => panic!("{}", v),
    }
    assert_eq!(pos, 2);
}
