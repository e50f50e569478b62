//! Command-line arguments: parsing and merging with the configuration file.

use vstd::prelude::*;
use crate::state::{theme_named, Config, Theme};
use crate::text::{concat_str, parse_unsigned, parse_unsigned_str, str_eq, utf8};

verus! {

/// The program's settings as given on the command line.
#[derive(Clone, Debug)]
pub struct Args {
    pub server: String,
    pub username: String,
    pub email: Option<String>,
    pub login_password: Option<String>,
    pub command: Vec<String>,
    pub chat: Option<String>,
    pub reconnect_delay_seconds: u64,
    pub view_distance: u8,
    pub config_file: Option<String>,
    pub no_tui: bool,
    pub theme: Theme,
}

/// The settings as plain values.
#[verifier::ext_equal]
pub struct ArgsModel {
    pub server: Seq<char>,
    pub username: Seq<char>,
    pub email: Option<Seq<char>>,
    pub login_password: Option<Seq<char>>,
    pub command: Seq<Seq<char>>,
    pub chat: Option<Seq<char>>,
    pub reconnect_delay_seconds: u64,
    pub view_distance: u8,
    pub config_file: Option<Seq<char>>,
    pub no_tui: bool,
    pub theme: Theme,
}

pub open spec fn opt_view(o: Option<String>) -> Option<Seq<char>> {
    match o {
        Some(s) => Some(s@),
        None => None,
    }
}

pub open spec fn strings_view(v: Seq<String>) -> Seq<Seq<char>> {
    v.map_values(|s: String| s@)
}

impl View for Args {
    type V = ArgsModel;

    open spec fn view(&self) -> ArgsModel {
        ArgsModel {
            server: self.server@,
            username: self.username@,
            email: opt_view(self.email),
            login_password: opt_view(self.login_password),
            command: strings_view(self.command@),
            chat: opt_view(self.chat),
            reconnect_delay_seconds: self.reconnect_delay_seconds,
            view_distance: self.view_distance,
            config_file: opt_view(self.config_file),
            no_tui: self.no_tui,
            theme: self.theme,
        }
    }
}

/// The settings when no argument is given.
pub open spec fn default_args() -> ArgsModel {
    ArgsModel {
        server: "localhost:25565"@,
        username: "afk_bot"@,
        email: None,
        login_password: None,
        command: seq![],
        chat: None,
        reconnect_delay_seconds: 5,
        view_distance: 8,
        config_file: None,
        no_tui: false,
        theme: Theme::spec_dark(),
    }
}

impl Default for Args {
    fn default() -> (r: Self)
        ensures
            r@ == default_args(),
    {
        let r = Self {
            server: "localhost:25565".to_owned(),
            username: "afk_bot".to_owned(),
            email: None,
            login_password: None,
            command: Vec::new(),
            chat: None,
            reconnect_delay_seconds: 5,
            view_distance: 8,
            config_file: None,
            no_tui: false,
            theme: Theme::default(),
        };
        assert(strings_view(r.command@) =~= seq![]);
        r
    }
}

/// Why the command line was refused.
#[derive(Clone, Debug)]
pub enum ArgsError {
    /// The flag (by its long name) was last and had no value.
    MissingValue(String),
    /// The flag's value is not a number in range.
    NotANumber(String),
    /// An argument that is no known flag.
    UnknownArgument(String),
}

pub enum ArgsErrorView {
    MissingValue(Seq<char>),
    NotANumber(Seq<char>),
    UnknownArgument(Seq<char>),
}

impl View for ArgsError {
    type V = ArgsErrorView;

    open spec fn view(&self) -> ArgsErrorView {
        match self {
            ArgsError::MissingValue(f) => ArgsErrorView::MissingValue(f@),
            ArgsError::NotANumber(f) => ArgsErrorView::NotANumber(f@),
            ArgsError::UnknownArgument(a) => ArgsErrorView::UnknownArgument(a@),
        }
    }
}

/// The text shown for an error.
pub open spec fn error_message(e: ArgsErrorView) -> Seq<char> {
    match e {
        ArgsErrorView::MissingValue(f) => "Value for "@ + f + " not provided"@,
        ArgsErrorView::NotANumber(f) => f + " must be a number"@,
        ArgsErrorView::UnknownArgument(a) => "Unknown argument: "@ + a,
    }
}

impl ArgsError {
    /// The text shown for this error.
    pub fn message(&self) -> (r: String)
        ensures
            r@ == error_message(self@),
    {
        match self {
            ArgsError::MissingValue(f) => {
                let mut r = concat_str("Value for ", f.as_str());
                r.append(" not provided");
                r
            },
            ArgsError::NotANumber(f) => concat_str(f.as_str(), " must be a number"),
            ArgsError::UnknownArgument(a) => concat_str("Unknown argument: ", a.as_str()),
        }
    }
}

/// What the command line asks for: to run with the given settings, or to
/// print the usage text and exit.
#[derive(Clone, Debug)]
pub enum ParseOutcome {
    Run(Args),
    Help,
}

/// The result of parsing, as plain values.
pub enum ParseView {
    Run(ArgsModel),
    Help,
    Failed(ArgsErrorView),
}

pub open spec fn parse_result_view(r: Result<ParseOutcome, ArgsError>) -> ParseView {
    match r {
        Ok(ParseOutcome::Run(a)) => ParseView::Run(a@),
        Ok(ParseOutcome::Help) => ParseView::Help,
        Err(e) => ParseView::Failed(e@),
    }
}

/// One step of parsing: go on at a later index with new settings, or stop.
pub enum ParseStep {
    Next(int, ArgsModel),
    Stop(ParseView),
}

/// The flag at `i` with its value at `i + 1`, or the error for a missing
/// value named after `flag`.
pub open spec fn with_value(
    args: Seq<Seq<char>>,
    i: int,
    flag: Seq<char>,
    set: spec_fn(Seq<char>) -> ParseStep,
) -> ParseStep {
    if i + 1 < args.len() {
        set(args[i + 1])
    } else {
        ParseStep::Stop(ParseView::Failed(ArgsErrorView::MissingValue(flag)))
    }
}

/// What the argument at `i` does to the settings `acc`.
pub open spec fn parse_step(args: Seq<Seq<char>>, i: int, acc: ArgsModel) -> ParseStep {
    let a = args[i];
    let j = i + 2;
    if a == "--server"@ || a == "-s"@ {
        with_value(args, i, "--server"@, |v: Seq<char>| ParseStep::Next(j, ArgsModel { server: v, ..acc }))
    } else if a == "--username"@ || a == "-u"@ {
        with_value(args, i, "--username"@, |v: Seq<char>| ParseStep::Next(j, ArgsModel { username: v, ..acc }))
    } else if a == "--email"@ || a == "-e"@ {
        with_value(args, i, "--email"@, |v: Seq<char>| ParseStep::Next(j, ArgsModel { email: Some(v), ..acc }))
    } else if a == "--password"@ || a == "-p"@ {
        with_value(args, i, "--password"@, |v: Seq<char>| ParseStep::Next(j, ArgsModel { login_password: Some(v), ..acc }))
    } else if a == "--login-password"@ {
        with_value(args, i, "--login-password"@, |v: Seq<char>| ParseStep::Next(j, ArgsModel { login_password: Some(v), ..acc }))
    } else if a == "--command"@ {
        with_value(args, i, "--command"@, |v: Seq<char>| ParseStep::Next(j, ArgsModel { command: acc.command.push(v), ..acc }))
    } else if a == "--chat"@ {
        with_value(args, i, "--chat"@, |v: Seq<char>| ParseStep::Next(j, ArgsModel { chat: Some(v), ..acc }))
    } else if a == "--reconnect-delay"@ || a == "-r"@ {
        with_value(args, i, "--reconnect-delay"@, |v: Seq<char>|
            match parse_unsigned(utf8(v), u64::MAX as nat) {
                Some(n) => ParseStep::Next(j, ArgsModel { reconnect_delay_seconds: n as u64, ..acc }),
                None => ParseStep::Stop(ParseView::Failed(ArgsErrorView::NotANumber("--reconnect-delay"@))),
            })
    } else if a == "--view-distance"@ || a == "-v"@ {
        with_value(args, i, "--view-distance"@, |v: Seq<char>|
            match parse_unsigned(utf8(v), u8::MAX as nat) {
                Some(n) => ParseStep::Next(j, ArgsModel { view_distance: n as u8, ..acc }),
                None => ParseStep::Stop(ParseView::Failed(ArgsErrorView::NotANumber("--view-distance"@))),
            })
    } else if a == "--config"@ || a == "-c"@ {
        with_value(args, i, "--config"@, |v: Seq<char>| ParseStep::Next(j, ArgsModel { config_file: Some(v), ..acc }))
    } else if a == "--no-tui"@ {
        ParseStep::Next(i + 1, ArgsModel { no_tui: true, ..acc })
    } else if a == "--theme"@ {
        with_value(args, i, "--theme"@, |v: Seq<char>| ParseStep::Next(j, ArgsModel { theme: theme_named(v), ..acc }))
    } else if a == "--help"@ || a == "-h"@ {
        ParseStep::Stop(ParseView::Help)
    } else {
        ParseStep::Stop(ParseView::Failed(ArgsErrorView::UnknownArgument(a)))
    }
}

pub proof fn lemma_parse_step_advances(args: Seq<Seq<char>>, i: int, acc: ArgsModel)
    requires
        0 <= i < args.len(),
    ensures
        parse_step(args, i, acc) matches ParseStep::Next(j, _) ==> i < j,
{
}

/// The result of parsing the arguments from index `i` on, starting from
/// the settings `acc`; arguments are read left to right, so a later flag
/// overrides an earlier one and each `--command` adds one command.
pub open spec fn parse_from(args: Seq<Seq<char>>, i: int, acc: ArgsModel) -> ParseView
    decreases args.len() - i,
{
    if i < 0 || i >= args.len() {
        ParseView::Run(acc)
    } else {
        proof {
            lemma_parse_step_advances(args, i, acc);
        }
        match parse_step(args, i, acc) {
            ParseStep::Next(j, next) => parse_from(args, j, next),
            ParseStep::Stop(r) => r,
        }
    }
}

/// The result of parsing a whole command line.
pub open spec fn parse_args_spec(args: Seq<Seq<char>>) -> ParseView {
    parse_from(args, 0, default_args())
}

/// Takes the value that follows a flag: the argument at `*pos`, after
/// which `*pos` moves on; when there is none, the error names `flag`.
pub fn next_arg(args: &Vec<String>, pos: &mut usize, flag: &str) -> (r: Result<String, ArgsError>)
    ensures
        *old(pos) < args@.len() ==> (r matches Ok(v) && v@ == args@[*old(pos) as int]@ && *final(pos) == *old(pos) + 1),
        *old(pos) >= args@.len() ==> (r matches Err(e) && e@ == ArgsErrorView::MissingValue(flag@) && *final(pos) == *old(pos)),
{
    if *pos < args.len() {
        let v = args[*pos].clone();
        *pos = *pos + 1;
        Ok(v)
    } else {
        Err(ArgsError::MissingValue(flag.to_owned()))
    }
}


/// The configuration file's settings as plain values.
pub struct ConfigModel {
    pub server: Seq<char>,
    pub username: Seq<char>,
    pub email: Option<Seq<char>>,
    pub password: Option<Seq<char>>,
    pub reconnect_delay: u64,
    pub view_distance: u8,
    pub auto_commands: Seq<Seq<char>>,
    pub theme_name: Seq<char>,
}

impl View for Config {
    type V = ConfigModel;

    open spec fn view(&self) -> ConfigModel {
        ConfigModel {
            server: self.server@,
            username: self.username@,
            email: opt_view(self.email),
            password: opt_view(self.password),
            reconnect_delay: self.reconnect_delay,
            view_distance: self.view_distance,
            auto_commands: strings_view(self.auto_commands@),
            theme_name: self.theme.name@,
        }
    }
}

/// The settings after merging in a configuration file: a command-line
/// value that is still at its default gives way to the file's, an unset
/// option takes the file's, the commands are the file's only when none was
/// given and the file has some, and the theme is always the file's.
pub open spec fn merge_spec(a: ArgsModel, c: ConfigModel) -> ArgsModel {
    let d = default_args();
    ArgsModel {
        server: if a.server == d.server { c.server } else { a.server },
        username: if a.username == d.username { c.username } else { a.username },
        email: if a.email is None { c.email } else { a.email },
        login_password: if a.login_password is None { c.password } else { a.login_password },
        command: if a.command.len() == 0 && c.auto_commands.len() != 0 { c.auto_commands } else { a.command },
        view_distance: if a.view_distance == d.view_distance { c.view_distance } else { a.view_distance },
        reconnect_delay_seconds: if a.reconnect_delay_seconds == d.reconnect_delay_seconds {
            c.reconnect_delay
        } else {
            a.reconnect_delay_seconds
        },
        theme: theme_named(c.theme_name),
        ..a
    }
}

fn clone_opt(o: &Option<String>) -> (r: Option<String>)
    ensures
        opt_view(r) == opt_view(*o),
{
    match o {
        Some(s) => Some(s.clone()),
        None => None,
    }
}

fn clone_strings(v: &Vec<String>) -> (r: Vec<String>)
    ensures
        strings_view(r@) == strings_view(v@),
{
    let mut r: Vec<String> = Vec::new();
    let mut i: usize = 0;
    while i < v.len()
        invariant
            i <= v@.len(),
            r@.len() == i,
            forall|k: int| 0 <= k < i ==> r@[k]@ == v@[k]@,
        decreases v.len() - i,
    {
        let c = v[i].clone();
        r.push(c);
        i = i + 1;
    }
    assert(strings_view(r@) =~= strings_view(v@));
    r
}

impl Args {
    /// Merges in the settings of a configuration file (see `merge_spec`).
    pub fn merge_with_config(&mut self, config: &Config)
        ensures
            final(self)@ == merge_spec(old(self)@, config@),
    {
        let d = Self::default();
        if str_eq(self.server.as_str(), d.server.as_str()) {
            self.server = config.server.clone();
        }
        if str_eq(self.username.as_str(), d.username.as_str()) {
            self.username = config.username.clone();
        }
        if self.email.is_none() {
            self.email = clone_opt(&config.email);
        }
        if self.login_password.is_none() {
            self.login_password = clone_opt(&config.password);
        }
        if self.command.len() == 0 && config.auto_commands.len() != 0 {
            self.command = clone_strings(&config.auto_commands);
        }
        if self.view_distance == d.view_distance {
            self.view_distance = config.view_distance;
        }
        if self.reconnect_delay_seconds == d.reconnect_delay_seconds {
            self.reconnect_delay_seconds = config.reconnect_delay;
        }
        self.theme = config.theme.to_theme();
    }

    /// Parses the command line (without the program name). `--help` asks
    /// for the usage text; an unknown argument, a flag without its value or
    /// a number out of range is refused.
    pub fn parse(raw_args: Vec<String>) -> (r: Result<ParseOutcome, ArgsError>)
        ensures
            parse_result_view(r) == parse_args_spec(strings_view(raw_args@)),
    {
        let ghost av = strings_view(raw_args@);
        let mut args = Self::default();
        let mut pos: usize = 0;
        while pos < raw_args.len()
            invariant
                pos <= raw_args@.len(),
                av == strings_view(raw_args@),
                av.len() == raw_args@.len(),
                parse_from(av, pos as int, args@) == parse_args_spec(av),
            decreases raw_args.len() - pos,
        {
            let ghost i = pos as int;
            let ghost acc = args@;
            assert(av[i] == raw_args@[i]@);
            assert(i + 1 < av.len() ==> av[i + 1] == raw_args@[i + 1]@);
            let arg = raw_args[pos].as_str();
            pos = pos + 1;
            if str_eq(arg, "--server") || str_eq(arg, "-s") {
                match next_arg(&raw_args, &mut pos, "--server") {
                    Ok(v) => args.server = v,
                    Err(e) => return Err(e),
                }
            } else if str_eq(arg, "--username") || str_eq(arg, "-u") {
                match next_arg(&raw_args, &mut pos, "--username") {
                    Ok(v) => args.username = v,
                    Err(e) => return Err(e),
                }
            } else if str_eq(arg, "--email") || str_eq(arg, "-e") {
                match next_arg(&raw_args, &mut pos, "--email") {
                    Ok(v) => args.email = Some(v),
                    Err(e) => return Err(e),
                }
            } else if str_eq(arg, "--password") || str_eq(arg, "-p") {
                match next_arg(&raw_args, &mut pos, "--password") {
                    Ok(v) => args.login_password = Some(v),
                    Err(e) => return Err(e),
                }
            } else if str_eq(arg, "--login-password") {
                match next_arg(&raw_args, &mut pos, "--login-password") {
                    Ok(v) => args.login_password = Some(v),
                    Err(e) => return Err(e),
                }
            } else if str_eq(arg, "--command") {
                match next_arg(&raw_args, &mut pos, "--command") {
                    Ok(v) => {
                        args.command.push(v);
                        assert(strings_view(args.command@) =~= acc.command.push(av[i + 1]));
                    },
                    Err(e) => return Err(e),
                }
            } else if str_eq(arg, "--chat") {
                match next_arg(&raw_args, &mut pos, "--chat") {
                    Ok(v) => args.chat = Some(v),
                    Err(e) => return Err(e),
                }
            } else if str_eq(arg, "--reconnect-delay") || str_eq(arg, "-r") {
                match next_arg(&raw_args, &mut pos, "--reconnect-delay") {
                    Ok(v) => match parse_unsigned_str(v.as_str(), u64::MAX) {
                        Some(n) => args.reconnect_delay_seconds = n,
                        None => return Err(ArgsError::NotANumber("--reconnect-delay".to_owned())),
                    },
                    Err(e) => return Err(e),
                }
            } else if str_eq(arg, "--view-distance") || str_eq(arg, "-v") {
                match next_arg(&raw_args, &mut pos, "--view-distance") {
                    Ok(v) => match parse_unsigned_str(v.as_str(), 255) {
                        Some(n) => args.view_distance = n as u8,
                        None => return Err(ArgsError::NotANumber("--view-distance".to_owned())),
                    },
                    Err(e) => return Err(e),
                }
            } else if str_eq(arg, "--config") || str_eq(arg, "-c") {
                match next_arg(&raw_args, &mut pos, "--config") {
                    Ok(v) => args.config_file = Some(v),
                    Err(e) => return Err(e),
                }
            } else if str_eq(arg, "--no-tui") {
                args.no_tui = true;
            } else if str_eq(arg, "--theme") {
                match next_arg(&raw_args, &mut pos, "--theme") {
                    Ok(v) => {
                        args.theme = if str_eq(v.as_str(), "light") { Theme::light() } else { Theme::dark() };
                    },
                    Err(e) => return Err(e),
                }
            } else if str_eq(arg, "--help") || str_eq(arg, "-h") {
                return Ok(ParseOutcome::Help);
            } else {
                return Err(ArgsError::UnknownArgument(arg.to_owned()));
            }
        }
        Ok(ParseOutcome::Run(args))
    }
}


proof fn lemma_flag_value(f: Seq<char>, v: Seq<char>)
    ensures
        parse_args_spec(seq![f, v]) == (match parse_step(seq![f, v], 0, default_args()) {
            ParseStep::Next(j, m) => if j >= 2 {
                ParseView::Run(m)
            } else {
                parse_from(seq![f, v], j, m)
            },
            ParseStep::Stop(r) => r,
        }),
        seq![f, v][0] == f,
        seq![f, v][1] == v,
        seq![f, v].len() == 2,
{
    let args = seq![f, v];
    lemma_parse_step_advances(args, 0, default_args());
    match parse_step(args, 0, default_args()) {
        ParseStep::Next(j, m) => {
            if j >= 2 {
                assert(parse_from(args, j, m) == ParseView::Run(m));
            }
        },
        ParseStep::Stop(r) => {},
    }
}

proof fn lemma_server_flag(v: Seq<char>)
    ensures
        parse_args_spec(seq!["--server"@, v]) == ParseView::Run(ArgsModel { server: v, ..default_args() }),
        parse_args_spec(seq!["-s"@, v]) == ParseView::Run(ArgsModel { server: v, ..default_args() }),
{
    reveal_strlit("--server");
    assert("--server"@.len() == 8);
    reveal_strlit("-s");
    assert("-s"@.len() == 2);
    lemma_flag_value("--server"@, v);
    lemma_flag_value("-s"@, v);
}

proof fn lemma_username_flag(v: Seq<char>)
    ensures
        parse_args_spec(seq!["--username"@, v]) == ParseView::Run(ArgsModel { username: v, ..default_args() }),
        parse_args_spec(seq!["-u"@, v]) == ParseView::Run(ArgsModel { username: v, ..default_args() }),
{
    reveal_strlit("--server");
    assert("--server"@.len() == 8);
    reveal_strlit("-s");
    assert("-s"@.len() == 2);
    reveal_strlit("--username");
    assert("--username"@.len() == 10);
    reveal_strlit("-u");
    assert("-u"@.len() == 2);
    lemma_flag_value("--username"@, v);
    assert("-u"@[1] != "-s"@[1]);
    lemma_flag_value("-u"@, v);
}

proof fn lemma_email_flag(v: Seq<char>)
    ensures
        parse_args_spec(seq!["--email"@, v]) == ParseView::Run(ArgsModel { email: Some(v), ..default_args() }),
        parse_args_spec(seq!["-e"@, v]) == ParseView::Run(ArgsModel { email: Some(v), ..default_args() }),
{
    reveal_strlit("--server");
    assert("--server"@.len() == 8);
    reveal_strlit("-s");
    assert("-s"@.len() == 2);
    reveal_strlit("--username");
    assert("--username"@.len() == 10);
    reveal_strlit("-u");
    assert("-u"@.len() == 2);
    reveal_strlit("--email");
    assert("--email"@.len() == 7);
    reveal_strlit("-e");
    assert("-e"@.len() == 2);
    lemma_flag_value("--email"@, v);
    assert("-e"@[1] != "-s"@[1]);
    assert("-e"@[1] != "-u"@[1]);
    lemma_flag_value("-e"@, v);
}

proof fn lemma_password_flag(v: Seq<char>)
    ensures
        parse_args_spec(seq!["--password"@, v]) == ParseView::Run(ArgsModel { login_password: Some(v), ..default_args() }),
        parse_args_spec(seq!["-p"@, v]) == ParseView::Run(ArgsModel { login_password: Some(v), ..default_args() }),
        parse_args_spec(seq!["--login-password"@, v]) == ParseView::Run(ArgsModel { login_password: Some(v), ..default_args() }),
{
    reveal_strlit("--server");
    assert("--server"@.len() == 8);
    reveal_strlit("-s");
    assert("-s"@.len() == 2);
    reveal_strlit("--username");
    assert("--username"@.len() == 10);
    reveal_strlit("-u");
    assert("-u"@.len() == 2);
    reveal_strlit("--email");
    assert("--email"@.len() == 7);
    reveal_strlit("-e");
    assert("-e"@.len() == 2);
    reveal_strlit("--password");
    assert("--password"@.len() == 10);
    reveal_strlit("-p");
    assert("-p"@.len() == 2);
    reveal_strlit("--login-password");
    assert("--login-password"@.len() == 16);
    assert("--password"@[2] != "--username"@[2]);
    lemma_flag_value("--password"@, v);
    assert("-p"@[1] != "-s"@[1]);
    assert("-p"@[1] != "-u"@[1]);
    assert("-p"@[1] != "-e"@[1]);
    lemma_flag_value("-p"@, v);
    lemma_flag_value("--login-password"@, v);
}

proof fn lemma_command_flag(v: Seq<char>)
    ensures
        parse_args_spec(seq!["--command"@, v]) == ParseView::Run(ArgsModel { command: seq![v], ..default_args() }),
{
    reveal_strlit("--server");
    assert("--server"@.len() == 8);
    reveal_strlit("-s");
    assert("-s"@.len() == 2);
    reveal_strlit("--username");
    assert("--username"@.len() == 10);
    reveal_strlit("-u");
    assert("-u"@.len() == 2);
    reveal_strlit("--email");
    assert("--email"@.len() == 7);
    reveal_strlit("-e");
    assert("-e"@.len() == 2);
    reveal_strlit("--password");
    assert("--password"@.len() == 10);
    reveal_strlit("-p");
    assert("-p"@.len() == 2);
    reveal_strlit("--login-password");
    assert("--login-password"@.len() == 16);
    reveal_strlit("--command");
    assert("--command"@.len() == 9);
    lemma_flag_value("--command"@, v);
    assert(default_args().command.push(v) =~= seq![v]);
}

proof fn lemma_chat_flag(v: Seq<char>)
    ensures
        parse_args_spec(seq!["--chat"@, v]) == ParseView::Run(ArgsModel { chat: Some(v), ..default_args() }),
{
    reveal_strlit("--server");
    assert("--server"@.len() == 8);
    reveal_strlit("-s");
    assert("-s"@.len() == 2);
    reveal_strlit("--username");
    assert("--username"@.len() == 10);
    reveal_strlit("-u");
    assert("-u"@.len() == 2);
    reveal_strlit("--email");
    assert("--email"@.len() == 7);
    reveal_strlit("-e");
    assert("-e"@.len() == 2);
    reveal_strlit("--password");
    assert("--password"@.len() == 10);
    reveal_strlit("-p");
    assert("-p"@.len() == 2);
    reveal_strlit("--login-password");
    assert("--login-password"@.len() == 16);
    reveal_strlit("--command");
    assert("--command"@.len() == 9);
    reveal_strlit("--chat");
    assert("--chat"@.len() == 6);
    lemma_flag_value("--chat"@, v);
}

proof fn lemma_config_flag(v: Seq<char>)
    ensures
        parse_args_spec(seq!["--config"@, v]) == ParseView::Run(ArgsModel { config_file: Some(v), ..default_args() }),
        parse_args_spec(seq!["-c"@, v]) == ParseView::Run(ArgsModel { config_file: Some(v), ..default_args() }),
{
    reveal_strlit("--server");
    assert("--server"@.len() == 8);
    reveal_strlit("-s");
    assert("-s"@.len() == 2);
    reveal_strlit("--username");
    assert("--username"@.len() == 10);
    reveal_strlit("-u");
    assert("-u"@.len() == 2);
    reveal_strlit("--email");
    assert("--email"@.len() == 7);
    reveal_strlit("-e");
    assert("-e"@.len() == 2);
    reveal_strlit("--password");
    assert("--password"@.len() == 10);
    reveal_strlit("-p");
    assert("-p"@.len() == 2);
    reveal_strlit("--login-password");
    assert("--login-password"@.len() == 16);
    reveal_strlit("--command");
    assert("--command"@.len() == 9);
    reveal_strlit("--chat");
    assert("--chat"@.len() == 6);
    reveal_strlit("--reconnect-delay");
    assert("--reconnect-delay"@.len() == 17);
    reveal_strlit("-r");
    assert("-r"@.len() == 2);
    reveal_strlit("--view-distance");
    assert("--view-distance"@.len() == 15);
    reveal_strlit("-v");
    assert("-v"@.len() == 2);
    reveal_strlit("--config");
    assert("--config"@.len() == 8);
    reveal_strlit("-c");
    assert("-c"@.len() == 2);
    assert("--config"@[2] != "--server"@[2]);
    lemma_flag_value("--config"@, v);
    assert("-c"@[1] != "-s"@[1]);
    assert("-c"@[1] != "-u"@[1]);
    assert("-c"@[1] != "-e"@[1]);
    assert("-c"@[1] != "-p"@[1]);
    assert("-c"@[1] != "-r"@[1]);
    assert("-c"@[1] != "-v"@[1]);
    lemma_flag_value("-c"@, v);
}

proof fn lemma_reconnect_delay_flag(v: Seq<char>)
    ensures
        parse_args_spec(seq!["--reconnect-delay"@, v]) == (match parse_unsigned(utf8(v), u64::MAX as nat) {
            Some(n) => ParseView::Run(ArgsModel { reconnect_delay_seconds: n as u64, ..default_args() }),
            None => ParseView::Failed(ArgsErrorView::NotANumber("--reconnect-delay"@)),
        }),
        parse_args_spec(seq!["-r"@, v]) == (match parse_unsigned(utf8(v), u64::MAX as nat) {
            Some(n) => ParseView::Run(ArgsModel { reconnect_delay_seconds: n as u64, ..default_args() }),
            None => ParseView::Failed(ArgsErrorView::NotANumber("--reconnect-delay"@)),
        }),
{
    reveal_strlit("--server");
    assert("--server"@.len() == 8);
    reveal_strlit("-s");
    assert("-s"@.len() == 2);
    reveal_strlit("--username");
    assert("--username"@.len() == 10);
    reveal_strlit("-u");
    assert("-u"@.len() == 2);
    reveal_strlit("--email");
    assert("--email"@.len() == 7);
    reveal_strlit("-e");
    assert("-e"@.len() == 2);
    reveal_strlit("--password");
    assert("--password"@.len() == 10);
    reveal_strlit("-p");
    assert("-p"@.len() == 2);
    reveal_strlit("--login-password");
    assert("--login-password"@.len() == 16);
    reveal_strlit("--command");
    assert("--command"@.len() == 9);
    reveal_strlit("--chat");
    assert("--chat"@.len() == 6);
    reveal_strlit("--reconnect-delay");
    assert("--reconnect-delay"@.len() == 17);
    reveal_strlit("-r");
    assert("-r"@.len() == 2);
    lemma_flag_value("--reconnect-delay"@, v);
    assert("-r"@[1] != "-s"@[1]);
    assert("-r"@[1] != "-u"@[1]);
    assert("-r"@[1] != "-e"@[1]);
    assert("-r"@[1] != "-p"@[1]);
    lemma_flag_value("-r"@, v);
}

proof fn lemma_view_distance_flag(v: Seq<char>)
    ensures
        parse_args_spec(seq!["--view-distance"@, v]) == (match parse_unsigned(utf8(v), u8::MAX as nat) {
            Some(n) => ParseView::Run(ArgsModel { view_distance: n as u8, ..default_args() }),
            None => ParseView::Failed(ArgsErrorView::NotANumber("--view-distance"@)),
        }),
        parse_args_spec(seq!["-v"@, v]) == (match parse_unsigned(utf8(v), u8::MAX as nat) {
            Some(n) => ParseView::Run(ArgsModel { view_distance: n as u8, ..default_args() }),
            None => ParseView::Failed(ArgsErrorView::NotANumber("--view-distance"@)),
        }),
{
    reveal_strlit("--server");
    assert("--server"@.len() == 8);
    reveal_strlit("-s");
    assert("-s"@.len() == 2);
    reveal_strlit("--username");
    assert("--username"@.len() == 10);
    reveal_strlit("-u");
    assert("-u"@.len() == 2);
    reveal_strlit("--email");
    assert("--email"@.len() == 7);
    reveal_strlit("-e");
    assert("-e"@.len() == 2);
    reveal_strlit("--password");
    assert("--password"@.len() == 10);
    reveal_strlit("-p");
    assert("-p"@.len() == 2);
    reveal_strlit("--login-password");
    assert("--login-password"@.len() == 16);
    reveal_strlit("--command");
    assert("--command"@.len() == 9);
    reveal_strlit("--chat");
    assert("--chat"@.len() == 6);
    reveal_strlit("--reconnect-delay");
    assert("--reconnect-delay"@.len() == 17);
    reveal_strlit("-r");
    assert("-r"@.len() == 2);
    reveal_strlit("--view-distance");
    assert("--view-distance"@.len() == 15);
    reveal_strlit("-v");
    assert("-v"@.len() == 2);
    lemma_flag_value("--view-distance"@, v);
    assert("-v"@[1] != "-s"@[1]);
    assert("-v"@[1] != "-u"@[1]);
    assert("-v"@[1] != "-e"@[1]);
    assert("-v"@[1] != "-p"@[1]);
    assert("-v"@[1] != "-r"@[1]);
    lemma_flag_value("-v"@, v);
}

/// Each flag with its value, alone on the command line, gives the default
/// settings with that one setting changed, the long and the short form of
/// a flag alike; a number flag whose value is not a number in range is
/// refused under its long name.
pub proof fn law_flags_set_their_setting(v: Seq<char>)
    ensures
        parse_args_spec(seq!["--server"@, v]) == ParseView::Run(ArgsModel { server: v, ..default_args() }),
        parse_args_spec(seq!["-s"@, v]) == ParseView::Run(ArgsModel { server: v, ..default_args() }),
        parse_args_spec(seq!["--username"@, v]) == ParseView::Run(ArgsModel { username: v, ..default_args() }),
        parse_args_spec(seq!["-u"@, v]) == ParseView::Run(ArgsModel { username: v, ..default_args() }),
        parse_args_spec(seq!["--email"@, v]) == ParseView::Run(ArgsModel { email: Some(v), ..default_args() }),
        parse_args_spec(seq!["-e"@, v]) == ParseView::Run(ArgsModel { email: Some(v), ..default_args() }),
        parse_args_spec(seq!["--password"@, v]) == ParseView::Run(ArgsModel { login_password: Some(v), ..default_args() }),
        parse_args_spec(seq!["-p"@, v]) == ParseView::Run(ArgsModel { login_password: Some(v), ..default_args() }),
        parse_args_spec(seq!["--login-password"@, v]) == ParseView::Run(ArgsModel { login_password: Some(v), ..default_args() }),
        parse_args_spec(seq!["--command"@, v]) == ParseView::Run(ArgsModel { command: seq![v], ..default_args() }),
        parse_args_spec(seq!["--chat"@, v]) == ParseView::Run(ArgsModel { chat: Some(v), ..default_args() }),
        parse_args_spec(seq!["--config"@, v]) == ParseView::Run(ArgsModel { config_file: Some(v), ..default_args() }),
        parse_args_spec(seq!["-c"@, v]) == ParseView::Run(ArgsModel { config_file: Some(v), ..default_args() }),
        parse_args_spec(seq!["--reconnect-delay"@, v]) == (match parse_unsigned(utf8(v), u64::MAX as nat) {
            Some(n) => ParseView::Run(ArgsModel { reconnect_delay_seconds: n as u64, ..default_args() }),
            None => ParseView::Failed(ArgsErrorView::NotANumber("--reconnect-delay"@)),
        }),
        parse_args_spec(seq!["-r"@, v]) == (match parse_unsigned(utf8(v), u64::MAX as nat) {
            Some(n) => ParseView::Run(ArgsModel { reconnect_delay_seconds: n as u64, ..default_args() }),
            None => ParseView::Failed(ArgsErrorView::NotANumber("--reconnect-delay"@)),
        }),
        parse_args_spec(seq!["--view-distance"@, v]) == (match parse_unsigned(utf8(v), u8::MAX as nat) {
            Some(n) => ParseView::Run(ArgsModel { view_distance: n as u8, ..default_args() }),
            None => ParseView::Failed(ArgsErrorView::NotANumber("--view-distance"@)),
        }),
        parse_args_spec(seq!["-v"@, v]) == (match parse_unsigned(utf8(v), u8::MAX as nat) {
            Some(n) => ParseView::Run(ArgsModel { view_distance: n as u8, ..default_args() }),
            None => ParseView::Failed(ArgsErrorView::NotANumber("--view-distance"@)),
        }),
{
    lemma_server_flag(v);
    lemma_username_flag(v);
    lemma_email_flag(v);
    lemma_password_flag(v);
    lemma_command_flag(v);
    lemma_chat_flag(v);
    lemma_config_flag(v);
    lemma_reconnect_delay_flag(v);
    lemma_view_distance_flag(v);
}

/// With no arguments, the program runs with the default settings.
pub proof fn law_empty_command_line_gives_defaults()
    ensures
        parse_args_spec(seq![]) == ParseView::Run(default_args()),
{
}

/// Merging the same configuration file a second time changes nothing.
pub proof fn law_merge_idempotent(a: ArgsModel, c: ConfigModel)
    ensures
        merge_spec(merge_spec(a, c), c) =~= merge_spec(a, c),
{
}

/// A setting given on the command line (one that differs from its
/// default) survives the merge with a configuration file.
pub proof fn law_merge_keeps_explicit_settings(a: ArgsModel, c: ConfigModel)
    ensures
        a.server != default_args().server ==> merge_spec(a, c).server == a.server,
        a.username != default_args().username ==> merge_spec(a, c).username == a.username,
        a.email is Some ==> merge_spec(a, c).email == a.email,
        a.login_password is Some ==> merge_spec(a, c).login_password == a.login_password,
        a.command.len() != 0 ==> merge_spec(a, c).command == a.command,
        a.view_distance != 8 ==> merge_spec(a, c).view_distance == a.view_distance,
        a.reconnect_delay_seconds != 5 ==> merge_spec(a, c).reconnect_delay_seconds
            == a.reconnect_delay_seconds,
        merge_spec(a, c).config_file == a.config_file,
        merge_spec(a, c).no_tui == a.no_tui,
        merge_spec(a, c).chat == a.chat,
{
}

/// A setting left at its default on the command line (or not given) takes
/// the configuration file's value: the server, the user, the email, the
/// password, every one of the file's commands when none was given, the
/// view distance, the reconnect delay, and the theme the file names.
pub proof fn law_merge_fills_from_config(a: ArgsModel, c: ConfigModel)
    ensures
        a.server == default_args().server ==> merge_spec(a, c).server == c.server,
        a.username == default_args().username ==> merge_spec(a, c).username == c.username,
        a.email is None ==> merge_spec(a, c).email == c.email,
        a.login_password is None ==> merge_spec(a, c).login_password == c.password,
        a.command.len() == 0 ==> merge_spec(a, c).command == c.auto_commands,
        a.view_distance == 8 ==> merge_spec(a, c).view_distance == c.view_distance,
        a.reconnect_delay_seconds == 5 ==> merge_spec(a, c).reconnect_delay_seconds == c.reconnect_delay,
        c.theme_name == "light"@ ==> merge_spec(a, c).theme == Theme::spec_light(),
        c.theme_name != "light"@ ==> merge_spec(a, c).theme == Theme::spec_dark(),
{
    if a.command.len() == 0 && c.auto_commands.len() == 0 {
        assert(a.command =~= c.auto_commands);
    }
}

} // verus!
