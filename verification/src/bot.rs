//! The bot's decisions: what each game event is reported as, what each
//! command from the UI makes the bot do, the anti-AFK movement schedule, the
//! commands sent after spawning, and what follows the end of a session. The
//! game client performs them.

use vstd::prelude::*;
use crate::args::{opt_view, strings_view, Args};
use crate::events::{BotCommand, UiEvent};
use crate::text::{concat_str, decimal_chars, push_decimal, strip_prefix_char};

verus! {

/// Game ticks in one second.
pub const TICKS_PER_SECOND: u64 = 20;
/// Ticks spent walking in each anti-AFK cycle.
pub const MOVE_PHASE_TICKS: u64 = TICKS_PER_SECOND * 2;
/// Ticks spent standing still in each anti-AFK cycle.
pub const IDLE_PHASE_TICKS: u64 = TICKS_PER_SECOND * 3;
/// Ticks between two jumps.
pub const JUMP_INTERVAL_TICKS: u64 = TICKS_PER_SECOND * 15;
/// Ticks between two turns.
pub const LOOK_INTERVAL_TICKS: u64 = TICKS_PER_SECOND * 10;
/// Ticks between two player-count reports.
pub const PLAYER_COUNT_INTERVAL_TICKS: u64 = TICKS_PER_SECOND * 5;

/// The bot's settings for one session.
#[derive(Clone, Debug)]
pub struct BotStateComponent {
    pub view_distance: u8,
    pub login_password: Option<String>,
    pub commands: Vec<String>,
    pub chat: Option<String>,
    pub server_address: String,
    pub username: String,
}

impl Default for BotStateComponent {
    fn default() -> (r: Self)
        ensures
            r.view_distance == 0,
            r.login_password is None,
            r.commands@.len() == 0,
            r.chat is None,
            r.server_address@.len() == 0,
            r.username@.len() == 0,
    {
        Self {
            view_distance: 0,
            login_password: None,
            commands: Vec::new(),
            chat: None,
            server_address: String::new(),
            username: String::new(),
        }
    }
}

/// One tick of the anti-AFK routine: whether to walk forward, whether to
/// hold jump, and the yaw (in degrees) to turn to, if it is time to turn.
#[derive(Clone, Copy, Debug, PartialEq, Eq, Structural)]
pub struct AfkAction {
    pub walk_forward: bool,
    pub jumping: bool,
    pub look_yaw: Option<i32>,
}

/// The anti-AFK routine at tick `t`: walk for the first two seconds of
/// every five, jump during the first two ticks of every fifteen seconds,
/// and every ten seconds turn to the next of eight directions 45° apart,
/// from -180°.
pub open spec fn afk_spec(t: u64) -> AfkAction {
    AfkAction {
        walk_forward: t % ((MOVE_PHASE_TICKS + IDLE_PHASE_TICKS) as u64) < MOVE_PHASE_TICKS,
        jumping: t % JUMP_INTERVAL_TICKS == 0 || t % JUMP_INTERVAL_TICKS == 1,
        look_yaw: if t % LOOK_INTERVAL_TICKS == 0 {
            Some((((t / LOOK_INTERVAL_TICKS) % 8) * 45 - 180) as i32)
        } else {
            None
        },
    }
}

/// The anti-AFK action for tick `tick` (see `afk_spec`).
pub fn anti_afk_tick(tick: u64) -> (r: AfkAction)
    ensures
        r == afk_spec(tick),
{
    let phase = tick % (MOVE_PHASE_TICKS + IDLE_PHASE_TICKS);
    let jump_window = tick % JUMP_INTERVAL_TICKS;
    let look_yaw = if tick % LOOK_INTERVAL_TICKS == 0 {
        let step = ((tick / LOOK_INTERVAL_TICKS) % 8) as i32;
        Some(step * 45 - 180)
    } else {
        None
    };
    AfkAction { walk_forward: phase < MOVE_PHASE_TICKS, jumping: jump_window == 0 || jump_window == 1, look_yaw }
}

/// The routine repeats every four minutes (4800 ticks), and it only ever
/// turns to multiples of 45° between -180° and 135°.
pub proof fn law_afk_schedule(t: u64)
    requires
        t + 4800 <= u64::MAX,
    ensures
        afk_spec((t + 4800) as u64) == afk_spec(t),
        afk_spec(t).look_yaw matches Some(y) ==> -180 <= y <= 135 && (y + 180) % 45 == 0,
{
    let t2 = (t + 4800) as u64;
    assert(t2 % 100 == t % 100) by (nonlinear_arith)
        requires t2 == t + 4800;
    assert(t2 % 300 == t % 300) by (nonlinear_arith)
        requires t2 == t + 4800;
    assert(t2 % 200 == t % 200) by (nonlinear_arith)
        requires t2 == t + 4800;
    assert((t2 / 200) % 8 == (t / 200) % 8) by (nonlinear_arith)
        requires t2 == t + 4800;
}

/// Whether the player count is reported after the tick whose counter
/// value was `tick`: once every five seconds.
pub fn reports_player_count(tick: u64) -> (r: bool)
    ensures
        r == (tick.wrapping_add(1) % PLAYER_COUNT_INTERVAL_TICKS == 0),
{
    let current_tick = tick.wrapping_add(1);
    current_tick % PLAYER_COUNT_INTERVAL_TICKS == 0
}

/// Something the bot does.
#[derive(Clone, Debug)]
pub enum BotAction {
    /// Send a chat line (or, starting with `/`, a command) to the server.
    Say(String),
    /// Report to the UI.
    Notify(UiEvent),
    /// End the session and reconnect at once.
    ForceReconnect,
}

/// A command's text as sent to the server: one leading `/` is dropped
/// and then one is put in front.
pub open spec fn command_line(cmd: Seq<char>) -> Seq<char> {
    seq!['/'] + (if cmd.len() > 0 && cmd[0] == '/' { cmd.drop_first() } else { cmd })
}

/// What a command from the UI makes the bot do: chat is said as it is; a
/// command is said with exactly one leading `/` and echoed to the UI; a
/// reconnect is announced and forces a reconnect; a disconnect does
/// nothing.
pub fn plan_command(cmd: BotCommand) -> (r: Vec<BotAction>)
    ensures
        match cmd {
            BotCommand::Chat(msg) => r@.len() == 1 && (r@[0] matches BotAction::Say(s) && s@ == msg@),
            BotCommand::Command(c) => {
                &&& r@.len() == 2
                &&& r@[0] matches BotAction::Say(s) && s@ == command_line(c@)
                &&& r@[1] matches BotAction::Notify(UiEvent::SystemMessage(m)) && m@ == "[CMD] "@
                    + command_line(c@)
            },
            BotCommand::Reconnect => {
                &&& r@.len() == 2
                &&& r@[0] matches BotAction::Notify(UiEvent::SystemMessage(m)) && m@
                    == "[RECONNECT] Forcing reconnect..."@
                &&& r@[1] is ForceReconnect
            },
            BotCommand::Disconnect => r@.len() == 0,
        },
{
    proof {
        reveal_strlit("/");
    }
    let mut r: Vec<BotAction> = Vec::new();
    match cmd {
        BotCommand::Chat(msg) => {
            r.push(BotAction::Say(msg));
        },
        BotCommand::Command(c) => {
            let without_slash = match strip_prefix_char(c.as_str(), '/') {
                Some(rest) => rest,
                None => c.clone(),
            };
            let line = concat_str("/", without_slash.as_str());
            let echo = concat_str("[CMD] ", line.as_str());
            r.push(BotAction::Say(line));
            r.push(BotAction::Notify(UiEvent::SystemMessage(echo)));
        },
        BotCommand::Reconnect => {
            r.push(BotAction::Notify(UiEvent::SystemMessage("[RECONNECT] Forcing reconnect...".to_owned())));
            r.push(BotAction::ForceReconnect);
        },
        BotCommand::Disconnect => {},
    }
    r
}

/// A command typed with or without its leading `/` reaches the server the
/// same way.
pub proof fn law_command_slash_optional(cmd: Seq<char>)
    requires
        !(cmd.len() > 0 && cmd[0] == '/'),
    ensures
        command_line(seq!['/'] + cmd) == command_line(cmd),
{
    assert((seq!['/'] + cmd).drop_first() =~= cmd);
}


impl BotStateComponent {
    /// The settings for a session of the bot started with `args`.
    pub fn from_args(args: &Args) -> (r: Self)
        ensures
            r.view_distance == args.view_distance,
            opt_view(r.login_password) == opt_view(args.login_password),
            strings_view(r.commands@) == strings_view(args.command@),
            opt_view(r.chat) == opt_view(args.chat),
            r.server_address@ == args.server@,
            r.username@ == args.username@,
    {
        let login_password = match &args.login_password {
            Some(p) => Some(p.clone()),
            None => None,
        };
        let chat = match &args.chat {
            Some(c) => Some(c.clone()),
            None => None,
        };
        let mut commands: Vec<String> = Vec::new();
        let mut i: usize = 0;
        while i < args.command.len()
            invariant
                i <= args.command@.len(),
                commands@.len() == i,
                forall|k: int| 0 <= k < i ==> commands@[k]@ == args.command@[k]@,
            decreases args.command.len() - i,
        {
            commands.push(args.command[i].clone());
            i = i + 1;
        }
        assert(strings_view(commands@) =~= strings_view(args.command@));
        Self {
            view_distance: args.view_distance,
            login_password,
            commands,
            chat,
            server_address: args.server.clone(),
            username: args.username.clone(),
        }
    }
}

/// A game event, with what the decisions read of it.
#[derive(Clone, Debug)]
pub enum BotEvent {
    /// The client is initialised.
    Init,
    /// Logged in.
    Login,
    /// Spawned in the world.
    Spawn,
    /// A chat line, with its sender when the game names one.
    Chat { sender: Option<String>, message: String },
    /// A game tick.
    Tick,
    /// Disconnected, with the reason the server gave, if any.
    Disconnect { reason: Option<String> },
    /// Any other event.
    Other,
}

/// What the bot does about a game event.
#[derive(Clone, Debug)]
pub struct EventPlan {
    /// Reports to the UI, in order.
    pub notify: Vec<UiEvent>,
    /// The view distance to announce to the server.
    pub view_distance: Option<u8>,
    /// Restart the anti-AFK routine from tick 0.
    pub reset_afk_tick: bool,
    /// Run the after-spawn commands (see `auto_command_script`).
    pub run_auto_commands: bool,
    /// Run this tick: the pending UI commands (see `plan_command`), the
    /// anti-AFK step (see `anti_afk_tick`) and the player-count report
    /// (see `reports_player_count`).
    pub run_tick: bool,
}

/// The decisions about a game event: on initialisation the view distance
/// is announced and the UI learns of the connection; login and spawn are
/// reported, and spawning restarts the anti-AFK routine and runs the
/// after-spawn commands; a chat line with a sender is chat, without one a
/// system message; a tick runs the tick's work; a disconnection is
/// reported with its reason (or "no reason provided") and restarts the
/// anti-AFK routine.
pub fn handle_event(event: BotEvent, state: &BotStateComponent) -> (r: EventPlan)
    ensures
        match event {
            BotEvent::Init => {
                &&& r.notify@.len() == 2
                &&& r.notify@[0] matches UiEvent::Connected { server, username }
                    && server@ == state.server_address@ && username@ == state.username@
                &&& r.notify@[1] matches UiEvent::SystemMessage(m) && m@ == "Connected to server"@
                &&& r.view_distance == Some(state.view_distance)
                &&& !r.reset_afk_tick && !r.run_auto_commands && !r.run_tick
            },
            BotEvent::Login => {
                &&& r.notify@.len() == 1
                &&& r.notify@[0] matches UiEvent::SystemMessage(m) && m@ == "Login successful"@
                &&& r.view_distance is None && !r.reset_afk_tick && !r.run_auto_commands && !r.run_tick
            },
            BotEvent::Spawn => {
                &&& r.notify@.len() == 1
                &&& r.notify@[0] matches UiEvent::SystemMessage(m) && m@ == "Spawned and ready"@
                &&& r.view_distance is None && r.reset_afk_tick && r.run_auto_commands && !r.run_tick
            },
            BotEvent::Chat { sender, message } => {
                &&& r.notify@.len() == 1
                &&& match sender {
                    Some(u) => r.notify@[0] matches UiEvent::ChatReceived { username, message: m }
                        && username@ == u@ && m@ == message@,
                    None => r.notify@[0] matches UiEvent::SystemMessage(m) && m@ == message@,
                }
                &&& r.view_distance is None && !r.reset_afk_tick && !r.run_auto_commands && !r.run_tick
            },
            BotEvent::Tick => {
                &&& r.notify@.len() == 0
                &&& r.view_distance is None && !r.reset_afk_tick && !r.run_auto_commands && r.run_tick
            },
            BotEvent::Disconnect { reason } => {
                &&& r.notify@.len() == 1
                &&& r.notify@[0] matches UiEvent::Disconnected { reason: Some(m) } && m@ == match reason {
                    Some(x) => x@,
                    None => "no reason provided"@,
                }
                &&& r.view_distance is None && r.reset_afk_tick && !r.run_auto_commands && !r.run_tick
            },
            BotEvent::Other => {
                &&& r.notify@.len() == 0
                &&& r.view_distance is None && !r.reset_afk_tick && !r.run_auto_commands && !r.run_tick
            },
        },
{
    let mut plan = EventPlan {
        notify: Vec::new(),
        view_distance: None,
        reset_afk_tick: false,
        run_auto_commands: false,
        run_tick: false,
    };
    match event {
        BotEvent::Init => {
            plan.view_distance = Some(state.view_distance);
            plan.notify.push(
                UiEvent::Connected { server: state.server_address.clone(), username: state.username.clone() },
            );
            plan.notify.push(UiEvent::SystemMessage("Connected to server".to_owned()));
        },
        BotEvent::Login => {
            plan.notify.push(UiEvent::SystemMessage("Login successful".to_owned()));
        },
        BotEvent::Spawn => {
            plan.reset_afk_tick = true;
            plan.notify.push(UiEvent::SystemMessage("Spawned and ready".to_owned()));
            plan.run_auto_commands = true;
        },
        BotEvent::Chat { sender, message } => {
            match sender {
                Some(username) => plan.notify.push(UiEvent::ChatReceived { username, message }),
                None => plan.notify.push(UiEvent::SystemMessage(message)),
            }
        },
        BotEvent::Tick => {
            plan.run_tick = true;
        },
        BotEvent::Disconnect { reason } => {
            let reason_text = match reason {
                Some(text) => text,
                None => "no reason provided".to_owned(),
            };
            plan.reset_afk_tick = true;
            plan.notify.push(UiEvent::Disconnected { reason: Some(reason_text) });
        },
        BotEvent::Other => {},
    }
    plan
}

/// One step of the after-spawn script.
#[derive(Clone, Debug)]
pub enum ScriptStep {
    /// Wait this many seconds.
    Wait(u64),
    /// Say this line in the chat.
    Say(String),
}

/// A script step as the contracts see it.
pub enum StepView {
    Wait(u64),
    Say(Seq<char>),
}

/// The contracts' view of one script step.
pub open spec fn step_view(s: ScriptStep) -> StepView {
    match s {
        ScriptStep::Wait(n) => StepView::Wait(n),
        ScriptStep::Say(t) => StepView::Say(t@),
    }
}

/// The contracts' view of a script.
pub open spec fn steps_view(s: Seq<ScriptStep>) -> Seq<StepView> {
    s.map_values(|x: ScriptStep| step_view(x))
}

/// Each command said in turn, each followed by three seconds' wait.
pub open spec fn command_steps(cmds: Seq<Seq<char>>) -> Seq<StepView>
    decreases cmds.len(),
{
    if cmds.len() == 0 {
        seq![]
    } else {
        command_steps(cmds.drop_last()) + seq![StepView::Say(cmds.last()), StepView::Wait(3)]
    }
}

/// The after-spawn script: wait two seconds; log in with the password, if
/// any, and wait three; say each command, waiting three after each; then
/// say the chat message, if any.
pub open spec fn script_spec(
    login_password: Option<Seq<char>>,
    commands: Seq<Seq<char>>,
    chat: Option<Seq<char>>,
) -> Seq<StepView> {
    seq![StepView::Wait(2)] + (match login_password {
        Some(p) => seq![StepView::Say("/login "@ + p), StepView::Wait(3)],
        None => seq![],
    }) + command_steps(commands) + (match chat {
        Some(m) => seq![StepView::Say(m)],
        None => seq![],
    })
}

/// The after-spawn script for a session (see `script_spec`).
pub fn auto_command_script(state: &BotStateComponent) -> (r: Vec<ScriptStep>)
    ensures
        steps_view(r@) == script_spec(
            opt_view(state.login_password),
            strings_view(state.commands@),
            opt_view(state.chat),
        ),
{
    let ghost cmds = strings_view(state.commands@);
    let mut r: Vec<ScriptStep> = Vec::new();
    r.push(ScriptStep::Wait(2));
    match &state.login_password {
        Some(password) => {
            r.push(ScriptStep::Say(concat_str("/login ", password.as_str())));
            r.push(ScriptStep::Wait(3));
        },
        None => {},
    }
    let ghost head = steps_view(r@);
    assert(head =~= seq![StepView::Wait(2)] + (match opt_view(state.login_password) {
        Some(p) => seq![StepView::Say("/login "@ + p), StepView::Wait(3)],
        None => seq![],
    }));
    let mut i: usize = 0;
    assert(cmds.take(0) =~= Seq::<Seq<char>>::empty());
    assert(steps_view(r@) =~= head + command_steps(cmds.take(0)));
    while i < state.commands.len()
        invariant
            i <= state.commands@.len(),
            cmds == strings_view(state.commands@),
            steps_view(r@) == head + command_steps(cmds.take(i as int)),
        decreases state.commands.len() - i,
    {
        let ghost before = steps_view(r@);
        r.push(ScriptStep::Say(state.commands[i].clone()));
        r.push(ScriptStep::Wait(3));
        assert(cmds.take(i + 1).drop_last() =~= cmds.take(i as int));
        assert(steps_view(r@) =~= before + seq![StepView::Say(cmds[i as int]), StepView::Wait(3)]);
        i = i + 1;
        assert(steps_view(r@) =~= head + command_steps(cmds.take(i as int)));
    }
    assert(cmds.take(cmds.len() as int) =~= cmds);
    let ghost middle = steps_view(r@);
    match &state.chat {
        Some(message) => {
            r.push(ScriptStep::Say(message.clone()));
        },
        None => {},
    }
    assert(steps_view(r@) =~= middle + (match opt_view(state.chat) {
        Some(m) => seq![StepView::Say(m)],
        None => seq![],
    }));
    r
}

/// What follows the end of a session.
#[derive(Clone, Debug)]
pub struct ReconnectPlan {
    /// Reported to the UI.
    pub message: String,
    /// Seconds to wait before going on.
    pub wait_secs: u64,
    /// Stop instead of reconnecting.
    pub stop: bool,
}

/// After a session: a forced reconnect comes after two seconds; otherwise
/// the configured delay passes, and the bot stops when the session ended
/// successfully, else reconnects.
pub fn after_session(force_reconnect: bool, exit_success: bool, reconnect_delay_seconds: u64) -> (r: ReconnectPlan)
    ensures
        force_reconnect ==> r.message@ == "[RECONNECT] Reconnecting now..."@ && r.wait_secs == 2 && !r.stop,
        !force_reconnect ==> r.message@ == "Reconnecting in "@ + decimal_chars(reconnect_delay_seconds as nat)
            + " seconds..."@ && r.wait_secs == reconnect_delay_seconds && r.stop == exit_success,
{
    if force_reconnect {
        ReconnectPlan { message: "[RECONNECT] Reconnecting now...".to_owned(), wait_secs: 2, stop: false }
    } else {
        let mut message = "Reconnecting in ".to_owned();
        push_decimal(&mut message, reconnect_delay_seconds);
        message.append(" seconds...");
        ReconnectPlan { message, wait_secs: reconnect_delay_seconds, stop: exit_success }
    }
}

/// The account the bot logs in with.
#[derive(Clone, Debug)]
pub enum AccountPlan {
    /// A Microsoft account, by its email address.
    Microsoft(String),
    /// An offline account, by its username.
    Offline(String),
}

/// A Microsoft account when an email address is given, else an offline
/// account with the username.
pub fn plan_account(args: &Args) -> (r: AccountPlan)
    ensures
        match args.email {
            Some(e) => r matches AccountPlan::Microsoft(m) && m@ == e@,
            None => r matches AccountPlan::Offline(u) && u@ == args.username@,
        },
{
    match &args.email {
        Some(email) => AccountPlan::Microsoft(email.clone()),
        None => AccountPlan::Offline(args.username.clone()),
    }
}

} // verus!
