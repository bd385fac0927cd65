//! The command dispatcher, as a state machine.
//!
//! Handling one command is a short dialogue: `dispatch_start` turns the
//! command into a first action, and each time the application has
//! carried an action out (a configuration read or write, a probe, a
//! launch) it reports the result as an event to `dispatch_step`, which
//! yields the next action. A `Reply` action carries the single outbound
//! response and ends the dialogue; the `Done` state accepts no further
//! event. The transition relation `start_holds` / `step_holds` is the
//! dispatcher's whole contract.

use vstd::prelude::*;

use crate::addr;
use crate::addr::effective_port_spec;
use crate::addr::host_segment;
use crate::addr::port_segment;
use crate::addr::spec_port;
use crate::probe::PROBE_TIMEOUT_MS;
use crate::probe::ProbeOutcome;
use crate::text::dec;
use crate::text::join_all;
use crate::text::join_with;
use crate::text::u32_to_string;
use crate::text::views_of;

verus! {

/// The two configuration slots the dispatcher reads and writes.
#[derive(Debug, Clone, Copy, PartialEq, Eq, Structural)]
pub enum ConfigKey {
    Address,
    StartCmd,
}

impl ConfigKey {
    pub open spec fn name_spec(&self) -> Seq<char> {
        match self {
            ConfigKey::Address => "address"@,
            ConfigKey::StartCmd => "start_cmd"@,
        }
    }

    /// The key under which the slot is stored.
    pub fn name(&self) -> (r: &'static str)
        ensures
            r@ == self.name_spec(),
    {
        match self {
            ConfigKey::Address => "address",
            ConfigKey::StartCmd => "start_cmd",
        }
    }
}

/// A failed configuration write, with the store's error text.
#[derive(Debug, PartialEq, Eq)]
pub struct StoreError {
    pub detail: String,
}

/// A failed process launch, with the launcher's error text.
#[derive(Debug, PartialEq, Eq)]
pub struct LaunchError {
    pub detail: String,
}

/// An inbound command, already reduced to its name and arguments.
#[derive(Debug, PartialEq, Eq)]
pub enum Command {
    Status { address: Option<String> },
    SetAddress { address: String },
    StartServer,
    SetStartCmd { command: String },
    Unknown,
}

/// What the dispatcher asks the application to do next. `Reply` is
/// always the last action of a dialogue.
#[derive(Debug, PartialEq, Eq)]
pub enum Action {
    Reply { text: String },
    GetStoredAddress,
    GetStartConfig,
    Probe { host: String, port: u16, timeout_ms: u64 },
    PutConfig { key: ConfigKey, value: String },
    Launch { command: String },
}

/// The application's report on the action it carried out. A failed
/// configuration read is reported as an absent value.
#[derive(Debug, PartialEq, Eq)]
pub enum Event {
    StoredAddress { value: Option<String> },
    StartConfig { address: Option<String>, start_cmd: Option<String> },
    Probed { outcome: ProbeOutcome },
    PutDone { result: Result<(), StoreError> },
    Launched { result: Result<(), LaunchError> },
}

/// Where a dialogue stands: which report it is waiting for.
#[derive(Debug, PartialEq, Eq)]
pub enum DispatchState {
    Done,
    AwaitStoredAddress,
    AwaitStatusProbe { address: String },
    AwaitStartConfig,
    AwaitStartProbe { start_cmd: String },
    AwaitLaunch,
    AwaitPut { key: ConfigKey, value: String },
}

/// Which events a state is waiting for. `Done` accepts none.
pub open spec fn accepts(s: DispatchState, e: Event) -> bool {
    match s {
        DispatchState::Done => false,
        DispatchState::AwaitStoredAddress => e is StoredAddress,
        DispatchState::AwaitStatusProbe { .. } => e is Probed,
        DispatchState::AwaitStartConfig => e is StartConfig,
        DispatchState::AwaitStartProbe { .. } => e is Probed,
        DispatchState::AwaitLaunch => e is Launched,
        DispatchState::AwaitPut { .. } => e is PutDone,
    }
}

pub open spec fn status_not_configured_msg() -> Seq<char> {
    ":x: Server info is not configured"@
}

pub open spec fn start_not_configured_msg() -> Seq<char> {
    ":x: Start command is not configured"@
}

pub open spec fn invalid_command_msg() -> Seq<char> {
    "Invalid command!"@
}

pub open spec fn already_running_msg() -> Seq<char> {
    ":white_check_mark: Server is already running"@
}

pub open spec fn start_sent_msg() -> Seq<char> {
    ":white_check_mark: Start command sent"@
}

/// The reason text used when an address is empty text.
pub open spec fn invalid_address_text() -> Seq<char> {
    "invalid address"@
}

pub open spec fn status_failed_msg(reason: Seq<char>) -> Seq<char> {
    ":x: Failed to fetch status: "@ + reason
}

pub open spec fn launch_failed_msg(detail: Seq<char>) -> Seq<char> {
    ":x: Failed to execute command: "@ + detail
}

/// The reply to a successful probe: players and capacity, and — only
/// when somebody is online — the sample names, joined with ", ".
pub open spec fn status_online_msg(
    address: Seq<char>,
    players: int,
    max_players: int,
    sample: Seq<Seq<char>>,
) -> Seq<char> {
    if players > 0 {
        ":white_check_mark: Server `"@ + address + "` is online with `"@ + dec(players) + "/"@
            + dec(max_players) + "` players. Currently Online: `"@ + join_all(sample, ", "@)
            + "`"@
    } else {
        ":white_check_mark: Server `"@ + address + "` is online with `0/"@ + dec(max_players)
            + "` players."@
    }
}

pub open spec fn set_ok_msg(key: ConfigKey, value: Seq<char>) -> Seq<char> {
    match key {
        ConfigKey::Address => ":white_check_mark: Address set to `"@ + value + "`"@,
        ConfigKey::StartCmd => ":white_check_mark: Start command set to `"@ + value + "`"@,
    }
}

pub open spec fn set_failed_msg(key: ConfigKey, detail: Seq<char>) -> Seq<char> {
    match key {
        ConfigKey::Address => ":x: Failed to set address: "@ + detail,
        ConfigKey::StartCmd => ":x: Failed to set start command: "@ + detail,
    }
}

/// `a` is a reply carrying exactly `text`.
pub open spec fn reply_is(a: Action, text: Seq<char>) -> bool {
    a matches Action::Reply { text: t } && t@ == text
}

/// What handling a status request for the raw address `raw` does: probe
/// its host — even an empty one, which will fail at connect level — and
/// effective port under the fixed deadline, or — only when the whole
/// address is empty text — reply at once that the fetch failed.
pub open spec fn status_begin_holds(raw: Seq<char>, s2: DispatchState, a: Action) -> bool {
    if raw.len() > 0 {
        &&& (s2 matches DispatchState::AwaitStatusProbe { address } && address@ == raw)
        &&& (a matches Action::Probe { host, port, timeout_ms } && host@ == host_segment(raw)
            && port == effective_port_spec(spec_port(port_segment(raw))) && timeout_ms
            == PROBE_TIMEOUT_MS)
    } else {
        &&& s2 is Done
        &&& reply_is(a, status_failed_msg(invalid_address_text()))
    }
}

pub open spec fn put_begin_holds(key: ConfigKey, value: Seq<char>, s2: DispatchState, a: Action) -> bool {
    &&& (s2 matches DispatchState::AwaitPut { key: k, value: v } && k == key && v@ == value)
    &&& (a matches Action::PutConfig { key: k, value: v } && k == key && v@ == value)
}

/// The dispatcher's first move on each command.
pub open spec fn start_holds(cmd: Command, s2: DispatchState, a: Action) -> bool {
    match cmd {
        Command::Status { address } => match address {
            Some(raw) => status_begin_holds(raw@, s2, a),
            None => s2 is AwaitStoredAddress && a is GetStoredAddress,
        },
        Command::SetAddress { address } => put_begin_holds(ConfigKey::Address, address@, s2, a),
        Command::StartServer => s2 is AwaitStartConfig && a is GetStartConfig,
        Command::SetStartCmd { command } => put_begin_holds(ConfigKey::StartCmd, command@, s2, a),
        Command::Unknown => s2 is Done && reply_is(a, invalid_command_msg()),
    }
}

/// The dispatcher's move on each report. Notably: a start request
/// launches on *any* probe failure (unreachable, timed out, malformed
/// handshake) and on a stored address that is empty text — assuming
/// the server is down is cheaper than refusing to start it.
pub open spec fn step_holds(s: DispatchState, e: Event, s2: DispatchState, a: Action) -> bool {
    match s {
        DispatchState::Done => false,
        DispatchState::AwaitStoredAddress => (e matches Event::StoredAddress { value }
            && match value {
            Some(raw) => status_begin_holds(raw@, s2, a),
            None => s2 is Done && reply_is(a, status_not_configured_msg()),
        }),
        DispatchState::AwaitStatusProbe { address } => (e matches Event::Probed { outcome }
            && match outcome {
            ProbeOutcome::Online { players, max_players, sample } => s2 is Done && reply_is(
                a,
                status_online_msg(address@, players as int, max_players as int, views_of(sample@)),
            ),
            ProbeOutcome::Failed { error } => s2 is Done && reply_is(
                a,
                status_failed_msg(error.message_spec()),
            ),
        }),
        DispatchState::AwaitStartConfig => (e matches Event::StartConfig { address, start_cmd }
            && match (address, start_cmd) {
            (Some(raw), Some(cmd)) => {
                if raw@.len() > 0 {
                    &&& (s2 matches DispatchState::AwaitStartProbe { start_cmd: c } && c@ == cmd@)
                    &&& (a matches Action::Probe { host, port, timeout_ms } && host@
                        == host_segment(raw@) && port == effective_port_spec(
                        spec_port(port_segment(raw@)),
                    ) && timeout_ms == PROBE_TIMEOUT_MS)
                } else {
                    &&& s2 is AwaitLaunch
                    &&& (a matches Action::Launch { command } && command@ == cmd@)
                }
            },
            _ => s2 is Done && reply_is(a, start_not_configured_msg()),
        }),
        DispatchState::AwaitStartProbe { start_cmd } => (e matches Event::Probed { outcome }
            && match outcome {
            ProbeOutcome::Online { .. } => s2 is Done && reply_is(a, already_running_msg()),
            ProbeOutcome::Failed { .. } => {
                &&& s2 is AwaitLaunch
                &&& (a matches Action::Launch { command } && command@ == start_cmd@)
            },
        }),
        DispatchState::AwaitLaunch => (e matches Event::Launched { result } && match result {
            Ok(_) => s2 is Done && reply_is(a, start_sent_msg()),
            Err(err) => s2 is Done && reply_is(a, launch_failed_msg(err.detail@)),
        }),
        DispatchState::AwaitPut { key, value } => (e matches Event::PutDone { result }
            && match result {
            Ok(_) => s2 is Done && reply_is(a, set_ok_msg(key, value@)),
            Err(err) => s2 is Done && reply_is(a, set_failed_msg(key, err.detail@)),
        }),
    }
}

fn status_failed_reply(reason: &str) -> (r: String)
    ensures
        r@ == status_failed_msg(reason@),
{
    String::from_str(":x: Failed to fetch status: ").concat(reason)
}

fn launch_failed_reply(detail: &str) -> (r: String)
    ensures
        r@ == launch_failed_msg(detail@),
{
    String::from_str(":x: Failed to execute command: ").concat(detail)
}

fn set_ok_reply(key: ConfigKey, value: &str) -> (r: String)
    ensures
        r@ == set_ok_msg(key, value@),
{
    match key {
        ConfigKey::Address => String::from_str(":white_check_mark: Address set to `").concat(
            value,
        ).concat("`"),
        ConfigKey::StartCmd => String::from_str(":white_check_mark: Start command set to `").concat(
            value,
        ).concat("`"),
    }
}

fn set_failed_reply(key: ConfigKey, detail: &str) -> (r: String)
    ensures
        r@ == set_failed_msg(key, detail@),
{
    match key {
        ConfigKey::Address => String::from_str(":x: Failed to set address: ").concat(detail),
        ConfigKey::StartCmd => String::from_str(":x: Failed to set start command: ").concat(detail),
    }
}

/// Formats the reply to a successful probe.
pub fn status_online_reply(address: &str, players: u32, max_players: u32, sample: &Vec<String>) -> (r:
    String)
    ensures
        r@ == status_online_msg(address@, players as int, max_players as int, views_of(sample@)),
{
    if players > 0 {
        let mut r = String::from_str(":white_check_mark: Server `");
        r.append(address);
        r.append("` is online with `");
        let p = u32_to_string(players);
        r.append(p.as_str());
        r.append("/");
        let m = u32_to_string(max_players);
        r.append(m.as_str());
        r.append("` players. Currently Online: `");
        let names = join_with(sample, ", ");
        r.append(names.as_str());
        r.append("`");
        r
    } else {
        let mut r = String::from_str(":white_check_mark: Server `");
        r.append(address);
        r.append("` is online with `0/");
        let m = u32_to_string(max_players);
        r.append(m.as_str());
        r.append("` players.");
        r
    }
}

fn begin_status(raw: String) -> (r: (DispatchState, Action))
    ensures
        status_begin_holds(raw@, r.0, r.1),
{
    match addr::parse(raw.as_str()) {
        Ok(sa) => {
            let port = sa.effective_port();
            (
                DispatchState::AwaitStatusProbe { address: raw },
                Action::Probe { host: sa.host, port, timeout_ms: PROBE_TIMEOUT_MS },
            )
        },
        Err(_) => (
            DispatchState::Done,
            Action::Reply { text: status_failed_reply("invalid address") },
        ),
    }
}

fn begin_put(key: ConfigKey, value: String) -> (r: (DispatchState, Action))
    ensures
        put_begin_holds(key, value@, r.0, r.1),
{
    let copy = value.clone();
    (DispatchState::AwaitPut { key, value }, Action::PutConfig { key, value: copy })
}

/// Begins handling a command: the first action to carry out.
pub fn dispatch_start(cmd: Command) -> (r: (DispatchState, Action))
    ensures
        start_holds(cmd, r.0, r.1),
{
    match cmd {
        Command::Status { address } => match address {
            Some(raw) => begin_status(raw),
            None => (DispatchState::AwaitStoredAddress, Action::GetStoredAddress),
        },
        Command::SetAddress { address } => begin_put(ConfigKey::Address, address),
        Command::StartServer => (DispatchState::AwaitStartConfig, Action::GetStartConfig),
        Command::SetStartCmd { command } => begin_put(ConfigKey::StartCmd, command),
        Command::Unknown => (
            DispatchState::Done,
            Action::Reply { text: String::from_str("Invalid command!") },
        ),
    }
}

/// Continues a dialogue with the report on the last action.
pub fn dispatch_step(state: DispatchState, event: Event) -> (r: (DispatchState, Action))
    requires
        accepts(state, event),
    ensures
        step_holds(state, event, r.0, r.1),
{
    match (state, event) {
        (DispatchState::AwaitStoredAddress, Event::StoredAddress { value }) => match value {
            Some(raw) => begin_status(raw),
            None => (
                DispatchState::Done,
                Action::Reply { text: String::from_str(":x: Server info is not configured") },
            ),
        },
        (DispatchState::AwaitStatusProbe { address }, Event::Probed { outcome }) => match outcome {
            ProbeOutcome::Online { players, max_players, sample } => (
                DispatchState::Done,
                Action::Reply {
                    text: status_online_reply(address.as_str(), players, max_players, &sample),
                },
            ),
            ProbeOutcome::Failed { error } => {
                let m = error.message();
                (DispatchState::Done, Action::Reply { text: status_failed_reply(m.as_str()) })
            },
        },
        (DispatchState::AwaitStartConfig, Event::StartConfig { address, start_cmd }) => match (
            address,
            start_cmd,
        ) {
            (Some(raw), Some(cmd)) => match addr::parse(raw.as_str()) {
                Ok(sa) => {
                    let port = sa.effective_port();
                    (
                        DispatchState::AwaitStartProbe { start_cmd: cmd },
                        Action::Probe { host: sa.host, port, timeout_ms: PROBE_TIMEOUT_MS },
                    )
                },
                Err(_) => (DispatchState::AwaitLaunch, Action::Launch { command: cmd }),
            },
            _ => (
                DispatchState::Done,
                Action::Reply { text: String::from_str(":x: Start command is not configured") },
            ),
        },
        (DispatchState::AwaitStartProbe { start_cmd }, Event::Probed { outcome }) => match outcome {
            ProbeOutcome::Online { .. } => (
                DispatchState::Done,
                Action::Reply {
                    text: String::from_str(":white_check_mark: Server is already running"),
                },
            ),
            ProbeOutcome::Failed { .. } => (
                DispatchState::AwaitLaunch,
                Action::Launch { command: start_cmd },
            ),
        },
        (DispatchState::AwaitLaunch, Event::Launched { result }) => match result {
            Ok(_) => (
                DispatchState::Done,
                Action::Reply { text: String::from_str(":white_check_mark: Start command sent") },
            ),
            Err(err) => (
                DispatchState::Done,
                Action::Reply { text: launch_failed_reply(err.detail.as_str()) },
            ),
        },
        (DispatchState::AwaitPut { key, value }, Event::PutDone { result }) => match result {
            Ok(_) => {
                let text = set_ok_reply(key, value.as_str());
                (DispatchState::Done, Action::Reply { text })
            },
            Err(err) => {
                let text = set_failed_reply(key, err.detail.as_str());
                (DispatchState::Done, Action::Reply { text })
            },
        },
        _ => {
            proof {
                assert(false);
            }
            (DispatchState::Done, Action::GetStoredAddress)
        },
    }
}

/// How far a dialogue still has to go; it shrinks at every step.
pub open spec fn state_rank(s: DispatchState) -> nat {
    match s {
        DispatchState::Done => 0,
        DispatchState::AwaitStatusProbe { .. } => 1,
        DispatchState::AwaitLaunch => 1,
        DispatchState::AwaitPut { .. } => 1,
        DispatchState::AwaitStoredAddress => 2,
        DispatchState::AwaitStartProbe { .. } => 2,
        DispatchState::AwaitStartConfig => 3,
    }
}

/// Law: a command's first move either replies and is done, or leaves
/// the dialogue in a waiting state of bounded depth — so every command
/// is answered, and answered exactly once.
pub proof fn lemma_start_progress(cmd: Command, s: DispatchState, a: Action)
    requires
        start_holds(cmd, s, a),
    ensures
        s is Done <==> a is Reply,
        state_rank(s) <= 3,
{
}

/// Law: every step either replies and is done, or moves strictly
/// closer to being done while asking for more outside work.
pub proof fn lemma_step_progress(s: DispatchState, e: Event, s2: DispatchState, a: Action)
    requires
        accepts(s, e),
        step_holds(s, e, s2, a),
    ensures
        s2 is Done <==> a is Reply,
        state_rank(s2) < state_rank(s),
{
}

/// Law: once a dialogue has replied, it is over — no event is accepted
/// in the `Done` state, so no command yields a second reply.
pub proof fn lemma_done_accepts_nothing(e: Event)
    ensures
        !accepts(DispatchState::Done, e),
{
}

/// Law: when the probe before a start finds the server reachable —
/// whatever the player count — the dispatcher replies that it is
/// already running and never asks for a launch.
pub proof fn lemma_start_probe_online_no_launch(s: DispatchState, e: Event, s2: DispatchState, a: Action)
    requires
        s is AwaitStartProbe,
        e matches Event::Probed { outcome: ProbeOutcome::Online { .. } },
        step_holds(s, e, s2, a),
    ensures
        s2 is Done,
        reply_is(a, already_running_msg()),
        !(a is Launch),
{
}

/// Law: when that probe fails — for any of the three reasons — the
/// dispatcher asks for exactly one launch, of the stored start command.
pub proof fn lemma_start_probe_failed_launches(s: DispatchState, e: Event, s2: DispatchState, a: Action)
    requires
        s is AwaitStartProbe,
        e matches Event::Probed { outcome: ProbeOutcome::Failed { .. } },
        step_holds(s, e, s2, a),
    ensures
        s2 is AwaitLaunch,
        (s matches DispatchState::AwaitStartProbe { start_cmd } && a matches Action::Launch {
            command,
        } && command@ == start_cmd@),
{
}

} // verus!
