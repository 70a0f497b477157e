//! The supervisory state machine of the SSH stamp firmware.
//!
//! `next` is the transition table; `run` performs the work of the current
//! state and reports the event it produced. Each piece of work that waits on
//! a peripheral takes the peripheral's answer (`Poll`) as an argument, so its
//! decision is stated for every answer; `run` obtains the answers from the
//! host stand-ins in `fake_stamp`.

use vstd::prelude::*;
use crate::fake_stamp;
pub use crate::fake_stamp as stamp;
pub use crate::fake_stamp::espressif::net;
pub use crate::fake_stamp::espressif::net::WifiMode;
use crate::support::{empty_password, lemma_task_names_differ, password_chars, str_eq};

verus! {

/// The answer of a peripheral task after one poll.
#[derive(Debug, Copy, Clone, PartialEq, Eq)]
pub enum Poll<T> {
    Ready(T),
    Pending,
}

/// Which long-running tasks have reported success.
pub struct TaskOk {
    pub ssh: bool,
    pub uart: bool,
    pub bridge: bool,
}

/// Settings received from the client.
pub struct Settings {
    pub wifi_mode: Option<WifiMode>,
    pub ssh_password: Option<heapless::String<20>>,
    pub uart_baud: Option<u32>,
}

#[derive(Debug, Copy, Clone, PartialEq)]
pub enum State<'a> {
    PowerOn,  // Both PowerOn and Reset: peripherals are not initialised yet.
    Reset,
    Start,  // Peripherals and basics are initialised.
    Idle,
    Timeout,
    Failure(&'a str),
    BridgeInit,
    BridgeUp,
    InitPeripherals,
    TcpCheckSettings,
    TcpInit,
    TcpStartDefault,
    TcpStartApMode,
    TcpStartStaMode,
    TcpStackUp,
    TaskSpawning { name: &'a str },
    TaskFailed { name: &'a str },
    TaskRunning { name: &'a str },
    AllTasksOk,
    ClientConnecting,
    ClientConnected,
    AuthzChecks,
    SshConnInit,
    SshConnEstablished,
    ReadEnvVars,
    StoreEnvVars,
    UartReconf,
    WifiReconf,
    SshReconf,
    CheckBridge,
    SshUartBridgeEstablished,
    ClientConnectedNoBridge,
    ClientNotify { error: &'a str },
}

#[derive(Debug, Copy, Clone, PartialEq)]
pub enum Response {
    Wait,
    Complete,
}

#[derive(Debug, Copy, Clone, PartialEq)]
pub enum Event {
    AllGood,
    Fail,
    StartDefaultAp,
    StartApMode,
    StartStaMode,
    ClientConnect,
    Timeout,
    AccessDenied,
    SshDisconnect,
    UartSettingsChanged,
    SshSettingsChanged,
    WifiSettingsChanged,
}

/// What a piece of work reports: the event for `next` and the peripheral's
/// answer it was based on.
#[derive(Debug, Copy, Clone, PartialEq)]
pub struct EventResponse<T> {
    pub event: Event,
    pub response: Poll<T>,
}

/// The peripheral poll a piece of work waits on.
#[derive(Debug, PartialEq, Clone)]
pub enum PollRequest {
    /// The work waits on no peripheral.
    NoPoll,
    PowerOn,
    InitPeripherals,
    /// Bringing Wi-Fi up in the given mode.
    WifiModeUp(Option<WifiMode>),
    /// The SSH client handler.
    SshClient,
    UartTask,
    SerialBridge,
    AcceptRequests,
    /// The SSH server's connection loop, which runs authorisation.
    ConnectionLoop,
    ConnectSshClient,
    ReadEnvVars,
    StoreEnvVars,
    /// Whether the bridged client is still connected.
    ClientConnected,
    /// Whether the client without a bridge is still connected.
    ClientConnectedNoBridge,
    /// Sending the given notice to the client.
    NotifyClient(&'static str),
}

pub struct StateMachine<'a> {
    pub state: State<'a>,
    pub settings: Settings,
    pub task_ok: TaskOk,
}

// ---------------------------------------------------------------------------
// Specification
// ---------------------------------------------------------------------------

/// The state every transition that the table does not list leads to.
pub open spec fn failed<'a>() -> State<'a> {
    State::Failure("fail")
}

/// The transition table.
pub open spec fn next_state<'a>(s: State<'a>, e: Event) -> State<'a> {
    match (s, e) {
        (State::PowerOn, Event::AllGood) => State::InitPeripherals,
        (State::Reset, Event::AllGood) => State::InitPeripherals,
        (State::InitPeripherals, Event::AllGood) => State::TcpInit,
        (State::InitPeripherals, Event::Fail) => State::Reset,
        (State::TcpInit, Event::StartApMode) => State::TcpStartApMode,
        (State::TcpInit, Event::StartStaMode) => State::TcpStartStaMode,
        (State::TcpInit, Event::StartDefaultAp) => State::TcpStartDefault,
        (State::TcpInit, Event::Fail) => State::Reset,
        (State::TcpStartDefault, Event::AllGood) => State::TaskSpawning { name: "ssh" },
        (State::TcpStartDefault, Event::Fail) => State::Reset,
        (State::TcpStartApMode, Event::AllGood) => State::TaskSpawning { name: "ssh" },
        (State::TcpStartApMode, Event::Fail) => State::Reset,
        (State::TcpStartStaMode, Event::AllGood) => State::TaskSpawning { name: "ssh" },
        (State::TcpStartStaMode, Event::Fail) => State::Reset,
        (State::TaskSpawning { name }, Event::AllGood) => {
            if name@ == "ssh"@ {
                State::TaskRunning { name: "ssh" }
            } else if name@ == "uart"@ {
                State::TaskRunning { name: "uart" }
            } else {
                failed()
            }
        },
        (State::TaskRunning { name }, Event::AllGood) => {
            if name@ == "ssh"@ {
                State::TaskSpawning { name: "uart" }
            } else if name@ == "uart"@ {
                State::BridgeInit
            } else {
                failed()
            }
        },
        (State::TaskRunning { name }, Event::Fail) => {
            if name@ == "uart"@ {
                State::Idle
            } else {
                failed()
            }
        },
        (State::BridgeInit, Event::AllGood) => State::Idle,
        (State::BridgeInit, Event::Fail) => State::Idle,
        (State::Idle, Event::ClientConnect) => State::ClientConnecting,
        (State::ClientConnecting, Event::AllGood) => State::AuthzChecks,
        (State::ClientConnecting, Event::Timeout) => State::Idle,
        (State::AuthzChecks, Event::Timeout) => State::Idle,
        (State::AuthzChecks, Event::AccessDenied) => State::Idle,
        (State::AuthzChecks, Event::AllGood) => State::SshConnInit,
        (State::SshConnInit, Event::AllGood) => State::ReadEnvVars,
        (State::SshConnInit, Event::SshDisconnect) => State::Idle,
        (State::ReadEnvVars, Event::AllGood) => State::StoreEnvVars,
        (State::ReadEnvVars, Event::Fail) => State::ClientNotify { error: "Input validation error" },
        (State::ClientNotify { error }, Event::AllGood) => {
            if error@ == "Input validation error"@ {
                State::Idle
            } else {
                failed()
            }
        },
        (State::ClientNotify { error }, Event::SshDisconnect) => {
            if error@ == "Bridge error"@ {
                State::Idle
            } else {
                failed()
            }
        },
        (State::StoreEnvVars, Event::AllGood) => State::CheckBridge,
        (State::CheckBridge, Event::AllGood) => State::SshUartBridgeEstablished,
        (State::CheckBridge, Event::Fail) => State::ClientConnectedNoBridge,
        (State::SshUartBridgeEstablished, Event::SshDisconnect) => State::Idle,
        (State::ClientConnectedNoBridge, Event::AllGood) => State::ClientNotify { error: "Bridge error" },
        (State::StoreEnvVars, Event::SshSettingsChanged) => State::SshReconf,
        (State::SshReconf, Event::AllGood) => State::TaskSpawning { name: "ssh" },
        (State::StoreEnvVars, Event::UartSettingsChanged) => State::UartReconf,
        (State::UartReconf, Event::AllGood) => State::TaskSpawning { name: "uart" },
        (State::StoreEnvVars, Event::WifiSettingsChanged) => State::WifiReconf,
        (State::WifiReconf, Event::AllGood) => State::TcpInit,
        _ => failed(),
    }
}

/// The event a peripheral's answer stands for: a ready `true` is the
/// `ready_true` event, a ready `false` the `ready_false` event, and an answer
/// that is still pending is a failure.
pub open spec fn answer_event(response: Poll<bool>, ready_true: Event, ready_false: Event) -> Event {
    match response {
        Poll::Ready(true) => ready_true,
        Poll::Ready(false) => ready_false,
        Poll::Pending => Event::Fail,
    }
}

/// A report built from a peripheral's answer, which it passes on unchanged.
pub open spec fn answered(response: Poll<bool>, ready_true: Event, ready_false: Event) -> EventResponse<bool> {
    EventResponse { event: answer_event(response, ready_true, ready_false), response }
}

/// A report of work that completed at once with the given value.
pub open spec fn settled(event: Event, value: bool) -> EventResponse<bool> {
    EventResponse { event, response: Poll::Ready(value) }
}

/// The report of work that this machine does not know how to do.
pub open spec fn unhandled() -> EventResponse<bool> {
    EventResponse { event: Event::Fail, response: Poll::Pending }
}

/// The network start-up the configured Wi-Fi mode asks for.
pub open spec fn tcp_init_outcome(wifi_mode: Option<WifiMode>) -> EventResponse<bool> {
    match wifi_mode {
        Some(WifiMode::ApMode) => settled(Event::StartApMode, true),
        Some(WifiMode::StaMode) => settled(Event::StartStaMode, true),
        None => settled(Event::StartDefaultAp, true),
    }
}

/// Whether `task` names one of the two tasks the stamp runs.
pub open spec fn known_task(task: Seq<char>) -> bool {
    task == "ssh"@ || task == "uart"@
}

pub open spec fn spawn_outcome(task: Seq<char>) -> EventResponse<bool> {
    if known_task(task) {
        settled(Event::AllGood, true)
    } else {
        settled(Event::Fail, false)
    }
}

pub open spec fn run_task_outcome(task: Seq<char>, response: Poll<bool>) -> EventResponse<bool> {
    if known_task(task) {
        answered(response, Event::AllGood, Event::Fail)
    } else {
        settled(Event::Fail, false)
    }
}

/// The task flags after `task` answered `response`: a task that answered a
/// ready `true` is marked as good, nothing is ever unmarked.
pub open spec fn flags_after_task(task: Seq<char>, response: Poll<bool>, t: TaskOk) -> TaskOk {
    TaskOk {
        ssh: t.ssh || (task == "ssh"@ && response == Poll::Ready(true)),
        uart: t.uart || (task == "uart"@ && response == Poll::Ready(true)),
        bridge: t.bridge,
    }
}

/// The task flags after the serial bridge answered `response`.
pub open spec fn flags_after_bridge(response: Poll<bool>, t: TaskOk) -> TaskOk {
    TaskOk { ssh: t.ssh, uart: t.uart, bridge: t.bridge || response == Poll::Ready(true) }
}

pub open spec fn all_tasks_outcome(t: TaskOk) -> EventResponse<bool> {
    if t.uart && t.ssh {
        settled(Event::AllGood, true)
    } else {
        settled(Event::Fail, false)
    }
}

pub open spec fn check_bridge_outcome(t: TaskOk) -> EventResponse<bool> {
    if t.bridge {
        settled(Event::AllGood, true)
    } else {
        settled(Event::Fail, false)
    }
}

/// Whether `e` announces a change of settings.
pub open spec fn is_settings_change(e: Event) -> bool {
    e == Event::SshSettingsChanged || e == Event::UartSettingsChanged || e == Event::WifiSettingsChanged
}

pub open spec fn notification_outcome(e: Event) -> EventResponse<bool> {
    if is_settings_change(e) {
        settled(Event::AllGood, true)
    } else {
        unhandled()
    }
}

/// Whether the work done in state `s` waits on a peripheral.
pub open spec fn polls_peripheral<'a>(s: State<'a>) -> bool {
    match s {
        State::PowerOn | State::InitPeripherals | State::TcpStartDefault | State::TcpStartApMode
        | State::TcpStartStaMode | State::BridgeInit | State::Idle | State::ClientConnecting
        | State::AuthzChecks | State::SshConnInit | State::ReadEnvVars | State::StoreEnvVars
        | State::SshUartBridgeEstablished | State::ClientConnectedNoBridge => true,
        State::TaskRunning { name } => known_task(name@),
        State::ClientNotify { error } => error@ == "Bridge error"@,
        _ => false,
    }
}

/// What the work of state `s` reports when the peripheral it waits on (if
/// any) answers `response`, given the configured Wi-Fi mode and task flags.
pub open spec fn work_outcome<'a>(
    s: State<'a>,
    response: Poll<bool>,
    wifi_mode: Option<WifiMode>,
    t: TaskOk,
) -> EventResponse<bool> {
    match s {
        State::Start => settled(Event::AllGood, true),
        State::PowerOn | State::InitPeripherals | State::TcpStartDefault | State::TcpStartApMode
        | State::TcpStartStaMode | State::BridgeInit | State::ClientConnecting | State::SshConnInit
        | State::ReadEnvVars | State::StoreEnvVars | State::ClientConnectedNoBridge => answered(
            response,
            Event::AllGood,
            Event::Fail,
        ),
        State::TcpInit => tcp_init_outcome(wifi_mode),
        State::TaskSpawning { name } => if known_task(name@) {
            spawn_outcome(name@)
        } else {
            unhandled()
        },
        State::TaskRunning { name } => if known_task(name@) {
            run_task_outcome(name@, response)
        } else {
            unhandled()
        },
        State::AllTasksOk => all_tasks_outcome(t),
        State::Idle => answered(response, Event::ClientConnect, Event::Timeout),
        State::AuthzChecks => answered(response, Event::AllGood, Event::AccessDenied),
        State::SshReconf => notification_outcome(Event::SshSettingsChanged),
        State::UartReconf => notification_outcome(Event::UartSettingsChanged),
        State::WifiReconf => notification_outcome(Event::WifiSettingsChanged),
        State::CheckBridge => check_bridge_outcome(t),
        State::SshUartBridgeEstablished => answered(response, Event::AllGood, Event::SshDisconnect),
        State::ClientNotify { error } => if error@ == "Bridge error"@ {
            answered(response, Event::SshDisconnect, Event::Fail)
        } else {
            unhandled()
        },
        _ => unhandled(),
    }
}

/// The peripheral poll the work of state `s` waits on.
pub open spec fn poll_request<'a>(s: State<'a>) -> PollRequest {
    match s {
        State::PowerOn => PollRequest::PowerOn,
        State::InitPeripherals => PollRequest::InitPeripherals,
        State::TcpStartDefault => PollRequest::WifiModeUp(None),
        State::TcpStartApMode => PollRequest::WifiModeUp(Some(WifiMode::ApMode)),
        State::TcpStartStaMode => PollRequest::WifiModeUp(Some(WifiMode::StaMode)),
        State::TaskRunning { name } => if name@ == "ssh"@ {
            PollRequest::SshClient
        } else if name@ == "uart"@ {
            PollRequest::UartTask
        } else {
            PollRequest::NoPoll
        },
        State::BridgeInit => PollRequest::SerialBridge,
        State::Idle => PollRequest::AcceptRequests,
        State::ClientConnecting => PollRequest::SshClient,
        State::AuthzChecks => PollRequest::ConnectionLoop,
        State::SshConnInit => PollRequest::ConnectSshClient,
        State::ReadEnvVars => PollRequest::ReadEnvVars,
        State::StoreEnvVars => PollRequest::StoreEnvVars,
        State::SshUartBridgeEstablished => PollRequest::ClientConnected,
        State::ClientConnectedNoBridge => PollRequest::ClientConnectedNoBridge,
        State::ClientNotify { error } => if error@ == "Bridge error"@ {
            PollRequest::NotifyClient("no bridge")
        } else {
            PollRequest::NoPoll
        },
        _ => PollRequest::NoPoll,
    }
}

/// The task flags after the work of state `s`, when the peripheral it waits
/// on answers `response`.
pub open spec fn flags_after_work<'a>(s: State<'a>, response: Poll<bool>, t: TaskOk) -> TaskOk {
    match s {
        State::TaskRunning { name } => flags_after_task(name@, response, t),
        State::BridgeInit => flags_after_bridge(response, t),
        _ => t,
    }
}

/// The Wi-Fi mode after the work of state `s`, when the peripheral it waits
/// on answers `response`: storing the client's settings switches to
/// access-point mode.
pub open spec fn wifi_mode_after_work<'a>(
    s: State<'a>,
    response: Poll<bool>,
    wifi_mode: Option<WifiMode>,
) -> Option<WifiMode> {
    if s == State::StoreEnvVars && response == Poll::Ready(true) {
        Some(WifiMode::ApMode)
    } else {
        wifi_mode
    }
}

// ---------------------------------------------------------------------------
// Implementation
// ---------------------------------------------------------------------------

/// The answer of the host stand-in in `fake_stamp` for the poll `request`.
pub fn host_answer(request: &PollRequest) -> (r: Poll<bool>)
    ensures
        r == Poll::<bool>::Pending,
{
    match request {
        PollRequest::NoPoll => Poll::Pending,
        PollRequest::PowerOn => fake_stamp::poll_power_on(),
        PollRequest::InitPeripherals => fake_stamp::poll_init_peripherals(),
        PollRequest::WifiModeUp(mode) => net::poll_wifi_mode_up(mode.clone()),
        PollRequest::SshClient => fake_stamp::serve::poll_handle_ssh_client(),
        PollRequest::UartTask => fake_stamp::poll_uart_task(),
        PollRequest::SerialBridge => fake_stamp::serial::poll_serial_bridge(),
        PollRequest::AcceptRequests => net::poll_accept_requests(),
        PollRequest::ConnectionLoop => fake_stamp::serve::poll_connection_loop(),
        PollRequest::ConnectSshClient => fake_stamp::serve::poll_connect_ssh_client(),
        PollRequest::ReadEnvVars => fake_stamp::settings::poll_read_env_vars(),
        PollRequest::StoreEnvVars => fake_stamp::settings::poll_store_env_vars(),
        PollRequest::ClientConnected => fake_stamp::serve::poll_ssh_client_connected(),
        PollRequest::ClientConnectedNoBridge => fake_stamp::serve::poll_ssh_client_connected_no_bridge(),
        PollRequest::NotifyClient(notice) => fake_stamp::serve::poll_notify_client(notice),
    }
}

impl<'a> StateMachine<'a> {
    pub fn new() -> (m: Self)
        ensures
            m.state == State::PowerOn,
            m.settings.wifi_mode is None,
            m.settings.ssh_password is None,
            m.settings.uart_baud is None,
            !m.task_ok.ssh && !m.task_ok.uart && !m.task_ok.bridge,
    {
        StateMachine {
            state: State::PowerOn,
            settings: Settings { wifi_mode: None, ssh_password: None, uart_baud: None },
            task_ok: TaskOk { ssh: false, uart: false, bridge: false },
        }
    }

    /// Moves to the state the transition table gives for the current state
    /// and `event`; settings and task flags are left as they are.
    pub fn next(&mut self, event: Event)
        ensures
            final(self).state == next_state(old(self).state, event),
            final(self).settings == old(self).settings,
            final(self).task_ok == old(self).task_ok,
    {
        self.state = match (self.state, event) {
            (State::PowerOn, Event::AllGood) => State::InitPeripherals,
            (State::Reset, Event::AllGood) => State::InitPeripherals,
            (State::InitPeripherals, Event::AllGood) => State::TcpInit,
            (State::InitPeripherals, Event::Fail) => State::Reset,
            (State::TcpInit, Event::StartApMode) => State::TcpStartApMode,
            (State::TcpInit, Event::StartStaMode) => State::TcpStartStaMode,
            (State::TcpInit, Event::StartDefaultAp) => State::TcpStartDefault,
            (State::TcpInit, Event::Fail) => State::Reset,
            (State::TcpStartDefault, Event::AllGood) => State::TaskSpawning { name: "ssh" },
            (State::TcpStartDefault, Event::Fail) => State::Reset,
            (State::TcpStartApMode, Event::AllGood) => State::TaskSpawning { name: "ssh" },
            (State::TcpStartApMode, Event::Fail) => State::Reset,
            (State::TcpStartStaMode, Event::AllGood) => State::TaskSpawning { name: "ssh" },
            (State::TcpStartStaMode, Event::Fail) => State::Reset,
            (State::TaskSpawning { name }, Event::AllGood) => {
                if str_eq(name, "ssh") {
                    State::TaskRunning { name: "ssh" }
                } else if str_eq(name, "uart") {
                    State::TaskRunning { name: "uart" }
                } else {
                    State::Failure("fail")
                }
            },
            (State::TaskRunning { name }, Event::AllGood) => {
                if str_eq(name, "ssh") {
                    State::TaskSpawning { name: "uart" }
                } else if str_eq(name, "uart") {
                    State::BridgeInit
                } else {
                    State::Failure("fail")
                }
            },
            (State::TaskRunning { name }, Event::Fail) => {
                if str_eq(name, "uart") {
                    State::Idle
                } else {
                    State::Failure("fail")
                }
            },
            (State::BridgeInit, Event::AllGood) => State::Idle,
            (State::BridgeInit, Event::Fail) => State::Idle,
            (State::Idle, Event::ClientConnect) => State::ClientConnecting,
            (State::ClientConnecting, Event::AllGood) => State::AuthzChecks,
            (State::ClientConnecting, Event::Timeout) => State::Idle,
            (State::AuthzChecks, Event::Timeout) => State::Idle,
            (State::AuthzChecks, Event::AccessDenied) => State::Idle,
            (State::AuthzChecks, Event::AllGood) => State::SshConnInit,
            (State::SshConnInit, Event::AllGood) => State::ReadEnvVars,
            (State::SshConnInit, Event::SshDisconnect) => State::Idle,
            (State::ReadEnvVars, Event::AllGood) => State::StoreEnvVars,
            (State::ReadEnvVars, Event::Fail) => State::ClientNotify { error: "Input validation error" },
            (State::ClientNotify { error }, Event::AllGood) => {
                if str_eq(error, "Input validation error") {
                    State::Idle
                } else {
                    State::Failure("fail")
                }
            },
            (State::ClientNotify { error }, Event::SshDisconnect) => {
                if str_eq(error, "Bridge error") {
                    State::Idle
                } else {
                    State::Failure("fail")
                }
            },
            (State::StoreEnvVars, Event::AllGood) => State::CheckBridge,
            (State::CheckBridge, Event::AllGood) => State::SshUartBridgeEstablished,
            (State::CheckBridge, Event::Fail) => State::ClientConnectedNoBridge,
            (State::SshUartBridgeEstablished, Event::SshDisconnect) => State::Idle,
            (State::ClientConnectedNoBridge, Event::AllGood) => State::ClientNotify { error: "Bridge error" },
            (State::StoreEnvVars, Event::SshSettingsChanged) => State::SshReconf,
            (State::SshReconf, Event::AllGood) => State::TaskSpawning { name: "ssh" },
            (State::StoreEnvVars, Event::UartSettingsChanged) => State::UartReconf,
            (State::UartReconf, Event::AllGood) => State::TaskSpawning { name: "uart" },
            (State::StoreEnvVars, Event::WifiSettingsChanged) => State::WifiReconf,
            (State::WifiReconf, Event::AllGood) => State::TcpInit,
            _ => State::Failure("fail"),
        };
    }

    /// The peripheral poll the work of the current state waits on.
    pub fn poll_request_for(&self) -> (q: PollRequest)
        ensures
            q == poll_request(self.state),
    {
        proof {
            lemma_task_names_differ();
        }
        match self.state {
            State::PowerOn => PollRequest::PowerOn,
            State::InitPeripherals => PollRequest::InitPeripherals,
            State::TcpStartDefault => PollRequest::WifiModeUp(None),
            State::TcpStartApMode => PollRequest::WifiModeUp(Some(WifiMode::ApMode)),
            State::TcpStartStaMode => PollRequest::WifiModeUp(Some(WifiMode::StaMode)),
            State::TaskRunning { name } => {
                if str_eq(name, "ssh") {
                    PollRequest::SshClient
                } else if str_eq(name, "uart") {
                    PollRequest::UartTask
                } else {
                    PollRequest::NoPoll
                }
            },
            State::BridgeInit => PollRequest::SerialBridge,
            State::Idle => PollRequest::AcceptRequests,
            State::ClientConnecting => PollRequest::SshClient,
            State::AuthzChecks => PollRequest::ConnectionLoop,
            State::SshConnInit => PollRequest::ConnectSshClient,
            State::ReadEnvVars => PollRequest::ReadEnvVars,
            State::StoreEnvVars => PollRequest::StoreEnvVars,
            State::SshUartBridgeEstablished => PollRequest::ClientConnected,
            State::ClientConnectedNoBridge => PollRequest::ClientConnectedNoBridge,
            State::ClientNotify { error } => {
                if str_eq(error, "Bridge error") {
                    PollRequest::NotifyClient("no bridge")
                } else {
                    PollRequest::NoPoll
                }
            },
            _ => PollRequest::NoPoll,
        }
    }

    /// Does the work of the current state, given the answer of the
    /// peripheral poll it waits on (`poll_request_for`), and reports the
    /// event it produced. Work that waits on no peripheral does not read
    /// `response`.
    pub fn run_with(&mut self, response: Poll<bool>) -> (r: EventResponse<bool>)
        ensures
            r == work_outcome(
                old(self).state,
                response,
                old(self).settings.wifi_mode,
                old(self).task_ok,
            ),
            final(self).state == old(self).state,
            final(self).task_ok == flags_after_work(old(self).state, response, old(self).task_ok),
            final(self).settings.wifi_mode == wifi_mode_after_work(
                old(self).state,
                response,
                old(self).settings.wifi_mode,
            ),
            old(self).state == State::StoreEnvVars && response == Poll::Ready(true) ==> {
                &&& final(self).settings.uart_baud == Some(9600u32)
                &&& final(self).settings.ssh_password matches Some(p)
                &&& password_chars(p) == Seq::<char>::empty()
            },
            !(old(self).state == State::StoreEnvVars && response == Poll::Ready(true))
                ==> final(self).settings == old(self).settings,
    {
        proof {
            lemma_task_names_differ();
        }
        let unknown = EventResponse { event: Event::Fail, response: Poll::Pending };
        let event_response: EventResponse<bool> = match self.state {
            State::Start => EventResponse { event: Event::AllGood, response: Poll::Ready(true) },
            State::PowerOn => self.power_on(response),
            State::InitPeripherals => self.init_peripherals(response),
            State::TcpInit => self.tcp_init(),
            State::TcpStartDefault => self.tcp_start(response),
            State::TcpStartApMode => self.tcp_start(response),
            State::TcpStartStaMode => self.tcp_start(response),
            State::TaskSpawning { name } => {
                if str_eq(name, "ssh") {
                    self.spawn_tasks("ssh")
                } else if str_eq(name, "uart") {
                    self.spawn_tasks("uart")
                } else {
                    unknown
                }
            },
            State::TaskRunning { name } => {
                if str_eq(name, "ssh") {
                    self.run_tasks("ssh", response)
                } else if str_eq(name, "uart") {
                    self.run_tasks("uart", response)
                } else {
                    unknown
                }
            },
            State::AllTasksOk => self.all_tasks_ok(),
            State::BridgeInit => self.bridge_up(response),
            State::Idle => self.idle(response),
            State::ClientConnecting => self.connect_client(response),
            State::AuthzChecks => self.authorization_checks(response),
            State::SshConnInit => self.ssh_connection_initialisation(response),
            State::ReadEnvVars => self.read_env_vars(response),
            State::StoreEnvVars => self.store_env_vars(response),
            State::SshReconf => self.send_notification(Event::SshSettingsChanged),
            State::UartReconf => self.send_notification(Event::UartSettingsChanged),
            State::WifiReconf => self.send_notification(Event::WifiSettingsChanged),
            State::CheckBridge => self.check_bridge(),
            State::SshUartBridgeEstablished => self.ssh_uart_bridge_established(response),
            State::ClientConnectedNoBridge => self.client_connected_no_bridge(response),
            State::ClientNotify { error } => {
                if str_eq(error, "Bridge error") {
                    self.notify_client(response)
                } else {
                    unknown
                }
            },
            _ => unknown,
        };
        event_response
    }

    /// Does the work of the current state and reports the event it produced,
    /// with the poll it waits on answered by its host stand-in in
    /// `fake_stamp`. No stand-in ever completes, so work that waits on a
    /// peripheral reports what it reports for a `Pending` answer, and nothing
    /// is marked or stored.
    pub fn run<Bool>(&mut self) -> (r: EventResponse<bool>)
        ensures
            r == work_outcome(
                old(self).state,
                Poll::Pending,
                old(self).settings.wifi_mode,
                old(self).task_ok,
            ),
            final(self).state == old(self).state,
            final(self).settings == old(self).settings,
            final(self).task_ok == old(self).task_ok,
    {
        let request = self.poll_request_for();
        let answer = host_answer(&request);
        self.run_with(answer)
    }

    /// Moves on from the work just done: while its report is still
    /// `Pending` the machine stays where it is and the work is to be polled
    /// again (`true`); otherwise the machine takes the transition for the
    /// reported event (`false`).
    pub fn advance(&mut self, report: EventResponse<bool>) -> (again: bool)
        ensures
            again == (report.response == Poll::<bool>::Pending),
            again ==> final(self).state == old(self).state,
            !again ==> final(self).state == next_state(old(self).state, report.event),
            final(self).settings == old(self).settings,
            final(self).task_ok == old(self).task_ok,
    {
        match report.response {
            Poll::Pending => true,
            Poll::Ready(_) => {
                self.next(report.event);
                false
            },
        }
    }

    /// Whether the machine has failed, which ends its loop.
    pub fn halted(&self) -> (h: bool)
        ensures
            h == (self.state is Failure),
    {
        match self.state {
            State::Failure(_) => true,
            _ => false,
        }
    }

    /// Powering up: the power-on task's answer decides.
    pub fn power_on(&self, response: Poll<bool>) -> (r: EventResponse<bool>)
        ensures
            r == answered(response, Event::AllGood, Event::Fail),
    {
        let event: Event = match response {
            Poll::Ready(value) => {
                if value {
                    Event::AllGood
                } else {
                    Event::Fail
                }
            },
            Poll::Pending => Event::Fail,
        };
        EventResponse { event, response }
    }

    /// Starting the peripherals up: the initialisation task's answer decides.
    pub fn init_peripherals(&self, response: Poll<bool>) -> (r: EventResponse<bool>)
        ensures
            r == answered(response, Event::AllGood, Event::Fail),
    {
        let event: Event = match response {
            Poll::Ready(value) => {
                if value {
                    Event::AllGood
                } else {
                    Event::Fail
                }
            },
            Poll::Pending => Event::Fail,
        };
        EventResponse { event, response }
    }

    /// Choosing how to bring the network up, from the configured Wi-Fi mode.
    pub fn tcp_init(&self) -> (r: EventResponse<bool>)
        ensures
            r == tcp_init_outcome(self.settings.wifi_mode),
    {
        let event = match self.settings.wifi_mode {
            Some(WifiMode::ApMode) => Event::StartApMode,
            Some(WifiMode::StaMode) => Event::StartStaMode,
            None => Event::StartDefaultAp,
        };
        let response: Poll<bool> = match event {
            Event::StartDefaultAp => Poll::Ready(true),
            Event::StartApMode => Poll::Ready(true),
            Event::StartStaMode => Poll::Ready(true),
            _ => Poll::Pending,
        };
        EventResponse { event, response }
    }

    /// Starting the TCP stack: the Wi-Fi bring-up task's answer decides.
    pub fn tcp_start(&self, response: Poll<bool>) -> (r: EventResponse<bool>)
        ensures
            r == answered(response, Event::AllGood, Event::Fail),
    {
        let event: Event = match response {
            Poll::Ready(value) => {
                if value {
                    Event::AllGood
                } else {
                    Event::Fail
                }
            },
            Poll::Pending => Event::Fail,
        };
        EventResponse { event, response }
    }

    /// Spawning a task: only the `ssh` and `uart` tasks exist.
    pub fn spawn_tasks(&self, task: &str) -> (r: EventResponse<bool>)
        ensures
            r == spawn_outcome(task@),
    {
        if str_eq(task, "ssh") {
            EventResponse { event: Event::AllGood, response: Poll::Ready(true) }
        } else if str_eq(task, "uart") {
            EventResponse { event: Event::AllGood, response: Poll::Ready(true) }
        } else {
            EventResponse { event: Event::Fail, response: Poll::Ready(false) }
        }
    }

    /// Running a task: the task's answer decides, and a task that answered a
    /// ready `true` is marked as good.
    pub fn run_tasks(&mut self, task: &str, response: Poll<bool>) -> (r: EventResponse<bool>)
        ensures
            r == run_task_outcome(task@, response),
            final(self).task_ok == flags_after_task(task@, response, old(self).task_ok),
            final(self).state == old(self).state,
            final(self).settings == old(self).settings,
    {
        proof {
            lemma_task_names_differ();
        }
        if str_eq(task, "ssh") {
            let event: Event = match response {
                Poll::Ready(value) => {
                    if value {
                        self.task_ok.ssh = true;
                        Event::AllGood
                    } else {
                        Event::Fail
                    }
                },
                Poll::Pending => Event::Fail,
            };
            EventResponse { event, response }
        } else if str_eq(task, "uart") {
            let event: Event = match response {
                Poll::Ready(value) => {
                    if value {
                        self.task_ok.uart = true;
                        Event::AllGood
                    } else {
                        Event::Fail
                    }
                },
                Poll::Pending => Event::Fail,
            };
            EventResponse { event, response }
        } else {
            EventResponse { event: Event::Fail, response: Poll::Ready(false) }
        }
    }

    /// Checking that both tasks reported success.
    pub fn all_tasks_ok(&self) -> (r: EventResponse<bool>)
        ensures
            r == all_tasks_outcome(self.task_ok),
    {
        if self.task_ok.uart && self.task_ok.ssh {
            EventResponse { event: Event::AllGood, response: Poll::Ready(true) }
        } else {
            EventResponse { event: Event::Fail, response: Poll::Ready(false) }
        }
    }

    /// Bridging SSH to the UART: the bridge task's answer decides, and a
    /// bridge that answered a ready `true` is marked as up.
    pub fn bridge_up(&mut self, response: Poll<bool>) -> (r: EventResponse<bool>)
        ensures
            r == answered(response, Event::AllGood, Event::Fail),
            final(self).task_ok == flags_after_bridge(response, old(self).task_ok),
            final(self).state == old(self).state,
            final(self).settings == old(self).settings,
    {
        let event: Event = match response {
            Poll::Ready(value) => {
                if value {
                    self.task_ok.bridge = true;
                    Event::AllGood
                } else {
                    Event::Fail
                }
            },
            Poll::Pending => Event::Fail,
        };
        EventResponse { event, response }
    }

    /// Waiting for a client: a ready `true` is a connection, a ready `false`
    /// a time-out.
    pub fn idle(&self, response: Poll<bool>) -> (r: EventResponse<bool>)
        ensures
            r == answered(response, Event::ClientConnect, Event::Timeout),
    {
        let event: Event = match response {
            Poll::Ready(value) => {
                if value {
                    Event::ClientConnect
                } else {
                    Event::Timeout
                }
            },
            Poll::Pending => Event::Fail,
        };
        EventResponse { event, response }
    }

    /// Connecting to the client: the SSH client handler's answer decides.
    pub fn connect_client(&self, response: Poll<bool>) -> (r: EventResponse<bool>)
        ensures
            r == answered(response, Event::AllGood, Event::Fail),
    {
        let event: Event = match response {
            Poll::Ready(value) => {
                if value {
                    Event::AllGood
                } else {
                    Event::Fail
                }
            },
            Poll::Pending => Event::Fail,
        };
        EventResponse { event, response }
    }

    /// Checking SSH authorisation: a ready `false` denies access.
    pub fn authorization_checks(&self, response: Poll<bool>) -> (r: EventResponse<bool>)
        ensures
            r == answered(response, Event::AllGood, Event::AccessDenied),
    {
        let event: Event = match response {
            Poll::Ready(value) => {
                if value {
                    Event::AllGood
                } else {
                    Event::AccessDenied
                }
            },
            Poll::Pending => Event::Fail,
        };
        EventResponse { event, response }
    }

    /// Initialising the SSH connection: the connection task's answer decides.
    pub fn ssh_connection_initialisation(&self, response: Poll<bool>) -> (r: EventResponse<bool>)
        ensures
            r == answered(response, Event::AllGood, Event::Fail),
    {
        let event: Event = match response {
            Poll::Ready(value) => {
                if value {
                    Event::AllGood
                } else {
                    Event::Fail
                }
            },
            Poll::Pending => Event::Fail,
        };
        EventResponse { event, response }
    }

    /// Reading the client's environment variables.
    pub fn read_env_vars(&self, response: Poll<bool>) -> (r: EventResponse<bool>)
        ensures
            r == answered(response, Event::AllGood, Event::Fail),
    {
        let event: Event = match response {
            Poll::Ready(value) => {
                if value {
                    Event::AllGood
                } else {
                    Event::Fail
                }
            },
            Poll::Pending => Event::Fail,
        };
        EventResponse { event, response }
    }

    /// Storing the client's settings: on a ready `true` the stamp switches to
    /// access-point mode at 9600 baud with an empty SSH password; otherwise
    /// the settings stay as they were.
    pub fn store_env_vars(&mut self, response: Poll<bool>) -> (r: EventResponse<bool>)
        ensures
            r == answered(response, Event::AllGood, Event::Fail),
            final(self).state == old(self).state,
            final(self).task_ok == old(self).task_ok,
            response == Poll::Ready(true) ==> {
                &&& final(self).settings.wifi_mode == Some(WifiMode::ApMode)
                &&& final(self).settings.uart_baud == Some(9600u32)
                &&& final(self).settings.ssh_password matches Some(p)
                &&& password_chars(p) == Seq::<char>::empty()
            },
            response != Poll::Ready(true) ==> final(self).settings == old(self).settings,
    {
        let event: Event = match response {
            Poll::Ready(value) => {
                if value {
                    self.settings.wifi_mode = Some(WifiMode::ApMode);
                    self.settings.uart_baud = Some(9600);
                    self.settings.ssh_password = Some(empty_password());
                    Event::AllGood
                } else {
                    Event::Fail
                }
            },
            Poll::Pending => Event::Fail,
        };
        EventResponse { event, response }
    }

    /// Telling the client its settings change was taken: only the three
    /// settings-change events are notifications.
    pub fn send_notification(&self, notification_type: Event) -> (r: EventResponse<bool>)
        ensures
            r == notification_outcome(notification_type),
    {
        let response: Poll<bool> = match notification_type {
            Event::SshSettingsChanged => Poll::Ready(true),
            Event::UartSettingsChanged => Poll::Ready(true),
            Event::WifiSettingsChanged => Poll::Ready(true),
            _ => Poll::Pending,
        };
        let event: Event = match response {
            Poll::Ready(value) => {
                if value {
                    Event::AllGood
                } else {
                    Event::Fail
                }
            },
            Poll::Pending => Event::Fail,
        };
        EventResponse { event, response }
    }

    /// Checking whether the serial bridge came up.
    pub fn check_bridge(&self) -> (r: EventResponse<bool>)
        ensures
            r == check_bridge_outcome(self.task_ok),
    {
        if self.task_ok.bridge {
            EventResponse { event: Event::AllGood, response: Poll::Ready(true) }
        } else {
            EventResponse { event: Event::Fail, response: Poll::Ready(false) }
        }
    }

    /// Watching the bridged session: a ready `false` means the client left.
    pub fn ssh_uart_bridge_established(&self, response: Poll<bool>) -> (r: EventResponse<bool>)
        ensures
            r == answered(response, Event::AllGood, Event::SshDisconnect),
    {
        let event: Event = match response {
            Poll::Ready(value) => {
                if value {
                    Event::AllGood
                } else {
                    Event::SshDisconnect
                }
            },
            Poll::Pending => Event::Fail,
        };
        EventResponse { event, response }
    }

    /// Preparing to tell the client there is no bridge.
    pub fn client_connected_no_bridge(&self, response: Poll<bool>) -> (r: EventResponse<bool>)
        ensures
            r == answered(response, Event::AllGood, Event::Fail),
    {
        let event: Event = match response {
            Poll::Ready(value) => {
                if value {
                    Event::AllGood
                } else {
                    Event::Fail
                }
            },
            Poll::Pending => Event::Fail,
        };
        EventResponse { event, response }
    }

    /// Telling the client there is no bridge: once told, the client is
    /// disconnected.
    pub fn notify_client(&self, response: Poll<bool>) -> (r: EventResponse<bool>)
        ensures
            r == answered(response, Event::SshDisconnect, Event::Fail),
    {
        let event: Event = match response {
            Poll::Ready(value) => {
                if value {
                    Event::SshDisconnect
                } else {
                    Event::Fail
                }
            },
            Poll::Pending => Event::Fail,
        };
        EventResponse { event, response }
    }
}

} // verus!
