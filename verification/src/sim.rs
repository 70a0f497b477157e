//! The standalone simulation of the stamp's state machine. Every piece of
//! work succeeds at once, and some transitions read the settings and task
//! flags: the Wi-Fi mode chooses how the network starts, a UART task that
//! already runs is not spawned again, and a client is bridged only when the
//! bridge is up.

use vstd::prelude::*;
use crate::support::{empty_password, lemma_task_names_differ, password_chars, str_eq};

verus! {

#[derive(Debug, PartialEq, Clone)]
pub enum WifiMode {
    ApMode,
    StaMode,
}

pub struct Settings {
    pub wifi_mode: Option<WifiMode>,
    pub ssh_password: Option<heapless::String<20>>,
    pub uart_baud: Option<u32>,
}

pub struct TaskOk {
    pub ssh: bool,
    pub uart: bool,
    pub bridge: bool,
}

#[derive(Debug, PartialEq, Clone, Copy)]
pub enum State<'a> {
    PowerOn,  // Both PowerOn and Reset: peripherals are not initialised yet.
    Reset,
    Start,  // Peripherals and basics are initialised.
    Idle,
    Timeout,
    Failure(&'a str),
    BridgeInit,
    BridgeUp,
    InitPeripherals,
    TcpCheckSettings,
    TcpInit,
    TcpStartDefault,
    TcpStartApMode,
    TcpStartStaMode,
    TcpStackUp,
    TaskSpawning { name: &'a str },
    TaskFailed { name: &'a str },
    TaskRunning { name: &'a str },
    AllTasksOk,
    ClientConnecting,
    ClientConnected,
    AuthzChecks,
    SshConnInit,
    SshConnEstablished,
    ReadEnvVars,
    StoreEnvVars,
    UartReconf,
    WifiReconf,
    SshReconf,
    SshUartBridgeEstablished,
    ClientConnectedNoBridge,
    ClientNotify { error: &'a str },
}

#[derive(Debug, Copy, Clone, PartialEq)]
pub enum Event {
    AllGood,
    Fail,
    DefaultModeUp,
    ApModeUp,
    StaModeUp,
    ClientConnect,
    Timeout,
    AccessDenied,
    SshDisconnect,
    UartSettingsChanged,
    SshSettingsChanged,
    WifiSettingsChanged,
}

pub struct StateMachine<'a> {
    pub state: State<'a>,
    pub settings: Settings,
    pub task_ok: TaskOk,
}

// ---------------------------------------------------------------------------
// Specification
// ---------------------------------------------------------------------------

/// The state every transition that the table does not list leads to.
pub open spec fn failed<'a>() -> State<'a> {
    State::Failure("fail")
}

/// The transition table; it reads the configured Wi-Fi mode and the task
/// flags.
pub open spec fn next_state<'a>(s: State<'a>, e: Event, wifi_mode: Option<WifiMode>, t: TaskOk) -> State<'a> {
    match (s, e) {
        (State::PowerOn, Event::AllGood) => State::InitPeripherals,
        (State::Reset, Event::AllGood) => State::InitPeripherals,
        (State::InitPeripherals, Event::AllGood) => State::TcpInit,
        (State::TcpInit, Event::AllGood) => match wifi_mode {
            None => State::TcpStartDefault,
            Some(WifiMode::ApMode) => State::TcpStartApMode,
            Some(WifiMode::StaMode) => State::TcpStartStaMode,
        },
        (State::InitPeripherals, Event::Fail) => State::Reset,
        (State::TcpStartDefault, Event::DefaultModeUp) => State::TaskSpawning { name: "ssh" },
        (State::TcpStartDefault, Event::Fail) => State::Reset,
        (State::TcpStartApMode, Event::ApModeUp) => State::TaskSpawning { name: "ssh" },
        (State::TcpStartApMode, Event::Fail) => State::Reset,
        (State::TcpStartStaMode, Event::StaModeUp) => State::TaskSpawning { name: "ssh" },
        (State::TcpStartStaMode, Event::Fail) => State::Reset,
        (State::TaskSpawning { name }, Event::AllGood) => {
            if name@ == "ssh"@ {
                State::TaskRunning { name: "ssh" }
            } else if name@ == "uart"@ {
                State::TaskRunning { name: "uart" }
            } else {
                failed()
            }
        },
        (State::TaskRunning { name }, Event::AllGood) => {
            if name@ == "ssh"@ {
                if t.uart {
                    State::BridgeInit
                } else {
                    State::TaskSpawning { name: "uart" }
                }
            } else if name@ == "uart"@ {
                State::BridgeInit
            } else {
                failed()
            }
        },
        (State::TaskRunning { name }, Event::Fail) => {
            if name@ == "uart"@ {
                State::Idle
            } else {
                failed()
            }
        },
        (State::BridgeInit, Event::AllGood) => State::Idle,
        (State::BridgeInit, Event::Fail) => State::Idle,
        (State::Idle, Event::ClientConnect) => State::ClientConnecting,
        (State::ClientConnecting, Event::AllGood) => State::AuthzChecks,
        (State::ClientConnecting, Event::Timeout) => State::Idle,
        (State::AuthzChecks, Event::Timeout) => State::Idle,
        (State::AuthzChecks, Event::AccessDenied) => State::Idle,
        (State::AuthzChecks, Event::AllGood) => State::SshConnInit,
        (State::SshConnInit, Event::AllGood) => State::ReadEnvVars,
        (State::SshConnInit, Event::SshDisconnect) => State::Idle,
        (State::ReadEnvVars, Event::AllGood) => State::StoreEnvVars,
        (State::ReadEnvVars, Event::Fail) => State::ClientNotify { error: "Input validation error" },
        (State::ClientNotify { error }, Event::AllGood) => {
            if error@ == "Input validation error"@ {
                State::Idle
            } else {
                failed()
            }
        },
        (State::StoreEnvVars, Event::AllGood) => {
            if t.bridge {
                State::SshUartBridgeEstablished
            } else {
                State::ClientConnectedNoBridge
            }
        },
        (State::SshUartBridgeEstablished, Event::SshDisconnect) => State::Idle,
        (State::ClientConnectedNoBridge, Event::AllGood) => State::ClientNotify { error: "Bridge error" },
        (State::ClientNotify { error }, Event::SshDisconnect) => {
            if error@ == "Bridge error"@ {
                State::Idle
            } else {
                failed()
            }
        },
        (State::StoreEnvVars, Event::SshSettingsChanged) => State::SshReconf,
        (State::SshReconf, Event::AllGood) => State::TaskSpawning { name: "ssh" },
        (State::StoreEnvVars, Event::UartSettingsChanged) => State::UartReconf,
        (State::UartReconf, Event::AllGood) => State::TaskSpawning { name: "uart" },
        (State::StoreEnvVars, Event::WifiSettingsChanged) => State::WifiReconf,
        (State::WifiReconf, Event::AllGood) => State::TcpInit,
        _ => failed(),
    }
}

/// `yes` when `flag` holds, `no` otherwise.
pub open spec fn choose_event(flag: bool, yes: Event, no: Event) -> Event {
    if flag {
        yes
    } else {
        no
    }
}

/// The event announcing that the link came up in `wifimode`.
pub open spec fn link_up_event(wifimode: Option<WifiMode>) -> Event {
    match wifimode {
        None => Event::DefaultModeUp,
        Some(WifiMode::ApMode) => Event::ApModeUp,
        Some(WifiMode::StaMode) => Event::StaModeUp,
    }
}

/// Whether `task` names one of the two tasks the stamp runs.
pub open spec fn known_task(task: Seq<char>) -> bool {
    task == "ssh"@ || task == "uart"@
}

/// Whether `e` announces a change of settings.
pub open spec fn is_settings_change(e: Event) -> bool {
    e == Event::SshSettingsChanged || e == Event::UartSettingsChanged || e == Event::WifiSettingsChanged
}

/// The event `run` produces in state `s`.
pub open spec fn run_event<'a>(s: State<'a>) -> Event {
    match s {
        State::Failure(_) => Event::Fail,
        State::Start | State::PowerOn | State::InitPeripherals | State::TcpInit | State::AllTasksOk
        | State::BridgeInit | State::ClientConnecting | State::AuthzChecks | State::SshConnInit
        | State::ReadEnvVars | State::StoreEnvVars | State::SshReconf | State::UartReconf
        | State::WifiReconf | State::ClientConnectedNoBridge => Event::AllGood,
        State::TcpStartDefault => link_up_event(None),
        State::TcpStartApMode => link_up_event(Some(WifiMode::ApMode)),
        State::TcpStartStaMode => link_up_event(Some(WifiMode::StaMode)),
        State::TaskSpawning { name } => choose_event(known_task(name@), Event::AllGood, Event::Fail),
        State::TaskRunning { name } => choose_event(known_task(name@), Event::AllGood, Event::Fail),
        State::Idle => Event::ClientConnect,
        State::SshUartBridgeEstablished => Event::SshDisconnect,
        State::ClientNotify { error } => choose_event(
            error@ == "Bridge error"@,
            Event::SshDisconnect,
            Event::Fail,
        ),
        _ => Event::Fail,
    }
}

/// The task flags after `run` in state `s`: running the SSH task marks it
/// as good.
pub open spec fn flags_after_run<'a>(s: State<'a>, t: TaskOk) -> TaskOk {
    match s {
        State::TaskRunning { name } => TaskOk {
            ssh: t.ssh || name@ == "ssh"@,
            uart: t.uart,
            bridge: t.bridge,
        },
        _ => t,
    }
}

/// The Wi-Fi mode after `run` in state `s`: storing the client's settings
/// switches to access-point mode.
pub open spec fn wifi_mode_after_run<'a>(s: State<'a>, wifi_mode: Option<WifiMode>) -> Option<WifiMode> {
    if s == State::StoreEnvVars {
        Some(WifiMode::ApMode)
    } else {
        wifi_mode
    }
}

// ---------------------------------------------------------------------------
// Implementation
// ---------------------------------------------------------------------------

impl<'a> StateMachine<'a> {
    pub fn new() -> (m: Self)
        ensures
            m.state == State::PowerOn,
            m.settings.wifi_mode is None,
            m.settings.ssh_password is None,
            m.settings.uart_baud is None,
            !m.task_ok.ssh && !m.task_ok.uart && !m.task_ok.bridge,
    {
        StateMachine {
            state: State::PowerOn,
            settings: Settings { wifi_mode: None, ssh_password: None, uart_baud: None },
            task_ok: TaskOk { ssh: false, uart: false, bridge: false },
        }
    }

    /// Moves to the state the transition table gives for the current state,
    /// `event`, the configured Wi-Fi mode and the task flags; settings and
    /// task flags are left as they are.
    pub fn next(&mut self, event: Event)
        ensures
            final(self).state == next_state(
                old(self).state,
                event,
                old(self).settings.wifi_mode,
                old(self).task_ok,
            ),
            final(self).settings == old(self).settings,
            final(self).task_ok == old(self).task_ok,
    {
        self.state = match (self.state, event) {
            (State::PowerOn, Event::AllGood) => State::InitPeripherals,
            (State::Reset, Event::AllGood) => State::InitPeripherals,
            (State::InitPeripherals, Event::AllGood) => State::TcpInit,
            (State::TcpInit, Event::AllGood) => match self.settings.wifi_mode {
                None => State::TcpStartDefault,
                Some(WifiMode::ApMode) => State::TcpStartApMode,
                Some(WifiMode::StaMode) => State::TcpStartStaMode,
            },
            (State::InitPeripherals, Event::Fail) => State::Reset,
            (State::TcpStartDefault, Event::DefaultModeUp) => State::TaskSpawning { name: "ssh" },
            (State::TcpStartDefault, Event::Fail) => State::Reset,
            (State::TcpStartApMode, Event::ApModeUp) => State::TaskSpawning { name: "ssh" },
            (State::TcpStartApMode, Event::Fail) => State::Reset,
            (State::TcpStartStaMode, Event::StaModeUp) => State::TaskSpawning { name: "ssh" },
            (State::TcpStartStaMode, Event::Fail) => State::Reset,
            (State::TaskSpawning { name }, Event::AllGood) => {
                if str_eq(name, "ssh") {
                    State::TaskRunning { name: "ssh" }
                } else if str_eq(name, "uart") {
                    State::TaskRunning { name: "uart" }
                } else {
                    State::Failure("fail")
                }
            },
            (State::TaskRunning { name }, Event::AllGood) => {
                if str_eq(name, "ssh") {
                    if self.task_ok.uart {
                        State::BridgeInit
                    } else {
                        State::TaskSpawning { name: "uart" }
                    }
                } else if str_eq(name, "uart") {
                    State::BridgeInit
                } else {
                    State::Failure("fail")
                }
            },
            (State::TaskRunning { name }, Event::Fail) => {
                if str_eq(name, "uart") {
                    State::Idle
                } else {
                    State::Failure("fail")
                }
            },
            (State::BridgeInit, Event::AllGood) => State::Idle,
            (State::BridgeInit, Event::Fail) => State::Idle,
            (State::Idle, Event::ClientConnect) => State::ClientConnecting,
            (State::ClientConnecting, Event::AllGood) => State::AuthzChecks,
            (State::ClientConnecting, Event::Timeout) => State::Idle,
            (State::AuthzChecks, Event::Timeout) => State::Idle,
            (State::AuthzChecks, Event::AccessDenied) => State::Idle,
            (State::AuthzChecks, Event::AllGood) => State::SshConnInit,
            (State::SshConnInit, Event::AllGood) => State::ReadEnvVars,
            (State::SshConnInit, Event::SshDisconnect) => State::Idle,
            (State::ReadEnvVars, Event::AllGood) => State::StoreEnvVars,
            (State::ReadEnvVars, Event::Fail) => State::ClientNotify { error: "Input validation error" },
            (State::ClientNotify { error }, Event::AllGood) => {
                if str_eq(error, "Input validation error") {
                    State::Idle
                } else {
                    State::Failure("fail")
                }
            },
            (State::StoreEnvVars, Event::AllGood) => {
                if self.task_ok.bridge {
                    State::SshUartBridgeEstablished
                } else {
                    State::ClientConnectedNoBridge
                }
            },
            (State::SshUartBridgeEstablished, Event::SshDisconnect) => State::Idle,
            (State::ClientConnectedNoBridge, Event::AllGood) => State::ClientNotify { error: "Bridge error" },
            (State::ClientNotify { error }, Event::SshDisconnect) => {
                if str_eq(error, "Bridge error") {
                    State::Idle
                } else {
                    State::Failure("fail")
                }
            },
            (State::StoreEnvVars, Event::SshSettingsChanged) => State::SshReconf,
            (State::SshReconf, Event::AllGood) => State::TaskSpawning { name: "ssh" },
            (State::StoreEnvVars, Event::UartSettingsChanged) => State::UartReconf,
            (State::UartReconf, Event::AllGood) => State::TaskSpawning { name: "uart" },
            (State::StoreEnvVars, Event::WifiSettingsChanged) => State::WifiReconf,
            (State::WifiReconf, Event::AllGood) => State::TcpInit,
            _ => State::Failure("fail"),
        };
    }

    /// Does the work of the current state, every piece of which succeeds,
    /// and reports the event it produced.
    pub fn run(&mut self) -> (r: Event)
        ensures
            r == run_event(old(self).state),
            final(self).state == old(self).state,
            final(self).task_ok == flags_after_run(old(self).state, old(self).task_ok),
            final(self).settings.wifi_mode == wifi_mode_after_run(
                old(self).state,
                old(self).settings.wifi_mode,
            ),
            old(self).state == State::StoreEnvVars ==> {
                &&& final(self).settings.uart_baud == Some(9600u32)
                &&& final(self).settings.ssh_password matches Some(p)
                &&& password_chars(p) == Seq::<char>::empty()
            },
            old(self).state != State::StoreEnvVars ==> final(self).settings == old(self).settings,
    {
        proof {
            lemma_task_names_differ();
        }
        let event: Event;
        event = match self.state {
            State::Failure(_) => Event::Fail,
            State::Start => Event::AllGood,
            State::PowerOn => self.power_on(true),
            State::InitPeripherals => self.init_peripherals(true),
            State::TcpInit => self.tcp_init(true),
            State::TcpStartDefault => self.tcp_start(None),
            State::TcpStartApMode => self.tcp_start(Some(WifiMode::ApMode)),
            State::TcpStartStaMode => self.tcp_start(Some(WifiMode::StaMode)),
            State::TaskSpawning { name } => {
                if str_eq(name, "ssh") {
                    self.spawn_tasks("ssh")
                } else if str_eq(name, "uart") {
                    self.spawn_tasks("uart")
                } else {
                    Event::Fail
                }
            },
            State::TaskRunning { name } => {
                if str_eq(name, "ssh") {
                    self.run_tasks("ssh")
                } else if str_eq(name, "uart") {
                    self.run_tasks("uart")
                } else {
                    Event::Fail
                }
            },
            State::AllTasksOk => self.all_tasks_ok(true),
            State::BridgeInit => self.bridge_up(true),
            State::Idle => self.idle(true),
            State::ClientConnecting => self.connect_client(true),
            State::AuthzChecks => self.authorization_checks(true),
            State::SshConnInit => self.ssh_connection_initialisation(true),
            State::ReadEnvVars => self.read_env_vars(true),
            State::StoreEnvVars => self.store_env_vars(true),
            State::SshReconf => self.send_notification(Event::SshSettingsChanged),
            State::UartReconf => self.send_notification(Event::UartSettingsChanged),
            State::WifiReconf => self.send_notification(Event::WifiSettingsChanged),
            State::SshUartBridgeEstablished => self.ssh_uart_bridge_established(true),
            State::ClientConnectedNoBridge => self.client_connected_no_bridge(true),
            State::ClientNotify { error } => {
                if str_eq(error, "Bridge error") {
                    self.notify_client("no bridge")
                } else {
                    Event::Fail
                }
            },
            _ => Event::Fail,
        };
        event
    }

    /// One round of the simulation's loop: does the current state's work,
    /// then takes the transition for the event it reported.
    pub fn step(&mut self) -> (e: Event)
        ensures
            e == run_event(old(self).state),
            final(self).task_ok == flags_after_run(old(self).state, old(self).task_ok),
            final(self).settings.wifi_mode == wifi_mode_after_run(
                old(self).state,
                old(self).settings.wifi_mode,
            ),
            final(self).state == next_state(
                old(self).state,
                e,
                final(self).settings.wifi_mode,
                final(self).task_ok,
            ),
            old(self).state == State::StoreEnvVars ==> {
                &&& final(self).settings.uart_baud == Some(9600u32)
                &&& final(self).settings.ssh_password matches Some(p)
                &&& password_chars(p) == Seq::<char>::empty()
            },
            old(self).state != State::StoreEnvVars ==> final(self).settings == old(self).settings,
    {
        let event = self.run();
        self.next(event);
        event
    }

    /// Whether the simulation has failed, which ends its loop.
    pub fn halted(&self) -> (h: bool)
        ensures
            h == (self.state is Failure),
    {
        match self.state {
            State::Failure(_) => true,
            _ => false,
        }
    }

    pub fn power_on(&self, powergood: bool) -> (r: Event)
        ensures
            r == choose_event(powergood, Event::AllGood, Event::Fail),
    {
        if powergood {
            Event::AllGood
        } else {
            Event::Fail
        }
    }

    pub fn init_peripherals(&self, peripheralgood: bool) -> (r: Event)
        ensures
            r == choose_event(peripheralgood, Event::AllGood, Event::Fail),
    {
        if peripheralgood {
            Event::AllGood
        } else {
            Event::Fail
        }
    }

    pub fn tcp_init(&self, tcp_init_good: bool) -> (r: Event)
        ensures
            r == choose_event(tcp_init_good, Event::AllGood, Event::Fail),
    {
        if tcp_init_good {
            Event::AllGood
        } else {
            Event::Fail
        }
    }

    /// The link comes up in the requested mode.
    pub fn tcp_start(&self, wifimode: Option<WifiMode>) -> (r: Event)
        ensures
            r == link_up_event(wifimode),
    {
        match wifimode {
            None => Event::DefaultModeUp,
            Some(WifiMode::ApMode) => Event::ApModeUp,
            Some(WifiMode::StaMode) => Event::StaModeUp,
        }
    }

    /// Spawning a task: only the `ssh` and `uart` tasks exist.
    pub fn spawn_tasks(&self, task: &str) -> (r: Event)
        ensures
            r == choose_event(known_task(task@), Event::AllGood, Event::Fail),
    {
        if str_eq(task, "ssh") {
            Event::AllGood
        } else if str_eq(task, "uart") {
            Event::AllGood
        } else {
            Event::Fail
        }
    }

    /// Running a task: running the SSH task marks it as good.
    pub fn run_tasks(&mut self, task: &str) -> (r: Event)
        ensures
            r == choose_event(known_task(task@), Event::AllGood, Event::Fail),
            final(self).task_ok == flags_after_run(
                State::TaskRunning { name: task },
                old(self).task_ok,
            ),
            final(self).state == old(self).state,
            final(self).settings == old(self).settings,
    {
        if str_eq(task, "ssh") {
            self.task_ok.ssh = true;
            Event::AllGood
        } else if str_eq(task, "uart") {
            Event::AllGood
        } else {
            Event::Fail
        }
    }

    pub fn all_tasks_ok(&self, all_tasks_ok: bool) -> (r: Event)
        ensures
            r == choose_event(all_tasks_ok, Event::AllGood, Event::Fail),
    {
        if all_tasks_ok {
            Event::AllGood
        } else {
            Event::Fail
        }
    }

    pub fn bridge_up(&self, bridge_up: bool) -> (r: Event)
        ensures
            r == choose_event(bridge_up, Event::AllGood, Event::Fail),
    {
        if bridge_up {
            Event::AllGood
        } else {
            Event::Fail
        }
    }

    /// A client either connects or the wait times out.
    pub fn idle(&self, connect_client: bool) -> (r: Event)
        ensures
            r == choose_event(connect_client, Event::ClientConnect, Event::Timeout),
    {
        if connect_client {
            Event::ClientConnect
        } else if connect_client == false {
            Event::Timeout
        } else {
            Event::AllGood
        }
    }

    pub fn connect_client(&self, connect_client: bool) -> (r: Event)
        ensures
            r == choose_event(connect_client, Event::AllGood, Event::Fail),
    {
        if connect_client {
            Event::AllGood
        } else {
            Event::Fail
        }
    }

    pub fn authorization_checks(&self, authz_checks: bool) -> (r: Event)
        ensures
            r == choose_event(authz_checks, Event::AllGood, Event::AccessDenied),
    {
        if authz_checks {
            Event::AllGood
        } else {
            Event::AccessDenied
        }
    }

    pub fn ssh_connection_initialisation(&self, ssh_connection: bool) -> (r: Event)
        ensures
            r == choose_event(ssh_connection, Event::AllGood, Event::Fail),
    {
        if ssh_connection {
            Event::AllGood
        } else {
            Event::Fail
        }
    }

    pub fn read_env_vars(&self, read_env_vars_ok: bool) -> (r: Event)
        ensures
            r == choose_event(read_env_vars_ok, Event::AllGood, Event::Fail),
    {
        if read_env_vars_ok {
            Event::AllGood
        } else {
            Event::Fail
        }
    }

    /// Storing the client's settings: on success the stamp switches to
    /// access-point mode at 9600 baud with an empty SSH password.
    pub fn store_env_vars(&mut self, store_env_vars_ok: bool) -> (r: Event)
        ensures
            r == choose_event(store_env_vars_ok, Event::AllGood, Event::Fail),
            final(self).state == old(self).state,
            final(self).task_ok == old(self).task_ok,
            store_env_vars_ok ==> {
                &&& final(self).settings.wifi_mode == Some(WifiMode::ApMode)
                &&& final(self).settings.uart_baud == Some(9600u32)
                &&& final(self).settings.ssh_password matches Some(p)
                &&& password_chars(p) == Seq::<char>::empty()
            },
            !store_env_vars_ok ==> final(self).settings == old(self).settings,
    {
        if store_env_vars_ok {
            self.settings.wifi_mode = Some(WifiMode::ApMode);
            self.settings.uart_baud = Some(9600);
            self.settings.ssh_password = Some(empty_password());
            Event::AllGood
        } else {
            Event::Fail
        }
    }

    /// Only the three settings-change events are notifications.
    pub fn send_notification(&self, notification_type: Event) -> (r: Event)
        ensures
            r == choose_event(is_settings_change(notification_type), Event::AllGood, Event::Fail),
    {
        match notification_type {
            Event::SshSettingsChanged => Event::AllGood,
            Event::UartSettingsChanged => Event::AllGood,
            Event::WifiSettingsChanged => Event::AllGood,
            _ => Event::Fail,
        }
    }

    /// A client that left the bridged session is disconnected.
    pub fn ssh_uart_bridge_established(&self, client_disconnect: bool) -> (r: Event)
        ensures
            r == choose_event(client_disconnect, Event::SshDisconnect, Event::AllGood),
    {
        if client_disconnect {
            Event::SshDisconnect
        } else {
            Event::AllGood
        }
    }

    pub fn client_connected_no_bridge(&self, notify_prepared: bool) -> (r: Event)
        ensures
            r == choose_event(notify_prepared, Event::AllGood, Event::Fail),
    {
        if notify_prepared {
            Event::AllGood
        } else {
            Event::Fail
        }
    }

    /// Telling the client there is no bridge disconnects it; any other notice
    /// is a failure.
    pub fn notify_client(&self, client_notified: &str) -> (r: Event)
        ensures
            r == choose_event(client_notified@ == "no bridge"@, Event::SshDisconnect, Event::Fail),
    {
        if str_eq(client_notified, "no bridge") {
            Event::SshDisconnect
        } else {
            Event::Fail
        }
    }
}

} // verus!
