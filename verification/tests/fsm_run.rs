use ssh_stamp::fake_stamp;
use ssh_stamp::fake_stamp::espressif::net;
use ssh_stamp::fake_stamp::{serial, serve, settings};
use ssh_stamp::fsm::{host_answer, Event, EventResponse, Poll, PollRequest, State, StateMachine, WifiMode};

fn fail_pending() -> EventResponse<bool> {
    EventResponse { event: Event::Fail, response: Poll::Pending }
}

#[test]
fn host_polls_never_complete() {
    assert_eq!(fake_stamp::poll_power_on(), Poll::Pending);
    assert_eq!(fake_stamp::poll_init_peripherals(), Poll::Pending);
    assert_eq!(fake_stamp::poll_uart_task(), Poll::Pending);
    assert_eq!(serial::poll_serial_bridge(), Poll::Pending);
    assert_eq!(serve::poll_connection_loop(), Poll::Pending);
    assert_eq!(serve::poll_authentication(), Poll::Pending);
    assert_eq!(serve::poll_handle_ssh_client(), Poll::Pending);
    assert_eq!(serve::poll_connect_ssh_client(), Poll::Pending);
    assert_eq!(serve::poll_ssh_client_connected(), Poll::Pending);
    assert_eq!(serve::poll_ssh_client_connected_no_bridge(), Poll::Pending);
    assert_eq!(serve::poll_notify_client("no bridge"), Poll::Pending);
    assert_eq!(settings::poll_read_env_vars(), Poll::Pending);
    assert_eq!(settings::poll_store_env_vars(), Poll::Pending);
    assert_eq!(net::poll_if_up(), Poll::Pending);
    assert_eq!(net::poll_accept_requests(), Poll::Pending);
    assert_eq!(net::poll_wifi_mode_up(Some(WifiMode::StaMode)), Poll::Pending);
    assert_eq!(net::poll_net_up(), Poll::Pending);
    assert_eq!(net::poll_dhcp_server(), Poll::Pending);
}

#[test]
fn new_machine_is_powered_off_and_unconfigured() {
    let state_machine = StateMachine::new();
    assert_eq!(state_machine.state, State::PowerOn);
    assert_eq!(state_machine.settings.wifi_mode, None);
    assert_eq!(state_machine.settings.ssh_password, None);
    assert_eq!(state_machine.settings.uart_baud, None);
    assert!(!state_machine.task_ok.ssh && !state_machine.task_ok.uart && !state_machine.task_ok.bridge);
}

#[test]
fn run_waits_on_every_host_peripheral() {
    let polled = [
        State::PowerOn,
        State::InitPeripherals,
        State::TcpStartDefault,
        State::TcpStartApMode,
        State::TcpStartStaMode,
        State::TaskRunning { name: "ssh" },
        State::TaskRunning { name: "uart" },
        State::BridgeInit,
        State::Idle,
        State::ClientConnecting,
        State::AuthzChecks,
        State::SshConnInit,
        State::ReadEnvVars,
        State::StoreEnvVars,
        State::SshUartBridgeEstablished,
        State::ClientConnectedNoBridge,
        State::ClientNotify { error: "Bridge error" },
    ];
    for state in polled {
        let mut state_machine = StateMachine::new();
        state_machine.state = state;
        let response = state_machine.run::<bool>();
        assert_eq!(response, fail_pending());
        assert_eq!(state_machine.state, state);
        assert!(!state_machine.task_ok.ssh && !state_machine.task_ok.uart && !state_machine.task_ok.bridge);
        assert_eq!(state_machine.settings.wifi_mode, None);
    }
}

#[test]
fn run_without_peripherals_completes_at_once() {
    let mut state_machine = StateMachine::new();
    state_machine.state = State::Start;
    assert_eq!(state_machine.run::<bool>(), EventResponse { event: Event::AllGood, response: Poll::Ready(true) });

    state_machine.state = State::TcpInit;
    state_machine.settings.wifi_mode = Some(WifiMode::StaMode);
    assert_eq!(state_machine.run::<bool>().event, Event::StartStaMode);

    state_machine.state = State::TaskSpawning { name: "uart" };
    assert_eq!(state_machine.run::<bool>(), EventResponse { event: Event::AllGood, response: Poll::Ready(true) });

    for state in [State::SshReconf, State::UartReconf, State::WifiReconf] {
        state_machine.state = state;
        assert_eq!(state_machine.run::<bool>(), EventResponse { event: Event::AllGood, response: Poll::Ready(true) });
    }

    state_machine.state = State::CheckBridge;
    assert_eq!(state_machine.run::<bool>(), EventResponse { event: Event::Fail, response: Poll::Ready(false) });
    state_machine.task_ok.bridge = true;
    assert_eq!(state_machine.run::<bool>(), EventResponse { event: Event::AllGood, response: Poll::Ready(true) });

    state_machine.state = State::AllTasksOk;
    assert_eq!(state_machine.run::<bool>(), EventResponse { event: Event::Fail, response: Poll::Ready(false) });
    state_machine.task_ok.ssh = true;
    state_machine.task_ok.uart = true;
    assert_eq!(state_machine.run::<bool>(), EventResponse { event: Event::AllGood, response: Poll::Ready(true) });
}

#[test]
fn run_has_no_work_for_unknown_states() {
    let unknown = [
        State::Reset,
        State::Failure("fail"),
        State::Timeout,
        State::BridgeUp,
        State::TcpCheckSettings,
        State::TcpStackUp,
        State::TaskSpawning { name: "sftp" },
        State::TaskRunning { name: "" },
        State::TaskFailed { name: "ssh" },
        State::ClientConnected,
        State::SshConnEstablished,
        State::ClientNotify { error: "Input validation error" },
    ];
    for state in unknown {
        let mut state_machine = StateMachine::new();
        state_machine.state = state;
        assert_eq!(state_machine.run::<bool>(), fail_pending());
        assert_eq!(state_machine.state, state);
    }
}

#[test]
fn next_leaves_settings_and_flags_alone() {
    let mut state_machine = StateMachine::new();
    state_machine.state = State::StoreEnvVars;
    state_machine.settings.uart_baud = Some(115200);
    state_machine.task_ok.uart = true;
    state_machine.next(Event::AllGood);
    assert_eq!(state_machine.state, State::CheckBridge);
    assert_eq!(state_machine.settings.uart_baud, Some(115200));
    assert!(state_machine.task_ok.uart && !state_machine.task_ok.ssh && !state_machine.task_ok.bridge);
}

#[test]
fn task_names_are_matched_by_content() {
    let owned = String::from("ssh");
    let mut state_machine = StateMachine::new();
    state_machine.state = State::TaskSpawning { name: owned.as_str() };
    state_machine.next(Event::AllGood);
    assert_eq!(state_machine.state, State::TaskRunning { name: "ssh" });

    let state_machine = StateMachine::new();
    assert_eq!(state_machine.spawn_tasks("ssh ").event, Event::Fail);
    assert_eq!(state_machine.spawn_tasks("uart").event, Event::AllGood);
}

#[test]
fn unknown_task_is_never_marked() {
    let mut state_machine = StateMachine::new();
    let response = state_machine.run_tasks("bridge", Poll::Ready(true));
    assert_eq!(response, EventResponse { event: Event::Fail, response: Poll::Ready(false) });
    assert!(!state_machine.task_ok.ssh && !state_machine.task_ok.uart && !state_machine.task_ok.bridge);
}

#[test]
fn store_env_vars_keeps_settings_unless_stored() {
    let mut state_machine = StateMachine::new();
    state_machine.settings.uart_baud = Some(115200);
    state_machine.store_env_vars(Poll::Ready(false));
    assert_eq!(state_machine.settings.uart_baud, Some(115200));
    assert_eq!(state_machine.settings.wifi_mode, None);
    let response = state_machine.store_env_vars(Poll::Ready(true));
    assert_eq!(response.event, Event::AllGood);
    assert_eq!(state_machine.settings.uart_baud, Some(9600));
    assert_eq!(state_machine.settings.ssh_password.as_ref().map(|p| p.len()), Some(0));
}

#[test]
fn each_state_polls_its_own_peripheral() {
    let expected = [
        (State::PowerOn, PollRequest::PowerOn),
        (State::InitPeripherals, PollRequest::InitPeripherals),
        (State::TcpStartDefault, PollRequest::WifiModeUp(None)),
        (State::TcpStartApMode, PollRequest::WifiModeUp(Some(WifiMode::ApMode))),
        (State::TcpStartStaMode, PollRequest::WifiModeUp(Some(WifiMode::StaMode))),
        (State::TaskRunning { name: "ssh" }, PollRequest::SshClient),
        (State::TaskRunning { name: "uart" }, PollRequest::UartTask),
        (State::BridgeInit, PollRequest::SerialBridge),
        (State::Idle, PollRequest::AcceptRequests),
        (State::ClientConnecting, PollRequest::SshClient),
        (State::AuthzChecks, PollRequest::ConnectionLoop),
        (State::SshConnInit, PollRequest::ConnectSshClient),
        (State::ReadEnvVars, PollRequest::ReadEnvVars),
        (State::StoreEnvVars, PollRequest::StoreEnvVars),
        (State::SshUartBridgeEstablished, PollRequest::ClientConnected),
        (State::ClientConnectedNoBridge, PollRequest::ClientConnectedNoBridge),
        (State::ClientNotify { error: "Bridge error" }, PollRequest::NotifyClient("no bridge")),
        (State::ClientNotify { error: "Input validation error" }, PollRequest::NoPoll),
        (State::TcpInit, PollRequest::NoPoll),
        (State::CheckBridge, PollRequest::NoPoll),
        (State::TaskSpawning { name: "ssh" }, PollRequest::NoPoll),
        (State::Reset, PollRequest::NoPoll),
    ];
    for (state, request) in expected {
        let mut state_machine = StateMachine::new();
        state_machine.state = state;
        assert_eq!(state_machine.poll_request_for(), request);
        assert_eq!(host_answer(&request), Poll::Pending);
    }
}

#[test]
fn run_with_does_the_work_with_the_given_answer() {
    let mut state_machine = StateMachine::new();
    assert_eq!(state_machine.run_with(Poll::Ready(true)).event, Event::AllGood);
    state_machine.state = State::TaskRunning { name: "uart" };
    assert_eq!(state_machine.run_with(Poll::Ready(true)).event, Event::AllGood);
    assert!(state_machine.task_ok.uart && !state_machine.task_ok.ssh);
    state_machine.state = State::BridgeInit;
    state_machine.run_with(Poll::Ready(true));
    assert!(state_machine.task_ok.bridge);
    state_machine.state = State::Idle;
    assert_eq!(state_machine.run_with(Poll::Ready(false)).event, Event::Timeout);
    state_machine.state = State::StoreEnvVars;
    state_machine.run_with(Poll::Ready(true));
    assert_eq!(state_machine.settings.wifi_mode, Some(WifiMode::ApMode));
    assert_eq!(state_machine.settings.uart_baud, Some(9600));
    state_machine.state = State::ClientNotify { error: "Bridge error" };
    assert_eq!(state_machine.run_with(Poll::Ready(true)).event, Event::SshDisconnect);
    state_machine.state = State::Reset;
    assert_eq!(state_machine.run_with(Poll::Ready(true)), fail_pending());
    assert_eq!(state_machine.state, State::Reset);
}

#[test]
fn advance_repolls_pending_work_and_moves_on_otherwise() {
    let mut state_machine = StateMachine::new();
    assert!(!state_machine.halted());
    let report = state_machine.run_with(Poll::Pending);
    assert!(state_machine.advance(report));
    assert_eq!(state_machine.state, State::PowerOn);
    let report = state_machine.run_with(Poll::Ready(true));
    assert!(!state_machine.advance(report));
    assert_eq!(state_machine.state, State::InitPeripherals);
    let report = state_machine.run_with(Poll::Ready(false));
    assert!(!state_machine.advance(report));
    assert_eq!(state_machine.state, State::Reset);
    let report = state_machine.run::<bool>();
    assert!(state_machine.advance(report));
    assert_eq!(state_machine.state, State::Reset);
    state_machine.advance(EventResponse { event: Event::Timeout, response: Poll::Ready(true) });
    assert!(state_machine.halted());
}
