use ssh_stamp::fsm::{Event, State, StateMachine, WifiMode};

#[test]
fn next_power_on_to_init_peripherals() {
    let mut state_machine = StateMachine::new();
    let event: Event = Event::AllGood;
    state_machine.next(event);
    assert_eq!(state_machine.state, State::InitPeripherals);
}

#[test]
fn net_power_on_not_good() {
    let mut state_machine = StateMachine::new();
    let event: Event = Event::Fail;
    state_machine.next(event);
    assert_eq!(state_machine.state, State::Failure("fail"));
}

#[test]
fn next_reset_to_init_peripherals() {
    let mut state_machine = StateMachine::new();
    state_machine.state = State::Reset;
    let event: Event = Event::AllGood;
    state_machine.next(event);
    assert_eq!(state_machine.state, State::InitPeripherals);
}

#[test]
fn next_init_peripherals_fail() {
    let mut state_machine = StateMachine::new();
    state_machine.state = State::InitPeripherals;
    let event: Event = Event::Fail;
    state_machine.next(event);
    assert_eq!(state_machine.state, State::Reset);
}

#[test]
fn next_init_peripherals_to_tcp_init() {
    let mut state_machine = StateMachine::new();
    state_machine.state = State::InitPeripherals;
    let event: Event = Event::AllGood;
    state_machine.next(event);
    assert_eq!(state_machine.state, State::TcpInit);
}

#[test]
fn next_tcp_init_to_tcp_start_default() {
    let mut state_machine = StateMachine::new();
    state_machine.state = State::TcpInit;
    let event: Event = Event::StartDefaultAp;
    state_machine.next(event);
    assert_eq!(state_machine.state, State::TcpStartDefault);
}

#[test]
fn next_tcp_start_default_to_ssh() {
    let mut state_machine = StateMachine::new();
    state_machine.state = State::TcpStartDefault;
    let event: Event = Event::AllGood;
    state_machine.next(event);
    assert_eq!(state_machine.state, State::TaskSpawning { name: ("ssh") });
}

#[test]
fn next_tcp_start_default_fail() {
    let mut state_machine = StateMachine::new();
    state_machine.state = State::TcpStartDefault;
    let event: Event = Event::Fail;
    state_machine.next(event);
    assert_eq!(state_machine.state, State::Reset);
}

#[test]
fn next_tcp_init_to_tcp_start_ap_mode() {
    let mut state_machine = StateMachine::new();
    state_machine.state = State::TcpInit;
    let event: Event = Event::StartApMode;
    state_machine.settings.wifi_mode = Some(WifiMode::ApMode);
    state_machine.next(event);
    assert_eq!(state_machine.state, State::TcpStartApMode);
}

#[test]
fn next_tcp_start_ap_mode_to_ssh() {
    let mut state_machine = StateMachine::new();
    state_machine.state = State::TcpStartApMode;
    let event: Event = Event::AllGood;
    state_machine.next(event);
    assert_eq!(state_machine.state, State::TaskSpawning { name: ("ssh") });
}

#[test]
fn next_tcp_start_ap_mode_fail() {
    let mut state_machine = StateMachine::new();
    state_machine.state = State::TcpStartApMode;
    let event: Event = Event::Fail;
    state_machine.next(event);
    assert_eq!(state_machine.state, State::Reset);
}

#[test]
fn next_tcp_init_to_tcp_start_sta_mode() {
    let mut state_machine = StateMachine::new();
    state_machine.state = State::TcpInit;
    let event: Event = Event::StartStaMode;
    state_machine.settings.wifi_mode = Some(WifiMode::StaMode);
    state_machine.next(event);
    assert_eq!(state_machine.state, State::TcpStartStaMode);
}

#[test]
fn next_tcp_start_sta_mode_to_ssh() {
    let mut state_machine = StateMachine::new();
    state_machine.state = State::TcpStartStaMode;
    let event: Event = Event::AllGood;
    state_machine.next(event);
    assert_eq!(state_machine.state, State::TaskSpawning { name: ("ssh") });
}

#[test]
fn next_tcp_start_sta_mode_fail() {
    let mut state_machine = StateMachine::new();
    state_machine.state = State::TcpStartStaMode;
    let event: Event = Event::Fail;
    state_machine.next(event);
    assert_eq!(state_machine.state, State::Reset);
}

#[test]
fn next_ssh_init_to_ssh_running() {
    let mut state_machine = StateMachine::new();
    state_machine.state = State::TaskSpawning { name: ("ssh") };
    let event: Event = Event::AllGood;
    state_machine.next(event);
    assert_eq!(state_machine.state, State::TaskRunning { name: ("ssh") });
}

#[test]
fn next_ssh_running_to_uart_init() {
    let mut state_machine = StateMachine::new();
    state_machine.state = State::TaskRunning { name: ("ssh") };
    let event: Event = Event::AllGood;
    // let settings: Settings = setup_settings();
    // let tasks_ok: TaskOk = setup_tasks();
    state_machine.next(event);
    assert_eq!(state_machine.state, State::TaskSpawning { name: ("uart") });
}

#[test]
fn next_uart_init_to_uart_running() {
    let mut state_machine = StateMachine::new();
    state_machine.state = State::TaskSpawning { name: ("uart") };
    let event: Event = Event::AllGood;
    state_machine.next(event);
    assert_eq!(state_machine.state, State::TaskRunning { name: ("uart") });
}

#[test]
fn next_uart_running_to_bridge_init() {
    let mut state_machine = StateMachine::new();
    state_machine.state = State::TaskRunning { name: ("uart") };
    let event: Event = Event::AllGood;
    state_machine.next(event);
    assert_eq!(state_machine.state, State::BridgeInit);
}

#[test]
fn next_uart_running_fail_to_idle() {
    let mut state_machine = StateMachine::new();
    state_machine.state = State::TaskRunning { name: ("uart") };
    let event: Event = Event::Fail;
    state_machine.next(event);
    assert_eq!(state_machine.state, State::Idle);
}

#[test]
fn next_bridge_init_to_idle() {
    let mut state_machine = StateMachine::new();
    state_machine.state = State::BridgeInit;
    let event: Event = Event::AllGood;
    state_machine.next(event);
    assert_eq!(state_machine.state, State::Idle);
}

#[test]
fn next_bridge_init_fail_to_idle() {
    let mut state_machine = StateMachine::new();
    state_machine.state = State::BridgeInit;
    let event: Event = Event::Fail;
    state_machine.next(event);
    assert_eq!(state_machine.state, State::Idle);
}

#[test]
fn next_idle_to_client_connecting() {
    let mut state_machine = StateMachine::new();
    state_machine.state = State::Idle;
    let event: Event = Event::ClientConnect;
    state_machine.next(event);
    assert_eq!(state_machine.state, State::ClientConnecting);
}

#[test]
fn next_client_connecting_to_timeout() {
    let mut state_machine = StateMachine::new();
    state_machine.state = State::ClientConnecting;
    let event: Event = Event::Timeout;
    state_machine.next(event);
    assert_eq!(state_machine.state, State::Idle);
}

#[test]
fn next_client_connecting_authorisation_checks() {
    let mut state_machine = StateMachine::new();
    state_machine.state = State::ClientConnecting;
    let event: Event = Event::AllGood;
    state_machine.next(event);
    assert_eq!(state_machine.state, State::AuthzChecks);
}

#[test]
fn next_authorisation_checks_to_timeout() {
    let mut state_machine = StateMachine::new();
    state_machine.state = State::AuthzChecks;
    let event: Event = Event::Timeout;
    state_machine.next(event);
    assert_eq!(state_machine.state, State::Idle);
}

#[test]
fn next_authorisation_checks_to_access_denied() {
    let mut state_machine = StateMachine::new();
    state_machine.state = State::AuthzChecks;
    let event: Event = Event::AccessDenied;
    state_machine.next(event);
    assert_eq!(state_machine.state, State::Idle);
}

#[test]
fn next_authorisation_checks_to_access_granted() {
    let mut state_machine = StateMachine::new();
    state_machine.state = State::AuthzChecks;
    let event: Event = Event::AllGood;
    state_machine.next(event);
    assert_eq!(state_machine.state, State::SshConnInit);
}

#[test]
fn next_ssh_init_to_read_env_vars() {
    let mut state_machine = StateMachine::new();
    state_machine.state = State::SshConnInit;
    let event: Event = Event::AllGood;
    state_machine.next(event);
    assert_eq!(state_machine.state, State::ReadEnvVars);
}

#[test]
fn next_ssh_init_dropped() {
    let mut state_machine = StateMachine::new();
    state_machine.state = State::SshConnInit;
    let event: Event = Event::SshDisconnect;
    state_machine.next(event);
    assert_eq!(state_machine.state, State::Idle);
}

#[test]
fn next_read_env_vars_validation_error() {
    let mut state_machine = StateMachine::new();
    state_machine.state = State::ReadEnvVars;
    let event: Event = Event::Fail;
    state_machine.next(event);
    assert_eq!(
        state_machine.state,
        State::ClientNotify {
            error: ("Input validation error")
        }
    );
}

#[test]
fn next_notify_validation_error_to_idle() {
    let mut state_machine = StateMachine::new();
    state_machine.state = State::ClientNotify {
        error: ("Input validation error"),
    };
    let event: Event = Event::AllGood;
    state_machine.next(event);
    assert_eq!(state_machine.state, State::Idle);
}

#[test]
fn next_read_env_vars_ok() {
    let mut state_machine = StateMachine::new();
    state_machine.state = State::ReadEnvVars;
    let event: Event = Event::AllGood;
    state_machine.next(event);
    assert_eq!(state_machine.state, State::StoreEnvVars);
}

#[test]
fn next_store_env_vars_no_change_bridge_ok() {
    let mut state_machine = StateMachine::new();
    state_machine.state = State::StoreEnvVars;
    let event: Event = Event::AllGood;
    state_machine.task_ok.bridge = true;
    state_machine.next(event);
    assert_eq!(state_machine.state, State::CheckBridge);
}

#[test]
fn next_client_connected_ssh_uart_bridge_to_disconnect() {
    let mut state_machine = StateMachine::new();
    state_machine.state = State::SshUartBridgeEstablished;
    let event: Event = Event::SshDisconnect;
    state_machine.task_ok.bridge = true;
    state_machine.next(event);
    assert_eq!(state_machine.state, State::Idle);
}

#[test]
fn next_bridge_check_ok() {
    let mut state_machine = StateMachine::new();
    state_machine.state = State::CheckBridge;
    let event: Event = Event::AllGood;
    state_machine.task_ok.bridge = true;
    state_machine.next(event);
    assert_eq!(state_machine.state, State::SshUartBridgeEstablished);
}

#[test]
fn next_bridge_check_error() {
    let mut state_machine = StateMachine::new();
    state_machine.state = State::CheckBridge;
    let event: Event = Event::Fail;
    state_machine.next(event);
    assert_eq!(state_machine.state, State::ClientConnectedNoBridge);
}

#[test]
fn next_client_connected_bridge_error_to_notify() {
    let mut state_machine = StateMachine::new();
    state_machine.state = State::ClientConnectedNoBridge;
    let event: Event = Event::AllGood;
    state_machine.next(event);
    assert_eq!(
        state_machine.state,
        State::ClientNotify {
            error: ("Bridge error")
        }
    );
}

#[test]
fn next_bridge_error_notify_to_disconnect() {
    let mut state_machine = StateMachine::new();
    state_machine.state = State::ClientNotify {
        error: ("Bridge error"),
    };
    let event: Event = Event::SshDisconnect;
    state_machine.next(event);
    assert_eq!(state_machine.state, State::Idle);
}

#[test]
fn next_store_env_vars_ssh_changed() {
    let mut state_machine = StateMachine::new();
    state_machine.state = State::StoreEnvVars;
    let event: Event = Event::SshSettingsChanged;
    state_machine.next(event);
    assert_eq!(state_machine.state, State::SshReconf);
}

#[test]
fn next_ssh_changed_to_ssh_init() {
    let mut state_machine = StateMachine::new();
    state_machine.state = State::SshReconf;
    let event: Event = Event::AllGood;
    state_machine.next(event);
    assert_eq!(state_machine.state, State::TaskSpawning { name: ("ssh") });
}

#[test]
fn next_store_env_vars_wifi_changed() {
    let mut state_machine = StateMachine::new();
    state_machine.state = State::StoreEnvVars;
    let event: Event = Event::WifiSettingsChanged;
    state_machine.next(event);
    assert_eq!(state_machine.state, State::WifiReconf);
}

#[test]
fn next_wifi_changed_to_tcp_init() {
    let mut state_machine = StateMachine::new();
    state_machine.state = State::WifiReconf;
    let event: Event = Event::AllGood;
    state_machine.next(event);
    assert_eq!(state_machine.state, State::TcpInit);
}

#[test]
fn next_store_env_vars_uart_changed() {
    let mut state_machine = StateMachine::new();
    state_machine.state = State::StoreEnvVars;
    let event: Event = Event::UartSettingsChanged;
    state_machine.next(event);
    assert_eq!(state_machine.state, State::UartReconf);
}

#[test]
fn next_uart_changed_to_uart_init() {
    let mut state_machine = StateMachine::new();
    state_machine.state = State::UartReconf;
    let event: Event = Event::AllGood;
    state_machine.next(event);
    assert_eq!(state_machine.state, State::TaskSpawning { name: ("uart") });
}
