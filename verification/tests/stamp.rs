use ssh_stamp::stamp;
use ssh_stamp::stamp::serve;
use ssh_stamp::stamp::settings;

#[test]
fn stamp_tasks_succeed_at_once() {
    assert!(stamp::power_on());
    assert!(stamp::uart_task());
    assert!(settings::read_env_vars());
    assert!(settings::store_env_vars());
    assert!(serve::authentication().is_ok());
    assert!(serve::ssh_client_connected().is_ok());
    assert!(serve::ssh_client_connected_no_bridge().is_ok());
}

#[test]
fn notify_client_delivers_the_no_bridge_notice() {
    assert!(serve::notify_client("no bridge").is_ok());
}

#[test]
fn notify_client_refuses_other_notices() {
    for notice in ["", "Bridge error", "no bridge!"] {
        match serve::notify_client(notice) {
            Err(sunset::Error::Custom { msg }) => assert_eq!(msg, "no bridge"),
            other => panic!("unexpected answer {:?}", other),
        }
    }
}

use ssh_stamp::stamp::serve::{connection_step, ServerAction, ServerEvent};

#[test]
fn connection_loop_bridges_an_opened_session() {
    let events = [
        (ServerEvent::Hostkeys, ServerAction::SendHostkeys),
        (ServerEvent::FirstAuth, ServerAction::RecordUsername),
        (ServerEvent::PasswordAuth, ServerAction::AllowAuth),
        (ServerEvent::OpenSession, ServerAction::AcceptSession),
        (ServerEvent::SessionPty, ServerAction::SucceedRequest),
        (ServerEvent::SessionShell, ServerAction::StartBridge),
        (ServerEvent::SessionShell, ServerAction::FailRequest),
        (ServerEvent::SessionExec, ServerAction::FailRequest),
        (ServerEvent::PubkeyAuth, ServerAction::AllowAuth),
        (ServerEvent::Other, ServerAction::Ignore),
        (ServerEvent::Defunct, ServerAction::Stop),
    ];
    let mut open = false;
    let mut accepted: u32 = 0;
    let mut bridged: u32 = 0;
    for (event, expected) in events {
        let (now_open, action) = connection_step(open, event);
        assert_eq!(action, expected);
        if action == ServerAction::AcceptSession {
            accepted += 1;
            assert!(now_open);
        }
        if action == ServerAction::StartBridge {
            bridged += 1;
            assert!(!now_open);
        }
        open = now_open;
    }
    assert_eq!(accepted, bridged);
    assert!(!open);
}

#[test]
fn shell_request_without_session_is_refused() {
    assert_eq!(connection_step(false, ServerEvent::SessionShell), (false, ServerAction::FailRequest));
    assert_eq!(connection_step(true, ServerEvent::SessionPty), (true, ServerAction::SucceedRequest));
}

use ssh_stamp::stamp::espressif::net::{gateway_ip, gateway_ip_text, network_seed};

#[test]
fn gateway_defaults_to_192_168_0_1() {
    assert_eq!(gateway_ip_text(None), "192.168.0.1");
    assert_eq!(gateway_ip(None).map(|a| a.octets()), Some([192, 168, 0, 1]));
    assert_eq!(gateway_ip_text(Some("10.0.0.2")), "10.0.0.2");
    assert_eq!(gateway_ip(Some("10.0.0.2")).map(|a| a.octets()), Some([10, 0, 0, 2]));
    assert_eq!(gateway_ip(Some("gateway")), None);
    assert_eq!(gateway_ip(Some("256.0.0.1")), None);
}

#[test]
fn network_seed_puts_high_word_above_low_word() {
    assert_eq!(network_seed(0x1234_5678, 0x9abc_def0), 0x1234_5678_9abc_def0);
    assert_eq!(network_seed(0, 7), 7);
    assert_eq!(network_seed(u32::MAX, u32::MAX), u64::MAX);
}
