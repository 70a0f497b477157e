//! Properties of the machines that span several operations.

use vstd::prelude::*;
use crate::fsm;
use crate::sim;
use crate::stamp::serve::{connection_decision, ServerAction, ServerEvent};

verus! {

// ---------------------------------------------------------------------------
// The firmware machine
// ---------------------------------------------------------------------------

/// Once failed, the machine stays failed, whatever event arrives.
pub proof fn lemma_failure_is_final<'a>(reason: &'a str, e: fsm::Event)
    ensures
        fsm::next_state(fsm::State::Failure(reason), e) == fsm::failed::<'a>(),
{
}

/// A failure while bringing the peripherals or the network up resets the
/// machine, and a good power-up from reset starts the peripherals again.
pub proof fn lemma_bring_up_failure_resets<'a>(s: fsm::State<'a>)
    requires
        s == fsm::State::InitPeripherals || s == fsm::State::TcpInit
            || s == fsm::State::TcpStartDefault || s == fsm::State::TcpStartApMode
            || s == fsm::State::TcpStartStaMode,
    ensures
        fsm::next_state(s, fsm::Event::Fail) == fsm::State::Reset,
        fsm::next_state(fsm::State::Reset, fsm::Event::AllGood) == fsm::State::InitPeripherals,
{
}

/// The network start-up state for a configured Wi-Fi mode.
pub open spec fn start_state_for<'a>(wifi_mode: Option<fsm::WifiMode>) -> fsm::State<'a> {
    match wifi_mode {
        Some(fsm::WifiMode::ApMode) => fsm::State::TcpStartApMode,
        Some(fsm::WifiMode::StaMode) => fsm::State::TcpStartStaMode,
        None => fsm::State::TcpStartDefault,
    }
}

/// The event the TCP initialisation reports for the configured Wi-Fi mode
/// takes the machine to the start-up state for that mode, and a link that
/// comes up there goes on to spawn the SSH task.
pub proof fn lemma_tcp_init_follows_wifi_mode<'a>(wifi_mode: Option<fsm::WifiMode>)
    ensures
        fsm::next_state(fsm::State::<'a>::TcpInit, fsm::tcp_init_outcome(wifi_mode).event)
            == start_state_for::<'a>(wifi_mode),
        fsm::next_state(start_state_for::<'a>(wifi_mode), fsm::Event::AllGood)
            == (fsm::State::TaskSpawning { name: "ssh" }),
{
}

/// Work that waits on a peripheral fails while the peripheral has not
/// answered, and passes on whatever the peripheral answered; work that
/// waits on no peripheral reports the same whatever the answer.
pub proof fn lemma_only_polled_work_reads_the_answer<'a>(
    s: fsm::State<'a>,
    response: fsm::Poll<bool>,
    other: fsm::Poll<bool>,
    wifi_mode: Option<fsm::WifiMode>,
    t: fsm::TaskOk,
)
    ensures
        fsm::polls_peripheral(s) ==> fsm::work_outcome(s, fsm::Poll::Pending, wifi_mode, t)
            == fsm::unhandled(),
        fsm::polls_peripheral(s) ==> fsm::work_outcome(s, response, wifi_mode, t).response
            == response,
        !fsm::polls_peripheral(s) ==> fsm::work_outcome(s, response, wifi_mode, t)
            == fsm::work_outcome(s, other, wifi_mode, t),
{
}

/// The work of a state names a peripheral poll exactly when it waits on a
/// peripheral.
pub proof fn lemma_poll_request_matches_polled_work<'a>(s: fsm::State<'a>)
    ensures
        (fsm::poll_request(s) != fsm::PollRequest::NoPoll) == fsm::polls_peripheral(s),
{
    crate::support::lemma_task_names_differ();
}

/// No piece of work ever clears a task flag.
pub proof fn lemma_task_flags_never_cleared<'a>(
    s: fsm::State<'a>,
    response: fsm::Poll<bool>,
    t: fsm::TaskOk,
)
    ensures
        t.ssh ==> fsm::flags_after_work(s, response, t).ssh,
        t.uart ==> fsm::flags_after_work(s, response, t).uart,
        t.bridge ==> fsm::flags_after_work(s, response, t).bridge,
{
}

/// The states the machine passes through while every peripheral answers
/// with success.
pub open spec fn on_success_path<'a>(s: fsm::State<'a>) -> bool {
    match s {
        fsm::State::PowerOn | fsm::State::InitPeripherals | fsm::State::TcpInit
        | fsm::State::TcpStartDefault | fsm::State::TcpStartApMode | fsm::State::TcpStartStaMode
        | fsm::State::BridgeInit | fsm::State::Idle | fsm::State::ClientConnecting
        | fsm::State::AuthzChecks | fsm::State::SshConnInit | fsm::State::ReadEnvVars
        | fsm::State::StoreEnvVars | fsm::State::CheckBridge | fsm::State::SshUartBridgeEstablished
        | fsm::State::ClientConnectedNoBridge | fsm::State::SshReconf | fsm::State::UartReconf
        | fsm::State::WifiReconf => true,
        fsm::State::TaskSpawning { name } => fsm::known_task(name@),
        fsm::State::TaskRunning { name } => fsm::known_task(name@),
        fsm::State::ClientNotify { error } => error@ == "Bridge error"@,
        _ => false,
    }
}

/// While every peripheral answers with success, the event the work of a
/// state reports is one the transition table accepts, and it leads to
/// another state of the success path; the one exception is the bridged
/// session, whose work reports success for as long as the client stays.
pub proof fn lemma_success_stays_on_path<'a>(
    s: fsm::State<'a>,
    wifi_mode: Option<fsm::WifiMode>,
    t: fsm::TaskOk,
)
    requires
        on_success_path(s),
        s != fsm::State::<'a>::SshUartBridgeEstablished,
    ensures
        on_success_path(
            fsm::next_state(s, fsm::work_outcome(s, fsm::Poll::Ready(true), wifi_mode, t).event),
        ),
{
    crate::support::lemma_task_names_differ();
    reveal_strlit("ssh");
    reveal_strlit("uart");
}

/// When the client of the bridged session leaves, the machine goes back to
/// waiting for a client.
pub proof fn lemma_bridged_client_leaves_to_idle<'a>(wifi_mode: Option<fsm::WifiMode>, t: fsm::TaskOk)
    ensures
        fsm::next_state(
            fsm::State::<'a>::SshUartBridgeEstablished,
            fsm::work_outcome(
                fsm::State::<'a>::SshUartBridgeEstablished,
                fsm::Poll::Ready(false),
                wifi_mode,
                t,
            ).event,
        ) == fsm::State::<'a>::Idle,
{
}


/// A failure is tolerated only while bringing up the peripherals or the
/// network (which resets), by the UART task and the bridge (the stamp goes
/// on without them), while reading the client's variables (the client is
/// told) and when checking the bridge (the client is served without it).
/// From every other state, in particular from a failed SSH task, a failure
/// ends the machine.
pub proof fn lemma_failure_tolerated_only_where_recoverable<'a>(s: fsm::State<'a>)
    ensures
        fsm::next_state(s, fsm::Event::Fail) != fsm::failed::<'a>() ==> {
            ||| s == fsm::State::<'a>::InitPeripherals
            ||| s == fsm::State::<'a>::TcpInit
            ||| s == fsm::State::<'a>::TcpStartDefault
            ||| s == fsm::State::<'a>::TcpStartApMode
            ||| s == fsm::State::<'a>::TcpStartStaMode
            ||| (s matches fsm::State::TaskRunning { name } && name@ == "uart"@)
            ||| s == fsm::State::<'a>::BridgeInit
            ||| s == fsm::State::<'a>::ReadEnvVars
            ||| s == fsm::State::<'a>::CheckBridge
        },
        s matches fsm::State::TaskRunning { name } && name@ != "uart"@
            ==> fsm::next_state(s, fsm::Event::Fail) == fsm::failed::<'a>(),
        fsm::next_state(fsm::State::TaskRunning { name: "ssh" }, fsm::Event::Fail)
            == fsm::failed::<'a>(),
{
    crate::support::lemma_task_names_differ();
}

/// A client can connect only while the stamp is idle.
pub proof fn lemma_clients_connect_only_when_idle<'a>(s: fsm::State<'a>)
    ensures
        fsm::next_state(s, fsm::Event::ClientConnect) == if s == fsm::State::<'a>::Idle {
            fsm::State::<'a>::ClientConnecting
        } else {
            fsm::failed::<'a>()
        },
{
}

/// A time-out while a client connects or is checked, and a denied client,
/// take the stamp back to idle; anywhere else they end the machine.
pub proof fn lemma_timeouts_and_denials_return_to_idle<'a>(s: fsm::State<'a>)
    ensures
        fsm::next_state(s, fsm::Event::Timeout) == if s == fsm::State::<'a>::ClientConnecting
            || s == fsm::State::<'a>::AuthzChecks {
            fsm::State::<'a>::Idle
        } else {
            fsm::failed::<'a>()
        },
        fsm::next_state(s, fsm::Event::AccessDenied) == if s == fsm::State::<'a>::AuthzChecks {
            fsm::State::<'a>::Idle
        } else {
            fsm::failed::<'a>()
        },
{
}

/// A client that disconnects during the SSH set-up, from the bridged
/// session, or after being told there is no bridge leaves the stamp idle;
/// anywhere else a disconnect ends the machine.
pub proof fn lemma_disconnects_return_to_idle<'a>(s: fsm::State<'a>)
    ensures
        fsm::next_state(s, fsm::Event::SshDisconnect) == if s == fsm::State::<'a>::SshConnInit
            || s == fsm::State::<'a>::SshUartBridgeEstablished
            || (s matches fsm::State::ClientNotify { error } && error@ == "Bridge error"@) {
            fsm::State::<'a>::Idle
        } else {
            fsm::failed::<'a>()
        },
{
}

/// Settings changes are taken only right after the client's settings were
/// stored, each into its own reconfiguration state.
pub proof fn lemma_settings_changes_only_after_storing<'a>(s: fsm::State<'a>)
    ensures
        fsm::next_state(s, fsm::Event::SshSettingsChanged) == if s == fsm::State::<'a>::StoreEnvVars {
            fsm::State::<'a>::SshReconf
        } else {
            fsm::failed::<'a>()
        },
        fsm::next_state(s, fsm::Event::UartSettingsChanged) == if s == fsm::State::<'a>::StoreEnvVars {
            fsm::State::<'a>::UartReconf
        } else {
            fsm::failed::<'a>()
        },
        fsm::next_state(s, fsm::Event::WifiSettingsChanged) == if s == fsm::State::<'a>::StoreEnvVars {
            fsm::State::<'a>::WifiReconf
        } else {
            fsm::failed::<'a>()
        },
{
}

/// The network start-up events are taken only during TCP initialisation,
/// each into the start-up state of its mode.
pub proof fn lemma_start_events_only_at_tcp_init<'a>(s: fsm::State<'a>)
    ensures
        fsm::next_state(s, fsm::Event::StartDefaultAp) == if s == fsm::State::<'a>::TcpInit {
            fsm::State::<'a>::TcpStartDefault
        } else {
            fsm::failed::<'a>()
        },
        fsm::next_state(s, fsm::Event::StartApMode) == if s == fsm::State::<'a>::TcpInit {
            fsm::State::<'a>::TcpStartApMode
        } else {
            fsm::failed::<'a>()
        },
        fsm::next_state(s, fsm::Event::StartStaMode) == if s == fsm::State::<'a>::TcpInit {
            fsm::State::<'a>::TcpStartStaMode
        } else {
            fsm::failed::<'a>()
        },
{
}

/// Where the machine goes when the peripheral the work of state `s` waits
/// on refuses (answers a ready `false`).
pub open spec fn after_refusal<'a>(s: fsm::State<'a>) -> fsm::State<'a> {
    match s {
        fsm::State::InitPeripherals | fsm::State::TcpStartDefault | fsm::State::TcpStartApMode
        | fsm::State::TcpStartStaMode => fsm::State::Reset,
        fsm::State::BridgeInit | fsm::State::AuthzChecks | fsm::State::SshUartBridgeEstablished => fsm::State::Idle,
        fsm::State::TaskRunning { name } => if name@ == "uart"@ {
            fsm::State::Idle
        } else {
            fsm::failed()
        },
        fsm::State::ReadEnvVars => fsm::State::ClientNotify { error: "Input validation error" },
        _ => fsm::failed(),
    }
}

/// A refusal by the peripheral: failed bring-up resets; a UART task or a
/// bridge that does not come up, a denied client and a client that leaves
/// the bridged session return the stamp to idle; unreadable client variables
/// are reported to the client; every other refusal ends the machine.
pub proof fn lemma_refusals<'a>(s: fsm::State<'a>, wifi_mode: Option<fsm::WifiMode>, t: fsm::TaskOk)
    requires
        fsm::polls_peripheral(s),
    ensures
        fsm::next_state(s, fsm::work_outcome(s, fsm::Poll::Ready(false), wifi_mode, t).event)
            == after_refusal(s),
{
    crate::support::lemma_task_names_differ();
}

/// Which work reports which client event: a connection only from idle when
/// a client arrived, a time-out only from idle when none did, a denial only
/// from the authorisation check when it refused, a disconnect only from the
/// bridged session when the client left or from the no-bridge notice once it
/// was delivered, and the network start-up events only from TCP
/// initialisation, for the configured mode.
pub proof fn lemma_client_events_come_from_their_work<'a>(
    s: fsm::State<'a>,
    response: fsm::Poll<bool>,
    wifi_mode: Option<fsm::WifiMode>,
    t: fsm::TaskOk,
)
    ensures
        (fsm::work_outcome(s, response, wifi_mode, t).event == fsm::Event::ClientConnect)
            == (s == fsm::State::<'a>::Idle && response == fsm::Poll::Ready(true)),
        (fsm::work_outcome(s, response, wifi_mode, t).event == fsm::Event::Timeout)
            == (s == fsm::State::<'a>::Idle && response == fsm::Poll::Ready(false)),
        (fsm::work_outcome(s, response, wifi_mode, t).event == fsm::Event::AccessDenied)
            == (s == fsm::State::<'a>::AuthzChecks && response == fsm::Poll::Ready(false)),
        (fsm::work_outcome(s, response, wifi_mode, t).event == fsm::Event::SshDisconnect) == (
            (s == fsm::State::<'a>::SshUartBridgeEstablished && response == fsm::Poll::Ready(false))
            || (s matches fsm::State::ClientNotify { error } && error@ == "Bridge error"@
                && response == fsm::Poll::Ready(true))),
        (fsm::work_outcome(s, response, wifi_mode, t).event == fsm::Event::StartApMode)
            == (s == fsm::State::<'a>::TcpInit && wifi_mode == Some(fsm::WifiMode::ApMode)),
        (fsm::work_outcome(s, response, wifi_mode, t).event == fsm::Event::StartStaMode)
            == (s == fsm::State::<'a>::TcpInit && wifi_mode == Some(fsm::WifiMode::StaMode)),
        (fsm::work_outcome(s, response, wifi_mode, t).event == fsm::Event::StartDefaultAp)
            == (s == fsm::State::<'a>::TcpInit && wifi_mode is None),
{
}

/// A client the connection loop denies is answered with `AccessDenied`,
/// which takes the stamp back to idle, whatever the settings and task flags.
pub proof fn lemma_denied_client_returns_to_idle<'a>(wifi_mode: Option<fsm::WifiMode>, t: fsm::TaskOk)
    ensures
        fsm::work_outcome(fsm::State::<'a>::AuthzChecks, fsm::Poll::Ready(false), wifi_mode, t)
            == (fsm::EventResponse { event: fsm::Event::AccessDenied, response: fsm::Poll::Ready(false) }),
        fsm::next_state(fsm::State::<'a>::AuthzChecks, fsm::Event::AccessDenied) == fsm::State::<'a>::Idle,
{
}


/// Where the machine goes when the peripheral the work of state `s` waits
/// on (if any) answers with success.
pub open spec fn after_success<'a>(s: fsm::State<'a>, wifi_mode: Option<fsm::WifiMode>, t: fsm::TaskOk) -> fsm::State<'a> {
    match s {
        fsm::State::PowerOn => fsm::State::InitPeripherals,
        fsm::State::InitPeripherals => fsm::State::TcpInit,
        fsm::State::TcpInit => start_state_for(wifi_mode),
        fsm::State::TcpStartDefault | fsm::State::TcpStartApMode | fsm::State::TcpStartStaMode
        | fsm::State::SshReconf => fsm::State::TaskSpawning { name: "ssh" },
        fsm::State::TaskSpawning { name } => if name@ == "ssh"@ {
            fsm::State::TaskRunning { name: "ssh" }
        } else {
            fsm::State::TaskRunning { name: "uart" }
        },
        fsm::State::TaskRunning { name } => if name@ == "ssh"@ {
            fsm::State::TaskSpawning { name: "uart" }
        } else {
            fsm::State::BridgeInit
        },
        fsm::State::UartReconf => fsm::State::TaskSpawning { name: "uart" },
        fsm::State::WifiReconf => fsm::State::TcpInit,
        fsm::State::BridgeInit => fsm::State::Idle,
        fsm::State::Idle => fsm::State::ClientConnecting,
        fsm::State::ClientConnecting => fsm::State::AuthzChecks,
        fsm::State::AuthzChecks => fsm::State::SshConnInit,
        fsm::State::SshConnInit => fsm::State::ReadEnvVars,
        fsm::State::ReadEnvVars => fsm::State::StoreEnvVars,
        fsm::State::StoreEnvVars => fsm::State::CheckBridge,
        fsm::State::CheckBridge => if t.bridge {
            fsm::State::SshUartBridgeEstablished
        } else {
            fsm::State::ClientConnectedNoBridge
        },
        fsm::State::ClientConnectedNoBridge => fsm::State::ClientNotify { error: "Bridge error" },
        fsm::State::ClientNotify { .. } => fsm::State::Idle,
        _ => fsm::failed(),
    }
}

/// The path the machine takes while every peripheral answers with success:
/// power-up, peripherals, the network in the configured mode, the SSH task,
/// the UART task, the bridge, then each client through connection,
/// authorisation, SSH set-up and its settings, to the bridged session when
/// the bridge is up and to the no-bridge notice otherwise; a settings change
/// restarts the task or network it concerns. (The bridged session with a
/// client that stays has no accepted next step.)
pub proof fn lemma_success_path_order<'a>(s: fsm::State<'a>, wifi_mode: Option<fsm::WifiMode>, t: fsm::TaskOk)
    requires
        on_success_path(s),
    ensures
        fsm::next_state(s, fsm::work_outcome(s, fsm::Poll::Ready(true), wifi_mode, t).event)
            == after_success(s, wifi_mode, t),
{
    crate::support::lemma_task_names_differ();
}

/// A client told that its variables could not be read goes back to idle
/// once the notice is through.
pub proof fn lemma_validation_notice_returns_to_idle<'a>()
    ensures
        fsm::next_state(
            fsm::State::ClientNotify { error: "Input validation error" },
            fsm::Event::AllGood,
        ) == fsm::State::<'a>::Idle,
{
}

// ---------------------------------------------------------------------------
// The simulation
// ---------------------------------------------------------------------------

/// Once failed, the simulation stays failed, and its work reports failure.
pub proof fn lemma_sim_failure_is_final<'a>(
    reason: &'a str,
    e: sim::Event,
    wifi_mode: Option<sim::WifiMode>,
    t: sim::TaskOk,
)
    ensures
        sim::next_state(sim::State::Failure(reason), e, wifi_mode, t) == sim::failed::<'a>(),
        sim::run_event(sim::State::Failure(reason)) == sim::Event::Fail,
{
}

/// The simulation's start-up state for a configured Wi-Fi mode.
pub open spec fn sim_start_state_for<'a>(wifi_mode: Option<sim::WifiMode>) -> sim::State<'a> {
    match wifi_mode {
        Some(sim::WifiMode::ApMode) => sim::State::TcpStartApMode,
        Some(sim::WifiMode::StaMode) => sim::State::TcpStartStaMode,
        None => sim::State::TcpStartDefault,
    }
}

/// A good TCP initialisation starts the network in the configured Wi-Fi
/// mode, and the link-up event reported for that mode is exactly the one the
/// start-up state accepts.
pub proof fn lemma_sim_link_comes_up_in_configured_mode<'a>(
    wifi_mode: Option<sim::WifiMode>,
    t: sim::TaskOk,
)
    ensures
        sim::next_state(sim::State::<'a>::TcpInit, sim::Event::AllGood, wifi_mode, t)
            == sim_start_state_for::<'a>(wifi_mode),
        sim::next_state(sim_start_state_for::<'a>(wifi_mode), sim::link_up_event(wifi_mode), wifi_mode, t)
            == (sim::State::TaskSpawning { name: "ssh" }),
{
}

/// The simulation's transitions read the Wi-Fi mode only when starting the
/// network, the UART flag only when the SSH task has run, and the bridge
/// flag only after the client's settings were stored; everywhere else the
/// transition is the same whatever the settings and task flags.
pub proof fn lemma_sim_transitions_read_settings_only_where_needed<'a>(
    s: sim::State<'a>,
    e: sim::Event,
    wifi_mode: Option<sim::WifiMode>,
    other_mode: Option<sim::WifiMode>,
    t: sim::TaskOk,
    u: sim::TaskOk,
)
    ensures
        s != sim::State::<'a>::TcpInit && !(s matches sim::State::TaskRunning { name } && name@ == "ssh"@)
            && s != sim::State::<'a>::StoreEnvVars
            ==> sim::next_state(s, e, wifi_mode, t) == sim::next_state(s, e, other_mode, u),
        s == sim::State::<'a>::TcpInit ==> sim::next_state(s, e, wifi_mode, t) == sim::next_state(s, e, wifi_mode, u),
        t.uart == u.uart && t.bridge == u.bridge
            ==> sim::next_state(s, e, wifi_mode, t) == sim::next_state(s, e, other_mode, u)
            || s == sim::State::<'a>::TcpInit,
{
}

/// After a settings change the changed task is spawned again (or the network
/// restarted), whatever the Wi-Fi mode and task flags.
pub proof fn lemma_sim_reconfiguration_restarts<'a>(wifi_mode: Option<sim::WifiMode>, t: sim::TaskOk)
    ensures
        sim::next_state(sim::State::<'a>::SshReconf, sim::Event::AllGood, wifi_mode, t)
            == (sim::State::TaskSpawning { name: "ssh" }),
        sim::next_state(sim::State::<'a>::UartReconf, sim::Event::AllGood, wifi_mode, t)
            == (sim::State::TaskSpawning { name: "uart" }),
        sim::next_state(sim::State::<'a>::WifiReconf, sim::Event::AllGood, wifi_mode, t)
            == sim::State::<'a>::TcpInit,
{
}

/// The simulation's work always succeeds: in every state it works in, `run`
/// never reports a failure; it reports one only where it has no work
/// (a failed or reset machine, an unknown task or notice).
pub proof fn lemma_sim_work_never_fails<'a>(s: sim::State<'a>)
    ensures
        sim_operational(s) ==> sim::run_event(s) != sim::Event::Fail,
        s == sim::State::<'a>::BridgeInit ==> sim::run_event(s) == sim::Event::AllGood,
        sim::run_event(s) == sim::Event::Fail ==> !sim_operational(s),
{
    crate::support::lemma_task_names_differ();
}

/// The states the simulation works in without ever failing.
pub open spec fn sim_operational<'a>(s: sim::State<'a>) -> bool {
    match s {
        sim::State::PowerOn | sim::State::InitPeripherals | sim::State::TcpInit
        | sim::State::TcpStartDefault | sim::State::TcpStartApMode | sim::State::TcpStartStaMode
        | sim::State::BridgeInit | sim::State::Idle | sim::State::ClientConnecting
        | sim::State::AuthzChecks | sim::State::SshConnInit | sim::State::ReadEnvVars
        | sim::State::StoreEnvVars | sim::State::SshUartBridgeEstablished
        | sim::State::ClientConnectedNoBridge | sim::State::SshReconf | sim::State::UartReconf
        | sim::State::WifiReconf => true,
        sim::State::TaskSpawning { name } => sim::known_task(name@),
        sim::State::TaskRunning { name } => sim::known_task(name@),
        sim::State::ClientNotify { error } => error@ == "Bridge error"@,
        _ => false,
    }
}

/// The state, Wi-Fi mode and task flags of the simulation after one round
/// of its loop: `run`, then `next` with the event `run` reported.
pub open spec fn sim_round<'a>(
    c: (sim::State<'a>, Option<sim::WifiMode>, sim::TaskOk),
) -> (sim::State<'a>, Option<sim::WifiMode>, sim::TaskOk) {
    let wifi_mode = sim::wifi_mode_after_run(c.0, c.1);
    let t = sim::flags_after_run(c.0, c.2);
    (sim::next_state(c.0, sim::run_event(c.0), wifi_mode, t), wifi_mode, t)
}

/// The simulation after `n` rounds of its loop, from power-on.
pub open spec fn sim_after<'a>(n: nat) -> (sim::State<'a>, Option<sim::WifiMode>, sim::TaskOk)
    decreases n,
{
    if n == 0 {
        (sim::State::PowerOn, None, sim::TaskOk { ssh: false, uart: false, bridge: false })
    } else {
        sim_round(sim_after((n - 1) as nat))
    }
}

/// One round of the simulation's loop from a working state ends in a
/// working state, whatever the settings and task flags.
pub proof fn lemma_sim_round_keeps_working<'a>(
    s: sim::State<'a>,
    wifi_mode: Option<sim::WifiMode>,
    t: sim::TaskOk,
)
    requires
        sim_operational(s),
    ensures
        sim_operational(sim_round((s, wifi_mode, t)).0),
{
    crate::support::lemma_task_names_differ();
    reveal_strlit("ssh");
    reveal_strlit("uart");
}

/// Where one round of the simulation's loop takes a working state.
pub open spec fn sim_next_round_state<'a>(
    s: sim::State<'a>,
    wifi_mode: Option<sim::WifiMode>,
    t: sim::TaskOk,
) -> sim::State<'a> {
    match s {
        sim::State::PowerOn => sim::State::InitPeripherals,
        sim::State::InitPeripherals => sim::State::TcpInit,
        sim::State::TcpInit => sim_start_state_for(wifi_mode),
        sim::State::TcpStartDefault | sim::State::TcpStartApMode | sim::State::TcpStartStaMode
        | sim::State::SshReconf => sim::State::TaskSpawning { name: "ssh" },
        sim::State::TaskSpawning { name } => if name@ == "ssh"@ {
            sim::State::TaskRunning { name: "ssh" }
        } else {
            sim::State::TaskRunning { name: "uart" }
        },
        sim::State::TaskRunning { name } => if name@ == "ssh"@ && !t.uart {
            sim::State::TaskSpawning { name: "uart" }
        } else {
            sim::State::BridgeInit
        },
        sim::State::UartReconf => sim::State::TaskSpawning { name: "uart" },
        sim::State::WifiReconf => sim::State::TcpInit,
        sim::State::BridgeInit | sim::State::SshUartBridgeEstablished | sim::State::ClientNotify { .. } => sim::State::Idle,
        sim::State::Idle => sim::State::ClientConnecting,
        sim::State::ClientConnecting => sim::State::AuthzChecks,
        sim::State::AuthzChecks => sim::State::SshConnInit,
        sim::State::SshConnInit => sim::State::ReadEnvVars,
        sim::State::ReadEnvVars => sim::State::StoreEnvVars,
        sim::State::StoreEnvVars => if t.bridge {
            sim::State::SshUartBridgeEstablished
        } else {
            sim::State::ClientConnectedNoBridge
        },
        sim::State::ClientConnectedNoBridge => sim::State::ClientNotify { error: "Bridge error" },
        _ => sim::failed(),
    }
}

/// The order in which the simulation's loop visits its working states: the
/// power-up sequence, the SSH task then the UART task (skipped when it
/// already runs), the bridge, then each client through connection,
/// authorisation, SSH set-up and settings, to the bridged session when the
/// bridge is up and to the no-bridge notice otherwise, back to idle.
pub proof fn lemma_sim_round_order<'a>(s: sim::State<'a>, wifi_mode: Option<sim::WifiMode>, t: sim::TaskOk)
    requires
        sim_operational(s),
    ensures
        sim_round((s, wifi_mode, t)).0 == sim_next_round_state(s, wifi_mode, t),
{
    crate::support::lemma_task_names_differ();
}

/// From power-on the simulation never fails, however many rounds its loop
/// runs.
pub proof fn lemma_sim_never_fails(n: nat)
    ensures
        sim_operational(sim_after::<'static>(n).0),
        !(sim_after::<'static>(n).0 is Failure),
    decreases n,
{
    if n > 0 {
        lemma_sim_never_fails((n - 1) as nat);
        let c = sim_after::<'static>((n - 1) as nat);
        lemma_sim_round_keeps_working(c.0, c.1, c.2);
    }
}

// ---------------------------------------------------------------------------
// The SSH connection loop
// ---------------------------------------------------------------------------

/// Whether the events `evs`, met with a session open (`open`) or not, never
/// ask for a second session while one is open.
pub open spec fn one_session_at_a_time(open: bool, evs: Seq<ServerEvent>) -> bool
    decreases evs.len(),
{
    if evs.len() == 0 {
        true
    } else {
        !(open && evs[0] == ServerEvent::OpenSession)
            && one_session_at_a_time(connection_decision(open, evs[0]).0, evs.drop_first())
    }
}

/// Whether a session is open after the connection loop met the events `evs`.
pub open spec fn open_after(open: bool, evs: Seq<ServerEvent>) -> bool
    decreases evs.len(),
{
    if evs.len() == 0 {
        open
    } else {
        open_after(connection_decision(open, evs[0]).0, evs.drop_first())
    }
}

/// How often the connection loop takes `action` while meeting the events
/// `evs`.
pub open spec fn times_taken(open: bool, evs: Seq<ServerEvent>, action: ServerAction) -> nat
    decreases evs.len(),
{
    if evs.len() == 0 {
        0
    } else {
        let (next_open, taken) = connection_decision(open, evs[0]);
        (if taken == action { 1nat } else { 0nat }) + times_taken(next_open, evs.drop_first(), action)
    }
}

/// Every bridge the connection loop starts uses up a session it accepted:
/// over any run of events that opens one session at a time, the sessions
/// accepted (plus one already open) equal the bridges started (plus one
/// still open at the end).
pub proof fn lemma_bridges_use_accepted_sessions(open: bool, evs: Seq<ServerEvent>)
    requires
        one_session_at_a_time(open, evs),
    ensures
        times_taken(open, evs, ServerAction::AcceptSession) + (if open { 1int } else { 0int })
            == times_taken(open, evs, ServerAction::StartBridge) + (if open_after(open, evs) {
            1int
        } else {
            0int
        }),
    decreases evs.len(),
{
    if evs.len() > 0 {
        lemma_bridges_use_accepted_sessions(connection_decision(open, evs[0]).0, evs.drop_first());
    }
}

/// Only shell requests and session openings depend on or change whether a
/// session is open: every other event leaves the session as it is, and its
/// action is the same with or without a session.
pub proof fn lemma_session_matters_only_to_shell_and_open(open: bool, ev: ServerEvent)
    ensures
        ev != ServerEvent::SessionShell && ev != ServerEvent::OpenSession ==> {
            &&& connection_decision(open, ev).0 == open
            &&& connection_decision(true, ev).1 == connection_decision(false, ev).1
        },
{
}

/// A defunct server always stops the connection loop, and nothing else
/// does; sessions are accepted only when asked to open one, and a bridge
/// starts only for a shell request on an open session.
pub proof fn lemma_connection_actions(open: bool, ev: ServerEvent)
    ensures
        (connection_decision(open, ev).1 == ServerAction::Stop) == (ev == ServerEvent::Defunct),
        connection_decision(open, ServerEvent::Defunct) == (open, ServerAction::Stop),
        (connection_decision(open, ev).1 == ServerAction::AcceptSession) == (ev == ServerEvent::OpenSession),
        (connection_decision(open, ev).1 == ServerAction::StartBridge)
            == (ev == ServerEvent::SessionShell && open),
{
}

/// The connection loop lets every client in (password or public key), offers
/// its host keys when asked, records the first login's user name, grants a
/// terminal, refuses command execution, ignores other events, and refuses a
/// shell when no session is open; none of this depends on the session.
pub proof fn lemma_connection_grants(open: bool)
    ensures
        connection_decision(open, ServerEvent::PasswordAuth) == (open, ServerAction::AllowAuth),
        connection_decision(open, ServerEvent::PubkeyAuth) == (open, ServerAction::AllowAuth),
        connection_decision(open, ServerEvent::Hostkeys) == (open, ServerAction::SendHostkeys),
        connection_decision(open, ServerEvent::FirstAuth) == (open, ServerAction::RecordUsername),
        connection_decision(open, ServerEvent::SessionPty) == (open, ServerAction::SucceedRequest),
        connection_decision(open, ServerEvent::SessionExec) == (open, ServerAction::FailRequest),
        connection_decision(open, ServerEvent::Other) == (open, ServerAction::Ignore),
        connection_decision(false, ServerEvent::SessionShell) == (false, ServerAction::FailRequest),
        connection_decision(open, ServerEvent::SessionShell).0 == false,
        !open ==> connection_decision(open, ServerEvent::OpenSession) == (true, ServerAction::AcceptSession),
{
}

} // verus!
