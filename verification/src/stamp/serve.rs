//! The SSH side of the stamp.

use vstd::prelude::*;
use crate::support::{custom_error, error_with_message, str_eq};

verus! {

/// SSH authentication accepts the client.
pub fn authentication() -> (r: Result<(), sunset::Error>)
    ensures
        r is Ok,
{
    Ok(())
}

/// The bridged client is reported as connected.
pub fn ssh_client_connected() -> (r: Result<(), sunset::Error>)
    ensures
        r is Ok,
{
    Ok(())
}

/// The client without a bridge is reported as connected.
pub fn ssh_client_connected_no_bridge() -> (r: Result<(), sunset::Error>)
    ensures
        r is Ok,
{
    Ok(())
}

/// Notifying the client: the "no bridge" notice is delivered; any other
/// notice is refused with the error "no bridge".
pub fn notify_client(client_notified: &str) -> (r: Result<(), sunset::Error>)
    ensures
        client_notified@ == "no bridge"@ <==> r is Ok,
        client_notified@ != "no bridge"@ ==> r == Err::<(), sunset::Error>(
            custom_error("no bridge"@),
        ),
{
    if str_eq(client_notified, "no bridge") {
        Ok(())
    } else {
        Err(error_with_message("no bridge"))
    }
}

/// The kinds of event the SSH server hands to the connection loop.
#[derive(Debug, Copy, Clone, PartialEq, Eq)]
pub enum ServerEvent {
    SessionShell,
    FirstAuth,
    Hostkeys,
    PasswordAuth,
    PubkeyAuth,
    OpenSession,
    SessionPty,
    SessionExec,
    Defunct,
    Other,
}

/// What the connection loop does about an event.
#[derive(Debug, Copy, Clone, PartialEq, Eq)]
pub enum ServerAction {
    /// Accept the shell request and hand the open session's channel to the
    /// serial bridge.
    StartBridge,
    /// Refuse the request.
    FailRequest,
    /// Accept the request.
    SucceedRequest,
    /// Remember the user name the client logs in with.
    RecordUsername,
    /// Answer with the stamp's host keys.
    SendHostkeys,
    /// Let the client in.
    AllowAuth,
    /// Accept the session and keep its channel.
    AcceptSession,
    /// End the loop with a bad-usage error.
    Stop,
    /// Nothing to do.
    Ignore,
}

/// The connection loop's decision for event `ev` while a session is
/// (`session_open`) or is not open: whether a session is open afterwards,
/// and the action.
pub open spec fn connection_decision(session_open: bool, ev: ServerEvent) -> (bool, ServerAction) {
    match ev {
        ServerEvent::SessionShell => if session_open {
            (false, ServerAction::StartBridge)
        } else {
            (false, ServerAction::FailRequest)
        },
        ServerEvent::FirstAuth => (session_open, ServerAction::RecordUsername),
        ServerEvent::Hostkeys => (session_open, ServerAction::SendHostkeys),
        ServerEvent::PasswordAuth | ServerEvent::PubkeyAuth => (session_open, ServerAction::AllowAuth),
        ServerEvent::OpenSession => (true, ServerAction::AcceptSession),
        ServerEvent::SessionPty => (session_open, ServerAction::SucceedRequest),
        ServerEvent::SessionExec => (session_open, ServerAction::FailRequest),
        ServerEvent::Defunct => (session_open, ServerAction::Stop),
        ServerEvent::Other => (session_open, ServerAction::Ignore),
    }
}

/// One round of the SSH connection loop: decides what to do about `ev`. A
/// shell request bridges the open session (and uses it up) or is refused
/// when no session is open; a second session cannot be opened while one is.
pub fn connection_step(session_open: bool, ev: ServerEvent) -> (r: (bool, ServerAction))
    requires
        !(session_open && ev == ServerEvent::OpenSession),
    ensures
        r == connection_decision(session_open, ev),
{
    match ev {
        ServerEvent::SessionShell => {
            if session_open {
                (false, ServerAction::StartBridge)
            } else {
                (false, ServerAction::FailRequest)
            }
        },
        ServerEvent::FirstAuth => (session_open, ServerAction::RecordUsername),
        ServerEvent::Hostkeys => (session_open, ServerAction::SendHostkeys),
        ServerEvent::PasswordAuth => (session_open, ServerAction::AllowAuth),
        ServerEvent::PubkeyAuth => (session_open, ServerAction::AllowAuth),
        ServerEvent::OpenSession => (true, ServerAction::AcceptSession),
        ServerEvent::SessionPty => (session_open, ServerAction::SucceedRequest),
        ServerEvent::SessionExec => (session_open, ServerAction::FailRequest),
        ServerEvent::Defunct => (session_open, ServerAction::Stop),
        ServerEvent::Other => (session_open, ServerAction::Ignore),
    }
}

} // verus!
