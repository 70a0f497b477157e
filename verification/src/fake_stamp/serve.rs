//! Stand-ins for the SSH server's tasks.

use vstd::prelude::*;
use crate::fsm::Poll;

verus! {

/// The SSH server's connection loop, which runs authorisation.
pub fn poll_connection_loop() -> (r: Poll<bool>)
    ensures
        r == Poll::<bool>::Pending,
{
    Poll::Pending
}

/// SSH authentication.
pub fn poll_authentication() -> (r: Poll<bool>)
    ensures
        r == Poll::<bool>::Pending,
{
    Poll::Pending
}

/// The SSH client handler.
pub fn poll_handle_ssh_client() -> (r: Poll<bool>)
    ensures
        r == Poll::<bool>::Pending,
{
    Poll::Pending
}

/// Setting up the SSH session's channels.
pub fn poll_connect_ssh_client() -> (r: Poll<bool>)
    ensures
        r == Poll::<bool>::Pending,
{
    Poll::Pending
}

/// Whether the bridged client is still connected.
pub fn poll_ssh_client_connected() -> (r: Poll<bool>)
    ensures
        r == Poll::<bool>::Pending,
{
    Poll::Pending
}

/// Whether the client without a bridge is still connected.
pub fn poll_ssh_client_connected_no_bridge() -> (r: Poll<bool>)
    ensures
        r == Poll::<bool>::Pending,
{
    Poll::Pending
}

/// Sending `_client_notified` to the client.
pub fn poll_notify_client(_client_notified: &str) -> (r: Poll<bool>)
    ensures
        r == Poll::<bool>::Pending,
{
    Poll::Pending
}

} // verus!
