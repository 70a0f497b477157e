//! Stand-ins for the Wi-Fi and network tasks.

use vstd::prelude::*;
use crate::fsm::Poll;

verus! {

/// The Wi-Fi role the stamp is configured for.
#[derive(Debug, PartialEq, Clone)]
pub enum WifiMode {
    ApMode,
    StaMode,
}

/// Bringing the network interface up.
pub fn poll_if_up() -> (r: Poll<bool>)
    ensures
        r == Poll::<bool>::Pending,
{
    Poll::Pending
}

/// Accepting a TCP connection on the SSH port.
pub fn poll_accept_requests() -> (r: Poll<bool>)
    ensures
        r == Poll::<bool>::Pending,
{
    Poll::Pending
}

/// Bringing Wi-Fi up in mode `_wifimode`.
pub fn poll_wifi_mode_up(_wifimode: Option<WifiMode>) -> (r: Poll<bool>)
    ensures
        r == Poll::<bool>::Pending,
{
    Poll::Pending
}

/// Running the network stack.
pub fn poll_net_up() -> (r: Poll<bool>)
    ensures
        r == Poll::<bool>::Pending,
{
    Poll::Pending
}

/// The DHCP server.
pub fn poll_dhcp_server() -> (r: Poll<bool>)
    ensures
        r == Poll::<bool>::Pending,
{
    Poll::Pending
}

} // verus!
