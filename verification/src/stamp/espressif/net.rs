//! Network bring-up decisions: the gateway address and the network stack's
//! random seed.

pub use crate::fake_stamp::espressif::net::WifiMode;

use vstd::prelude::*;
use crate::support::{parse_ipv4, parsed_ipv4};

verus! {

/// The text of the gateway address: the configured one, or 192.168.0.1 when
/// none is configured.
pub open spec fn gateway_text(configured: Option<&'static str>) -> Seq<char> {
    match configured {
        Some(text) => text@,
        None => "192.168.0.1"@,
    }
}

/// The gateway address text in use.
pub fn gateway_ip_text(configured: Option<&'static str>) -> (t: &'static str)
    ensures
        t@ == gateway_text(configured),
{
    match configured {
        Some(text) => text,
        None => "192.168.0.1",
    }
}

/// The gateway address in use: the configured text (or 192.168.0.1),
/// parsed as an IPv4 address; `None` when it does not parse.
pub fn gateway_ip(configured: Option<&'static str>) -> (r: Option<core::net::Ipv4Addr>)
    ensures
        r == parsed_ipv4(gateway_text(configured)),
{
    parse_ipv4(gateway_ip_text(configured))
}

/// The network stack's seed, made of two random words: `high` in the upper
/// half and `low` in the lower half.
pub fn network_seed(high: u32, low: u32) -> (s: u64)
    ensures
        s == high as u64 * 0x1_0000_0000u64 + low as u64,
{
    let seed: u64 = (high as u64) << 32 | low as u64;
    assert(((high as u64) << 32 | low as u64) == high as u64 * 0x1_0000_0000u64 + low as u64)
        by (bit_vector);
    seed
}

} // verus!
