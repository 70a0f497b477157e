//! The decisions of the stamp's own tasks, apart from the hardware they
//! drive. Each task here completes as soon as it is polled; the tasks that
//! drive the radio, the UART and the SSH sessions need the stamp's hardware.

pub mod espressif;
pub mod serve;
pub mod settings;

use vstd::prelude::*;

verus! {

/// The power-on task: powering up succeeds.
pub fn power_on() -> (r: bool)
    ensures
        r,
{
    true
}

/// The UART task: it reports success.
pub fn uart_task() -> (r: bool)
    ensures
        r,
{
    true
}

} // verus!
