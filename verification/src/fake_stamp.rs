//! Host stand-ins for the stamp's peripheral polls. Without the stamp's
//! radio, UART and SSH hardware no peripheral task ever completes, so every
//! poll answers `Pending`.

pub mod espressif;
pub mod serial;
pub mod serve;
pub mod settings;

use vstd::prelude::*;
use crate::fsm::Poll;

verus! {

/// The power-on task.
pub fn poll_power_on() -> (r: Poll<bool>)
    ensures
        r == Poll::<bool>::Pending,
{
    Poll::Pending
}

/// Initialisation of the chip's peripherals.
pub fn poll_init_peripherals() -> (r: Poll<bool>)
    ensures
        r == Poll::<bool>::Pending,
{
    Poll::Pending
}

/// The UART task.
pub fn poll_uart_task() -> (r: Poll<bool>)
    ensures
        r == Poll::<bool>::Pending,
{
    Poll::Pending
}

} // verus!
