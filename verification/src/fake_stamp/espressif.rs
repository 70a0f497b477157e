//! Stand-ins for the chip's network peripherals.

pub mod net;
