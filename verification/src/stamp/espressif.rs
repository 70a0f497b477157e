//! The chip's network side.

pub mod net;
