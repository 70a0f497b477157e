//! A verified model of the SSH stamp's supervisory state machine: the
//! firmware machine (`fsm`), host stand-ins for its peripheral polls
//! (`fake_stamp`) and the standalone simulation (`sim`).

pub mod fake_stamp;
pub mod fsm;
pub mod laws;
pub mod sim;
pub mod stamp;
pub mod support;
