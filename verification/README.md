# ssh_stamp

The supervisory logic of the SSH stamp, an ESP32 firmware that bridges an
SSH session to a UART, written in Verus with its behaviour proved.

- `src/fsm.rs` — the firmware's state machine: the transition table `next`,
  the work of each state (each piece of work that waits on a peripheral takes
  the peripheral's answer as an argument), `poll_request_for` (which
  peripheral the current state polls, and with what), `run_with` (the work of
  the current state for a given answer), `run` (the same, answered by the
  host stand-ins), `advance` and `halted` (the loop's decisions).
- `src/fake_stamp.rs`, `src/fake_stamp/` — host stand-ins for the peripheral polls; on a host no
  peripheral task completes.
- `src/sim.rs` — the standalone simulation, in which every piece of work
  succeeds and some transitions read the settings and task flags.
- `src/stamp.rs`, `src/stamp/` — the decisions of the stamp's own tasks and
  of the SSH connection loop, the gateway address and the network seed,
  apart from the hardware they drive.
- `src/laws.rs` — properties spanning several operations (failure is final,
  bring-up failures reset, the success path never fails, the simulation never
  fails, every bridge uses an accepted session, ...).
- `src/support.rs` — the outside operations used (string comparison,
  `heapless::String::new`, `sunset::Error::msg`, `Ipv4Addr::from_str`) with their contracts.
- `app/` — the two programs: the firmware loop and the simulation loop, and
  the stamp's tasks as async functions polled once.
