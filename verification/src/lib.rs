//! Bring-up logic for a minimal single-core, bare-metal image: configure an
//! interrupt controller, arm a periodic hardware timer, and let the
//! resulting interrupt stream drive a tick counter and a cooperative
//! round-robin rotation over a fixed task list, with diagnostics over a
//! serial console.
//!
//! Each peripheral is modelled as an owned value holding the register state
//! the logic reads and writes; the thin layer that turns those values into
//! volatile machine accesses, and the interrupt and startup entry points
//! themselves, stand outside the library.

pub mod console;
pub mod gic;
pub mod kapi;
pub mod kernel;
pub mod sched;
pub mod timer;
