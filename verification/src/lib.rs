//! Model of a minimal multi-core ARM64 kernel: exception dispatch, an
//! interrupt-controller driver, the SMP bring-up protocol and the command bus
//! through which the boot core directs the secondary cores.
//!
//! The hardware (memory-mapped registers, per-core mailboxes, the banked
//! interrupt controller) is modelled as plain data, so every decision the
//! kernel makes — which pending line wins, when a core may be woken, how a
//! trap is routed — is a verified function over that model.  The thin shell
//! that pokes real registers, prints, and spins on shared memory lives
//! outside the library and only ever calls these functions.

pub mod display;
pub mod exceptions;
pub mod gic;
pub mod multicore;
pub mod sync;
pub mod timer;
pub mod uart;
