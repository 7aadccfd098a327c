//! Verified core of a batch kernel for RISC-V: the trap context, the trap
//! dispatcher, and the sequencer that runs a fixed list of application images
//! one after another.
//!
//! Nothing here touches the hardware. Every function computes on plain values
//! and says in its result what the caller has to do next: which firmware call
//! to issue, which context to restore, whether to halt.

pub mod batch;
pub mod console;
pub mod sbi;
pub mod trap;
