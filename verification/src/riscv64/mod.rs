//! The 64-bit RISC-V architecture.
//!
//! As for the other targets, the privileged state the layer touches — the
//! address-translation root `satp` and the register file the context switch
//! moves — is modelled as the explicit [`Riscv64`] record of one hardware
//! thread (hart), and every operation is a verified transition on it.
//! Firmware services (power control, the boot console) go through
//! supervisor calls, modelled as explicit call records the runtime issues.

use vstd::prelude::*;

pub mod boot;
pub mod context;
pub mod sbi;
pub mod shutdown;

use context::CpuRegisters;

verus! {

/// The privileged state of one RISC-V hardware thread.
#[derive(Debug, Clone, Copy, PartialEq, Eq, Structural)]
pub struct Riscv64 {
    /// Address-translation root register.
    pub satp: u64,
    /// The general-purpose registers a context switch saves and restores.
    pub regs: CpuRegisters,
    /// How many address-translation fence operations ran.
    pub tlb_flushes: u64,
}

} // verus!
