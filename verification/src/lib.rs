//! Hardware-abstraction core of an operating-system kernel.
//!
//! One kernel source targets several unrelated instruction-set architectures
//! through the uniform contracts of this crate: architecture-agnostic address
//! and frame value types, per-architecture task contexts and the context
//! switch, bit-accurate page-table control primitives, trap and interrupt
//! dispatch, and the boot and power-control sequences.
//!
//! Privileged hardware access (system-register writes, firmware calls, the
//! low-power wait) cannot be performed by portable code; every such operation
//! is modelled here as an explicit state record plus a verified transition,
//! and the thin per-target runtime performs the corresponding instruction for
//! each action this crate hands back.

use vstd::prelude::*;

pub mod aarch64;
pub mod boot_time;
pub mod riscv64;
mod types;
pub mod x86_64;

pub use types::PhysAddr;
pub use types::PhysFrame;
pub use types::PhysFrameRange;
pub use types::VirtAddr;

verus! {

/// Initialize the architecture-independent kernel state: record the boot
/// time handed over by the boot environment.  Runs once, after the
/// architecture's `early_init` and `init`; the memory, driver and file
/// subsystems are collaborators initialized by their own layers.
pub fn init(cell: &mut boot_time::BootTimeCell, boot_seconds: u64)
    requires
        old(cell).recorded().len() == 0,
    ensures
        final(cell).recorded() == seq![boot_seconds],
{
    boot_time::init_boot_time(cell, boot_seconds);
}

/// Extension trait converting a `u64` into a `usize`.
///
/// The kernel targets 64-bit machines only, where the conversion is exact;
/// on a narrower machine the caller must ensure the value fits.
pub trait U64Ext: Copy {
    /// The numeric value of `self`.
    spec fn value_u64(self) -> u64;

    fn into_usize(self) -> (r: usize)
        requires
            self.value_u64() <= usize::MAX as u64,
        ensures
            r as u64 == self.value_u64(),
    ;
}

impl U64Ext for u64 {
    open spec fn value_u64(self) -> u64 {
        self
    }

    fn into_usize(self) -> (r: usize) {
        self as usize
    }
}

/// Extension trait converting a `usize` into a `u64`, always exact.
pub trait UsizeExt: Copy {
    /// The numeric value of `self`.
    spec fn value_usize(self) -> usize;

    fn into_u64(self) -> (r: u64)
        ensures
            r == self.value_usize() as u64,
    ;
}

impl UsizeExt for usize {
    open spec fn value_usize(self) -> usize {
        self
    }

    fn into_u64(self) -> (r: u64) {
        self as u64
    }
}

/// Zero an uninitialized-data segment, given as the bytes between the
/// linker-provided start and end symbols.  The loader does not guarantee
/// the segment is zero, and any read of it before clearing is undefined.
pub fn zero_bss(bss: &mut Vec<u8>)
    ensures
        final(bss)@.len() == old(bss)@.len(),
        forall|i: int| 0 <= i < final(bss)@.len() ==> final(bss)@[i] == 0,
{
    let n = bss.len();
    let mut i: usize = 0;
    while i < n
        invariant
            i <= n,
            bss@.len() == n,
            forall|j: int| 0 <= j < i ==> bss@[j] == 0,
        decreases n - i,
    {
        bss[i] = 0;
        i = i + 1;
    }
}

} // verus!
