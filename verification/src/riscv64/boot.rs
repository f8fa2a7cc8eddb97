//! Boot entry for RISC-V: hart filtering, boot facts, and the
//! uninitialized-data segment.
//!
//! The firmware may start several harts at once; every hart except the
//! designated primary must halt immediately (looping on the low-power
//! wait) until later released.  The primary hart zeroes the
//! uninitialized-data segment, records the boot facts, and transfers —
//! without returning — to the architecture-independent kernel entry point.

use vstd::prelude::*;

verus! {

/// Boot information passed from the firmware: the booting hart and the
/// device-tree blob address.  Written once during early boot, then
/// read-only.
#[derive(Debug, Clone, Copy, PartialEq, Eq, Structural)]
pub struct BootInfo {
    pub hart_id: usize,
    pub dtb_addr: usize,
}

/// The write-once cell holding the boot facts.
pub struct BootInfoCell {
    value: Option<BootInfo>,
}

impl BootInfoCell {
    /// The recorded boot facts, if any.
    pub closed spec fn recorded(self) -> Option<BootInfo> {
        self.value
    }

    /// An empty cell, as it is before boot.
    pub fn new() -> (r: Self)
        ensures
            r.recorded() is None,
    {
        BootInfoCell { value: None }
    }

    /// Whether the boot facts have been recorded.
    pub fn is_initialized(&self) -> (r: bool)
        ensures
            r == self.recorded() is Some,
    {
        self.value.is_some()
    }
}

/// Record the boot facts.  The cell is write-once: recording twice is an
/// initialization-order bug, so a filled cell is excluded.
pub fn init_boot_info(cell: &mut BootInfoCell, hart_id: usize, dtb_addr: usize)
    requires
        old(cell).recorded() is None,
    ensures
        final(cell).recorded() == Some(BootInfo { hart_id, dtb_addr }),
{
    cell.value = Some(BootInfo { hart_id, dtb_addr });
}

/// Get the recorded boot information.  Reading before the boot entry has
/// recorded it is an initialization-order bug, so an empty cell is
/// excluded.
pub fn boot_info(cell: &BootInfoCell) -> (r: &BootInfo)
    requires
        cell.recorded() is Some,
    ensures
        *r == cell.recorded()->0,
{
    match &cell.value {
        Some(info) => info,
        None => vstd::pervasive::unreached(),
    }
}

/// What a hart does after the boot entry has run.
#[derive(Debug, Clone, Copy, PartialEq, Eq, Structural)]
pub enum BootDisposition {
    /// A secondary hart: halt immediately, looping on the low-power wait,
    /// until later released.
    HaltSecondary,
    /// The primary hart: transfer, without returning, to the
    /// architecture-independent kernel entry point.
    EnterKernel,
}

/// Early boot entry, reached from the firmware with the booting hart and
/// the device-tree blob address in the argument registers.
///
/// A hart other than `primary_hart` halts at once and touches nothing.
/// The primary hart zeroes the uninitialized-data segment and records the
/// boot facts; both are established before the kernel entry point begins,
/// so no static data is read before the segment is cleared.
pub fn boot_entry(
    cell: &mut BootInfoCell,
    hart_id: usize,
    dtb_addr: usize,
    primary_hart: usize,
    bss: &mut Vec<u8>,
) -> (d: BootDisposition)
    requires
        old(cell).recorded() is None,
    ensures
        hart_id != primary_hart ==> d == BootDisposition::HaltSecondary && *final(cell) == *old(
            cell,
        ) && *final(bss) == *old(bss),
        hart_id == primary_hart ==> d == BootDisposition::EnterKernel && final(cell).recorded()
            == Some(BootInfo { hart_id, dtb_addr }) && final(bss)@.len() == old(bss)@.len() && (
        forall|i: int| 0 <= i < final(bss)@.len() ==> final(bss)@[i] == 0),
{
    if hart_id != primary_hart {
        return BootDisposition::HaltSecondary;
    }
    crate::zero_bss(bss);
    init_boot_info(cell, hart_id, dtb_addr);
    BootDisposition::EnterKernel
}

} // verus!
