//! Boot entry: record the boot facts and zero the uninitialized-data
//! segment before anything reads it.
//!
//! The loader does not guarantee the uninitialized-data segment is zero, so
//! any read of it before clearing is undefined; the entry routine clears it
//! and records the boot facts before control transfers, without returning,
//! to the architecture-independent kernel entry point.

use vstd::prelude::*;

verus! {

/// Boot information passed from the bootloader: the device-tree blob
/// address.  Written once during early boot, then read-only.
#[derive(Debug, Clone, Copy, PartialEq, Eq, Structural)]
pub struct BootInfo {
    pub dtb_addr: usize,
}

/// The write-once cell holding the boot facts.  It starts empty, is filled
/// exactly once by the boot entry, and is read-only afterwards.
pub struct BootInfoCell {
    value: Option<BootInfo>,
}

impl BootInfoCell {
    /// The recorded boot facts, if any.
    pub closed spec fn recorded(self) -> Option<BootInfo> {
        self.value
    }

    /// An empty cell, as it is before boot.
    pub fn new() -> (r: Self)
        ensures
            r.recorded() is None,
    {
        BootInfoCell { value: None }
    }

    /// Whether the boot facts have been recorded.
    pub fn is_initialized(&self) -> (r: bool)
        ensures
            r == self.recorded() is Some,
    {
        self.value.is_some()
    }
}

/// Record the boot facts.  The cell is write-once: recording twice is an
/// initialization-order bug, so a filled cell is excluded.
pub fn init_boot_info(cell: &mut BootInfoCell, dtb_addr: usize)
    requires
        old(cell).recorded() is None,
    ensures
        final(cell).recorded() == Some(BootInfo { dtb_addr }),
{
    cell.value = Some(BootInfo { dtb_addr });
}

/// Get the recorded boot information.  Reading before the boot entry has
/// recorded it is an initialization-order bug, so an empty cell is
/// excluded.
pub fn boot_info(cell: &BootInfoCell) -> (r: &BootInfo)
    requires
        cell.recorded() is Some,
    ensures
        *r == cell.recorded()->0,
{
    match &cell.value {
        Some(info) => info,
        None => vstd::pervasive::unreached(),
    }
}

/// Early boot entry, reached from the loader with the device-tree blob
/// address in the first argument register: record the boot facts, zero the
/// uninitialized-data segment, and return with both established, after
/// which the runtime transfers control — without returning — to the single
/// architecture-independent kernel entry point.  When this returns, and so
/// before the kernel entry begins, every byte of the segment reads zero.
pub fn boot_entry(cell: &mut BootInfoCell, dtb_addr: usize, bss: &mut Vec<u8>)
    requires
        old(cell).recorded() is None,
    ensures
        final(cell).recorded() == Some(BootInfo { dtb_addr }),
        final(bss)@.len() == old(bss)@.len(),
        forall|i: int| 0 <= i < final(bss)@.len() ==> final(bss)@[i] == 0,
{
    init_boot_info(cell, dtb_addr);
    crate::zero_bss(bss);
}

} // verus!
