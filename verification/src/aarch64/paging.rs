//! Paging control primitives: translation-cache invalidation, address-space
//! root registers, and the bit-accurate page-table-entry type for the 4 KiB
//! granule.
//!
//! Every entry mutator targets specific bits and preserves all others; the
//! contracts state both the exact bit update and the property read back.

use vstd::prelude::*;

use super::Aarch64;

verus! {

/// Mask of the physical-address field of an entry: bits 12–47, the
/// implementation address width at frame alignment.
pub const PTE_ADDR_MASK: u64 = 0x0000_FFFF_FFFF_F000;

/// Validity bit.
pub const PTE_VALID: u64 = 0x1;

/// Low two descriptor-type bits: `0b11` is a table (or, at the last level,
/// a page), `0b01` a block.
pub const PTE_TYPE_MASK: u64 = 0x3;

/// Descriptor-type bit distinguishing a table or page from a block.
pub const PTE_TABLE_BIT: u64 = 0x2;

/// Access-permission bit granting unprivileged ("user") access.
pub const PTE_USER_BIT: u64 = 0x40;

/// Access-permission bit making the mapping read-only.
pub const PTE_READ_ONLY_BIT: u64 = 0x80;

/// Unprivileged-execute-never bit: set when the mapping is not executable.
pub const PTE_UXN_BIT: u64 = 0x40000000000000;

/// Number of entries in one table for the 4 KiB granule.
pub const PAGE_TABLE_ENTRIES: usize = 512;

/// Initialize paging control.  The boot loader establishes the identity
/// mapping this kernel starts under; nothing is reconfigured here.
pub fn init() {
}

/// Invalidate the whole translation cache of this hardware thread.
pub fn flush_tlb(cpu: &mut Aarch64)
    requires
        old(cpu).tlb_invalidations < u64::MAX,
    ensures
        (*final(cpu) == Aarch64 {
            tlb_invalidations: (old(cpu).tlb_invalidations + 1) as u64,
            ..*old(cpu)
        }),
{
    cpu.tlb_invalidations = cpu.tlb_invalidations + 1;
}

/// Invalidate the translation-cache entry of one virtual page, identified
/// by its page number.
pub fn flush_tlb_page(cpu: &mut Aarch64, vaddr: usize)
    requires
        old(cpu).tlb_page_invalidations < u64::MAX,
    ensures
        (*final(cpu) == Aarch64 {
            tlb_page_invalidations: (old(cpu).tlb_page_invalidations + 1) as u64,
            last_page_invalidated: (vaddr as u64) >> 12,
            ..*old(cpu)
        }),
{
    cpu.last_page_invalidated = (vaddr as u64) >> 12;
    cpu.tlb_page_invalidations = cpu.tlb_page_invalidations + 1;
}

/// Install the low-half ("user") address-space root and invalidate the
/// translation cache.
pub fn set_user_page_table(cpu: &mut Aarch64, base: u64)
    requires
        old(cpu).tlb_invalidations < u64::MAX,
    ensures
        (*final(cpu) == Aarch64 {
            ttbr0_el1: base,
            tlb_invalidations: (old(cpu).tlb_invalidations + 1) as u64,
            ..*old(cpu)
        }),
{
    cpu.ttbr0_el1 = base;
    flush_tlb(cpu);
}

/// Install the high-half ("kernel") address-space root and invalidate the
/// translation cache.
pub fn set_kernel_page_table(cpu: &mut Aarch64, base: u64)
    requires
        old(cpu).tlb_invalidations < u64::MAX,
    ensures
        (*final(cpu) == Aarch64 {
            ttbr1_el1: base,
            tlb_invalidations: (old(cpu).tlb_invalidations + 1) as u64,
            ..*old(cpu)
        }),
{
    cpu.ttbr1_el1 = base;
    flush_tlb(cpu);
}

/// Read the active low-half address-space root.
pub fn get_user_page_table(cpu: &Aarch64) -> (r: u64)
    ensures
        r == cpu.ttbr0_el1,
{
    cpu.ttbr0_el1
}

/// Read the active high-half address-space root.
pub fn get_kernel_page_table(cpu: &Aarch64) -> (r: u64)
    ensures
        r == cpu.ttbr1_el1,
{
    cpu.ttbr1_el1
}

/// True when the entry's validity bit is set.
pub open spec fn pte_valid(bits: u64) -> bool {
    bits & PTE_VALID != 0
}

/// True when the entry is a table descriptor (or a page, which shares the
/// encoding at the last level).
pub open spec fn pte_table(bits: u64) -> bool {
    bits & PTE_TYPE_MASK == PTE_TYPE_MASK
}

/// True when the entry maps a page at the last level.
pub open spec fn pte_page(bits: u64) -> bool {
    bits & PTE_TYPE_MASK == PTE_TYPE_MASK && bits & PTE_TABLE_BIT != 0
}

/// True when the entry maps a block.
pub open spec fn pte_block(bits: u64) -> bool {
    bits & PTE_TYPE_MASK == PTE_VALID
}

/// The physical frame address held in the entry.
pub open spec fn pte_address(bits: u64) -> u64 {
    bits & PTE_ADDR_MASK
}

/// True when the entry permits unprivileged access.
pub open spec fn pte_user_accessible(bits: u64) -> bool {
    bits & PTE_USER_BIT != 0
}

/// True when the entry maps its memory read-only.
pub open spec fn pte_read_only(bits: u64) -> bool {
    bits & PTE_READ_ONLY_BIT != 0
}

/// True when the entry permits unprivileged execution (the execute-never
/// bit is clear).
pub open spec fn pte_executable(bits: u64) -> bool {
    bits & PTE_UXN_BIT == 0
}

/// One hardware-format mapping descriptor for the 4 KiB granule.
#[derive(Debug, Clone, Copy, PartialEq, Eq, Structural)]
pub struct PageTableEntry(pub u64);

impl PageTableEntry {
    /// An empty (invalid) entry.
    pub fn new() -> (r: Self)
        ensures
            r.0 == 0,
    {
        Self(0)
    }

    pub fn is_valid(&self) -> (r: bool)
        ensures
            r == pte_valid(self.0),
    {
        self.0 & PTE_VALID != 0
    }

    pub fn is_table(&self) -> (r: bool)
        ensures
            r == pte_table(self.0),
    {
        self.0 & PTE_TYPE_MASK == PTE_TYPE_MASK
    }

    pub fn is_page(&self) -> (r: bool)
        ensures
            r == pte_page(self.0),
    {
        self.0 & PTE_TYPE_MASK == PTE_TYPE_MASK && self.0 & PTE_TABLE_BIT != 0
    }

    pub fn is_block(&self) -> (r: bool)
        ensures
            r == pte_block(self.0),
    {
        self.0 & PTE_TYPE_MASK == PTE_VALID
    }

    /// The physical frame address, masked to the address width and
    /// alignment.
    pub fn address(&self) -> (r: u64)
        ensures
            r == pte_address(self.0),
    {
        self.0 & PTE_ADDR_MASK
    }

    /// Replace the address field; every bit outside the address field keeps
    /// its prior value, and reading the address back yields the masked
    /// address written.
    pub fn set_address(&mut self, addr: u64)
        ensures
            final(self).0 == (old(self).0 & !PTE_ADDR_MASK) | (addr & PTE_ADDR_MASK),
            pte_address(final(self).0) == addr & PTE_ADDR_MASK,
            final(self).0 & !PTE_ADDR_MASK == old(self).0 & !PTE_ADDR_MASK,
    {
        proof {
            lemma_masked_update(self.0, addr, PTE_ADDR_MASK);
        }
        self.0 = (self.0 & !PTE_ADDR_MASK) | (addr & PTE_ADDR_MASK);
    }

    /// Set or clear the validity bit; all other bits keep their prior
    /// values, and reading validity back yields the value written.
    pub fn set_valid(&mut self, valid: bool)
        ensures
            final(self).0 == if valid {
                old(self).0 | PTE_VALID
            } else {
                old(self).0 & !PTE_VALID
            },
            pte_valid(final(self).0) == valid,
            final(self).0 & !PTE_VALID == old(self).0 & !PTE_VALID,
    {
        proof {
            lemma_bit_update(self.0, PTE_VALID);
        }
        if valid {
            self.0 = self.0 | PTE_VALID;
        } else {
            self.0 = self.0 & !PTE_VALID;
        }
    }

    /// Mark the entry as a table descriptor; only the two type bits change.
    pub fn set_table(&mut self)
        ensures
            final(self).0 == (old(self).0 & !PTE_TYPE_MASK) | PTE_TYPE_MASK,
            pte_table(final(self).0),
            pte_valid(final(self).0),
            final(self).0 & !PTE_TYPE_MASK == old(self).0 & !PTE_TYPE_MASK,
    {
        proof {
            lemma_type_bits_update(self.0);
        }
        self.0 = (self.0 & !PTE_TYPE_MASK) | PTE_TYPE_MASK;
    }

    /// Mark the entry as a last-level page mapping; only the two type bits
    /// change.  The encoding coincides with a table descriptor.
    pub fn set_page(&mut self)
        ensures
            final(self).0 == (old(self).0 & !PTE_TYPE_MASK) | PTE_TYPE_MASK,
            pte_page(final(self).0),
            pte_valid(final(self).0),
            final(self).0 & !PTE_TYPE_MASK == old(self).0 & !PTE_TYPE_MASK,
    {
        proof {
            lemma_type_bits_update(self.0);
        }
        self.0 = (self.0 & !PTE_TYPE_MASK) | PTE_TYPE_MASK;
    }

    /// Mark the entry as a block mapping; only the two type bits change.
    pub fn set_block(&mut self)
        ensures
            final(self).0 == (old(self).0 & !PTE_TYPE_MASK) | PTE_VALID,
            pte_block(final(self).0),
            pte_valid(final(self).0),
            !pte_table(final(self).0),
            final(self).0 & !PTE_TYPE_MASK == old(self).0 & !PTE_TYPE_MASK,
    {
        proof {
            lemma_type_bits_update(self.0);
        }
        self.0 = (self.0 & !PTE_TYPE_MASK) | PTE_VALID;
    }

    /// Set or clear unprivileged access; all other bits keep their prior
    /// values, and reading the permission back yields the value written.
    pub fn set_user_accessible(&mut self, accessible: bool)
        ensures
            final(self).0 == if accessible {
                old(self).0 | PTE_USER_BIT
            } else {
                old(self).0 & !PTE_USER_BIT
            },
            pte_user_accessible(final(self).0) == accessible,
            final(self).0 & !PTE_USER_BIT == old(self).0 & !PTE_USER_BIT,
    {
        proof {
            lemma_bit_update(self.0, PTE_USER_BIT);
        }
        if accessible {
            self.0 = self.0 | PTE_USER_BIT;
        } else {
            self.0 = self.0 & !PTE_USER_BIT;
        }
    }

    /// Set or clear the read-only permission; all other bits keep their
    /// prior values, and reading the permission back yields the value
    /// written.
    pub fn set_read_only(&mut self, read_only: bool)
        ensures
            final(self).0 == if read_only {
                old(self).0 | PTE_READ_ONLY_BIT
            } else {
                old(self).0 & !PTE_READ_ONLY_BIT
            },
            pte_read_only(final(self).0) == read_only,
            final(self).0 & !PTE_READ_ONLY_BIT == old(self).0 & !PTE_READ_ONLY_BIT,
    {
        proof {
            lemma_bit_update(self.0, PTE_READ_ONLY_BIT);
        }
        if read_only {
            self.0 = self.0 | PTE_READ_ONLY_BIT;
        } else {
            self.0 = self.0 & !PTE_READ_ONLY_BIT;
        }
    }

    /// Set or clear executability; the execute-never bit is stored
    /// inverted.  All other bits keep their prior values, and reading the
    /// permission back yields the value written.
    pub fn set_executable(&mut self, executable: bool)
        ensures
            final(self).0 == if executable {
                old(self).0 & !PTE_UXN_BIT
            } else {
                old(self).0 | PTE_UXN_BIT
            },
            pte_executable(final(self).0) == executable,
            final(self).0 & !PTE_UXN_BIT == old(self).0 & !PTE_UXN_BIT,
    {
        proof {
            lemma_bit_update(self.0, PTE_UXN_BIT);
        }
        if !executable {
            self.0 = self.0 | PTE_UXN_BIT;
        } else {
            self.0 = self.0 & !PTE_UXN_BIT;
        }
    }
}

/// Setting a single bit leaves the rest untouched and reads back set;
/// clearing it leaves the rest untouched and reads back clear.
proof fn lemma_bit_update(bits: u64, mask: u64)
    requires
        mask != 0,
    ensures
        (bits | mask) & mask != 0,
        (bits | mask) & !mask == bits & !mask,
        (bits & !mask) & mask == 0,
        (bits & !mask) & !mask == bits & !mask,
{
    assert((bits | mask) & mask != 0 && (bits | mask) & !mask == bits & !mask && (bits & !mask)
        & mask == 0 && (bits & !mask) & !mask == bits & !mask) by (bit_vector)
        requires
            mask != 0,
    ;
}

/// Overwriting the bits selected by a mask reads back exactly the masked
/// new bits and leaves the unselected bits untouched.
proof fn lemma_masked_update(bits: u64, new: u64, mask: u64)
    ensures
        ((bits & !mask) | (new & mask)) & mask == new & mask,
        ((bits & !mask) | (new & mask)) & !mask == bits & !mask,
{
    assert(((bits & !mask) | (new & mask)) & mask == new & mask && ((bits & !mask) | (new
        & mask)) & !mask == bits & !mask) by (bit_vector);
}

/// Writing the two descriptor-type bits: the written type reads back and
/// every other bit keeps its value.
proof fn lemma_type_bits_update(bits: u64)
    ensures
        ((bits & !0x3u64) | 0x3u64) & 0x3u64 == 0x3u64,
        ((bits & !0x3u64) | 0x3u64) & 0x2u64 != 0,
        ((bits & !0x3u64) | 0x3u64) & 0x1u64 != 0,
        ((bits & !0x3u64) | 0x3u64) & !0x3u64 == bits & !0x3u64,
        ((bits & !0x3u64) | 0x1u64) & 0x3u64 == 0x1u64,
        ((bits & !0x3u64) | 0x1u64) & 0x1u64 != 0,
        ((bits & !0x3u64) | 0x1u64) & !0x3u64 == bits & !0x3u64,
{
    assert(((bits & !0x3u64) | 0x3u64) & 0x3u64 == 0x3u64 && ((bits & !0x3u64) | 0x3u64) & 0x2u64
        != 0 && ((bits & !0x3u64) | 0x3u64) & 0x1u64 != 0 && ((bits & !0x3u64) | 0x3u64)
        & !0x3u64 == bits & !0x3u64 && ((bits & !0x3u64) | 0x1u64) & 0x3u64 == 0x1u64 && ((bits
        & !0x3u64) | 0x1u64) & 0x1u64 != 0 && ((bits & !0x3u64) | 0x1u64) & !0x3u64 == bits
        & !0x3u64) by (bit_vector);
}

/// One hardware page-table level: a page-sized array of 512 entries.
pub struct PageTable {
    entries: Vec<PageTableEntry>,
}

impl PageTable {
    /// The entries of the table.
    pub closed spec fn view(self) -> Seq<PageTableEntry> {
        self.entries@
    }

    /// A table always holds exactly one directory's worth of entries.
    #[verifier::type_invariant]
    spec fn inv(self) -> bool {
        self.entries@.len() == PAGE_TABLE_ENTRIES
    }

    /// A table of 512 empty entries.
    pub fn new() -> (r: Self)
        ensures
            r.view().len() == PAGE_TABLE_ENTRIES,
            forall|i: int| 0 <= i < PAGE_TABLE_ENTRIES ==> r.view()[i].0 == 0,
    {
        let mut entries: Vec<PageTableEntry> = Vec::new();
        let mut i: usize = 0;
        while i < PAGE_TABLE_ENTRIES
            invariant
                i <= PAGE_TABLE_ENTRIES,
                entries@.len() == i,
                forall|j: int| 0 <= j < i ==> entries@[j].0 == 0,
            decreases PAGE_TABLE_ENTRIES - i,
        {
            entries.push(PageTableEntry(0));
            i = i + 1;
        }
        Self { entries }
    }

    /// Read the entry at `index`.
    pub fn entry(&self, index: usize) -> (r: &PageTableEntry)
        requires
            index < PAGE_TABLE_ENTRIES,
        ensures
            *r == self.view()[index as int],
    {
        proof {
            use_type_invariant(self);
        }
        &self.entries[index]
    }

    /// Borrow the entry at `index` mutably; the table afterwards holds at
    /// `index` whatever the caller leaves in the borrow, and every other
    /// entry is untouched.
    pub fn entry_mut(&mut self, index: usize) -> (r: &mut PageTableEntry)
        requires
            index < PAGE_TABLE_ENTRIES,
        ensures
            *r == old(self).view()[index as int],
            final(self).view() == old(self).view().update(index as int, *final(r)),
    {
        proof {
            use_type_invariant(&*self);
        }
        &mut self.entries[index]
    }
}

} // verus!
