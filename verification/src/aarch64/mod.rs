//! The 64-bit ARM architecture.
//!
//! The privileged machine state this layer manipulates — the vector base,
//! the interrupt mask, the translation-table bases, the trap syndrome
//! registers and the generic timer — lives behind `msr`/`mrs` instructions
//! on real hardware.  Here it is modelled as the explicit [`Aarch64`] record
//! of one hardware thread, and every operation is a verified transition on
//! that record; the per-target runtime maps each field access to the
//! corresponding system-register instruction.

use vstd::prelude::*;

pub mod boot;
pub mod context;
pub mod exceptions;
pub mod interrupts;
pub mod paging;
pub mod shutdown;
pub mod syscall;

use context::CpuRegisters;

verus! {

/// DAIF bit masking ordinary interrupt requests.
pub const DAIF_IRQ_MASK: u64 = 0x80;

/// The privileged state of one 64-bit ARM hardware thread.
///
/// Exactly one hardware thread owns a value of this type; the contracts on
/// the operations below describe the register side effects the corresponding
/// instruction sequences have on it.
#[derive(Debug, Clone, Copy, PartialEq, Eq, Structural)]
pub struct Aarch64 {
    /// Vector base address register: where the trap vector table lives.
    pub vbar_el1: u64,
    /// Interrupt mask bits; bit 7 masks ordinary interrupt requests.
    pub daif: u64,
    /// Translation-table base for the low ("user") half of the address space.
    pub ttbr0_el1: u64,
    /// Translation-table base for the high ("kernel") half of the address space.
    pub ttbr1_el1: u64,
    /// Exception syndrome register: cause of the latest synchronous trap.
    pub esr_el1: u64,
    /// Exception link register: instruction pointer to resume at after the trap.
    pub elr_el1: u64,
    /// Fault address register: faulting address of the latest abort.
    pub far_el1: u64,
    /// Saved program status of the interrupted execution.
    pub spsr_el1: u64,
    /// Counter frequency in ticks per second.
    pub cntfrq_el0: u64,
    /// Current counter value.
    pub cntvct_el0: u64,
    /// Timer comparator: an interrupt fires when the counter reaches it.
    pub cntp_cval_el0: u64,
    /// Timer control: bit 0 enables the timer.
    pub cntp_ctl_el0: u64,
    /// The general-purpose registers a context switch saves and restores.
    pub regs: CpuRegisters,
    /// How many whole-address-space translation-cache invalidations ran.
    pub tlb_invalidations: u64,
    /// How many single-page translation-cache invalidations ran.
    pub tlb_page_invalidations: u64,
    /// Page number handed to the latest single-page invalidation.
    pub last_page_invalidated: u64,
}

impl Aarch64 {
    /// Install the trap-vector base.  Must run before any trap can occur.
    pub fn early_init(&mut self, vector_base: u64)
        ensures
            (*final(self) == Aarch64 { vbar_el1: vector_base, ..*old(self) }),
    {
        exceptions::init_exception_vector(self, vector_base);
    }

    /// Configure paging control, the interrupt controller and the syscall
    /// entry.  Runs once, after `early_init`.
    pub fn init(&mut self)
        ensures
            *final(self) == *old(self),
    {
        paging::init();
        interrupts::init();
        syscall::init();
    }

    /// Unmask ordinary interrupt requests on this hardware thread.
    /// Not nesting-safe: callers wanting nested disable/enable must
    /// save and restore the prior state themselves.
    pub fn enable_interrupts(&mut self)
        ensures
            (*final(self) == Aarch64 { daif: old(self).daif & !DAIF_IRQ_MASK, ..*old(self) }),
            interrupts_enabled(*final(self)),
    {
        proof {
            lemma_irq_mask_bit(self.daif);
        }
        self.daif = self.daif & !DAIF_IRQ_MASK;
    }

    /// Mask ordinary interrupt requests on this hardware thread.
    pub fn disable_interrupts(&mut self)
        ensures
            (*final(self) == Aarch64 { daif: old(self).daif | DAIF_IRQ_MASK, ..*old(self) }),
            !interrupts_enabled(*final(self)),
    {
        proof {
            lemma_irq_mask_bit(self.daif);
        }
        self.daif = self.daif | DAIF_IRQ_MASK;
    }

    /// Query whether ordinary interrupt requests are unmasked.
    pub fn are_interrupts_enabled(&self) -> (r: bool)
        ensures
            r == interrupts_enabled(*self),
    {
        self.daif & DAIF_IRQ_MASK == 0
    }

    /// Shut the system down through the platform firmware; on hardware
    /// this never returns.  The returned sequence is everything the
    /// hardware thread does from here on.
    pub fn shutdown() -> (s: shutdown::PowerSequence)
        ensures
            s.stage == shutdown::PowerStage::Request(shutdown::PowerRequest::Off),
    {
        shutdown::shutdown()
    }

    /// Reboot the system through the platform firmware; on hardware this
    /// never returns.
    pub fn reboot() -> (s: shutdown::PowerSequence)
        ensures
            s.stage == shutdown::PowerStage::Request(shutdown::PowerRequest::Reset),
    {
        shutdown::reboot()
    }
}

/// True when the interrupt-request mask bit is clear.
pub open spec fn interrupts_enabled(cpu: Aarch64) -> bool {
    cpu.daif & DAIF_IRQ_MASK == 0
}

/// Setting or clearing the interrupt-request mask bit is read back exactly.
proof fn lemma_irq_mask_bit(daif: u64)
    ensures
        (daif & !0x80u64) & 0x80u64 == 0,
        (daif | 0x80u64) & 0x80u64 != 0,
{
    assert((daif & !0x80u64) & 0x80u64 == 0 && (daif | 0x80u64) & 0x80u64 != 0) by (bit_vector);
}

} // verus!
