//! Trap classification and dispatch.
//!
//! A hardware trap jumps to one slot of the vector table; the handler reads
//! the syndrome registers and classifies the trap.  A syscall is routed to
//! the syscall-dispatch collaborator; aborts and unclassified exceptions are
//! fatal and must not resume, since resuming would re-trigger the same
//! fault.

use vstd::prelude::*;

use super::Aarch64;
use super::syscall::SyscallRequest;
use super::syscall::request_of;

verus! {

/// Exception class: supervisor call from 64-bit state (a syscall).
pub const EC_SVC64: u64 = 0x15;

/// Exception class: instruction abort from a lower privilege level.
pub const EC_INSTRUCTION_ABORT_LOWER: u64 = 0x20;

/// Exception class: instruction abort from the current privilege level.
pub const EC_INSTRUCTION_ABORT_SAME: u64 = 0x21;

/// Exception class: data abort from a lower privilege level.
pub const EC_DATA_ABORT_LOWER: u64 = 0x24;

/// Exception class: data abort from the current privilege level.
pub const EC_DATA_ABORT_SAME: u64 = 0x25;

/// Syndrome bit set when the faulting access was a write.
pub const ISS_WRITE_BIT: u64 = 0x40;

/// Exception vector table: one 128-byte slot per trap class — synchronous
/// exception, interrupt request, fast interrupt and system error — for each
/// of the four originating states the architecture distinguishes.  The
/// slots hold the entry instruction sequences the hardware jumps into.
pub struct ExceptionVectorTable {
    pub curr_el_sp0_sync: [u8; 128],
    pub curr_el_sp0_irq: [u8; 128],
    pub curr_el_sp0_fiq: [u8; 128],
    pub curr_el_sp0_serror: [u8; 128],
    pub curr_el_spx_sync: [u8; 128],
    pub curr_el_spx_irq: [u8; 128],
    pub curr_el_spx_fiq: [u8; 128],
    pub curr_el_spx_serror: [u8; 128],
    pub lower_el_aarch64_sync: [u8; 128],
    pub lower_el_aarch64_irq: [u8; 128],
    pub lower_el_aarch64_fiq: [u8; 128],
    pub lower_el_aarch64_serror: [u8; 128],
    pub lower_el_aarch32_sync: [u8; 128],
    pub lower_el_aarch32_irq: [u8; 128],
    pub lower_el_aarch32_fiq: [u8; 128],
    pub lower_el_aarch32_serror: [u8; 128],
}

/// Snapshot of the general registers at a trap, captured on entry and
/// restored on exit; it exists only for the duration of one trap.
#[derive(Debug, Clone, Copy, PartialEq, Eq, Structural)]
pub struct ExceptionContext {
    pub x0: u64,
    pub x1: u64,
    pub x2: u64,
    pub x3: u64,
    pub x4: u64,
    pub x5: u64,
    pub x6: u64,
    pub x7: u64,
    pub x8: u64,
    pub x9: u64,
    pub x10: u64,
    pub x11: u64,
    pub x12: u64,
    pub x13: u64,
    pub x14: u64,
    pub x15: u64,
    pub x16: u64,
    pub x17: u64,
    pub x18: u64,
    pub x19: u64,
    pub x20: u64,
    pub x21: u64,
    pub x22: u64,
    pub x23: u64,
    pub x24: u64,
    pub x25: u64,
    pub x26: u64,
    pub x27: u64,
    pub x28: u64,
    pub x29: u64,
    pub x30: u64,
    /// Trapping instruction pointer.
    pub elr: u64,
    /// Saved program status.
    pub spsr: u64,
}

/// Why a trap cannot resume.
#[derive(Debug, Clone, Copy, PartialEq, Eq, Structural)]
pub enum FatalCause {
    /// Instruction abort: the faulting instruction pointer and address.
    InstructionAbort { elr: u64, far: u64 },
    /// Data abort: fault recovery is an external collaborator's policy, so
    /// this layer escalates every data abort.
    DataAbort { elr: u64, far: u64, is_write: bool },
    /// An exception class this layer does not recognise; resuming would
    /// re-trigger it.
    Unclassified { ec: u64, iss: u64, elr: u64 },
    /// Asynchronous system error.
    SystemError,
}

/// The outcome of classifying a synchronous trap.
#[derive(Debug, Clone, Copy, PartialEq, Eq, Structural)]
pub enum SyncDisposition {
    /// The trap is a syscall: invoke the dispatch collaborator with the
    /// decoded request, then complete via the syscall module.
    Syscall(SyscallRequest),
    /// The trap must not resume.
    Fatal(FatalCause),
}

/// Whether a trap may resume.
#[derive(Debug, Clone, Copy, PartialEq, Eq, Structural)]
pub enum TrapSeverity {
    /// Logged and ignored; execution continues.
    Advisory,
    /// The hardware thread must halt; it must not resume.
    Fatal,
}

/// The exception-class field of the syndrome register.
pub open spec fn esr_exception_class(esr: u64) -> u64 {
    (esr >> 26) & 0x3f
}

/// The instruction-specific-syndrome field of the syndrome register.
pub open spec fn esr_iss(esr: u64) -> u64 {
    esr & 0x1FFFFFF
}

/// Classification of a synchronous trap from the syndrome registers: a
/// supervisor call is a syscall request decoded from the trap snapshot;
/// everything else is fatal.
pub open spec fn sync_disposition_spec(cpu: Aarch64, ctx: ExceptionContext) -> SyncDisposition {
    let ec = esr_exception_class(cpu.esr_el1);
    let iss = esr_iss(cpu.esr_el1);
    if ec == EC_SVC64 {
        SyncDisposition::Syscall(request_of(ctx))
    } else if ec == EC_INSTRUCTION_ABORT_LOWER || ec == EC_INSTRUCTION_ABORT_SAME {
        SyncDisposition::Fatal(
            FatalCause::InstructionAbort { elr: cpu.elr_el1, far: cpu.far_el1 },
        )
    } else if ec == EC_DATA_ABORT_LOWER || ec == EC_DATA_ABORT_SAME {
        SyncDisposition::Fatal(
            FatalCause::DataAbort {
                elr: cpu.elr_el1,
                far: cpu.far_el1,
                is_write: iss & ISS_WRITE_BIT != 0,
            },
        )
    } else {
        SyncDisposition::Fatal(FatalCause::Unclassified { ec, iss, elr: cpu.elr_el1 })
    }
}

/// Install the trap-vector base register.  Until this has run, no trap can
/// be taken safely.
pub fn init_exception_vector(cpu: &mut Aarch64, vector_base: u64)
    ensures
        (*final(cpu) == Aarch64 { vbar_el1: vector_base, ..*old(cpu) }),
{
    cpu.vbar_el1 = vector_base;
}

/// Classify a synchronous trap by reading the syndrome registers.
///
/// The caller acts on the disposition: it invokes the syscall-dispatch
/// collaborator for a syscall, and halts — emitting the diagnostic carried
/// in the cause — for a fatal trap.
pub fn handle_sync_exception(cpu: &Aarch64, ctx: &ExceptionContext) -> (d: SyncDisposition)
    ensures
        d == sync_disposition_spec(*cpu, *ctx),
        esr_exception_class(cpu.esr_el1) == EC_SVC64 ==> d == SyncDisposition::Syscall(
            request_of(*ctx),
        ),
{
    let esr = cpu.esr_el1;
    let elr = cpu.elr_el1;
    let far = cpu.far_el1;
    let ec = (esr >> 26) & 0x3f;
    let iss = esr & 0x1FFFFFF;
    if ec == EC_SVC64 {
        SyncDisposition::Syscall(super::syscall::decode_syscall(ctx))
    } else if ec == EC_INSTRUCTION_ABORT_LOWER || ec == EC_INSTRUCTION_ABORT_SAME {
        SyncDisposition::Fatal(FatalCause::InstructionAbort { elr, far })
    } else if ec == EC_DATA_ABORT_LOWER || ec == EC_DATA_ABORT_SAME {
        SyncDisposition::Fatal(handle_data_abort(elr, far, iss))
    } else {
        SyncDisposition::Fatal(FatalCause::Unclassified { ec, iss, elr })
    }
}

/// Decode a data abort: the faulting address and whether the access was a
/// write.  Fault recovery is unimplemented at this layer, so the abort is
/// fatal and carries its diagnostic.
pub fn handle_data_abort(elr: u64, far: u64, iss: u64) -> (c: FatalCause)
    ensures
        c == (FatalCause::DataAbort { elr, far, is_write: iss & ISS_WRITE_BIT != 0 }),
{
    let is_write = iss & ISS_WRITE_BIT != 0;
    FatalCause::DataAbort { elr, far, is_write }
}

/// Handle an interrupt request: forwarded to the interrupt controller
/// module.
pub fn handle_irq(cpu: &mut Aarch64, hook: &mut super::interrupts::RescheduleHook)
    requires
        old(cpu).cntvct_el0 + old(cpu).cntfrq_el0 / 100 <= u64::MAX,
        old(hook).pending < u64::MAX,
    ensures
        *final(cpu) == super::interrupts::timer_tick_cpu_spec(*old(cpu)),
        *final(hook) == super::interrupts::timer_tick_hook_spec(*old(hook)),
{
    super::interrupts::handle_irq(cpu, hook);
}

/// A fast interrupt: this layer installs no fast-interrupt source, so the
/// event is logged by the runtime and execution continues.
pub fn handle_fiq() -> (s: TrapSeverity)
    ensures
        s == TrapSeverity::Advisory,
{
    TrapSeverity::Advisory
}

/// An asynchronous system error is always fatal: the hardware thread must
/// not resume.
pub fn handle_serror() -> (s: TrapSeverity)
    ensures
        s == TrapSeverity::Fatal,
{
    TrapSeverity::Fatal
}

} // verus!
