//! Task context and the register-level context switch.
//!
//! On hardware the switch is a short instruction sequence that stores the
//! live register file into the outgoing context record, loads the incoming
//! one, and installs the incoming address-space root if it differs from the
//! active one.  It never returns to its caller in the conventional sense:
//! control resumes wherever the incoming context last suspended.  The model
//! states the switch as a transition on the [`Aarch64`] hardware-thread
//! state; its contract is exactly the register movement the instruction
//! sequence performs.

use vstd::prelude::*;

use super::Aarch64;
use super::interrupts_enabled;

verus! {

/// The general-purpose registers the context switch saves and restores:
/// the callee-saved registers `x19`–`x28`, the frame pointer `x29`, the
/// link register `x30` (the resume address), the stack pointer, and the
/// first-argument register `x0`, which carries a fresh task's argument to
/// its entry point.
#[derive(Debug, Clone, Copy, PartialEq, Eq, Structural)]
pub struct CpuRegisters {
    pub x0: u64,
    pub x19: u64,
    pub x20: u64,
    pub x21: u64,
    pub x22: u64,
    pub x23: u64,
    pub x24: u64,
    pub x25: u64,
    pub x26: u64,
    pub x27: u64,
    pub x28: u64,
    pub x29: u64,
    pub x30: u64,
    pub sp: u64,
}

/// Suspended execution state of one task: the saved register file plus the
/// task's address-space root.  At most one hardware thread may be saving
/// into or loading from a given context at any instant.
#[derive(Debug, Clone, Copy, PartialEq, Eq, Structural)]
pub struct TaskContext {
    pub x0: u64,
    pub x19: u64,
    pub x20: u64,
    pub x21: u64,
    pub x22: u64,
    pub x23: u64,
    pub x24: u64,
    pub x25: u64,
    pub x26: u64,
    pub x27: u64,
    pub x28: u64,
    pub x29: u64,
    pub x30: u64,
    pub sp: u64,
    /// Address-space root (translation-table base) of the task.
    pub ttbr0: u64,
}

impl Default for TaskContext {
    /// An all-zero context.
    fn default() -> (r: Self)
        ensures
            r == zero_context(),
    {
        TaskContext {
            x0: 0,
            x19: 0,
            x20: 0,
            x21: 0,
            x22: 0,
            x23: 0,
            x24: 0,
            x25: 0,
            x26: 0,
            x27: 0,
            x28: 0,
            x29: 0,
            x30: 0,
            sp: 0,
            ttbr0: 0,
        }
    }
}

/// The context whose every field is zero.
pub open spec fn zero_context() -> TaskContext {
    TaskContext {
        x0: 0,
        x19: 0,
        x20: 0,
        x21: 0,
        x22: 0,
        x23: 0,
        x24: 0,
        x25: 0,
        x26: 0,
        x27: 0,
        x28: 0,
        x29: 0,
        x30: 0,
        sp: 0,
        ttbr0: 0,
    }
}

/// The context record produced by saving the live register file of `cpu`
/// into `prev`.  The switch does not store the active address-space root,
/// so the record keeps the root it already held.
pub open spec fn save_context_spec(cpu: Aarch64, prev: TaskContext) -> TaskContext {
    TaskContext {
        x0: cpu.regs.x0,
        x19: cpu.regs.x19,
        x20: cpu.regs.x20,
        x21: cpu.regs.x21,
        x22: cpu.regs.x22,
        x23: cpu.regs.x23,
        x24: cpu.regs.x24,
        x25: cpu.regs.x25,
        x26: cpu.regs.x26,
        x27: cpu.regs.x27,
        x28: cpu.regs.x28,
        x29: cpu.regs.x29,
        x30: cpu.regs.x30,
        sp: cpu.regs.sp,
        ttbr0: prev.ttbr0,
    }
}

/// The register file loaded from a context record.
pub open spec fn load_regs_spec(ctx: TaskContext) -> CpuRegisters {
    CpuRegisters {
        x0: ctx.x0,
        x19: ctx.x19,
        x20: ctx.x20,
        x21: ctx.x21,
        x22: ctx.x22,
        x23: ctx.x23,
        x24: ctx.x24,
        x25: ctx.x25,
        x26: ctx.x26,
        x27: ctx.x27,
        x28: ctx.x28,
        x29: ctx.x29,
        x30: ctx.x30,
        sp: ctx.sp,
    }
}

/// The hardware-thread state after loading context `to`: the register file
/// comes from `to`, and if `to`'s address-space root differs from the active
/// one it is installed and the whole translation cache is invalidated.
pub open spec fn switch_cpu_spec(cpu: Aarch64, to: TaskContext) -> Aarch64 {
    if to.ttbr0 != cpu.ttbr0_el1 {
        Aarch64 {
            regs: load_regs_spec(to),
            ttbr0_el1: to.ttbr0,
            tlb_invalidations: (cpu.tlb_invalidations + 1) as u64,
            ..cpu
        }
    } else {
        Aarch64 { regs: load_regs_spec(to), ..cpu }
    }
}

/// Switch from one task context to another.
///
/// Saves the live register file into `from`, loads the register file of
/// `to`, and installs `to`'s address-space root (invalidating the
/// translation cache) when it differs from the active one.  Must run with
/// interrupts disabled, so no trap can observe a half-updated register set.
///
/// On hardware this operation does not return to its call site: execution
/// resumes wherever `to` last suspended, and the saved `from` record is what
/// a later switch back resumes.  The contract describes the complete state
/// transition the instruction sequence performs.
pub fn switch_context(cpu: &mut Aarch64, from: &mut TaskContext, to: &TaskContext)
    requires
        !interrupts_enabled(*old(cpu)),
        old(cpu).tlb_invalidations < u64::MAX,
    ensures
        *final(from) == save_context_spec(*old(cpu), *old(from)),
        *final(cpu) == switch_cpu_spec(*old(cpu), *to),
{
    from.x0 = cpu.regs.x0;
    from.x19 = cpu.regs.x19;
    from.x20 = cpu.regs.x20;
    from.x21 = cpu.regs.x21;
    from.x22 = cpu.regs.x22;
    from.x23 = cpu.regs.x23;
    from.x24 = cpu.regs.x24;
    from.x25 = cpu.regs.x25;
    from.x26 = cpu.regs.x26;
    from.x27 = cpu.regs.x27;
    from.x28 = cpu.regs.x28;
    from.x29 = cpu.regs.x29;
    from.x30 = cpu.regs.x30;
    from.sp = cpu.regs.sp;
    cpu.regs = CpuRegisters {
        x0: to.x0,
        x19: to.x19,
        x20: to.x20,
        x21: to.x21,
        x22: to.x22,
        x23: to.x23,
        x24: to.x24,
        x25: to.x25,
        x26: to.x26,
        x27: to.x27,
        x28: to.x28,
        x29: to.x29,
        x30: to.x30,
        sp: to.sp,
    };
    if to.ttbr0 != cpu.ttbr0_el1 {
        cpu.ttbr0_el1 = to.ttbr0;
        cpu.tlb_invalidations = cpu.tlb_invalidations + 1;
    }
}

/// Initialize a context for a task that has not yet run: the stack pointer
/// is `stack_top`, the resume address (link register) is `entry_point`, and
/// `arg` lands in the first-argument register when the context is first
/// resumed.
pub fn init_task_context(stack_top: usize, entry_point: usize, arg: usize) -> (r: TaskContext)
    ensures
        r == (TaskContext {
            sp: stack_top as u64,
            x30: entry_point as u64,
            x0: arg as u64,
            ..zero_context()
        }),
{
    let mut context = TaskContext::default();
    context.sp = stack_top as u64;
    context.x30 = entry_point as u64;
    context.x0 = arg as u64;
    context
}

/// Switching from context A to B and then back from B to A, with no
/// intervening mutation, restores the hardware thread's register file and
/// address-space root exactly.  The hypothesis `a.ttbr0 == cpu.ttbr0_el1`
/// says that A is the task currently running on `cpu`: its recorded
/// address-space root is the active one.
pub proof fn lemma_switch_round_trip(cpu: Aarch64, a: TaskContext, b: TaskContext)
    requires
        a.ttbr0 == cpu.ttbr0_el1,
    ensures
        ({
            let cpu1 = switch_cpu_spec(cpu, b);
            let a1 = save_context_spec(cpu, a);
            let cpu2 = switch_cpu_spec(cpu1, a1);
            cpu2.regs == cpu.regs && cpu2.ttbr0_el1 == cpu.ttbr0_el1
        }),
{
}

} // verus!
