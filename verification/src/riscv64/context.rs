//! Task context and the register-level context switch for RISC-V.
//!
//! The switch stores the live register file into the outgoing context
//! record, loads the incoming one, and installs the incoming
//! address-translation root (with a fence) if it differs from the active
//! one.  On hardware it never returns to its caller: control resumes
//! wherever the incoming context last suspended.

use vstd::prelude::*;

use super::Riscv64;

verus! {

/// The general-purpose registers the context switch saves and restores:
/// the return address `ra` (the resume address), the stack pointer, the
/// callee-saved registers `s0`–`s11`, and the first-argument register
/// `a0`, which carries a fresh task's argument to its entry point.
#[derive(Debug, Clone, Copy, PartialEq, Eq, Structural)]
pub struct CpuRegisters {
    pub ra: u64,
    pub sp: u64,
    pub s0: u64,
    pub s1: u64,
    pub s2: u64,
    pub s3: u64,
    pub s4: u64,
    pub s5: u64,
    pub s6: u64,
    pub s7: u64,
    pub s8: u64,
    pub s9: u64,
    pub s10: u64,
    pub s11: u64,
    pub a0: u64,
}

/// Suspended execution state of one task: the saved register file plus the
/// task's address-translation root.  At most one hardware thread may be
/// saving into or loading from a given context at any instant.
#[derive(Debug, Clone, Copy, PartialEq, Eq, Structural)]
pub struct TaskContext {
    pub ra: u64,
    pub sp: u64,
    pub s0: u64,
    pub s1: u64,
    pub s2: u64,
    pub s3: u64,
    pub s4: u64,
    pub s5: u64,
    pub s6: u64,
    pub s7: u64,
    pub s8: u64,
    pub s9: u64,
    pub s10: u64,
    pub s11: u64,
    pub a0: u64,
    /// Address-translation root of the task.
    pub satp: u64,
}

impl Default for TaskContext {
    /// An all-zero context.
    fn default() -> (r: Self)
        ensures
            r == zero_context(),
    {
        TaskContext {
            ra: 0,
            sp: 0,
            s0: 0,
            s1: 0,
            s2: 0,
            s3: 0,
            s4: 0,
            s5: 0,
            s6: 0,
            s7: 0,
            s8: 0,
            s9: 0,
            s10: 0,
            s11: 0,
            a0: 0,
            satp: 0,
        }
    }
}

/// The context whose every field is zero.
pub open spec fn zero_context() -> TaskContext {
    TaskContext {
        ra: 0,
        sp: 0,
        s0: 0,
        s1: 0,
        s2: 0,
        s3: 0,
        s4: 0,
        s5: 0,
        s6: 0,
        s7: 0,
        s8: 0,
        s9: 0,
        s10: 0,
        s11: 0,
        a0: 0,
        satp: 0,
    }
}

/// The context record produced by saving the live register file of `cpu`
/// into `prev`.  The switch does not store the active translation root, so
/// the record keeps the root it already held.
pub open spec fn save_context_spec(cpu: Riscv64, prev: TaskContext) -> TaskContext {
    TaskContext {
        ra: cpu.regs.ra,
        sp: cpu.regs.sp,
        s0: cpu.regs.s0,
        s1: cpu.regs.s1,
        s2: cpu.regs.s2,
        s3: cpu.regs.s3,
        s4: cpu.regs.s4,
        s5: cpu.regs.s5,
        s6: cpu.regs.s6,
        s7: cpu.regs.s7,
        s8: cpu.regs.s8,
        s9: cpu.regs.s9,
        s10: cpu.regs.s10,
        s11: cpu.regs.s11,
        a0: cpu.regs.a0,
        satp: prev.satp,
    }
}

/// The register file loaded from a context record.
pub open spec fn load_regs_spec(ctx: TaskContext) -> CpuRegisters {
    CpuRegisters {
        ra: ctx.ra,
        sp: ctx.sp,
        s0: ctx.s0,
        s1: ctx.s1,
        s2: ctx.s2,
        s3: ctx.s3,
        s4: ctx.s4,
        s5: ctx.s5,
        s6: ctx.s6,
        s7: ctx.s7,
        s8: ctx.s8,
        s9: ctx.s9,
        s10: ctx.s10,
        s11: ctx.s11,
        a0: ctx.a0,
    }
}

/// The hart state after loading context `to`: the register file comes from
/// `to`, and if `to`'s translation root differs from the active one it is
/// installed and the translation cache fenced.
pub open spec fn switch_cpu_spec(cpu: Riscv64, to: TaskContext) -> Riscv64 {
    if to.satp != cpu.satp {
        Riscv64 {
            regs: load_regs_spec(to),
            satp: to.satp,
            tlb_flushes: (cpu.tlb_flushes + 1) as u64,
        }
    } else {
        Riscv64 { regs: load_regs_spec(to), ..cpu }
    }
}

/// Switch from one task context to another.  Must run with interrupts
/// disabled on the executing hart.  On hardware this operation does not
/// return to its call site: execution resumes wherever `to` last
/// suspended.
pub fn switch_context(cpu: &mut Riscv64, from: &mut TaskContext, to: &TaskContext)
    requires
        old(cpu).tlb_flushes < u64::MAX,
    ensures
        *final(from) == save_context_spec(*old(cpu), *old(from)),
        *final(cpu) == switch_cpu_spec(*old(cpu), *to),
{
    from.ra = cpu.regs.ra;
    from.sp = cpu.regs.sp;
    from.s0 = cpu.regs.s0;
    from.s1 = cpu.regs.s1;
    from.s2 = cpu.regs.s2;
    from.s3 = cpu.regs.s3;
    from.s4 = cpu.regs.s4;
    from.s5 = cpu.regs.s5;
    from.s6 = cpu.regs.s6;
    from.s7 = cpu.regs.s7;
    from.s8 = cpu.regs.s8;
    from.s9 = cpu.regs.s9;
    from.s10 = cpu.regs.s10;
    from.s11 = cpu.regs.s11;
    from.a0 = cpu.regs.a0;
    cpu.regs = CpuRegisters {
        ra: to.ra,
        sp: to.sp,
        s0: to.s0,
        s1: to.s1,
        s2: to.s2,
        s3: to.s3,
        s4: to.s4,
        s5: to.s5,
        s6: to.s6,
        s7: to.s7,
        s8: to.s8,
        s9: to.s9,
        s10: to.s10,
        s11: to.s11,
        a0: to.a0,
    };
    if to.satp != cpu.satp {
        cpu.satp = to.satp;
        cpu.tlb_flushes = cpu.tlb_flushes + 1;
    }
}

/// Initialize a context for a task that has not yet run: the stack pointer
/// is `stack_top`, the resume address (return-address register) is
/// `entry_point`, and `arg` lands in the first-argument register when the
/// context is first resumed.
pub fn init_task_context(stack_top: usize, entry_point: usize, arg: usize) -> (r: TaskContext)
    ensures
        r == (TaskContext {
            sp: stack_top as u64,
            ra: entry_point as u64,
            a0: arg as u64,
            ..zero_context()
        }),
{
    let mut context = TaskContext::default();
    context.sp = stack_top as u64;
    context.ra = entry_point as u64;
    context.a0 = arg as u64;
    context
}

/// Switching from context A to B and then back from B to A, with no
/// intervening mutation, restores the hart's register file and translation
/// root exactly.  The hypothesis `a.satp == cpu.satp` says that A is the
/// task currently running on `cpu`.
pub proof fn lemma_switch_round_trip(cpu: Riscv64, a: TaskContext, b: TaskContext)
    requires
        a.satp == cpu.satp,
    ensures
        ({
            let cpu1 = switch_cpu_spec(cpu, b);
            let a1 = save_context_spec(cpu, a);
            let cpu2 = switch_cpu_spec(cpu1, a1);
            cpu2.regs == cpu.regs && cpu2.satp == cpu.satp
        }),
{
}

} // verus!
