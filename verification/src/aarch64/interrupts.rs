//! Interrupt and timer handling.
//!
//! Every delivered interrupt request is treated as the periodic timer (the
//! only source this layer arms).  Handling a timer interrupt clears the
//! pending timer condition, reprograms the comparator one period ahead, and
//! invokes the reschedule-notification hook bound to the current hardware
//! thread, if one is installed.  The hook only raises a pending-reschedule
//! signal; this layer never selects the next task itself.

use vstd::prelude::*;

use super::Aarch64;

verus! {

/// The timer period is one hundredth of the counter frequency: 10 ms.
pub const TIMER_PERIOD_DIVISOR: u64 = 100;

/// The reschedule-notification capability of one hardware thread.  When
/// installed, each timer interrupt raises the pending signal once; the
/// thread's regular execution path observes it and reconsiders what runs
/// next.
#[derive(Debug, Clone, Copy, PartialEq, Eq, Structural)]
pub struct RescheduleHook {
    /// Whether the scheduling collaborator installed a hook on this thread.
    pub installed: bool,
    /// How many times the hook has been invoked.
    pub pending: u64,
}

/// The comparator value one period ahead of the current counter.
pub open spec fn next_timer_deadline(cpu: Aarch64) -> int {
    cpu.cntvct_el0 + cpu.cntfrq_el0 / TIMER_PERIOD_DIVISOR
}

/// The hardware-thread state after one timer interrupt: the comparator is
/// one period ahead and the timer is enabled again.
pub open spec fn timer_tick_cpu_spec(cpu: Aarch64) -> Aarch64 {
    Aarch64 {
        cntp_cval_el0: next_timer_deadline(cpu) as u64,
        cntp_ctl_el0: 1,
        ..cpu
    }
}

/// The hook state after one timer interrupt: invoked once more when
/// installed, untouched otherwise.
pub open spec fn timer_tick_hook_spec(hook: RescheduleHook) -> RescheduleHook {
    if hook.installed {
        RescheduleHook { pending: (hook.pending + 1) as u64, ..hook }
    } else {
        hook
    }
}

/// True when the timer is armed: its control register enables it.
pub open spec fn timer_armed(cpu: Aarch64) -> bool {
    cpu.cntp_ctl_el0 == 1
}

/// Initialize the interrupt controller.  Controller-specific setup
/// (distributor and per-thread interface) is the platform's concern and is
/// an advisory, best-effort path at this layer.
pub fn init() {
}

/// Handle a delivered interrupt request: classify the source and, for the
/// timer, rearm it and notify the scheduler hook.
pub fn handle_irq(cpu: &mut Aarch64, hook: &mut RescheduleHook)
    requires
        old(cpu).cntvct_el0 + old(cpu).cntfrq_el0 / TIMER_PERIOD_DIVISOR <= u64::MAX,
        old(hook).pending < u64::MAX,
    ensures
        *final(cpu) == timer_tick_cpu_spec(*old(cpu)),
        *final(hook) == timer_tick_hook_spec(*old(hook)),
{
    if is_timer_interrupt() {
        handle_timer_interrupt(cpu, hook);
    }
}

/// Whether the delivered interrupt came from the periodic timer.  The timer
/// is the only interrupt source this layer arms, so every request is
/// attributed to it.
pub fn is_timer_interrupt() -> (r: bool)
    ensures
        r,
{
    true
}

/// Handle one timer interrupt: clear the pending condition, arm the next
/// period, and notify the reschedule hook if one is installed.
fn handle_timer_interrupt(cpu: &mut Aarch64, hook: &mut RescheduleHook)
    requires
        old(cpu).cntvct_el0 + old(cpu).cntfrq_el0 / TIMER_PERIOD_DIVISOR <= u64::MAX,
        old(hook).pending < u64::MAX,
    ensures
        *final(cpu) == timer_tick_cpu_spec(*old(cpu)),
        *final(hook) == timer_tick_hook_spec(*old(hook)),
{
    clear_timer_interrupt(cpu);
    set_next_timer(cpu);
    if hook.installed {
        hook.pending = hook.pending + 1;
    }
}

/// Clear the pending timer condition by disabling the timer.
fn clear_timer_interrupt(cpu: &mut Aarch64)
    ensures
        (*final(cpu) == Aarch64 { cntp_ctl_el0: 0, ..*old(cpu) }),
{
    cpu.cntp_ctl_el0 = 0;
}

/// Program the comparator one period ahead of the current counter and
/// enable the timer.
fn set_next_timer(cpu: &mut Aarch64)
    requires
        old(cpu).cntvct_el0 + old(cpu).cntfrq_el0 / TIMER_PERIOD_DIVISOR <= u64::MAX,
    ensures
        (*final(cpu) == Aarch64 {
            cntp_cval_el0: next_timer_deadline(*old(cpu)) as u64,
            cntp_ctl_el0: 1,
            ..*old(cpu)
        }),
{
    let interval = cpu.cntfrq_el0 / TIMER_PERIOD_DIVISOR;
    let next = cpu.cntvct_el0 + interval;
    cpu.cntp_cval_el0 = next;
    cpu.cntp_ctl_el0 = 1;
}

/// Arm the first timer period.
pub fn init_timer(cpu: &mut Aarch64)
    requires
        old(cpu).cntvct_el0 + old(cpu).cntfrq_el0 / TIMER_PERIOD_DIVISOR <= u64::MAX,
    ensures
        (*final(cpu) == Aarch64 {
            cntp_cval_el0: next_timer_deadline(*old(cpu)) as u64,
            cntp_ctl_el0: 1,
            ..*old(cpu)
        }),
        timer_armed(*final(cpu)),
{
    set_next_timer(cpu);
}

/// Signal end of interrupt to the controller.  Which register to write, and
/// when relative to interrupt deactivation, differs between controller
/// generations; the acknowledgement itself is the platform runtime's
/// concern, so this layer records nothing for it.
#[allow(unused_variables)]
pub fn end_of_interrupt(irq_id: u32) {
}

/// The machine and hook state after `n` consecutive timer interrupts.
pub open spec fn deliver_timer_interrupts(cpu: Aarch64, hook: RescheduleHook, n: nat) -> (
    Aarch64,
    RescheduleHook,
)
    decreases n,
{
    if n == 0 {
        (cpu, hook)
    } else {
        let (c, h) = deliver_timer_interrupts(cpu, hook, (n - 1) as nat);
        (timer_tick_cpu_spec(c), timer_tick_hook_spec(h))
    }
}

/// Delivering `n` consecutive timer interrupts with a hook installed
/// invokes the hook exactly `n` times, and the timer is armed again after
/// every firing (applying the statement to each prefix of the sequence):
/// no interrupt storm and no stall.
pub proof fn lemma_timer_interrupts_notify_exactly(cpu: Aarch64, hook: RescheduleHook, n: nat)
    requires
        hook.installed,
        hook.pending + n <= u64::MAX,
    ensures
        deliver_timer_interrupts(cpu, hook, n).1.pending == hook.pending + n,
        deliver_timer_interrupts(cpu, hook, n).1.installed,
        n > 0 ==> timer_armed(deliver_timer_interrupts(cpu, hook, n).0),
    decreases n,
{
    if n > 0 {
        lemma_timer_interrupts_notify_exactly(cpu, hook, (n - 1) as nat);
    }
}

} // verus!
