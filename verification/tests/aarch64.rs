//! Behaviour of the 64-bit ARM model: page-table entries, interrupt
//! masking, context switch, trap dispatch, timer and power control.

use kernel::aarch64::Aarch64;
use kernel::aarch64::boot::BootInfoCell;
use kernel::aarch64::boot::boot_entry;
use kernel::aarch64::boot::boot_info;
use kernel::aarch64::context::CpuRegisters;
use kernel::aarch64::context::TaskContext;
use kernel::aarch64::context::init_task_context;
use kernel::aarch64::context::switch_context;
use kernel::aarch64::exceptions::FatalCause;
use kernel::aarch64::exceptions::SyncDisposition;
use kernel::aarch64::exceptions::TrapSeverity;
use kernel::aarch64::exceptions::handle_fiq;
use kernel::aarch64::exceptions::handle_serror;
use kernel::aarch64::exceptions::handle_sync_exception;
use kernel::aarch64::exceptions::ExceptionContext;
use kernel::aarch64::interrupts::RescheduleHook;
use kernel::aarch64::interrupts::handle_irq;
use kernel::aarch64::interrupts::init_timer;
use kernel::aarch64::paging::PageTable;
use kernel::aarch64::paging::PageTableEntry;
use kernel::aarch64::paging::flush_tlb;
use kernel::aarch64::paging::flush_tlb_page;
use kernel::aarch64::paging::get_kernel_page_table;
use kernel::aarch64::paging::get_user_page_table;
use kernel::aarch64::paging::set_kernel_page_table;
use kernel::aarch64::paging::set_user_page_table;
use kernel::aarch64::shutdown::PowerAction;
use kernel::aarch64::shutdown::PowerSequence;
use kernel::aarch64::syscall::handle_syscall;
use kernel::aarch64::syscall::syscall_handler_with_context;

fn zero_regs() -> CpuRegisters {
    CpuRegisters {
        x0: 0,
        x19: 0,
        x20: 0,
        x21: 0,
        x22: 0,
        x23: 0,
        x24: 0,
        x25: 0,
        x26: 0,
        x27: 0,
        x28: 0,
        x29: 0,
        x30: 0,
        sp: 0,
    }
}

fn fresh_cpu() -> Aarch64 {
    Aarch64 {
        vbar_el1: 0,
        daif: 0,
        ttbr0_el1: 0,
        ttbr1_el1: 0,
        esr_el1: 0,
        elr_el1: 0,
        far_el1: 0,
        spsr_el1: 0,
        cntfrq_el0: 0,
        cntvct_el0: 0,
        cntp_cval_el0: 0,
        cntp_ctl_el0: 0,
        regs: zero_regs(),
        tlb_invalidations: 0,
        tlb_page_invalidations: 0,
        last_page_invalidated: 0,
    }
}

fn zero_ctx() -> ExceptionContext {
    ExceptionContext {
        x0: 0,
        x1: 0,
        x2: 0,
        x3: 0,
        x4: 0,
        x5: 0,
        x6: 0,
        x7: 0,
        x8: 0,
        x9: 0,
        x10: 0,
        x11: 0,
        x12: 0,
        x13: 0,
        x14: 0,
        x15: 0,
        x16: 0,
        x17: 0,
        x18: 0,
        x19: 0,
        x20: 0,
        x21: 0,
        x22: 0,
        x23: 0,
        x24: 0,
        x25: 0,
        x26: 0,
        x27: 0,
        x28: 0,
        x29: 0,
        x30: 0,
        elr: 0,
        spsr: 0,
    }
}

#[test]
fn interrupt_mask_toggles_and_reads_back() {
    let mut cpu = fresh_cpu();
    cpu.daif = 0x2c0;
    assert!(!cpu.are_interrupts_enabled());
    cpu.enable_interrupts();
    assert!(cpu.are_interrupts_enabled());
    assert_eq!(cpu.daif, 0x240);
    cpu.disable_interrupts();
    assert!(!cpu.are_interrupts_enabled());
    assert_eq!(cpu.daif, 0x2c0);
}

#[test]
fn early_init_installs_vector_base() {
    let mut cpu = fresh_cpu();
    cpu.early_init(0x8_0000);
    assert_eq!(cpu.vbar_el1, 0x8_0000);
}

#[test]
fn pte_mutators_read_back_and_preserve_other_bits() {
    // Varied pre-existing bit patterns.
    let patterns = [
        0u64,
        0xffff_ffff_ffff_ffff,
        0x5a5a_5a5a_5a5a_5a5a,
        0x0123_4567_89ab_cdef,
        0x8000_0000_0000_0001,
    ];
    for &p in &patterns {
        let mut e = PageTableEntry(p);
        e.set_valid(true);
        assert!(e.is_valid());
        assert_eq!(e.0 & !0x1, p & !0x1);
        let mut e = PageTableEntry(p);
        e.set_valid(false);
        assert!(!e.is_valid());
        assert_eq!(e.0 & !0x1, p & !0x1);

        let mut e = PageTableEntry(p);
        e.set_user_accessible(true);
        assert_ne!(e.0 & (1 << 6), 0);
        assert_eq!(e.0 & !(1 << 6), p & !(1 << 6));
        let mut e = PageTableEntry(p);
        e.set_user_accessible(false);
        assert_eq!(e.0 & (1 << 6), 0);
        assert_eq!(e.0 & !(1 << 6), p & !(1 << 6));

        let mut e = PageTableEntry(p);
        e.set_read_only(true);
        assert_ne!(e.0 & (1 << 7), 0);
        assert_eq!(e.0 & !(1 << 7), p & !(1 << 7));
        let mut e = PageTableEntry(p);
        e.set_read_only(false);
        assert_eq!(e.0 & (1 << 7), 0);
        assert_eq!(e.0 & !(1 << 7), p & !(1 << 7));

        let mut e = PageTableEntry(p);
        e.set_executable(false);
        assert_ne!(e.0 & (1 << 54), 0);
        assert_eq!(e.0 & !(1 << 54), p & !(1 << 54));
        let mut e = PageTableEntry(p);
        e.set_executable(true);
        assert_eq!(e.0 & (1 << 54), 0);
        assert_eq!(e.0 & !(1 << 54), p & !(1 << 54));

        let mut e = PageTableEntry(p);
        e.set_table();
        assert!(e.is_table());
        assert!(e.is_valid());
        assert_eq!(e.0 & !0x3, p & !0x3);

        let mut e = PageTableEntry(p);
        e.set_block();
        assert!(e.is_block());
        assert!(e.is_valid());
        assert!(!e.is_table());
        assert_eq!(e.0 & !0x3, p & !0x3);

        let mut e = PageTableEntry(p);
        e.set_page();
        assert!(e.is_page());
        assert_eq!(e.0 & !0x3, p & !0x3);

        let mut e = PageTableEntry(p);
        e.set_address(0xdead_beef_f123);
        assert_eq!(e.address(), 0xdead_beef_f000);
        assert_eq!(e.0 & !0x0000_ffff_ffff_f000, p & !0x0000_ffff_ffff_f000);
    }
}

#[test]
fn page_table_starts_empty_and_updates_one_entry() {
    let mut pt = PageTable::new();
    assert!(!pt.entry(0).is_valid());
    assert!(!pt.entry(511).is_valid());
    {
        let e = pt.entry_mut(7);
        e.set_address(0x4_2000);
        e.set_page();
    }
    assert!(pt.entry(7).is_valid());
    assert_eq!(pt.entry(7).address(), 0x4_2000);
    assert!(!pt.entry(6).is_valid());
    assert!(!pt.entry(8).is_valid());
}

#[test]
fn page_table_registers_and_flushes() {
    let mut cpu = fresh_cpu();
    set_user_page_table(&mut cpu, 0x8_1000);
    assert_eq!(get_user_page_table(&cpu), 0x8_1000);
    assert_eq!(cpu.tlb_invalidations, 1);
    set_kernel_page_table(&mut cpu, 0x8_2000);
    assert_eq!(get_kernel_page_table(&cpu), 0x8_2000);
    assert_eq!(cpu.tlb_invalidations, 2);
    flush_tlb(&mut cpu);
    assert_eq!(cpu.tlb_invalidations, 3);
    flush_tlb_page(&mut cpu, 0x1234_5000);
    assert_eq!(cpu.tlb_page_invalidations, 1);
    assert_eq!(cpu.last_page_invalidated, 0x1_2345);
}

#[test]
fn switch_round_trip_restores_state() {
    let mut cpu = fresh_cpu();
    cpu.disable_interrupts();
    cpu.regs.x19 = 19;
    cpu.regs.x29 = 29;
    cpu.regs.x30 = 0x4000;
    cpu.regs.sp = 0x9000;
    cpu.ttbr0_el1 = 0x111000;
    let before = cpu;

    // Context A is the running task: its recorded root is the active one.
    let mut a = TaskContext::default();
    a.ttbr0 = 0x111000;
    let b = init_task_context(0x7000, 0x5000, 77);

    switch_context(&mut cpu, &mut a, &b);
    assert_eq!(cpu.regs.sp, 0x7000);
    assert_eq!(cpu.regs.x30, 0x5000);
    assert_eq!(cpu.regs.x0, 77);
    // B's address-space root (zero) differs: installed and flushed.
    assert_eq!(cpu.ttbr0_el1, 0);
    assert_eq!(cpu.tlb_invalidations, 1);
    // A now holds the previously live register file.
    assert_eq!(a.x19, 19);
    assert_eq!(a.sp, 0x9000);
    assert_eq!(a.ttbr0, 0x111000);

    let mut b_saved = b;
    switch_context(&mut cpu, &mut b_saved, &a);
    assert_eq!(cpu.regs, before.regs);
    assert_eq!(cpu.ttbr0_el1, before.ttbr0_el1);
}

#[test]
fn switch_same_address_space_skips_flush() {
    let mut cpu = fresh_cpu();
    cpu.disable_interrupts();
    cpu.ttbr0_el1 = 0x222000;
    let mut from = TaskContext::default();
    from.ttbr0 = 0x222000;
    let mut to = TaskContext::default();
    to.ttbr0 = 0x222000;
    to.sp = 0x1234;
    switch_context(&mut cpu, &mut from, &to);
    assert_eq!(cpu.tlb_invalidations, 0);
    assert_eq!(cpu.ttbr0_el1, 0x222000);
    assert_eq!(cpu.regs.sp, 0x1234);
}

#[test]
fn syscall_trap_dispatches_number_and_arguments() {
    let mut cpu = fresh_cpu();
    cpu.esr_el1 = 0x15 << 26;
    cpu.elr_el1 = 0x1_0000;
    let mut ctx = zero_ctx();
    ctx.x8 = 93; // syscall number K
    ctx.x0 = 41; // first argument V
    ctx.x1 = 7;

    let d = handle_sync_exception(&cpu, &ctx);
    match d {
        SyncDisposition::Syscall(req) => {
            assert_eq!(req.number, 93);
            assert_eq!(req.arg0, 41);
            assert_eq!(req.arg1, 7);
            assert_eq!(req.arg5, 0);
        }
        _ => panic!("syscall cause must dispatch as a syscall"),
    }

    // The collaborator's result lands in x0 and the resume pointer advances
    // past the 4-byte trapping instruction.
    let r = syscall_handler_with_context(&mut cpu, &mut ctx, 0x5555);
    assert_eq!(r, 0x5555);
    assert_eq!(ctx.x0, 0x5555);
    assert_eq!(cpu.elr_el1, 0x1_0004);
}

#[test]
fn handle_syscall_advances_past_instruction() {
    let mut cpu = fresh_cpu();
    cpu.elr_el1 = 0x8888;
    handle_syscall(&mut cpu);
    assert_eq!(cpu.elr_el1, 0x888c);
}

#[test]
fn data_abort_is_fatal_with_write_intent() {
    let mut cpu = fresh_cpu();
    // Data abort from the current level, with the write bit set.
    cpu.esr_el1 = (0x25 << 26) | 0x40;
    cpu.elr_el1 = 0x2000;
    cpu.far_el1 = 0xbad0;
    let ctx = zero_ctx();
    match handle_sync_exception(&cpu, &ctx) {
        SyncDisposition::Fatal(FatalCause::DataAbort { elr, far, is_write }) => {
            assert_eq!(elr, 0x2000);
            assert_eq!(far, 0xbad0);
            assert!(is_write);
        }
        _ => panic!("data abort must be fatal"),
    }
}

#[test]
fn unclassified_trap_is_fatal() {
    let mut cpu = fresh_cpu();
    cpu.esr_el1 = 0x3f << 26;
    cpu.elr_el1 = 0x3000;
    let ctx = zero_ctx();
    match handle_sync_exception(&cpu, &ctx) {
        SyncDisposition::Fatal(FatalCause::Unclassified { ec, elr, .. }) => {
            assert_eq!(ec, 0x3f);
            assert_eq!(elr, 0x3000);
        }
        _ => panic!("unknown cause must be fatal"),
    }
}

#[test]
fn instruction_abort_is_fatal() {
    let mut cpu = fresh_cpu();
    cpu.esr_el1 = 0x20 << 26;
    cpu.elr_el1 = 0x4000;
    cpu.far_el1 = 0x5000;
    let ctx = zero_ctx();
    match handle_sync_exception(&cpu, &ctx) {
        SyncDisposition::Fatal(FatalCause::InstructionAbort { elr, far }) => {
            assert_eq!(elr, 0x4000);
            assert_eq!(far, 0x5000);
        }
        _ => panic!("instruction abort must be fatal"),
    }
}

#[test]
fn fiq_is_advisory_and_serror_fatal() {
    assert_eq!(handle_fiq(), TrapSeverity::Advisory);
    assert_eq!(handle_serror(), TrapSeverity::Fatal);
}

#[test]
fn timer_interrupts_invoke_hook_once_each_and_rearm() {
    let mut cpu = fresh_cpu();
    cpu.cntfrq_el0 = 62_500_000;
    cpu.cntvct_el0 = 1_000_000;
    init_timer(&mut cpu);
    assert_eq!(cpu.cntp_ctl_el0, 1);
    assert_eq!(cpu.cntp_cval_el0, 1_000_000 + 625_000);

    let mut hook = RescheduleHook { installed: true, pending: 0 };
    let n = 5;
    for _ in 0..n {
        handle_irq(&mut cpu, &mut hook);
        // Rearmed after every firing.
        assert_eq!(cpu.cntp_ctl_el0, 1);
        assert_eq!(cpu.cntp_cval_el0, 1_000_000 + 625_000);
    }
    assert_eq!(hook.pending, n);
}

#[test]
fn timer_interrupt_without_hook_only_rearms() {
    let mut cpu = fresh_cpu();
    cpu.cntfrq_el0 = 1000;
    cpu.cntvct_el0 = 500;
    let mut hook = RescheduleHook { installed: false, pending: 0 };
    handle_irq(&mut cpu, &mut hook);
    assert_eq!(hook.pending, 0);
    assert_eq!(cpu.cntp_ctl_el0, 1);
    assert_eq!(cpu.cntp_cval_el0, 510);
}

#[test]
fn failed_shutdown_waits_for_interrupts_forever() {
    let mut seq = Aarch64::shutdown();
    // First: the firmware power-off request.
    assert_eq!(seq.next_action(), PowerAction::FirmwareCall(0x84000008));
    // The call returned: the firmware failed.  From here on the hardware
    // thread only ever waits.
    for _ in 0..64 {
        assert_eq!(seq.next_action(), PowerAction::WaitForInterrupt);
    }
}

#[test]
fn reboot_requests_system_reset() {
    let mut seq = Aarch64::reboot();
    assert_eq!(seq.next_action(), PowerAction::FirmwareCall(0x84000009));
    assert_eq!(seq.next_action(), PowerAction::WaitForInterrupt);
}

#[test]
fn shutdown_sequence_type_matches_module_entry() {
    let mut seq: PowerSequence = kernel::aarch64::shutdown::shutdown();
    assert_eq!(seq.next_action(), PowerAction::FirmwareCall(0x84000008));
}

#[test]
fn boot_entry_zeroes_bss_and_records_facts() {
    let mut cell = BootInfoCell::new();
    assert!(!cell.is_initialized());
    let mut bss: Vec<u8> = (1..=200u8).collect();
    boot_entry(&mut cell, 0x4800_0000, &mut bss);
    assert_eq!(bss.len(), 200);
    assert!(bss.iter().all(|&b| b == 0));
    assert!(cell.is_initialized());
    assert_eq!(boot_info(&cell).dtb_addr, 0x4800_0000);
}
