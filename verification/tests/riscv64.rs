//! Behaviour of the RISC-V model: context switch, boot entry, firmware
//! calls and power control.

use kernel::riscv64::Riscv64;
use kernel::riscv64::boot::BootDisposition;
use kernel::riscv64::boot::BootInfoCell;
use kernel::riscv64::boot::boot_entry;
use kernel::riscv64::boot::boot_info;
use kernel::riscv64::context::CpuRegisters;
use kernel::riscv64::context::TaskContext;
use kernel::riscv64::context::init_task_context;
use kernel::riscv64::context::switch_context;
use kernel::riscv64::sbi::SbiCall;
use kernel::riscv64::sbi::console_calls;
use kernel::riscv64::sbi::sbi_call;
use kernel::riscv64::sbi::sbi_console_putchar;
use kernel::riscv64::sbi::sbi_reboot;
use kernel::riscv64::sbi::sbi_shutdown;
use kernel::riscv64::shutdown::PowerAction;
use kernel::riscv64::shutdown::reboot;
use kernel::riscv64::shutdown::shutdown;

fn zero_regs() -> CpuRegisters {
    CpuRegisters {
        ra: 0,
        sp: 0,
        s0: 0,
        s1: 0,
        s2: 0,
        s3: 0,
        s4: 0,
        s5: 0,
        s6: 0,
        s7: 0,
        s8: 0,
        s9: 0,
        s10: 0,
        s11: 0,
        a0: 0,
    }
}

fn fresh_hart() -> Riscv64 {
    Riscv64 { satp: 0, regs: zero_regs(), tlb_flushes: 0 }
}

#[test]
fn riscv_init_task_context_sets_entry_stack_and_argument() {
    let ctx = init_task_context(0xa000, 0xb000, 9);
    assert_eq!(ctx.sp, 0xa000);
    assert_eq!(ctx.ra, 0xb000);
    assert_eq!(ctx.a0, 9);
    assert_eq!(ctx.s0, 0);
    assert_eq!(ctx.satp, 0);
}

#[test]
fn riscv_switch_round_trip_restores_state() {
    let mut hart = fresh_hart();
    hart.regs.ra = 0x1111;
    hart.regs.sp = 0x2222;
    hart.regs.s5 = 55;
    hart.satp = 0x3333;
    let before = hart;

    let mut a = TaskContext::default();
    a.satp = 0x3333;
    let b = init_task_context(0x7000, 0x5000, 3);

    switch_context(&mut hart, &mut a, &b);
    assert_eq!(hart.regs.sp, 0x7000);
    assert_eq!(hart.regs.ra, 0x5000);
    assert_eq!(hart.regs.a0, 3);
    assert_eq!(hart.satp, 0);
    assert_eq!(hart.tlb_flushes, 1);
    assert_eq!(a.ra, 0x1111);
    assert_eq!(a.s5, 55);
    assert_eq!(a.satp, 0x3333);

    let mut b_saved = b;
    switch_context(&mut hart, &mut b_saved, &a);
    assert_eq!(hart.regs, before.regs);
    assert_eq!(hart.satp, before.satp);
}

#[test]
fn riscv_switch_same_address_space_skips_fence() {
    let mut hart = fresh_hart();
    hart.satp = 0x9000;
    let mut from = TaskContext::default();
    from.satp = 0x9000;
    let mut to = TaskContext::default();
    to.satp = 0x9000;
    switch_context(&mut hart, &mut from, &to);
    assert_eq!(hart.tlb_flushes, 0);
}

#[test]
fn sbi_call_records_are_exact() {
    let c = sbi_call(5, 6, 7, 8, 9);
    assert_eq!(c, SbiCall { extension: 5, function: 6, arg0: 7, arg1: 8, arg2: 9 });
    let p = sbi_console_putchar(b'A');
    assert_eq!(p.extension, 1);
    assert_eq!(p.function, 0);
    assert_eq!(p.arg0, 0x41);
    let s = sbi_shutdown();
    assert_eq!(s.extension, 0x53525354);
    assert_eq!(s.arg0, 0);
    let r = sbi_reboot();
    assert_eq!(r.extension, 0x53525354);
    assert_eq!(r.arg0, 1);
}

#[test]
fn riscv_failed_shutdown_waits_forever() {
    let mut seq = shutdown();
    match seq.next_action() {
        PowerAction::FirmwareCall(call) => {
            assert_eq!(call.extension, 0x53525354);
            assert_eq!(call.function, 0);
            assert_eq!(call.arg0, 0);
        }
        PowerAction::WaitForInterrupt => panic!("first action must be the firmware call"),
    }
    for _ in 0..64 {
        assert_eq!(seq.next_action(), PowerAction::WaitForInterrupt);
    }
}

#[test]
fn riscv_reboot_requests_cold_reboot() {
    let mut seq = reboot();
    match seq.next_action() {
        PowerAction::FirmwareCall(call) => assert_eq!(call.arg0, 1),
        PowerAction::WaitForInterrupt => panic!("first action must be the firmware call"),
    }
}

#[test]
fn riscv_primary_hart_boots_and_secondary_halts() {
    let mut cell = BootInfoCell::new();
    let mut bss: Vec<u8> = vec![7u8; 64];
    // A secondary hart halts at once and touches nothing.
    let d = boot_entry(&mut cell, 3, 0x4000_0000, 0, &mut bss);
    assert_eq!(d, BootDisposition::HaltSecondary);
    assert!(!cell.is_initialized());
    assert!(bss.iter().all(|&b| b == 7));

    // The primary hart zeroes the segment and records the facts.
    let d = boot_entry(&mut cell, 0, 0x4000_0000, 0, &mut bss);
    assert_eq!(d, BootDisposition::EnterKernel);
    assert!(bss.iter().all(|&b| b == 0));
    assert_eq!(bss.len(), 64);
    let info = boot_info(&cell);
    assert_eq!(info.hart_id, 0);
    assert_eq!(info.dtb_addr, 0x4000_0000);
}

#[test]
fn console_calls_print_each_byte_in_order() {
    let bytes: Vec<u8> = b"ok\n".to_vec();
    let calls = console_calls(&bytes);
    assert_eq!(calls.len(), 3);
    assert_eq!(calls[0].arg0, b'o' as usize);
    assert_eq!(calls[1].arg0, b'k' as usize);
    assert_eq!(calls[2].arg0, b'\n' as usize);
    assert!(calls.iter().all(|c| c.extension == 1 && c.function == 0));
}
