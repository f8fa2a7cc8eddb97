//! The write-once boot-time record, exercised through the real one-time
//! cell.

use kernel::boot_time::BootTimeCell;
use kernel::boot_time::boot_time_seconds;
use kernel::boot_time::init_boot_time;

#[test]
fn boot_time_is_empty_then_holds_the_recorded_value() {
    let mut cell = BootTimeCell::new();
    assert_eq!(boot_time_seconds(&cell), None);
    init_boot_time(&mut cell, 1_700_000_000);
    assert_eq!(boot_time_seconds(&cell), Some(1_700_000_000));
}

#[test]
fn kernel_init_records_the_boot_time() {
    let mut cell = BootTimeCell::new();
    kernel::init(&mut cell, 123);
    assert_eq!(boot_time_seconds(&cell), Some(123));
}
