//! Supervisor-binary-interface calls.
//!
//! A firmware service is requested by an environment call with the
//! extension and function identifiers and up to three arguments in fixed
//! argument registers.  The call itself is a privileged instruction the
//! runtime issues; this module builds the exact call records, so every
//! identifier and argument is pinned by contract.

use vstd::prelude::*;

verus! {

/// Extension identifier of the legacy console-putchar call.
pub const SBI_CONSOLE_PUTCHAR: usize = 1;

/// Extension identifier of the system-reset extension (`"SRST"`).
pub const SBI_SRST_EXTENSION: usize = 0x53525354;

/// Reset type requesting shutdown.
pub const SBI_RESET_TYPE_SHUTDOWN: usize = 0;

/// Reset type requesting a cold reboot.
pub const SBI_RESET_TYPE_COLD_REBOOT: usize = 1;

/// One environment call into the firmware: the extension and function
/// identifiers and the argument registers, exactly as the runtime loads
/// them before the call instruction.
#[derive(Debug, Clone, Copy, PartialEq, Eq, Structural)]
pub struct SbiCall {
    pub extension: usize,
    pub function: usize,
    pub arg0: usize,
    pub arg1: usize,
    pub arg2: usize,
}

/// Build a generic firmware call record.
pub fn sbi_call(extension: usize, function: usize, arg0: usize, arg1: usize, arg2: usize) -> (c:
    SbiCall)
    ensures
        c == (SbiCall { extension, function, arg0, arg1, arg2 }),
{
    SbiCall { extension, function, arg0, arg1, arg2 }
}

/// The console call printing one character on the boot console.
pub fn sbi_console_putchar(c: u8) -> (r: SbiCall)
    ensures
        r == (SbiCall {
            extension: SBI_CONSOLE_PUTCHAR,
            function: 0,
            arg0: c as usize,
            arg1: 0,
            arg2: 0,
        }),
{
    sbi_call(SBI_CONSOLE_PUTCHAR, 0, c as usize, 0, 0)
}

/// The console calls printing a buffer on the boot console: one
/// console-putchar call per byte, in order.
pub fn console_calls(bytes: &Vec<u8>) -> (r: Vec<SbiCall>)
    ensures
        r@.len() == bytes@.len(),
        forall|i: int|
            0 <= i < r@.len() ==> r@[i] == (SbiCall {
                extension: SBI_CONSOLE_PUTCHAR,
                function: 0,
                arg0: bytes@[i] as usize,
                arg1: 0,
                arg2: 0,
            }),
{
    let mut calls: Vec<SbiCall> = Vec::new();
    let mut i: usize = 0;
    while i < bytes.len()
        invariant
            i <= bytes@.len(),
            calls@.len() == i,
            forall|j: int|
                0 <= j < i ==> calls@[j] == (SbiCall {
                    extension: SBI_CONSOLE_PUTCHAR,
                    function: 0,
                    arg0: bytes@[j] as usize,
                    arg1: 0,
                    arg2: 0,
                }),
        decreases bytes@.len() - i,
    {
        calls.push(sbi_console_putchar(bytes[i]));
        i = i + 1;
    }
    calls
}

/// The system-reset call requesting shutdown.
pub fn sbi_shutdown() -> (r: SbiCall)
    ensures
        r == (SbiCall {
            extension: SBI_SRST_EXTENSION,
            function: 0,
            arg0: SBI_RESET_TYPE_SHUTDOWN,
            arg1: 0,
            arg2: 0,
        }),
{
    sbi_call(SBI_SRST_EXTENSION, 0, SBI_RESET_TYPE_SHUTDOWN, 0, 0)
}

/// The system-reset call requesting a cold reboot.
pub fn sbi_reboot() -> (r: SbiCall)
    ensures
        r == (SbiCall {
            extension: SBI_SRST_EXTENSION,
            function: 0,
            arg0: SBI_RESET_TYPE_COLD_REBOOT,
            arg1: 0,
            arg2: 0,
        }),
{
    sbi_call(SBI_SRST_EXTENSION, 0, SBI_RESET_TYPE_COLD_REBOOT, 0, 0)
}

} // verus!
